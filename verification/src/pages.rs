//! The ring of pages that the user interface shows.
use vstd::prelude::*;

verus! {

/// The remainder of `a` by `n` that keeps the sign of `a`.
pub open spec fn signed_rem(a: int, n: int) -> int {
    if a >= 0 {
        a % n
    } else {
        -((-a) % n)
    }
}

/// `page` is one of the `count` pages, counted from zero.
pub open spec fn is_page(page: int, count: int) -> bool {
    0 <= page < count
}

/// The page one step forward.
pub open spec fn page_after(page: int, count: int) -> int {
    signed_rem(page + 1, count)
}

/// The page one step back.
pub open spec fn page_before(page: int, count: int) -> int {
    signed_rem(page + count - 1, count)
}

/// Steps forward, from the last page to the first.
pub fn next_page(page: i32, count: i32) -> (next: i32)
    requires
        page < i32::MAX,
        count > 0,
    ensures
        next == page_after(page as int, count as int),
        (page + 1 - next) % (count as int) == 0,
        -count < next < count,
        page >= -1 ==> next >= 0,
        page <= -1 ==> next <= 0,
        is_page(page as int, count as int) ==> is_page(next as int, count as int),
{
    proof {
        law_steps_stay_on_pages(page as int, count as int);
        law_steps_from_anywhere(page as int, count as int);
    }
    (page + 1) % count
}

/// Steps back, from the first page to the last.
pub fn previous_page(page: i32, count: i32) -> (previous: i32)
    requires
        count > 0,
        page + count <= i32::MAX,
    ensures
        previous == page_before(page as int, count as int),
        (page - 1 - previous) % (count as int) == 0,
        -count < previous < count,
        page + count >= 1 ==> previous >= 0,
        page + count <= 1 ==> previous <= 0,
        is_page(page as int, count as int) ==> is_page(previous as int, count as int),
{
    proof {
        law_steps_stay_on_pages(page as int, count as int);
        law_steps_from_anywhere(page as int, count as int);
    }
    (page + count - 1) % count
}

/// A step in either direction leads from a page to a page.
pub proof fn law_steps_stay_on_pages(page: int, count: int)
    requires
        count > 0,
    ensures
        is_page(page, count) ==> is_page(page_after(page, count), count),
        is_page(page, count) ==> is_page(page_before(page, count), count),
{
    vstd::arithmetic::div_mod::lemma_mod_bound(page + 1, count);
    vstd::arithmetic::div_mod::lemma_mod_bound(page + count - 1, count);
}

proof fn lemma_signed_rem(a: int, n: int)
    requires
        n > 0,
    ensures
        (a - signed_rem(a, n)) % n == 0,
        -n < signed_rem(a, n) < n,
        a >= 0 ==> signed_rem(a, n) >= 0,
        a <= 0 ==> signed_rem(a, n) <= 0,
{
    let m = if a >= 0 {
        a
    } else {
        -a
    };
    let q = m / n;
    vstd::arithmetic::div_mod::lemma_fundamental_div_mod(m, n);
    vstd::arithmetic::div_mod::lemma_mod_bound(m, n);
    vstd::arithmetic::div_mod::lemma_mod_multiples_basic(q, n);
    vstd::arithmetic::div_mod::lemma_mod_multiples_basic(-q, n);
    vstd::arithmetic::div_mod::lemma_small_mod(0, n as nat);
    assert(n * q == q * n) by (nonlinear_arith);
    assert((-q) * n == -(q * n)) by (nonlinear_arith);
}

/// From any page number, valid or not, a step lands on a number that differs from
/// the next, or the last, by whole rounds of the ring, and less than one round away
/// from zero, on the side of the number that was counted.
pub proof fn law_steps_from_anywhere(page: int, count: int)
    requires
        count > 0,
    ensures
        (page + 1 - page_after(page, count)) % count == 0,
        -count < page_after(page, count) < count,
        page >= -1 ==> page_after(page, count) >= 0,
        page <= -1 ==> page_after(page, count) <= 0,
        (page - 1 - page_before(page, count)) % count == 0,
        -count < page_before(page, count) < count,
        page + count >= 1 ==> page_before(page, count) >= 0,
        page + count <= 1 ==> page_before(page, count) <= 0,
{
    lemma_signed_rem(page + 1, count);
    lemma_signed_rem(page + count - 1, count);
    vstd::arithmetic::div_mod::lemma_mod_add_multiples_vanish(
        page - 1 - page_before(page, count),
        count,
    );
}

/// From a page, steps are counted around the ring: forward adds one and back
/// takes one away, modulo the number of pages.
pub proof fn law_steps_count_around(page: int, count: int)
    requires
        is_page(page, count),
    ensures
        page_after(page, count) == (page + 1) % count,
        page_before(page, count) == (page - 1) % count,
{
    vstd::arithmetic::div_mod::lemma_mod_add_multiples_vanish(page - 1, count);
}

/// A step back undoes a step forward, and a step forward a step back.
pub proof fn law_steps_undo(page: int, count: int)
    requires
        is_page(page, count),
    ensures
        page_before(page_after(page, count), count) == page,
        page_after(page_before(page, count), count) == page,
{
    law_steps_stay_on_pages(page, count);
    law_steps_count_around(page, count);
    law_steps_count_around(page_after(page, count), count);
    law_steps_count_around(page_before(page, count), count);
    vstd::arithmetic::div_mod::lemma_small_mod(page as nat, count as nat);
    lemma_shift_mod(page + 1, -1, count);
    lemma_shift_mod(page - 1, 1, count);
}

/// A shift may be taken before or after reducing modulo `count`.
pub proof fn lemma_shift_mod(a: int, shift: int, count: int)
    requires
        count > 0,
    ensures
        (a % count + shift) % count == (a + shift) % count,
{
    vstd::arithmetic::div_mod::lemma_add_mod_noop_right(shift, a, count);
}

} // verus!
