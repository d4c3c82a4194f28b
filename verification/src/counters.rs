//! Counters that start over, and what is due after every so many steps.
use vstd::prelude::*;

verus! {

/// The frame count that follows `count`; after the largest it starts over.
pub open spec fn count_after(count: u32) -> u32 {
    if count == u32::MAX {
        0
    } else {
        (count + 1) as u32
    }
}

/// The tick that follows `tick`; after the largest comes the smallest.
pub open spec fn tick_after(tick: int) -> int {
    if tick == i32::MAX {
        i32::MIN as int
    } else {
        tick + 1
    }
}

/// How many of the next `frames` frames bring the count to a multiple of `period`.
pub open spec fn due(count: u32, frames: nat, period: u32) -> nat
    decreases frames,
{
    if frames == 0 {
        0
    } else {
        let next = count_after(count);
        due(next, (frames - 1) as nat, period) + if next % period == 0 {
            1nat
        } else {
            0nat
        }
    }
}

/// A counter steps by one and starts over only after its last value.
pub proof fn law_counters_step_by_one(count: u32, tick: i32)
    ensures
        count < 0xFFFF_FFFF ==> count_after(count) == count + 1,
        count == 0xFFFF_FFFF ==> count_after(count) == 0,
        tick < 0x7FFF_FFFF ==> tick_after(tick as int) == tick + 1,
        tick == 0x7FFF_FFFF ==> tick_after(tick as int) == -0x8000_0000,
{
}

proof fn lemma_next_multiple(x: int, period: int)
    requires
        period > 0,
    ensures
        (x + 1) / period == x / period + if (x + 1) % period == 0 {
            1int
        } else {
            0int
        },
{
    let q = x / period;
    let r = x % period;
    vstd::arithmetic::div_mod::lemma_fundamental_div_mod(x, period);
    vstd::arithmetic::div_mod::lemma_mod_bound(x, period);
    assert(period * q == q * period) by (nonlinear_arith);
    assert((q + 1) * period == q * period + period) by (nonlinear_arith);
    if r + 1 == period {
        vstd::arithmetic::div_mod::lemma_fundamental_div_mod_converse(x + 1, period, q + 1, 0);
    } else {
        vstd::arithmetic::div_mod::lemma_fundamental_div_mod_converse(x + 1, period, q, r + 1);
    }
}

/// As long as the count does not start over, the frames between two counts hit as
/// many multiples as lie between them; so one of every `period` frames in a row is
/// due.
pub proof fn law_due_once_per_period(count: u32, frames: nat, period: u32)
    requires
        period > 0,
        count + frames <= u32::MAX,
    ensures
        due(count, frames, period) == (count + frames) / (period as int) - count / period,
        frames == period ==> due(count, frames, period) == 1,
    decreases frames,
{
    if frames > 0 {
        law_due_once_per_period(count_after(count), (frames - 1) as nat, period);
        lemma_next_multiple(count as int, period as int);
    }
    vstd::arithmetic::div_mod::lemma_div_plus_one(count as int, period as int);
}

} // verus!
