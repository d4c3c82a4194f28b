//! Time in clock ticks, as `embassy_time` counts them.
//!
//! An instant is a number of ticks since start-up, a duration a number of ticks
//! between two instants. The clock runs at one tick per microsecond.
use embassy_time::{Duration, Instant};
use vstd::prelude::*;

verus! {

/// Ticks in one millisecond.
pub const TICKS_PER_MILLI: u64 = 1000;

/// The whole milliseconds in `ticks`.
pub open spec fn millis(ticks: int) -> int {
    ticks / (TICKS_PER_MILLI as int)
}

/// Calls `embassy_time::Instant::duration_since` on the instants at `now` and
/// `earlier` ticks. It subtracts the tick counts and panics when `earlier` lies
/// after `now`, which the precondition rules out.
#[verifier::external_body]
fn duration_since(now: u64, earlier: u64) -> (ticks: u64)
    requires
        earlier <= now,
    ensures
        ticks == now - earlier,
{
    Instant::from_ticks(now).duration_since(Instant::from_ticks(earlier)).as_ticks()
}

/// Calls `embassy_time::Duration::as_millis`, which rounds down. With the tick
/// rate of one per microsecond there are a thousand ticks to the millisecond and
/// its intermediate product is the tick count itself, so it cannot overflow.
#[verifier::external_body]
fn duration_as_millis(ticks: u64) -> (ms: u64)
    ensures
        ms == millis(ticks as int),
{
    Duration::from_ticks(ticks).as_millis()
}

/// Calls `embassy_time::Duration::as_micros`. With the tick rate of one per
/// microsecond it returns the tick count.
#[verifier::external_body]
fn duration_as_micros(ticks: u64) -> (us: u64)
    ensures
        us == ticks,
{
    Duration::from_ticks(ticks).as_micros()
}

/// Calls `embassy_time::Instant::as_millis`, the milliseconds since start-up,
/// rounded down, at the tick rate of one per microsecond.
#[verifier::external_body]
fn instant_as_millis(ticks: u64) -> (ms: u64)
    ensures
        ms == millis(ticks as int),
{
    Instant::from_ticks(ticks).as_millis()
}

/// Whole milliseconds from the instant `earlier` to the instant `now`.
pub fn elapsed_millis(now: u64, earlier: u64) -> (ms: u64)
    requires
        earlier <= now,
    ensures
        ms == millis(now - earlier),
        ms * 1000 <= now - earlier < (ms + 1) * 1000,
{
    duration_as_millis(duration_since(now, earlier))
}

/// Whole milliseconds from start-up to the instant `now`.
pub fn uptime_millis(now: u64) -> (ms: u64)
    ensures
        ms == millis(now as int),
        ms * 1000 <= now < (ms + 1) * 1000,
{
    instant_as_millis(now)
}

/// Microseconds from start-up to the instant `now`.
pub fn uptime_micros(now: u64) -> (us: u64)
    ensures
        us == now,
{
    duration_as_micros(duration_since(now, 0))
}

/// A number of ticks lies in its own millisecond: not before it begins, and before
/// the next begins, a thousand ticks later.
pub proof fn law_millis_round_down(ticks: int)
    ensures
        millis(ticks) * 1000 <= ticks < (millis(ticks) + 1) * 1000,
{
}

/// A second has a thousand milliseconds, wherever it begins.
pub proof fn law_millis_of_a_second(ticks: int)
    ensures
        millis(ticks + 1_000_000) == millis(ticks) + 1000,
{
}

} // verus!
