//! Elapsed-time bookkeeping shared by the demos.
//!
//! Every timer is kept as a whole number of nanoseconds. A timer has
//! "reached" a period of `base_ns / speed` nanoseconds exactly when
//! `timer_ns * speed >= base_ns`, so no division (and no rounding) is needed.

use std::time::{Duration, Instant};
use vstd::prelude::*;

verus! {

#[verifier::external_type_specification]
#[verifier::external_body]
pub struct ExInstant(Instant);

/// Adds two nanosecond counts, sticking at `u64::MAX` instead of wrapping.
pub open spec fn add_sat(a: u64, b: u64) -> u64 {
    if a + b > u64::MAX {
        u64::MAX
    } else {
        (a + b) as u64
    }
}

/// The successor of a tick counter, wrapping to zero after `u64::MAX`.
pub open spec fn next_tick(count: u64) -> u64 {
    if count == u64::MAX {
        0
    } else {
        (count + 1) as u64
    }
}

/// Whether `timer_ns` nanoseconds are at least `base_ns / speed` nanoseconds.
/// With `speed == 0` the period is infinite and is never reached.
pub open spec fn reached(timer_ns: u64, speed: u8, base_ns: u64) -> bool {
    timer_ns * speed >= base_ns
}

/// Saturating sum of two nanosecond counts.
pub fn add_nanos(a: u64, b: u64) -> (r: u64)
    ensures
        r == add_sat(a, b),
{
    if a > u64::MAX - b {
        u64::MAX
    } else {
        a + b
    }
}

/// Increments a tick counter, wrapping around at `u64::MAX`.
pub fn bump_tick(count: u64) -> (r: u64)
    ensures
        r == next_tick(count),
{
    count.wrapping_add(1)
}

/// Decides whether a timer has run for at least `base_ns / speed` nanoseconds.
pub fn period_reached(timer_ns: u64, speed: u8, base_ns: u64) -> (r: bool)
    ensures
        r == reached(timer_ns, speed, base_ns),
{
    assert((timer_ns as u128) * (speed as u128) <= 0xffff_ffff_ffff_ffff * 0xff) by (nonlinear_arith)
        requires
            timer_ns <= 0xffff_ffff_ffff_ffff,
            speed <= 0xff,
    ;
    let product: u128 = (timer_ns as u128) * (speed as u128);
    product >= base_ns as u128
}

/// The nanosecond count reported for a measured interval: the elapsed
/// nanoseconds truncated to 64 bits, and never less than one.
pub open spec fn reported_nanos(elapsed: u128) -> u64 {
    if elapsed as u64 == 0 {
        1
    } else {
        elapsed as u64
    }
}

/// Turns a raw elapsed nanosecond count into the value a benchmark reports.
pub fn report_nanos(elapsed: u128) -> (r: u64)
    ensures
        r == reported_nanos(elapsed),
        r >= 1,
{
    let truncated: u64 = #[verifier::truncate] (elapsed as u64);
    if truncated == 0 {
        1
    } else {
        truncated
    }
}

/// Clamps a nanosecond count to 64 bits.
pub fn saturate_nanos(nanos: u128) -> (r: u64)
    ensures
        r == clamp_nanos(nanos),
{
    if nanos > u64::MAX as u128 {
        u64::MAX
    } else {
        nanos as u64
    }
}

/// Calls `Instant::now`. The value read depends on the machine clock, so
/// nothing is promised about it.
#[verifier::external_body]
pub(crate) fn instant_now() -> Instant {
    Instant::now()
}

/// Calls `Instant::elapsed`: the time since `start`. It depends on the
/// machine clock, so nothing is promised about it.
#[verifier::external_body]
pub(crate) fn instant_elapsed(start: &Instant) -> Duration {
    start.elapsed()
}

/// The whole nanoseconds in a `Duration`, as `Duration::as_nanos` returns
/// them; it depends on the duration alone.
pub uninterp spec fn spec_duration_nanos(d: Duration) -> u128;

/// A nanosecond count clamped to 64 bits.
pub open spec fn clamp_nanos(nanos: u128) -> u64 {
    if nanos > u64::MAX {
        u64::MAX
    } else {
        nanos as u64
    }
}

/// The length of a `Duration` in nanoseconds, clamped to `u64::MAX`: the
/// time a tick of `d` lets pass.
pub open spec fn duration_length(d: Duration) -> u64 {
    clamp_nanos(spec_duration_nanos(d))
}

/// Calls `Duration::as_nanos`: the whole nanoseconds in `d`, a function of
/// `d` alone, named `spec_duration_nanos`.
#[verifier::external_body]
pub(crate) fn duration_as_nanos(d: &Duration) -> (r: u128)
    ensures
        r == spec_duration_nanos(*d),
{
    d.as_nanos()
}

/// Nanoseconds since `start`, as a benchmark reports them (at least one).
pub(crate) fn nanos_since(start: &Instant) -> (r: u64)
    ensures
        r >= 1,
{
    let elapsed = instant_elapsed(start);
    report_nanos(duration_as_nanos(&elapsed))
}

/// A duration as a 64-bit nanosecond count, clamped at `u64::MAX`.
pub(crate) fn duration_nanos(d: &Duration) -> (r: u64)
    ensures
        r == duration_length(*d),
{
    saturate_nanos(duration_as_nanos(d))
}

} // verus!
