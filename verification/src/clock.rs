//! Access to the host's monotonic nanosecond clock.

use vstd::prelude::*;

verus! {

/// Relies on `time::precise_time_ns`: a reading of the host's high-resolution
/// monotonic clock, in nanoseconds since an unspecified epoch. No property of
/// the value is assumed here; callers state what holds of every possible
/// reading.
#[verifier::external_body]
fn clock_now_ns() -> u64 {
    time::precise_time_ns()
}

/// A clock reading clamped from below: never less than `floor`, so that a
/// duration measured against an earlier reading of the same clock can never
/// underflow, even if the host clock misbehaves.
pub(crate) fn now_at_least(floor: u64) -> (r: u64)
    ensures
        r >= floor,
{
    let t = clock_now_ns();
    if t >= floor {
        t
    } else {
        floor
    }
}

} // verus!
