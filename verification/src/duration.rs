//! Arithmetic over nanosecond durations shared by both stopwatch disciplines.

use vstd::prelude::*;

verus! {

/// The sum of a sequence of nanosecond durations, as an unbounded integer.
pub open spec fn sum_ns(s: Seq<u64>) -> int
    decreases s.len(),
{
    if s.len() == 0 {
        0
    } else {
        sum_ns(s.drop_last()) + s.last()
    }
}

/// A duration held below a headroom bound: the value actually recorded when
/// only `headroom` more nanoseconds fit into the running total.
pub open spec fn capped(d: u64, headroom: u64) -> u64 {
    if d > headroom {
        headroom
    } else {
        d
    }
}

/// Appending one duration grows the sum by exactly that duration.
pub proof fn lemma_sum_push(s: Seq<u64>, x: u64)
    ensures
        sum_ns(s.push(x)) == sum_ns(s) + x,
{
    assert(s.push(x).drop_last() =~= s);
}

} // verus!
