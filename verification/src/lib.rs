//! A stopwatch with lap functionality and nanosecond resolution to time things.
//!
//! Measured times are stored and returned in nanoseconds, read from the host's
//! monotonic clock.
//!
//! Two disciplines for the stopwatch lifecycle coexist in this crate:
//!
//! - [`Stopwatch`] at the crate root checks its state at run time. An
//!   operation invoked in a state that does not support it degrades
//!   gracefully (a zero duration, a no-op); it never panics.
//! - [`stopwatch::Stopwatch`] encodes its state in the type, so that an
//!   illegal sequence of operations is rejected at compile time.

use vstd::prelude::*;

mod clock;
pub mod duration;
pub mod render;
pub mod stopwatch;

verus! {

use crate::duration::{sum_ns, capped, lemma_sum_push};

/// A stopwatch with lap functionality and nanosecond resolution.
///
/// This is the runtime-checked variant: a single mutable record whose
/// operations test whether the stopwatch is running and, where it is not,
/// return a degenerate result (a zero duration, a no-op) rather than panic.
#[derive(Clone, Debug)]
pub struct Stopwatch {
    /// A list of all lap measurements.
    laps: Vec<u64>,
    /// The start time of the currently running lap, or `None` if the
    /// stopwatch is not running.
    start_time: Option<u64>,
    /// The sum of all finished laps.
    total_time: u64,
}

impl Stopwatch {
    /// The recorded lap durations, in the order they were recorded.
    pub closed spec fn laps_view(self) -> Seq<u64> {
        self.laps@
    }

    /// The frozen total: the sum of all completed laps, excluding any time
    /// still accruing in an open lap.
    pub closed spec fn total_ns(self) -> u64 {
        self.total_time
    }

    /// Whether time is currently accruing toward the next lap.
    pub closed spec fn running(self) -> bool {
        self.start_time is Some
    }

    /// The monotonic-clock reading at which the open lap began; meaningful
    /// only while the stopwatch is running.
    pub closed spec fn start_ns(self) -> u64 {
        self.start_time->Some_0
    }

    /// The accounting invariant: the frozen total is exactly the sum of the
    /// recorded lap durations.
    pub closed spec fn wf(self) -> bool {
        self.total_time as int == sum_ns(self.laps@)
    }

    /// Initialize a new stopwatch without starting it.
    pub fn new() -> (s: Stopwatch)
        ensures
            s.laps_view() == Seq::<u64>::empty(),
            s.total_ns() == 0,
            !s.running(),
            s.wf(),
    {
        Stopwatch { laps: Vec::new(), start_time: None, total_time: 0 }
    }

    /// Initialize a new stopwatch and start it.
    pub fn start_new() -> (s: Stopwatch)
        ensures
            s.laps_view() == Seq::<u64>::empty(),
            s.total_ns() == 0,
            s.running(),
            s.spec_total_time_at(s.start_ns()) == 0,
            s.wf(),
    {
        let mut stopwatch = Stopwatch::new();
        stopwatch.start();
        stopwatch
    }

    /// Start the stopwatch at the clock reading `now`.
    ///
    /// Laps and the frozen total are preserved; any previously open lap is
    /// discarded.
    pub fn start_at(&mut self, now: u64)
        ensures
            final(self).laps_view() == old(self).laps_view(),
            final(self).total_ns() == old(self).total_ns(),
            final(self).running(),
            final(self).start_ns() == now,
            old(self).wf() ==> final(self).wf(),
    {
        self.start_time = Some(now);
    }

    /// Start the stopwatch.
    pub fn start(&mut self)
        ensures
            final(self).laps_view() == old(self).laps_view(),
            final(self).total_ns() == old(self).total_ns(),
            final(self).running(),
            old(self).wf() ==> final(self).wf(),
    {
        let now = clock::now_at_least(0);
        self.start_at(now);
    }

    /// Stop the stopwatch, without updating the total time.
    ///
    /// This will not reset the stopwatch: the total time and the laps are
    /// preserved, and any time accrued in the open lap is discarded. On a
    /// stopwatch that is not running this is a no-op.
    pub fn stop(&mut self)
        ensures
            final(self).laps_view() == old(self).laps_view(),
            final(self).total_ns() == old(self).total_ns(),
            !final(self).running(),
            !old(self).running() ==> *final(self) == *old(self),
            old(self).wf() ==> final(self).wf(),
    {
        self.start_time = None;
    }

    /// Re-initialize the stopwatch without restarting it.
    pub fn reset(&mut self)
        ensures
            final(self).laps_view() == Seq::<u64>::empty(),
            final(self).total_ns() == 0,
            !final(self).running(),
            final(self).wf(),
    {
        self.laps = Vec::new();
        self.start_time = None;
        self.total_time = 0;
    }

    /// Re-initialize the stopwatch and start it.
    pub fn restart(&mut self)
        ensures
            final(self).laps_view() == Seq::<u64>::empty(),
            final(self).total_ns() == 0,
            final(self).running(),
            final(self).wf(),
    {
        self.reset();
        self.start();
    }

    /// Get the list of all measured lap times in the order the laps were
    /// timed.
    pub fn laps(&self) -> (r: &Vec<u64>)
        ensures
            r@ == self.laps_view(),
    {
        &self.laps
    }

    /// Get the number of measured laps.
    pub fn number_of_laps(&self) -> (r: usize)
        ensures
            r == self.laps_view().len(),
    {
        self.laps.len()
    }

    /// Determine if the stopwatch is currently running.
    pub fn is_running(&self) -> (r: bool)
        ensures
            r == self.running(),
    {
        self.start_time.is_some()
    }

    /// The duration the open lap would close with at the clock reading `now`:
    /// the time elapsed since the lap began, held below the headroom that the
    /// running total still has before it would overflow.
    pub open spec fn lap_duration_at(self, now: u64) -> u64
        recommends
            self.running(),
            self.start_ns() <= now,
    {
        capped((now - self.start_ns()) as u64, (u64::MAX - self.total_ns()) as u64)
    }

    /// The total time at the clock reading `now`: the frozen total plus, if
    /// the stopwatch is running, the time elapsed in the open lap.
    pub open spec fn spec_total_time_at(self, now: u64) -> u64
        recommends
            self.running() ==> self.start_ns() <= now,
    {
        if self.running() {
            (self.total_ns() + self.lap_duration_at(now)) as u64
        } else {
            self.total_ns()
        }
    }

    /// Start a new lap at the clock reading `now`. Save the last lap's time
    /// and return it.
    ///
    /// On a stopwatch that is not running this is a no-op returning zero, so
    /// that lapping a never-started stopwatch is harmless.
    pub fn lap_at(&mut self, now: u64) -> (r: u64)
        requires
            old(self).running() ==> old(self).start_ns() <= now,
        ensures
            old(self).running() ==> {
                &&& r == old(self).lap_duration_at(now)
                &&& final(self).laps_view() == old(self).laps_view().push(r)
                &&& final(self).total_ns() == old(self).total_ns() + r
                &&& final(self).running()
                &&& final(self).start_ns() == now
            },
            !old(self).running() ==> r == 0 && *final(self) == *old(self),
            old(self).wf() ==> final(self).wf(),
    {
        let start = match self.start_time {
            Some(t) => t,
            None => {
                return 0;
            },
        };
        let elapsed = now - start;
        let headroom = u64::MAX - self.total_time;
        let lap = if elapsed > headroom {
            headroom
        } else {
            elapsed
        };
        self.total_time = self.total_time + lap;
        self.laps.push(lap);
        self.start_time = Some(now);
        proof {
            lemma_sum_push(old(self).laps@, lap);
        }
        lap
    }

    /// Start a new lap. Save the last lap's time and return it.
    ///
    /// On a stopwatch that is not running this is a no-op returning zero, so
    /// that lapping a never-started stopwatch is harmless.
    pub fn lap(&mut self) -> (r: u64)
        ensures
            old(self).running() ==> {
                &&& final(self).laps_view() == old(self).laps_view().push(r)
                &&& final(self).total_ns() == old(self).total_ns() + r
                &&& final(self).running()
                &&& final(self).start_ns() >= old(self).start_ns()
                &&& exists|now: u64|
                    old(self).start_ns() <= now && r == old(self).lap_duration_at(now)
            },
            !old(self).running() ==> r == 0 && *final(self) == *old(self),
            old(self).wf() ==> final(self).wf(),
    {
        let start = match self.start_time {
            Some(t) => t,
            None => {
                return 0;
            },
        };
        let now = clock::now_at_least(start);
        self.lap_at(now)
    }

    /// Get the total time the stopwatch has been running, at the clock
    /// reading `now`.
    ///
    /// If the stopwatch is running, this is the frozen total plus the time
    /// the open lap has run up to `now`; otherwise it is the frozen total.
    pub fn total_time_at(&self, now: u64) -> (r: u64)
        requires
            self.running() ==> self.start_ns() <= now,
        ensures
            r == self.spec_total_time_at(now),
    {
        match self.start_time {
            Some(start) => {
                let elapsed = now - start;
                let headroom = u64::MAX - self.total_time;
                if elapsed > headroom {
                    self.total_time + headroom
                } else {
                    self.total_time + elapsed
                }
            },
            None => self.total_time,
        }
    }

    /// Get the total time the stopwatch has been running.
    ///
    /// If the stopwatch is still running, the total time is the frozen total
    /// plus the time the open lap has run until now; it never reads below the
    /// frozen total. Otherwise, it is the sum of all laps, exactly.
    pub fn total_time(&self) -> (r: u64)
        ensures
            r >= self.total_ns(),
            !self.running() ==> r == self.total_ns(),
            self.running() ==> exists|now: u64|
                self.start_ns() <= now && r == self.spec_total_time_at(now),
    {
        let start = match self.start_time {
            Some(t) => t,
            None => {
                return self.total_time;
            },
        };
        let now = clock::now_at_least(start);
        self.total_time_at(now)
    }

    /// Render the total time as text: the nanosecond count followed by `ns`.
    pub fn render(&self) -> (r: String)
        ensures
            exists|t: u64| r@ == crate::render::ns_text(t),
            !self.running() ==> r@ == crate::render::ns_text(self.total_ns()),
    {
        let total = self.total_time();
        crate::render::format_ns(total)
    }
}

/// The recorded total is always the sum of the recorded laps: after any run
/// of the stopwatch, the frozen total that `total_time` reports once the
/// stopwatch is stopped equals the sum of all recorded lap durations, which
/// is the sum of all durations the `lap` calls returned.
pub proof fn lemma_total_is_sum_of_laps(s: Stopwatch)
    requires
        s.wf(),
    ensures
        s.total_ns() as int == sum_ns(s.laps_view()),
{
}

/// While the stopwatch runs, the total time is monotonically non-decreasing:
/// a later clock reading never yields a smaller total than an earlier one.
pub proof fn lemma_total_time_monotonic(s: Stopwatch, t1: u64, t2: u64)
    requires
        s.running(),
        s.start_ns() <= t1 <= t2,
    ensures
        s.spec_total_time_at(t1) <= s.spec_total_time_at(t2),
{
}

} // verus!
