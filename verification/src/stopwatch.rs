//! The type-state stopwatch: the lifecycle is encoded in the type.
//!
//! Each operation is a method only of the states where it is legal, so an
//! illegal sequence of operations is rejected at compile time. Transitions
//! consume the old value and produce a new one.

use core::marker::PhantomData;
use vstd::prelude::*;

verus! {

use crate::duration::{sum_ns, capped, lemma_sum_push};

/// A unit-like struct for marking a stopwatch as initialized.
#[derive(Clone, Copy, Debug)]
pub struct Initialized;

/// A unit-like struct for marking a stopwatch as running.
#[derive(Clone, Copy, Debug)]
pub struct Running;

/// A unit-like struct for marking a stopwatch as paused.
#[derive(Clone, Copy, Debug)]
pub struct Paused;

/// A unit-like struct for marking a stopwatch as stopped.
#[derive(Clone, Copy, Debug)]
pub struct Stopped;

/// The lap that was open when the stopwatch was paused.
///
/// A tagged value rather than a sentinel entry in the lap list, so that a
/// genuine paused lap of exactly zero nanoseconds is never mistaken for the
/// fresh-lap marker left by `lap_and_pause`.
#[derive(Clone, Copy, Debug)]
pub enum PausedLap {
    /// The previous lap was completed just before pausing; a fresh, empty lap
    /// is pending.
    Fresh,
    /// The open lap had run for this many nanoseconds when it was paused; it
    /// has not been counted into the total yet.
    Open(u64),
}

/// A stopwatch with lap functionality and nanosecond resolution.
///
/// This is the type-state variant: the `State` marker is one of
/// [`Initialized`], [`Running`], [`Paused`] or [`Stopped`], and each
/// operation is available only in the states where it is legal.
#[derive(Debug)]
pub struct Stopwatch<State> {
    /// A list of all lap measurements.
    laps: Vec<u64>,
    /// The start time of the currently running lap, or `None` if the
    /// stopwatch is not running.
    start_time: Option<u64>,
    /// The sum of all finished laps.
    total_time: u64,
    /// The lap that was open when the stopwatch was paused, if any.
    paused_lap: Option<PausedLap>,
    /// The state of the stopwatch.
    state: PhantomData<State>,
}

impl<State> Stopwatch<State> {
    /// The recorded lap durations, in the order they were recorded.
    pub closed spec fn laps_view(self) -> Seq<u64> {
        self.laps@
    }

    /// The frozen total: the sum of all completed laps, excluding any time
    /// still accruing in an open or paused lap.
    pub closed spec fn total_ns(self) -> u64 {
        self.total_time
    }

    /// Whether time is currently accruing toward the next lap.
    pub closed spec fn running(self) -> bool {
        self.start_time is Some
    }

    /// The monotonic-clock reading at which the open lap began; meaningful
    /// only while the stopwatch is running.
    pub closed spec fn start_ns(self) -> u64 {
        self.start_time->Some_0
    }

    /// The lap that was open when the stopwatch was paused; `Some` exactly
    /// while the stopwatch is paused.
    pub closed spec fn pending(self) -> Option<PausedLap> {
        self.paused_lap
    }

    /// The nanoseconds already run by the paused lap: zero for a fresh lap.
    pub open spec fn pending_ns(self) -> u64 {
        match self.pending() {
            Some(PausedLap::Open(d)) => d,
            _ => 0,
        }
    }

    /// The accounting invariant: the frozen total is exactly the sum of the
    /// recorded lap durations.
    pub closed spec fn wf(self) -> bool {
        self.total_time as int == sum_ns(self.laps@)
    }

    /// Determine if the stopwatch is currently running.
    pub fn is_running(&self) -> (r: bool)
        ensures
            r == self.running(),
    {
        self.start_time.is_some()
    }

    /// Get the list of all measured lap times in the order the laps were
    /// timed.
    ///
    /// Only completed laps appear here: a lap held in abeyance by `pause` is
    /// not visible until the stopwatch is stopped.
    pub fn laps(&self) -> (r: &Vec<u64>)
        ensures
            r@ == self.laps_view(),
    {
        &self.laps
    }

    /// Get the number of measured laps.
    pub fn number_of_laps(&self) -> (r: usize)
        ensures
            r == self.laps_view().len(),
    {
        self.laps.len()
    }

    /// The duration the open lap would close with at the clock reading `now`:
    /// the time elapsed since the lap began, held below the headroom that the
    /// running total still has before it would overflow.
    pub open spec fn lap_duration_at(self, now: u64) -> u64
        recommends
            self.running(),
            self.start_ns() <= now,
    {
        capped((now - self.start_ns()) as u64, (u64::MAX - self.total_ns()) as u64)
    }

    /// The total time at the clock reading `now`: the frozen total plus, if
    /// the stopwatch is running, the time elapsed in the open lap.
    pub open spec fn spec_total_time_at(self, now: u64) -> u64
        recommends
            self.running() ==> self.start_ns() <= now,
    {
        if self.running() {
            (self.total_ns() + self.lap_duration_at(now)) as u64
        } else {
            self.total_ns()
        }
    }

    /// Get the total time the stopwatch has been running, at the clock
    /// reading `now`.
    ///
    /// If the stopwatch is running, this is the frozen total plus the time
    /// the open lap has run up to `now`; otherwise it is the frozen total. A
    /// lap paused by `pause` is not counted until the stopwatch is stopped.
    pub fn total_time_at(&self, now: u64) -> (r: u64)
        requires
            self.running() ==> self.start_ns() <= now,
        ensures
            r == self.spec_total_time_at(now),
    {
        match self.start_time {
            Some(start) => {
                let elapsed = now - start;
                let headroom = u64::MAX - self.total_time;
                if elapsed > headroom {
                    self.total_time + headroom
                } else {
                    self.total_time + elapsed
                }
            },
            None => self.total_time,
        }
    }

    /// Get the total time the stopwatch has been running.
    ///
    /// If the stopwatch is still running, the total time is the frozen total
    /// plus the time the open lap has run until now; it never reads below the
    /// frozen total. Otherwise, it is the sum of all laps, exactly.
    pub fn total_time(&self) -> (r: u64)
        ensures
            r >= self.total_ns(),
            !self.running() ==> r == self.total_ns(),
            self.running() ==> exists|now: u64|
                self.start_ns() <= now && r == self.spec_total_time_at(now),
    {
        let start = match self.start_time {
            Some(t) => t,
            None => {
                return self.total_time;
            },
        };
        let now = crate::clock::now_at_least(start);
        self.total_time_at(now)
    }

    /// Render the total time as text: the nanosecond count followed by `ns`.
    pub fn render(&self) -> (r: String)
        ensures
            exists|t: u64| r@ == crate::render::ns_text(t),
            !self.running() ==> r@ == crate::render::ns_text(self.total_ns()),
    {
        let total = self.total_time();
        crate::render::format_ns(total)
    }
}

impl Stopwatch<Initialized> {
    /// Initialize a new stopwatch without starting it.
    pub fn new() -> (s: Stopwatch<Initialized>)
        ensures
            s.laps_view() == Seq::<u64>::empty(),
            s.total_ns() == 0,
            !s.running(),
            s.pending() is None,
            s.wf(),
    {
        Stopwatch {
            laps: Vec::new(),
            start_time: None,
            total_time: 0,
            paused_lap: None,
            state: PhantomData::<Initialized>,
        }
    }

    /// Start the stopwatch at the clock reading `now`.
    pub fn start_at(self, now: u64) -> (r: Stopwatch<Running>)
        ensures
            r.laps_view() == self.laps_view(),
            r.total_ns() == self.total_ns(),
            r.running(),
            r.start_ns() == now,
            r.pending() == self.pending(),
            self.wf() ==> r.wf(),
    {
        Stopwatch {
            laps: self.laps,
            start_time: Some(now),
            total_time: self.total_time,
            paused_lap: self.paused_lap,
            state: PhantomData::<Running>,
        }
    }

    /// Start the stopwatch.
    pub fn start(self) -> (r: Stopwatch<Running>)
        ensures
            r.laps_view() == self.laps_view(),
            r.total_ns() == self.total_ns(),
            r.running(),
            r.pending() == self.pending(),
            self.wf() ==> r.wf(),
    {
        let now = crate::clock::now_at_least(0);
        self.start_at(now)
    }
}

impl Stopwatch<Running> {
    /// Initialize a new stopwatch and start it.
    ///
    /// This is an alias for [`Stopwatch::new()`](#method.new) immediately
    /// followed by [`start()`](#method.start).
    pub fn start_new() -> (s: Stopwatch<Running>)
        ensures
            s.laps_view() == Seq::<u64>::empty(),
            s.total_ns() == 0,
            s.running(),
            s.pending() is None,
            s.spec_total_time_at(s.start_ns()) == 0,
            s.wf(),
    {
        Stopwatch::new().start()
    }

    /// Get the current lap's duration up to the clock reading `now`, held
    /// below the headroom the running total still has.
    fn get_current_laps_duration_at(&self, now: u64) -> (r: u64)
        requires
            self.running(),
            self.start_ns() <= now,
        ensures
            r == self.lap_duration_at(now),
    {
        let start = match self.start_time {
            Some(t) => t,
            None => 0,
        };
        let elapsed = now - start;
        let headroom = u64::MAX - self.total_time;
        if elapsed > headroom {
            headroom
        } else {
            elapsed
        }
    }

    /// Finish the current lap at the clock reading `now`: get its duration
    /// and add it to the list of laps and the total time.
    fn finish_current_lap_at(&mut self, now: u64) -> (r: u64)
        requires
            old(self).running(),
            old(self).start_ns() <= now,
        ensures
            r == old(self).lap_duration_at(now),
            final(self).laps_view() == old(self).laps_view().push(r),
            final(self).total_ns() == old(self).total_ns() + r,
            final(self).running(),
            final(self).start_ns() == old(self).start_ns(),
            final(self).pending() == old(self).pending(),
            old(self).wf() ==> final(self).wf(),
    {
        let lap = self.get_current_laps_duration_at(now);
        self.total_time = self.total_time + lap;
        self.laps.push(lap);
        proof {
            lemma_sum_push(old(self).laps@, lap);
        }
        lap
    }

    /// Start a new lap at the clock reading `now`. Save the last lap's time
    /// and return it.
    pub fn lap_at(&mut self, now: u64) -> (r: u64)
        requires
            old(self).running(),
            old(self).start_ns() <= now,
        ensures
            r == old(self).lap_duration_at(now),
            final(self).laps_view() == old(self).laps_view().push(r),
            final(self).total_ns() == old(self).total_ns() + r,
            final(self).running(),
            final(self).start_ns() == now,
            final(self).pending() == old(self).pending(),
            old(self).wf() ==> final(self).wf(),
    {
        let lap = self.finish_current_lap_at(now);
        self.start_time = Some(now);
        lap
    }

    /// Start a new lap. Save the last lap's time and return it.
    pub fn lap(&mut self) -> (r: u64)
        requires
            old(self).running(),
        ensures
            final(self).laps_view() == old(self).laps_view().push(r),
            final(self).total_ns() == old(self).total_ns() + r,
            final(self).running(),
            final(self).start_ns() >= old(self).start_ns(),
            final(self).pending() == old(self).pending(),
            exists|now: u64| old(self).start_ns() <= now && r == old(self).lap_duration_at(now),
            old(self).wf() ==> final(self).wf(),
    {
        let start = match self.start_time {
            Some(t) => t,
            None => 0,
        };
        let now = crate::clock::now_at_least(start);
        self.lap_at(now)
    }

    /// Finish the current lap at the clock reading `now` and immediately
    /// pause the stopwatch: the lap is completed, and a fresh, empty lap is
    /// pending for when the stopwatch is resumed.
    pub fn lap_and_pause_at(self, now: u64) -> (r: (u64, Stopwatch<Paused>))
        requires
            self.running(),
            self.start_ns() <= now,
        ensures
            ({
                let d = self.lap_duration_at(now);
                &&& r.0 == d
                &&& r.1.laps_view() == self.laps_view().push(d)
                &&& r.1.total_ns() == self.total_ns() + d
                &&& !r.1.running()
                &&& r.1.pending() == Some(PausedLap::Fresh)
                &&& (self.wf() ==> r.1.wf())
            }),
    {
        let mut sw = self;
        let lap = sw.finish_current_lap_at(now);
        let stopwatch = Stopwatch {
            laps: sw.laps,
            start_time: None,
            total_time: sw.total_time,
            paused_lap: Some(PausedLap::Fresh),
            state: PhantomData::<Paused>,
        };
        (lap, stopwatch)
    }

    /// Finish the current lap and immediately pause the stopwatch.
    pub fn lap_and_pause(self) -> (r: (u64, Stopwatch<Paused>))
        requires
            self.running(),
        ensures
            r.1.laps_view() == self.laps_view().push(r.0),
            r.1.total_ns() == self.total_ns() + r.0,
            !r.1.running(),
            r.1.pending() == Some(PausedLap::Fresh),
            self.wf() ==> r.1.wf(),
    {
        let start = match self.start_time {
            Some(t) => t,
            None => 0,
        };
        let now = crate::clock::now_at_least(start);
        self.lap_and_pause_at(now)
    }

    /// Finish the current lap at the clock reading `now` and immediately stop
    /// the stopwatch.
    pub fn lap_and_stop_at(self, now: u64) -> (r: (u64, Stopwatch<Stopped>))
        requires
            self.running(),
            self.start_ns() <= now,
        ensures
            ({
                let d = self.lap_duration_at(now);
                &&& r.0 == d
                &&& r.1.laps_view() == self.laps_view().push(d)
                &&& r.1.total_ns() == self.total_ns() + d
                &&& !r.1.running()
                &&& r.1.pending() == self.pending()
                &&& (self.wf() ==> r.1.wf())
            }),
    {
        let mut sw = self;
        let lap = sw.finish_current_lap_at(now);
        (lap, sw.stop())
    }

    /// Finish the current lap and immediately stop the stopwatch.
    pub fn lap_and_stop(self) -> (r: (u64, Stopwatch<Stopped>))
        requires
            self.running(),
        ensures
            r.1.laps_view() == self.laps_view().push(r.0),
            r.1.total_ns() == self.total_ns() + r.0,
            !r.1.running(),
            r.1.pending() == self.pending(),
            self.wf() ==> r.1.wf(),
    {
        let start = match self.start_time {
            Some(t) => t,
            None => 0,
        };
        let now = crate::clock::now_at_least(start);
        self.lap_and_stop_at(now)
    }

    /// Pause the stopwatch at the clock reading `now`.
    ///
    /// The open lap is held in abeyance with the duration it has run so far:
    /// it is not completed, not counted into the total, and not visible in
    /// the lap list until the stopwatch is resumed or stopped.
    pub fn pause_at(self, now: u64) -> (r: Stopwatch<Paused>)
        requires
            self.running(),
            self.start_ns() <= now,
        ensures
            r.laps_view() == self.laps_view(),
            r.total_ns() == self.total_ns(),
            !r.running(),
            r.pending() == Some(PausedLap::Open(self.lap_duration_at(now))),
            self.wf() ==> r.wf(),
    {
        let lap = self.get_current_laps_duration_at(now);
        Stopwatch {
            laps: self.laps,
            start_time: None,
            total_time: self.total_time,
            paused_lap: Some(PausedLap::Open(lap)),
            state: PhantomData::<Paused>,
        }
    }

    /// Pause the stopwatch.
    ///
    /// The open lap is held in abeyance with the duration it has run so far.
    pub fn pause(self) -> (r: Stopwatch<Paused>)
        requires
            self.running(),
        ensures
            r.laps_view() == self.laps_view(),
            r.total_ns() == self.total_ns(),
            !r.running(),
            r.pending() matches Some(PausedLap::Open(_)),
            self.wf() ==> r.wf(),
    {
        let start = match self.start_time {
            Some(t) => t,
            None => 0,
        };
        let now = crate::clock::now_at_least(start);
        self.pause_at(now)
    }

    /// Stop the stopwatch.
    ///
    /// The total time and the laps are preserved; any time accrued in the
    /// open lap is discarded. Use [`lap_and_stop()`](#method.lap_and_stop) to
    /// complete the open lap instead.
    pub fn stop(self) -> (r: Stopwatch<Stopped>)
        ensures
            r.laps_view() == self.laps_view(),
            r.total_ns() == self.total_ns(),
            !r.running(),
            r.pending() == self.pending(),
            self.wf() ==> r.wf(),
    {
        Stopwatch {
            laps: self.laps,
            start_time: None,
            total_time: self.total_time,
            paused_lap: self.paused_lap,
            state: PhantomData::<Stopped>,
        }
    }
}

impl Stopwatch<Paused> {
    /// Resume the stopwatch at the clock reading `now`.
    ///
    /// The paused lap is reopened: its start time dates back to `now` minus
    /// the duration it had already run, so it keeps accruing from where it
    /// was paused. After `lap_and_pause` a fresh lap starts at `now`.
    pub fn resume_at(self, now: u64) -> (r: Stopwatch<Running>)
        requires
            self.pending() is Some,
            self.pending_ns() <= now,
        ensures
            r.laps_view() == self.laps_view(),
            r.total_ns() == self.total_ns(),
            r.running(),
            r.start_ns() == now - self.pending_ns(),
            r.pending() is None,
            self.wf() ==> r.wf(),
    {
        let paused_lap = match self.paused_lap {
            Some(PausedLap::Open(d)) => d,
            _ => 0,
        };
        Stopwatch {
            laps: self.laps,
            start_time: Some(now - paused_lap),
            total_time: self.total_time,
            paused_lap: None,
            state: PhantomData::<Running>,
        }
    }

    /// Resume the stopwatch.
    ///
    /// If a lap has been paused (i.e. [`pause()`](#method.pause) has been
    /// called), this lap is reopened and keeps accruing from where it was
    /// paused, however long the pause lasted.
    pub fn resume(self) -> (r: Stopwatch<Running>)
        requires
            self.pending() is Some,
        ensures
            r.laps_view() == self.laps_view(),
            r.total_ns() == self.total_ns(),
            r.running(),
            r.pending() is None,
            self.wf() ==> r.wf(),
    {
        let pending = match self.paused_lap {
            Some(PausedLap::Open(d)) => d,
            _ => 0,
        };
        let now = crate::clock::now_at_least(pending);
        self.resume_at(now)
    }

    /// Stop the stopwatch.
    ///
    /// If a lap has been paused (i.e. [`pause()`](#method.pause) has been
    /// called), that lap is completed with the duration it had run when it
    /// was paused: it is appended to the laps and counted into the total. The
    /// fresh, empty lap pending after `lap_and_pause` is discarded.
    pub fn stop(self) -> (r: Stopwatch<Stopped>)
        requires
            self.pending() is Some,
        ensures
            !r.running(),
            r.pending() is None,
            self.pending() == Some(PausedLap::Fresh) ==> {
                &&& r.laps_view() == self.laps_view()
                &&& r.total_ns() == self.total_ns()
            },
            self.pending() matches Some(PausedLap::Open(d)) ==> {
                let dd = capped(d, (u64::MAX - self.total_ns()) as u64);
                &&& r.laps_view() == self.laps_view().push(dd)
                &&& r.total_ns() == self.total_ns() + dd
            },
            self.wf() ==> r.wf(),
    {
        let mut laps = self.laps;
        let mut total = self.total_time;
        match self.paused_lap {
            Some(PausedLap::Open(d)) => {
                let headroom = u64::MAX - total;
                let dd = if d > headroom {
                    headroom
                } else {
                    d
                };
                total = total + dd;
                laps.push(dd);
                proof {
                    lemma_sum_push(self.laps@, dd);
                }
            },
            _ => {},
        }
        Stopwatch {
            laps,
            start_time: None,
            total_time: total,
            paused_lap: None,
            state: PhantomData::<Stopped>,
        }
    }
}

impl Stopwatch<Stopped> {
    /// Re-initialize the stopwatch without restarting it.
    ///
    /// This is an alias for [`Stopwatch::new()`](#method.new).
    pub fn reset(self) -> (r: Stopwatch<Initialized>)
        ensures
            r.laps_view() == Seq::<u64>::empty(),
            r.total_ns() == 0,
            !r.running(),
            r.pending() is None,
            r.wf(),
    {
        Stopwatch::new()
    }

    /// Re-initialize the stopwatch and start it.
    ///
    /// This is an alias for [`Stopwatch::start_new()`](#method.start_new).
    pub fn restart(self) -> (r: Stopwatch<Running>)
        ensures
            r.laps_view() == Seq::<u64>::empty(),
            r.total_ns() == 0,
            r.running(),
            r.pending() is None,
            r.wf(),
    {
        Stopwatch::start_new()
    }
}

/// The recorded total is always the sum of the recorded laps: after any run
/// of the stopwatch, the frozen total that `total_time` reports once the
/// stopwatch is stopped equals the sum of all recorded lap durations, which
/// is the sum of all durations the lap-closing calls returned.
pub proof fn lemma_total_is_sum_of_laps<State>(s: Stopwatch<State>)
    requires
        s.wf(),
    ensures
        s.total_ns() as int == sum_ns(s.laps_view()),
{
}

/// While the stopwatch runs, the total time is monotonically non-decreasing:
/// a later clock reading never yields a smaller total than an earlier one.
pub proof fn lemma_total_time_monotonic<State>(s: Stopwatch<State>, t1: u64, t2: u64)
    requires
        s.running(),
        s.start_ns() <= t1 <= t2,
    ensures
        s.spec_total_time_at(t1) <= s.spec_total_time_at(t2),
{
}

/// The pause/resume round trip loses no time and counts no paused time: a
/// lap that had run for `d1` nanoseconds when it was paused at `t1`, and that
/// runs for `d2` more nanoseconds between being resumed at `t2` and being
/// closed at `t3`, closes with duration exactly `d1 + d2`, however long the
/// stopwatch sat paused between `t1` and `t2`.
pub proof fn lemma_pause_resume_round_trip(
    before: Stopwatch<Running>,
    paused: Stopwatch<Paused>,
    resumed: Stopwatch<Running>,
    t1: u64,
    t2: u64,
    t3: u64,
)
    requires
        // `paused` is `before` paused at `t1`, as `pause_at` ensures:
        before.running(),
        before.start_ns() <= t1,
        paused.total_ns() == before.total_ns(),
        paused.pending() == Some(PausedLap::Open(before.lap_duration_at(t1))),
        // `resumed` is `paused` resumed at `t2`, as `resume_at` ensures:
        paused.pending_ns() <= t2,
        resumed.running(),
        resumed.start_ns() == t2 - paused.pending_ns(),
        resumed.total_ns() == paused.total_ns(),
        // the lap closes at `t3`, after the resume:
        t2 <= t3,
        // the closed lap fits into the total without overflow:
        before.total_ns() + (t1 - before.start_ns()) + (t3 - t2) <= u64::MAX,
    ensures
        resumed.lap_duration_at(t3) == (t1 - before.start_ns()) + (t3 - t2),
{
}

} // verus!
