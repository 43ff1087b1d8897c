//! A stopwatch for high-resolution elapsed-time measurement.
//!
//! A [`Stopwatch`] accumulates the lengths of completed run intervals, in
//! nanoseconds. `start` begins a run (a no-op while already running), `stop`
//! ends it and adds its length to the running total, `reset` returns the
//! stopwatch to its initial state, and `elapsed` reads the total at any time,
//! including mid-run.
//!
//! Every operation that reads the clock has a deterministic counterpart
//! (`start_at`, `stop_at`, ...) that takes the instant as an argument, so the
//! whole state machine can be driven with chosen instants and its results
//! pinned down exactly.
//!
//! The clock is the system's wall clock, read as nanoseconds since the Unix
//! epoch. Should it step backwards between a start and the following stop or
//! read, the in-flight interval is measured as zero (the subtraction
//! saturates); it never goes negative and never panics.

use vstd::prelude::*;

mod clock;
pub mod laws;

verus! {

/// The mathematical state of a stopwatch: the instant (nanoseconds) at which
/// the run in progress began, if one is in progress, and the total length of
/// all runs completed since the last reset.
pub ghost struct StopwatchView {
    pub running_since: Option<nat>,
    pub accumulated: nat,
}

impl StopwatchView {
    /// The state of a freshly created stopwatch: stopped, nothing accumulated.
    pub open spec fn initial() -> StopwatchView {
        StopwatchView { running_since: None, accumulated: 0 }
    }

    /// A run is in progress exactly when its start instant is recorded.
    pub open spec fn is_running(self) -> bool {
        self.running_since is Some
    }

    /// The length of the run in progress, measured at instant `now`: zero if
    /// stopped, and zero if the clock reads earlier than the run's start (the
    /// subtraction saturates rather than going negative).
    pub open spec fn run_interval(self, now: nat) -> nat {
        match self.running_since {
            Some(t) => if now >= t { (now - t) as nat } else { 0 },
            None => 0,
        }
    }

    /// The total elapsed time read at instant `now`: everything accumulated
    /// from completed runs, plus the run in progress.
    pub open spec fn elapsed_at(self, now: nat) -> nat {
        sat_add(self.accumulated, self.run_interval(now))
    }

    /// Both fields fit the executable representation (`u128` nanoseconds).
    /// Every value a `Stopwatch` can hold satisfies this.
    pub open spec fn wf(self) -> bool {
        &&& self.accumulated <= u128::MAX
        &&& match self.running_since {
            Some(t) => t <= u128::MAX,
            None => true,
        }
    }

    /// The state after a `start` at instant `now`: begins a run if stopped,
    /// changes nothing - in particular not the recorded start instant - if a
    /// run is already in progress.
    pub open spec fn after_start(self, now: nat) -> StopwatchView {
        if self.is_running() {
            self
        } else {
            StopwatchView { running_since: Some(now), accumulated: self.accumulated }
        }
    }

    /// The state after a `stop` at instant `now`: stopped, with the run in
    /// progress (if any) folded into the accumulated total.
    pub open spec fn after_stop(self, now: nat) -> StopwatchView {
        StopwatchView { running_since: None, accumulated: self.elapsed_at(now) }
    }

    /// The state after a `reset`: back to the initial state, whatever came
    /// before; a run in progress is discarded, not accumulated.
    pub open spec fn after_reset(self) -> StopwatchView {
        StopwatchView::initial()
    }

    /// The state after a `reset_and_start` at instant `now`: by definition the
    /// composition of a `reset` and a `start`.
    pub open spec fn after_reset_and_start(self, now: nat) -> StopwatchView {
        self.after_reset().after_start(now)
    }
}

/// Addition that saturates at `u128::MAX`, so that an accumulated total always
/// fits the executable representation.
pub open spec fn sat_add(a: nat, b: nat) -> nat {
    if a + b > u128::MAX {
        u128::MAX as nat
    } else {
        a + b
    }
}

/// A stopwatch over the system clock. Time is measured in nanoseconds; the
/// run-state and the start instant of the run in progress are one field, so a
/// state "running, but with no start instant" cannot be represented.
#[derive(Clone, Copy, Debug)]
pub struct Stopwatch {
    running_since: Option<u128>,
    accumulated: u128,
}

impl View for Stopwatch {
    type V = StopwatchView;

    closed spec fn view(&self) -> StopwatchView {
        StopwatchView {
            running_since: match self.running_since {
                Some(t) => Some(t as nat),
                None => None,
            },
            accumulated: self.accumulated as nat,
        }
    }
}

/// The view of every `Stopwatch` fits the machine representation.
pub proof fn lemma_view_wf(s: &Stopwatch)
    ensures
        s@.wf(),
{
}

impl Stopwatch {
    /// Creates a stopwatch: stopped, with nothing accumulated.
    pub fn new() -> (s: Stopwatch)
        ensures
            s@ == StopwatchView::initial(),
    {
        Stopwatch { running_since: None, accumulated: 0 }
    }

    /// Returns whether a run is in progress.
    pub fn is_running(&self) -> (r: bool)
        ensures
            r == self@.is_running(),
    {
        self.running_since.is_some()
    }

    /// Starts the measurement at instant `now`. If a run is already in
    /// progress the call has no effect; in particular it does not move the
    /// run's recorded start to `now`.
    pub fn start_at(&mut self, now: u128)
        ensures
            final(self)@ == old(self)@.after_start(now as nat),
    {
        if self.running_since.is_none() {
            self.running_since = Some(now);
        }
    }

    /// Stops the measurement at instant `now`, folding the run in progress
    /// into the accumulated total. If no run is in progress the call has no
    /// effect. An interval whose end reads earlier than its start counts as
    /// zero, and the total saturates at `u128::MAX`.
    pub fn stop_at(&mut self, now: u128)
        ensures
            final(self)@ == old(self)@.after_stop(now as nat),
    {
        match self.running_since {
            Some(t) => {
                let interval: u128 = if now >= t {
                    now - t
                } else {
                    0
                };
                self.accumulated = if self.accumulated <= u128::MAX - interval {
                    self.accumulated + interval
                } else {
                    u128::MAX
                };
                self.running_since = None;
            }
            None => {}
        }
    }

    /// Restores the initial state: stopped, nothing accumulated. A run in
    /// progress is discarded, not accumulated.
    pub fn reset(&mut self)
        ensures
            final(self)@ == old(self)@.after_reset(),
    {
        self.running_since = None;
        self.accumulated = 0;
    }

    /// Restores the initial state and immediately starts a run at instant
    /// `now`: the same as `reset` followed by `start_at(now)`.
    pub fn reset_and_start_at(&mut self, now: u128)
        ensures
            final(self)@ == old(self)@.after_reset_and_start(now as nat),
    {
        self.reset();
        self.start_at(now);
    }

    /// Reads the total elapsed time as of instant `now`, in nanoseconds:
    /// the accumulated total, plus the run in progress if there is one. A
    /// pure query; the stopwatch is unchanged.
    pub fn elapsed_at(&self, now: u128) -> (r: u128)
        ensures
            r as nat == self@.elapsed_at(now as nat),
    {
        match self.running_since {
            Some(t) => {
                let interval: u128 = if now >= t {
                    now - t
                } else {
                    0
                };
                if self.accumulated <= u128::MAX - interval {
                    self.accumulated + interval
                } else {
                    u128::MAX
                }
            }
            None => self.accumulated,
        }
    }

    /// Creates a stopwatch that is already running, its run begun at instant
    /// `now`: the same as `new` followed by `start_at(now)`.
    pub fn new_started_at(now: u128) -> (s: Stopwatch)
        ensures
            s@ == StopwatchView::initial().after_start(now as nat),
    {
        let mut s = Stopwatch::new();
        s.start_at(now);
        s
    }

    /// Starts the measurement at the clock's current reading. If a run is
    /// already in progress the call has no effect; otherwise only the start
    /// instant of the new run depends on the clock.
    pub fn start(&mut self)
        ensures
            final(self)@.is_running(),
            final(self)@.accumulated == old(self)@.accumulated,
            old(self)@.is_running() ==> final(self)@ == old(self)@,
            exists|now: nat| final(self)@ == old(self)@.after_start(now),
    {
        let now = clock::clock_now_nanos();
        self.start_at(now);
    }

    /// Stops the measurement at the clock's current reading. If no run is in
    /// progress the call has no effect; otherwise the accumulated total can
    /// only grow, by the length the clock gives the run.
    pub fn stop(&mut self)
        ensures
            !final(self)@.is_running(),
            !old(self)@.is_running() ==> final(self)@ == old(self)@,
            final(self)@.accumulated >= old(self)@.accumulated,
            exists|now: nat| final(self)@ == old(self)@.after_stop(now),
    {
        let now = clock::clock_now_nanos();
        self.stop_at(now);
    }

    /// Restores the initial state and immediately starts a run at the clock's
    /// current reading: the same as `reset` followed by `start`.
    pub fn reset_and_start(&mut self)
        ensures
            final(self)@.is_running(),
            final(self)@.accumulated == 0,
            exists|now: nat| final(self)@ == old(self)@.after_reset_and_start(now),
    {
        let now = clock::clock_now_nanos();
        self.reset_and_start_at(now);
    }

    /// Reads the total elapsed time at the clock's current reading, in
    /// nanoseconds. While stopped the result does not depend on the clock at
    /// all: it is exactly the accumulated total, so two consecutive reads
    /// return the same value.
    pub fn elapsed(&self) -> (r: u128)
        ensures
            !self@.is_running() ==> r as nat == self@.accumulated,
            r as nat >= self@.accumulated,
            exists|now: nat| r as nat == self@.elapsed_at(now),
    {
        let now = clock::clock_now_nanos();
        self.elapsed_at(now)
    }

    /// Creates a stopwatch that is already running, its run begun at the
    /// clock's current reading: the same as `new` followed by `start`.
    pub fn new_started() -> (s: Stopwatch)
        ensures
            s@.is_running(),
            s@.accumulated == 0,
            exists|now: nat| s@ == StopwatchView::initial().after_start(now),
    {
        let now = clock::clock_now_nanos();
        Stopwatch::new_started_at(now)
    }
}

} // verus!
