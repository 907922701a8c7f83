//! A one-shot countdown timer driven by explicit time deltas.
//!
//! Times are counted in nanoseconds. The timer behaves like a once-mode
//! timer of the Bevy game engine: ticks accumulate while it runs, it
//! finishes when the accumulated time reaches its duration, and it then
//! stays finished, with its elapsed time pinned to the duration, until it
//! is reset.
use vstd::prelude::*;

verus! {

/// The largest span a `std::time::Duration` can hold, in nanoseconds.
pub const MAX_DURATION_NANOS: u128 = 18_446_744_073_709_551_615_999_999_999u128;

/// Nanoseconds in one second.
pub const NANOS_PER_SEC: u128 = 1_000_000_000u128;

/// The mathematical state of a [`Timer`].
pub struct TimerView {
    pub duration: nat,
    pub elapsed: nat,
    pub paused: bool,
    pub finished: bool,
}

impl TimerView {
    /// The states a timer can reach.
    pub open spec fn valid(self) -> bool {
        &&& self.duration <= MAX_DURATION_NANOS
        &&& self.elapsed <= self.duration
        &&& self.finished ==> self.elapsed == self.duration
    }

    /// A fresh, running, unfinished timer of the given duration.
    pub open spec fn fresh(duration: nat) -> TimerView {
        TimerView { duration, elapsed: 0, paused: false, finished: false }
    }

    /// The state after a tick of `delta` nanoseconds.
    pub open spec fn ticked(self, delta: nat) -> TimerView {
        if self.paused || self.finished {
            self
        } else if self.elapsed + delta >= self.duration {
            TimerView { elapsed: self.duration, finished: true, ..self }
        } else {
            TimerView { elapsed: self.elapsed + delta, ..self }
        }
    }

    /// The state after a reset: no time elapsed, not finished, pause kept.
    pub open spec fn reset(self) -> TimerView {
        TimerView { elapsed: 0, finished: false, ..self }
    }

    pub open spec fn with_paused(self, paused: bool) -> TimerView {
        TimerView { paused, ..self }
    }
}

/// A one-shot countdown timer.
#[derive(Debug, Clone, Copy)]
pub struct Timer {
    duration: u128,
    elapsed: u128,
    paused: bool,
    finished: bool,
}

impl View for Timer {
    type V = TimerView;

    closed spec fn view(&self) -> TimerView {
        TimerView {
            duration: self.duration as nat,
            elapsed: self.elapsed as nat,
            paused: self.paused,
            finished: self.finished,
        }
    }
}

impl Timer {
    pub open spec fn wf(&self) -> bool {
        self@.valid()
    }

    /// A running timer that finishes after `duration` nanoseconds.
    pub fn new(duration: u128) -> (t: Timer)
        requires
            duration <= MAX_DURATION_NANOS,
        ensures
            t.wf(),
            t@ == TimerView::fresh(duration as nat),
    {
        Timer { duration, elapsed: 0, paused: false, finished: false }
    }

    /// Advances the timer by `delta` nanoseconds, unless it is paused or
    /// has already finished.
    pub fn tick(&mut self, delta: u128)
        requires
            old(self).wf(),
            delta <= MAX_DURATION_NANOS,
        ensures
            final(self).wf(),
            final(self)@ == old(self)@.ticked(delta as nat),
    {
        if self.paused || self.finished {
            return;
        }
        // both terms are at most MAX_DURATION_NANOS, so the sum fits
        let total = self.elapsed + delta;
        if total >= self.duration {
            self.elapsed = self.duration;
            self.finished = true;
        } else {
            self.elapsed = total;
        }
    }

    pub fn finished(&self) -> (b: bool)
        ensures
            b == self@.finished,
    {
        self.finished
    }

    pub fn paused(&self) -> (b: bool)
        ensures
            b == self@.paused,
    {
        self.paused
    }

    pub fn elapsed(&self) -> (e: u128)
        ensures
            e == self@.elapsed,
    {
        self.elapsed
    }

    pub fn duration(&self) -> (d: u128)
        ensures
            d == self@.duration,
    {
        self.duration
    }

    pub fn pause(&mut self)
        requires
            old(self).wf(),
        ensures
            final(self).wf(),
            final(self)@ == old(self)@.with_paused(true),
    {
        self.paused = true;
    }

    pub fn unpause(&mut self)
        requires
            old(self).wf(),
        ensures
            final(self).wf(),
            final(self)@ == old(self)@.with_paused(false),
    {
        self.paused = false;
    }

    /// Clears the elapsed time and the finished flag; the pause is kept.
    pub fn reset(&mut self)
        requires
            old(self).wf(),
        ensures
            final(self).wf(),
            final(self)@ == old(self)@.reset(),
    {
        self.elapsed = 0;
        self.finished = false;
    }
}

} // verus!
