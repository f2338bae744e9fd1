//! A monotonic one-shot countdown, advanced once per tick by the elapsed
//! tick time. All durations are in milliseconds.

use vstd::prelude::*;

verus! {

/// A one-shot countdown timer. It accumulates elapsed time up to its
/// duration and reports `finished` once the duration has been reached.
#[derive(Clone, Copy, Debug, PartialEq, Eq, Structural)]
pub struct Timer {
    /// Total duration of the countdown, in milliseconds.
    pub duration: u64,
    /// Time accumulated so far, in milliseconds. Never exceeds `duration`
    /// for a timer built by [`Timer::new`] and advanced by [`Timer::tick`].
    pub elapsed: u64,
}

impl Timer {
    /// A well-formed timer never accumulates more than its duration.
    pub open spec fn wf(self) -> bool {
        self.elapsed <= self.duration
    }

    /// Milliseconds still to run.
    pub open spec fn spec_remaining(self) -> int {
        if self.elapsed <= self.duration {
            self.duration - self.elapsed
        } else {
            0
        }
    }

    /// The timer after one advance by `delta` milliseconds: elapsed time
    /// accumulates and saturates at the duration.
    pub open spec fn spec_tick(self, delta: u64) -> Timer {
        Timer {
            duration: self.duration,
            elapsed: if self.elapsed + delta >= self.duration {
                self.duration
            } else {
                (self.elapsed + delta) as u64
            },
        }
    }

    /// Whether the countdown has run to completion.
    pub open spec fn spec_finished(self) -> bool {
        self.elapsed >= self.duration
    }

    /// A fresh, unstarted countdown of `duration` milliseconds.
    pub fn new(duration: u64) -> (r: Timer)
        ensures
            r == (Timer { duration, elapsed: 0 }),
            r.wf(),
    {
        Timer { duration, elapsed: 0 }
    }

    /// Advance the countdown by `delta` milliseconds, saturating at the
    /// duration. Once finished, a timer stays finished.
    pub fn tick(&mut self, delta: u64)
        ensures
            *final(self) == old(self).spec_tick(delta),
            old(self).spec_finished() ==> final(self).spec_finished(),
            old(self).wf() ==> final(self).wf(),
    {
        if self.elapsed >= self.duration {
            self.elapsed = self.duration;
        } else if delta >= self.duration - self.elapsed {
            self.elapsed = self.duration;
        } else {
            self.elapsed = self.elapsed + delta;
        }
    }

    /// Whether the countdown has run to completion.
    pub fn finished(&self) -> (r: bool)
        ensures
            r == self.spec_finished(),
    {
        self.elapsed >= self.duration
    }
}

/// Advancing a well-formed, unfinished timer by a positive delta strictly
/// decreases the remaining time; the remaining time never goes below zero.
pub proof fn lemma_tick_strictly_decreases(t: Timer, delta: u64)
    requires
        t.wf(),
        delta > 0,
        !t.spec_finished(),
    ensures
        t.spec_tick(delta).spec_remaining() < t.spec_remaining(),
        t.spec_tick(delta).spec_remaining() >= 0,
{
}

/// Once a timer has finished, ticking it further keeps it finished, with
/// zero time remaining.
pub proof fn lemma_finished_is_stable(t: Timer, delta: u64)
    requires
        t.spec_finished(),
    ensures
        t.spec_tick(delta).spec_finished(),
        t.spec_tick(delta).spec_remaining() == 0,
{
}

} // verus!
