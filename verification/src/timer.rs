//! Count-up timers for the grace windows of the movement core.
//!
//! A timer owns a fixed duration and an elapsed time, both in milliseconds.
//! It counts up under `tick` and stops at its duration; `finished` means the
//! duration has fully elapsed. The jump, buffer and coyote windows are all
//! "not yet finished" tests, and a controller that wants to consume a window
//! sets it finished directly with `finish`.

use vstd::prelude::*;

verus! {

#[derive(Clone, Copy, PartialEq, Eq, Structural, Debug)]
pub struct Timer {
    pub duration_ms: u64,
    pub elapsed_ms: u64,
}

impl Timer {
    /// Elapsed time never runs past the duration.
    pub open spec fn wf(self) -> bool {
        self.elapsed_ms <= self.duration_ms
    }

    /// The whole duration has elapsed.
    pub open spec fn spec_finished(self) -> bool {
        self.elapsed_ms >= self.duration_ms
    }

    /// The timer after `dt` more milliseconds.
    pub open spec fn tick_s(self, dt: u64) -> Timer {
        Timer {
            duration_ms: self.duration_ms,
            elapsed_ms: if self.elapsed_ms + dt >= self.duration_ms {
                self.duration_ms
            } else {
                (self.elapsed_ms + dt) as u64
            },
        }
    }

    /// A fresh timer: nothing elapsed yet.
    pub fn new(duration_ms: u64) -> (r: Timer)
        ensures
            r.duration_ms == duration_ms,
            r.elapsed_ms == 0,
            r.wf(),
    {
        Timer { duration_ms, elapsed_ms: 0 }
    }

    /// Advance by `dt` milliseconds, stopping at the duration.
    pub fn tick(&mut self, dt: u64)
        requires
            old(self).wf(),
        ensures
            *final(self) == old(self).tick_s(dt),
            final(self).wf(),
    {
        let rem: u64 = self.duration_ms - self.elapsed_ms;
        if dt >= rem {
            self.elapsed_ms = self.duration_ms;
        } else {
            self.elapsed_ms = self.elapsed_ms + dt;
        }
    }

    /// Start the window over.
    pub fn reset(&mut self)
        ensures
            final(self).duration_ms == old(self).duration_ms,
            final(self).elapsed_ms == 0,
            final(self).wf(),
    {
        self.elapsed_ms = 0;
    }

    /// Consume the window: the timer reads as finished from now on.
    pub fn finish(&mut self)
        ensures
            final(self).duration_ms == old(self).duration_ms,
            final(self).elapsed_ms == old(self).duration_ms,
            final(self).wf(),
    {
        self.elapsed_ms = self.duration_ms;
    }

    pub fn finished(&self) -> (r: bool)
        ensures
            r == self.spec_finished(),
    {
        self.elapsed_ms >= self.duration_ms
    }

    /// Time left before the window closes.
    pub fn remaining_ms(&self) -> (r: u64)
        requires
            self.wf(),
        ensures
            r == self.duration_ms - self.elapsed_ms,
    {
        self.duration_ms - self.elapsed_ms
    }
}

/// The timer after a whole run of ticks.
pub open spec fn tick_all_s(t: Timer, dts: Seq<u64>) -> Timer
    decreases dts.len(),
{
    if dts.len() == 0 {
        t
    } else {
        tick_all_s(t.tick_s(dts[0]), dts.subrange(1, dts.len() as int))
    }
}

/// Total time of a run of ticks.
pub open spec fn sum_s(dts: Seq<u64>) -> int
    decreases dts.len(),
{
    if dts.len() == 0 {
        0
    } else {
        dts[0] + sum_s(dts.subrange(1, dts.len() as int))
    }
}

/// A window that was just opened (nothing elapsed) stays open under any run
/// of ticks exactly while their total stays below the duration.
pub proof fn lemma_timer_window(t: Timer, dts: Seq<u64>)
    requires
        t.wf(),
        t.elapsed_ms == 0,
    ensures
        tick_all_s(t, dts).duration_ms == t.duration_ms,
        tick_all_s(t, dts).elapsed_ms == if sum_s(dts) >= t.duration_ms {
            t.duration_ms as int
        } else {
            sum_s(dts)
        },
        !tick_all_s(t, dts).spec_finished() <==> sum_s(dts) < t.duration_ms,
    decreases dts.len(),
{
    lemma_timer_run(t, dts);
}

/// The elapsed time after a run of ticks is the old elapsed time plus the
/// run's total, stopped at the duration.
pub proof fn lemma_timer_run(t: Timer, dts: Seq<u64>)
    requires
        t.wf(),
    ensures
        tick_all_s(t, dts).duration_ms == t.duration_ms,
        tick_all_s(t, dts).elapsed_ms == if t.elapsed_ms + sum_s(dts) >= t.duration_ms {
            t.duration_ms as int
        } else {
            t.elapsed_ms + sum_s(dts)
        },
    decreases dts.len(),
{
    if dts.len() > 0 {
        let rest = dts.subrange(1, dts.len() as int);
        assert(sum_s(rest) >= 0) by { lemma_sum_nonneg(rest) };
        lemma_timer_run(t.tick_s(dts[0]), rest);
    }
}

/// A run's total time is never negative.
pub proof fn lemma_sum_nonneg(dts: Seq<u64>)
    ensures
        sum_s(dts) >= 0,
    decreases dts.len(),
{
    if dts.len() > 0 {
        lemma_sum_nonneg(dts.subrange(1, dts.len() as int));
    }
}

} // verus!
