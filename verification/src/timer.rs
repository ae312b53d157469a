//! Tick-driven timers.
//!
//! Spell lifecycles are governed by two timer shapes: a one-shot timer
//! that runs once up to its duration and then stays finished, and a
//! repeating timer that fires once per tick in which it wraps past its
//! period.  Elapsed time is counted in milliseconds.

use vstd::prelude::*;

verus! {

/// A one-shot countdown: runs to its duration and stays there.
#[derive(Clone, Copy, PartialEq, Eq, Structural, Debug)]
pub struct OnceTimer {
    pub elapsed_ms: u32,
    pub duration_ms: u32,
}

impl OnceTimer {
    pub open spec fn wf(self) -> bool {
        self.elapsed_ms <= self.duration_ms
    }

    pub open spec fn spec_finished(self) -> bool {
        self.elapsed_ms >= self.duration_ms
    }

    pub fn new(duration_ms: u32) -> (t: OnceTimer)
        ensures
            t == (OnceTimer { elapsed_ms: 0, duration_ms }),
            t.wf(),
    {
        OnceTimer { elapsed_ms: 0, duration_ms }
    }

    /// Advance by `dt` milliseconds, clamped to the duration; reports
    /// whether the timer finished during this very tick.
    pub fn tick(&mut self, dt_ms: u32) -> (just_finished: bool)
        requires
            old(self).wf(),
        ensures
            final(self).wf(),
            final(self).duration_ms == old(self).duration_ms,
            final(self).elapsed_ms == (
            if old(self).elapsed_ms + dt_ms >= old(self).duration_ms {
                old(self).duration_ms as int
            } else {
                old(self).elapsed_ms + dt_ms
            }),
            just_finished == (!old(self).spec_finished() && final(self).spec_finished()),
    {
        let was_finished = self.elapsed_ms >= self.duration_ms;
        let run: u64 = self.elapsed_ms as u64 + dt_ms as u64;
        if run >= self.duration_ms as u64 {
            self.elapsed_ms = self.duration_ms;
        } else {
            self.elapsed_ms = run as u32;
        }
        !was_finished && self.elapsed_ms >= self.duration_ms
    }

    pub fn finished(&self) -> (b: bool)
        ensures
            b == self.spec_finished(),
    {
        self.elapsed_ms >= self.duration_ms
    }
}

/// A repeating timer: fires once in every tick in which it wraps past its
/// period, keeping the overshoot.
#[derive(Clone, Copy, PartialEq, Eq, Structural, Debug)]
pub struct RepeatTimer {
    pub elapsed_ms: u32,
    pub period_ms: u32,
}

impl RepeatTimer {
    pub open spec fn wf(self) -> bool {
        &&& self.period_ms > 0
        &&& self.elapsed_ms < self.period_ms
    }

    pub fn new(period_ms: u32) -> (t: RepeatTimer)
        requires
            period_ms > 0,
        ensures
            t == (RepeatTimer { elapsed_ms: 0, period_ms }),
            t.wf(),
    {
        RepeatTimer { elapsed_ms: 0, period_ms }
    }

    /// Advance by `dt` milliseconds; fires when the period is crossed and
    /// wraps the elapsed time modulo the period.
    pub fn tick(&mut self, dt_ms: u32) -> (fired: bool)
        requires
            old(self).wf(),
        ensures
            final(self).wf(),
            final(self).period_ms == old(self).period_ms,
            fired == (old(self).elapsed_ms + dt_ms >= old(self).period_ms),
            final(self).elapsed_ms == (old(self).elapsed_ms + dt_ms) % (
            old(self).period_ms as int),
    {
        let run: u64 = self.elapsed_ms as u64 + dt_ms as u64;
        let fired = run >= self.period_ms as u64;
        let rem: u64 = run % self.period_ms as u64;
        proof {
            assert(run as int % self.period_ms as int == rem as int);
            if !fired {
                vstd::arithmetic::div_mod::lemma_small_mod(
                    run as nat,
                    self.period_ms as nat,
                );
            }
        }
        self.elapsed_ms = rem as u32;
        fired
    }
}

} // verus!
