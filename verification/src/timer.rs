//! A repeating tick timer, stepped once per frame by the frame's duration.

use vstd::prelude::*;

verus! {

/// A timer that finishes every `period_ms` milliseconds of accumulated
/// frame time, keeping the remainder so that no time is lost across ticks.
#[derive(Clone, Copy, PartialEq, Eq, Structural, Debug)]
pub struct TickTimer {
    pub elapsed_ms: u64,
    pub period_ms: u64,
}

impl TickTimer {
    /// The period is positive and the stored remainder stays below it.
    pub open spec fn wf(self) -> bool {
        0 < self.period_ms && self.elapsed_ms < self.period_ms
    }

    /// A fresh timer with the given period and no time accumulated.
    pub fn new(period_ms: u64) -> (r: TickTimer)
        requires
            0 < period_ms,
        ensures
            r == (TickTimer { elapsed_ms: 0u64, period_ms }),
            r.wf(),
    {
        TickTimer { elapsed_ms: 0, period_ms }
    }

    /// One frame's step: the frame time joins the accumulated remainder,
    /// the timer reports whether a period boundary was reached, and the
    /// time past the last boundary is kept for the next frame.
    pub fn tick(&mut self, delta_ms: u64) -> (just_finished: bool)
        requires
            old(self).wf(),
            old(self).elapsed_ms + delta_ms <= u64::MAX,
        ensures
            final(self).wf(),
            final(self).period_ms == old(self).period_ms,
            just_finished == (old(self).elapsed_ms + delta_ms >= old(self).period_ms),
            final(self).elapsed_ms == (old(self).elapsed_ms + delta_ms) % (
            old(self).period_ms as int),
    {
        let total: u64 = self.elapsed_ms + delta_ms;
        if total >= self.period_ms {
            self.elapsed_ms = total % self.period_ms;
            true
        } else {
            proof {
                vstd::arithmetic::div_mod::lemma_small_mod(total as nat, self.period_ms as nat);
            }
            self.elapsed_ms = total;
            false
        }
    }
}

} // verus!
