//! The reflex controller: the fast, event-reactive tightening path.
//!
//! The surrounding binary consumes the engine's latency-sample stream and
//! drains the shared histogram once enough samples have accumulated; every
//! fresh P99 estimate is handed to [`ReflexController::on_p99`], which owns
//! the debounce and cooldown bookkeeping and decides whether the knobs are
//! tightened this check. The tightening rule itself, [`tighten_knobs`], is a
//! pure function on the knob record.

use vstd::prelude::*;

use crate::tuning::{Regime, TuningKnobs, spec_p99_ceiling};

verus! {

/// Checks to skip after any tightening action, suppressing immediate
/// re-triggering.
pub const COOLDOWN_CHECKS: u32 = 2;

/// Consecutive above-ceiling checks required before acting.
pub const SPIKE_DEBOUNCE: u32 = 2;

/// Absolute floor for the time slice under repeated tightening.
pub const MIN_SLICE_NS: u64 = 500_000;

pub open spec fn spec_tighten_slice(slice_ns: u64) -> u64 {
    if slice_ns * 3 / 4 > MIN_SLICE_NS {
        (slice_ns * 3 / 4) as u64
    } else {
        MIN_SLICE_NS
    }
}

pub open spec fn spec_tighten_knobs(current: TuningKnobs) -> TuningKnobs {
    TuningKnobs {
        slice_ns: spec_tighten_slice(current.slice_ns),
        preempt_thresh_ns: spec_tighten_slice(current.slice_ns),
        ..current
    }
}

/// The tightening action: the time slice drops to three quarters of its
/// current value, clamped to the fixed floor; the preemption threshold is set
/// equal to the new slice; every other knob is left untouched.
pub fn tighten_knobs(current: &TuningKnobs) -> (k: TuningKnobs)
    requires
        current.slice_ns <= u64::MAX / 3,
    ensures
        k == spec_tighten_knobs(*current),
        k.slice_ns >= MIN_SLICE_NS,
        k.preempt_thresh_ns == k.slice_ns,
{
    let reduced = current.slice_ns * 3 / 4;
    let new_slice = if reduced > MIN_SLICE_NS {
        reduced
    } else {
        MIN_SLICE_NS
    };
    TuningKnobs {
        slice_ns: new_slice,
        preempt_thresh_ns: new_slice,
        lag_scale: current.lag_scale,
        batch_slice_ns: current.batch_slice_ns,
        cpu_bound_thresh_ns: current.cpu_bound_thresh_ns,
        lat_cri_thresh_high: current.lat_cri_thresh_high,
        lat_cri_thresh_low: current.lat_cri_thresh_low,
    }
}

/// Tightening is strictly decreasing until the floor and never passes it:
/// from any slice at or above the floor, one step stays within
/// `[MIN_SLICE_NS, slice]`, strictly below the starting slice unless the
/// floor has been reached. Hence repeated tightening never goes below the
/// floor.
pub proof fn lemma_tighten_slice_floor(slice_ns: u64)
    requires
        MIN_SLICE_NS <= slice_ns <= u64::MAX / 3,
    ensures
        MIN_SLICE_NS <= spec_tighten_slice(slice_ns) <= slice_ns,
        slice_ns > MIN_SLICE_NS ==> spec_tighten_slice(slice_ns) < slice_ns,
{
    assert(slice_ns * 3 / 4 < slice_ns || slice_ns == 0) by (nonlinear_arith);
}

/// Debounce and cooldown state of the reflex controller.
pub struct ReflexController {
    /// Checks still to skip after the last action.
    pub cooldown: u32,
    /// Consecutive above-ceiling checks seen so far.
    pub spike_count: u32,
}

impl ReflexController {
    pub open spec fn wf(self) -> bool {
        self.cooldown <= COOLDOWN_CHECKS && self.spike_count < SPIKE_DEBOUNCE
    }

    pub fn new() -> (c: Self)
        ensures
            c.wf(),
            c.cooldown == 0,
            c.spike_count == 0,
    {
        ReflexController { cooldown: 0, spike_count: 0 }
    }

    /// One evaluation of a fresh P99 estimate against the active regime's
    /// ceiling. Returns whether the knobs are to be tightened now. A check
    /// inside the cooldown window only counts the window down; a spike must
    /// be seen on `SPIKE_DEBOUNCE` consecutive evaluations before anything
    /// happens, and then action is taken only in Mixed — Light has no
    /// contention to relieve and Heavy is already saturated. Reaching the
    /// debounce threshold starts the cooldown and clears the spike run even
    /// when the regime gate withholds the action itself.
    pub fn on_p99(&mut self, p99_ns: u64, current_regime: Regime) -> (tighten: bool)
        requires
            old(self).wf(),
        ensures
            final(self).wf(),
            old(self).cooldown > 0 ==> {
                &&& !tighten
                &&& final(self).cooldown == old(self).cooldown - 1
                &&& final(self).spike_count == old(self).spike_count
            },
            old(self).cooldown == 0 && p99_ns <= spec_p99_ceiling(current_regime) ==> {
                &&& !tighten
                &&& final(self).cooldown == 0
                &&& final(self).spike_count == 0
            },
            old(self).cooldown == 0 && p99_ns > spec_p99_ceiling(current_regime) ==> {
                if old(self).spike_count + 1 >= SPIKE_DEBOUNCE {
                    &&& tighten == (current_regime == Regime::Mixed)
                    &&& final(self).cooldown == COOLDOWN_CHECKS
                    &&& final(self).spike_count == 0
                } else {
                    &&& !tighten
                    &&& final(self).cooldown == 0
                    &&& final(self).spike_count == old(self).spike_count + 1
                }
            },
    {
        if self.cooldown > 0 {
            self.cooldown = self.cooldown - 1;
            return false;
        }
        let ceiling = current_regime.p99_ceiling();
        if p99_ns > ceiling {
            let run = self.spike_count + 1;
            if run >= SPIKE_DEBOUNCE {
                self.cooldown = COOLDOWN_CHECKS;
                self.spike_count = 0;
                current_regime == Regime::Mixed
            } else {
                self.spike_count = run;
                false
            }
        } else {
            self.spike_count = 0;
            false
        }
    }
}

} // verus!
