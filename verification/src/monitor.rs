//! The monitor loop's per-tick decision logic.
//!
//! Once per second the surrounding binary reads the engine's cumulative
//! counters, the published P99 and the live knob record, and hands them to
//! [`MonitorState::tick`]. Everything the tick decides — wraparound-safe
//! deltas, regime commitment with a confirmation hold, graduated relaxation
//! of a tightened slice, cache-affinity feedback on the batch slice,
//! stability scoring with reflex hibernation, and telemetry gating — is
//! stated by [`spec_tick`] and proved here; the binary only performs the
//! writes the outcome asks for.

use vstd::prelude::*;

use crate::arith::{ratio_percent, spec_percent, spec_ratio_percent, percent_of};
use crate::tuning::{
    adjust_batch_slice, detect_regime, regime_knobs, spec_adjust_batch_slice, spec_detect,
    spec_hibernate_samples, spec_p99_ceiling, spec_regime_knobs, spec_should_print,
    spec_stability_score, compute_stability_score, hibernate_samples_per_check,
    should_print_telemetry, Regime, TuningKnobs, BATCH_STEP_UP_NS, L2_HOLD_TICKS,
    STABILITY_THRESHOLD,
};
use vstd::wrapping::u64_specs;

verus! {

/// Consecutive ticks a detected regime change must persist before it is
/// committed.
pub const REGIME_SWITCH_HOLD: u32 = 2;

/// Step by which a tightened slice is walked back toward baseline.
pub const RELAX_STEP_NS: u64 = 500_000;

/// Consecutive good-P99 ticks required before each relax step.
pub const RELAX_HOLD_TICKS: u32 = 2;

/// The engine's cumulative counters, polled once per tick. Every field may
/// wrap over a long session; consumers only ever look at wraparound-safe
/// deltas between consecutive polls.
#[derive(Clone, Copy, Debug, PartialEq, Eq, Structural)]
pub struct EngineStats {
    pub nr_dispatches: u64,
    pub nr_idle_hits: u64,
    pub nr_shared: u64,
    pub nr_preempt: u64,
    pub nr_keep_running: u64,
    pub nr_hard_kicks: u64,
    pub nr_soft_kicks: u64,
    pub nr_enq_wakeup: u64,
    pub nr_enq_requeue: u64,
    pub wake_lat_sum: u64,
    pub wake_lat_samples: u64,
    pub wake_lat_idle_sum: u64,
    pub wake_lat_idle_cnt: u64,
    pub wake_lat_kick_sum: u64,
    pub wake_lat_kick_cnt: u64,
    pub nr_guard_clamps: u64,
    pub nr_affinity_hits: u64,
    pub nr_affinity_misses: u64,
}

impl Default for EngineStats {
    fn default() -> (s: EngineStats)
        ensures
            s == EngineStats::zeroed(),
    {
        EngineStats {
            nr_dispatches: 0,
            nr_idle_hits: 0,
            nr_shared: 0,
            nr_preempt: 0,
            nr_keep_running: 0,
            nr_hard_kicks: 0,
            nr_soft_kicks: 0,
            nr_enq_wakeup: 0,
            nr_enq_requeue: 0,
            wake_lat_sum: 0,
            wake_lat_samples: 0,
            wake_lat_idle_sum: 0,
            wake_lat_idle_cnt: 0,
            wake_lat_kick_sum: 0,
            wake_lat_kick_cnt: 0,
            nr_guard_clamps: 0,
            nr_affinity_hits: 0,
            nr_affinity_misses: 0,
        }
    }
}

impl EngineStats {
    pub open spec fn zeroed() -> EngineStats {
        EngineStats {
            nr_dispatches: 0,
            nr_idle_hits: 0,
            nr_shared: 0,
            nr_preempt: 0,
            nr_keep_running: 0,
            nr_hard_kicks: 0,
            nr_soft_kicks: 0,
            nr_enq_wakeup: 0,
            nr_enq_requeue: 0,
            wake_lat_sum: 0,
            wake_lat_samples: 0,
            wake_lat_idle_sum: 0,
            wake_lat_idle_cnt: 0,
            wake_lat_kick_sum: 0,
            wake_lat_kick_cnt: 0,
            nr_guard_clamps: 0,
            nr_affinity_hits: 0,
            nr_affinity_misses: 0,
        }
    }
}

/// Per-field wraparound-safe difference of two counter snapshots.
pub open spec fn spec_stats_delta(prev: EngineStats, cur: EngineStats) -> EngineStats {
    EngineStats {
        nr_dispatches: u64_specs::wrapping_sub(cur.nr_dispatches, prev.nr_dispatches),
        nr_idle_hits: u64_specs::wrapping_sub(cur.nr_idle_hits, prev.nr_idle_hits),
        nr_shared: u64_specs::wrapping_sub(cur.nr_shared, prev.nr_shared),
        nr_preempt: u64_specs::wrapping_sub(cur.nr_preempt, prev.nr_preempt),
        nr_keep_running: u64_specs::wrapping_sub(cur.nr_keep_running, prev.nr_keep_running),
        nr_hard_kicks: u64_specs::wrapping_sub(cur.nr_hard_kicks, prev.nr_hard_kicks),
        nr_soft_kicks: u64_specs::wrapping_sub(cur.nr_soft_kicks, prev.nr_soft_kicks),
        nr_enq_wakeup: u64_specs::wrapping_sub(cur.nr_enq_wakeup, prev.nr_enq_wakeup),
        nr_enq_requeue: u64_specs::wrapping_sub(cur.nr_enq_requeue, prev.nr_enq_requeue),
        wake_lat_sum: u64_specs::wrapping_sub(cur.wake_lat_sum, prev.wake_lat_sum),
        wake_lat_samples: u64_specs::wrapping_sub(cur.wake_lat_samples, prev.wake_lat_samples),
        wake_lat_idle_sum: u64_specs::wrapping_sub(cur.wake_lat_idle_sum, prev.wake_lat_idle_sum),
        wake_lat_idle_cnt: u64_specs::wrapping_sub(cur.wake_lat_idle_cnt, prev.wake_lat_idle_cnt),
        wake_lat_kick_sum: u64_specs::wrapping_sub(cur.wake_lat_kick_sum, prev.wake_lat_kick_sum),
        wake_lat_kick_cnt: u64_specs::wrapping_sub(cur.wake_lat_kick_cnt, prev.wake_lat_kick_cnt),
        nr_guard_clamps: u64_specs::wrapping_sub(cur.nr_guard_clamps, prev.nr_guard_clamps),
        nr_affinity_hits: u64_specs::wrapping_sub(cur.nr_affinity_hits, prev.nr_affinity_hits),
        nr_affinity_misses: u64_specs::wrapping_sub(
            cur.nr_affinity_misses,
            prev.nr_affinity_misses,
        ),
    }
}

fn wsub(a: u64, b: u64) -> (r: u64)
    ensures
        r == u64_specs::wrapping_sub(a, b),
{
    a.wrapping_sub(b)
}

/// Computes the interval deltas between two counter snapshots.
pub fn stats_delta(prev: &EngineStats, cur: &EngineStats) -> (d: EngineStats)
    ensures
        d == spec_stats_delta(*prev, *cur),
{
    EngineStats {
        nr_dispatches: wsub(cur.nr_dispatches, prev.nr_dispatches),
        nr_idle_hits: wsub(cur.nr_idle_hits, prev.nr_idle_hits),
        nr_shared: wsub(cur.nr_shared, prev.nr_shared),
        nr_preempt: wsub(cur.nr_preempt, prev.nr_preempt),
        nr_keep_running: wsub(cur.nr_keep_running, prev.nr_keep_running),
        nr_hard_kicks: wsub(cur.nr_hard_kicks, prev.nr_hard_kicks),
        nr_soft_kicks: wsub(cur.nr_soft_kicks, prev.nr_soft_kicks),
        nr_enq_wakeup: wsub(cur.nr_enq_wakeup, prev.nr_enq_wakeup),
        nr_enq_requeue: wsub(cur.nr_enq_requeue, prev.nr_enq_requeue),
        wake_lat_sum: wsub(cur.wake_lat_sum, prev.wake_lat_sum),
        wake_lat_samples: wsub(cur.wake_lat_samples, prev.wake_lat_samples),
        wake_lat_idle_sum: wsub(cur.wake_lat_idle_sum, prev.wake_lat_idle_sum),
        wake_lat_idle_cnt: wsub(cur.wake_lat_idle_cnt, prev.wake_lat_idle_cnt),
        wake_lat_kick_sum: wsub(cur.wake_lat_kick_sum, prev.wake_lat_kick_sum),
        wake_lat_kick_cnt: wsub(cur.wake_lat_kick_cnt, prev.wake_lat_kick_cnt),
        nr_guard_clamps: wsub(cur.nr_guard_clamps, prev.nr_guard_clamps),
        nr_affinity_hits: wsub(cur.nr_affinity_hits, prev.nr_affinity_hits),
        nr_affinity_misses: wsub(cur.nr_affinity_misses, prev.nr_affinity_misses),
    }
}

/// Average in microseconds of a latency sum over its sample count, zero when
/// the interval had no samples.
pub open spec fn spec_avg_us(sum_ns: u64, cnt: u64) -> u64 {
    if cnt > 0 {
        (sum_ns / cnt / 1000) as u64
    } else {
        0
    }
}

fn avg_us(sum_ns: u64, cnt: u64) -> (r: u64)
    ensures
        r == spec_avg_us(sum_ns, cnt),
{
    if cnt > 0 {
        sum_ns / cnt / 1000
    } else {
        0
    }
}

/// Regime commitment with a confirmation hold: a detected change must be the
/// same detected regime on `REGIME_SWITCH_HOLD` consecutive ticks before the
/// active regime switches; a change of mind restarts the hold at 1; no
/// detected change clears the pending memory. Returns the new (regime,
/// pending regime, hold counter, committed-change flag).
pub open spec fn spec_regime_step(
    regime: Regime,
    pending: Regime,
    hold: u32,
    idle_pct: u64,
) -> (Regime, Regime, u32, bool) {
    let detected = spec_detect(regime, idle_pct);
    if detected != regime {
        let new_hold: u32 = if detected == pending {
            (hold + 1) as u32
        } else {
            1u32
        };
        let new_pending = if detected == pending {
            pending
        } else {
            detected
        };
        if new_hold >= REGIME_SWITCH_HOLD {
            (detected, new_pending, new_hold, true)
        } else {
            (regime, new_pending, new_hold, false)
        }
    } else {
        (regime, regime, 0u32, false)
    }
}

/// One relax step of a tightened slice toward baseline: up by the fixed
/// increment, clamped so it never overshoots the baseline.
pub open spec fn spec_relax_slice(slice_ns: u64, baseline_slice_ns: u64) -> u64 {
    if slice_ns + RELAX_STEP_NS < baseline_slice_ns {
        (slice_ns + RELAX_STEP_NS) as u64
    } else {
        baseline_slice_ns
    }
}

/// The relax step never overshoots and makes strict progress.
pub proof fn lemma_relax_step_bounds(slice_ns: u64, baseline_slice_ns: u64)
    requires
        slice_ns < baseline_slice_ns,
    ensures
        slice_ns < spec_relax_slice(slice_ns, baseline_slice_ns) <= baseline_slice_ns,
{
}

/// `n` relax steps from `slice_ns` toward the baseline.
pub open spec fn spec_relax_iter(slice_ns: u64, baseline_slice_ns: u64, n: nat) -> u64
    decreases n,
{
    if n == 0 {
        slice_ns
    } else {
        spec_relax_iter(
            spec_relax_slice(slice_ns, baseline_slice_ns),
            baseline_slice_ns,
            (n - 1) as nat,
        )
    }
}

/// Graduated relaxation converges: from any tightened slice, enough good
/// ticks step the slice to exactly the baseline — never past it.
pub proof fn lemma_relax_converges(slice_ns: u64, baseline_slice_ns: u64, n: nat)
    requires
        slice_ns <= baseline_slice_ns,
        baseline_slice_ns <= slice_ns + n * RELAX_STEP_NS,
    ensures
        spec_relax_iter(slice_ns, baseline_slice_ns, n) == baseline_slice_ns,
    decreases n,
{
    if n == 0 {
    } else {
        let next = spec_relax_slice(slice_ns, baseline_slice_ns);
        assert(baseline_slice_ns <= next + (n - 1) * RELAX_STEP_NS) by {
            assert(n * RELAX_STEP_NS == (n - 1) * RELAX_STEP_NS + RELAX_STEP_NS)
                by (nonlinear_arith);
        }
        lemma_relax_converges(next, baseline_slice_ns, (n - 1) as nat);
    }
}

/// What one monitor tick decided.
#[derive(Clone, Copy, Debug, PartialEq, Eq, Structural)]
pub struct TickOutcome {
    /// Interval deltas of every engine counter, for telemetry and the log.
    pub deltas: EngineStats,
    /// Idle percentage of the interval (0 when no dispatches occurred).
    pub idle_pct: u64,
    /// Mean wakeup latency of the interval, microseconds.
    pub wake_avg_us: u64,
    /// Mean wakeup latency over the idle dispatch path, microseconds.
    pub lat_idle_us: u64,
    /// Mean wakeup latency over the kick dispatch path, microseconds.
    pub lat_kick_us: u64,
    /// Cache-affinity hit rate of the interval, percent; 0 when no samples.
    pub l2_pct: u64,
    /// Whether the active regime switched this tick.
    pub regime_changed: bool,
    /// The knob record after this tick's decisions.
    pub knobs: TuningKnobs,
    /// Whether `knobs` differs from what the engine holds and must be
    /// written back.
    pub write_knobs: bool,
    /// The reflex controller's sample threshold for the coming interval.
    pub samples_per_check: u32,
    /// Whether this tick's telemetry line is printed.
    pub print_telemetry: bool,
}

/// Private bookkeeping of the monitor loop between ticks.
pub struct MonitorState {
    /// The committed active regime.
    pub regime: Regime,
    /// The regime detected on the previous tick, awaiting confirmation.
    pub pending_regime: Regime,
    /// Consecutive ticks the pending regime has been detected.
    pub regime_hold: u32,
    /// Whether the live knobs are known to sit below the regime baseline.
    pub tightened: bool,
    /// Consecutive good-P99 ticks since the last relax step.
    pub relax_counter: u32,
    /// Consecutive ticks the affinity hit rate has been below the low mark.
    pub l2_low_ticks: u32,
    /// Consecutive ticks the affinity hit rate has been above the high mark.
    pub l2_high_ticks: u32,
    /// Current stability score, capped at `STABILITY_THRESHOLD`.
    pub stability_score: u32,
    /// Ticks seen so far.
    pub tick_counter: u64,
    /// Ticks spent in each regime.
    pub light_ticks: u64,
    pub mixed_ticks: u64,
    pub heavy_ticks: u64,
    /// Counter snapshot of the previous tick.
    pub prev_stats: EngineStats,
    /// Reflex event count seen at the previous tick.
    pub prev_reflex_events: u64,
}

impl MonitorState {
    pub open spec fn wf(self) -> bool {
        &&& self.stability_score <= STABILITY_THRESHOLD
        &&& self.regime_hold <= REGIME_SWITCH_HOLD
        &&& self.regime_hold >= REGIME_SWITCH_HOLD ==> self.pending_regime == self.regime
        &&& self.relax_counter < RELAX_HOLD_TICKS
        &&& self.l2_low_ticks < L2_HOLD_TICKS
        &&& self.l2_high_ticks < L2_HOLD_TICKS
        &&& self.light_ticks + self.mixed_ticks + self.heavy_ticks == self.tick_counter
    }

    /// A fresh monitor starting in the Mixed regime, knowing nothing yet.
    pub fn new() -> (m: Self)
        ensures
            m.wf(),
            m.regime == Regime::Mixed,
            m.pending_regime == Regime::Mixed,
            m.regime_hold == 0,
            !m.tightened,
            m.relax_counter == 0,
            m.l2_low_ticks == 0,
            m.l2_high_ticks == 0,
            m.stability_score == 0,
            m.tick_counter == 0,
            m.prev_stats == EngineStats::zeroed(),
            m.prev_reflex_events == 0,
    {
        MonitorState {
            regime: Regime::Mixed,
            pending_regime: Regime::Mixed,
            regime_hold: 0,
            tightened: false,
            relax_counter: 0,
            l2_low_ticks: 0,
            l2_high_ticks: 0,
            stability_score: 0,
            tick_counter: 0,
            light_ticks: 0,
            mixed_ticks: 0,
            heavy_ticks: 0,
            prev_stats: EngineStats::default(),
            prev_reflex_events: 0,
        }
    }
}

/// The whole tick as a function of the previous state and this tick's
/// inputs: the next state and the outcome. The stages mirror the loop's
/// order: deltas and rates; regime commitment; graduated relaxation;
/// detection of reflex tightening from the live slice; cache-affinity
/// feedback; stability scoring and telemetry gating; bookkeeping.
pub open spec fn spec_tick(
    st: MonitorState,
    stats: EngineStats,
    p99_ns: u64,
    live_knobs: TuningKnobs,
    reflex_events: u64,
) -> (MonitorState, TickOutcome) {
    let d = spec_stats_delta(st.prev_stats, stats);
    let idle_pct = spec_percent(d.nr_idle_hits, d.nr_dispatches);
    let (regime, pending, hold, changed) = spec_regime_step(
        st.regime,
        st.pending_regime,
        st.regime_hold,
        idle_pct,
    );
    let knobs0 = if changed {
        spec_regime_knobs(regime)
    } else {
        live_knobs
    };
    let write0 = changed;
    let tightened0 = if changed {
        false
    } else {
        st.tightened
    };
    let relax0 = if changed {
        0u32
    } else {
        st.relax_counter
    };
    // Graduated relaxation.
    let baseline = spec_regime_knobs(regime);
    let good_p99 = p99_ns <= spec_p99_ceiling(regime);
    let stepping = tightened0 && good_p99 && relax0 + 1 >= RELAX_HOLD_TICKS;
    let relax1 = if !tightened0 {
        relax0
    } else if !good_p99 {
        0u32
    } else if relax0 + 1 >= RELAX_HOLD_TICKS {
        0u32
    } else {
        (relax0 + 1) as u32
    };
    let new_slice = spec_relax_slice(knobs0.slice_ns, baseline.slice_ns);
    let knobs1 = if stepping && knobs0.slice_ns < baseline.slice_ns {
        TuningKnobs {
            slice_ns: new_slice,
            preempt_thresh_ns: if baseline.preempt_thresh_ns < new_slice {
                baseline.preempt_thresh_ns
            } else {
                new_slice
            },
            ..knobs0
        }
    } else {
        knobs0
    };
    let write1 = write0 || (stepping && knobs0.slice_ns < baseline.slice_ns);
    let tightened1 = if stepping {
        if knobs0.slice_ns < baseline.slice_ns {
            new_slice < baseline.slice_ns
        } else {
            false
        }
    } else {
        tightened0
    };
    // A live slice below baseline means the reflex controller acted.
    let tightened2 = tightened1 || knobs1.slice_ns < baseline.slice_ns;
    let relax2 = if !tightened1 && knobs1.slice_ns < baseline.slice_ns {
        0u32
    } else {
        relax1
    };
    // Cache-affinity feedback, only when the interval had affinity samples.
    let l2_pct = spec_ratio_percent(d.nr_affinity_hits, d.nr_affinity_misses);
    let has_l2 = d.nr_affinity_hits + d.nr_affinity_misses > 0;
    let (batch2, low2, high2) = if has_l2 {
        spec_adjust_batch_slice(
            knobs1.batch_slice_ns,
            baseline.batch_slice_ns,
            l2_pct,
            st.l2_low_ticks,
            st.l2_high_ticks,
        )
    } else {
        (knobs1.batch_slice_ns, st.l2_low_ticks, st.l2_high_ticks)
    };
    let knobs2 = TuningKnobs { batch_slice_ns: batch2, ..knobs1 };
    let write2 = write1 || batch2 != knobs1.batch_slice_ns;
    // Stability scoring, hibernation and telemetry gating.
    let reflex_delta = u64_specs::wrapping_sub(reflex_events, st.prev_reflex_events);
    let score = spec_stability_score(
        st.stability_score,
        changed,
        d.nr_guard_clamps,
        reflex_delta,
        p99_ns,
        spec_p99_ceiling(regime),
    );
    let spc = spec_hibernate_samples(regime, score);
    let printing = spec_should_print(st.tick_counter, score);
    let next = MonitorState {
        regime,
        pending_regime: pending,
        regime_hold: hold,
        tightened: tightened2,
        relax_counter: relax2,
        l2_low_ticks: low2,
        l2_high_ticks: high2,
        stability_score: score,
        tick_counter: (st.tick_counter + 1) as u64,
        light_ticks: if regime == Regime::Light {
            (st.light_ticks + 1) as u64
        } else {
            st.light_ticks
        },
        mixed_ticks: if regime == Regime::Mixed {
            (st.mixed_ticks + 1) as u64
        } else {
            st.mixed_ticks
        },
        heavy_ticks: if regime == Regime::Heavy {
            (st.heavy_ticks + 1) as u64
        } else {
            st.heavy_ticks
        },
        prev_stats: stats,
        prev_reflex_events: reflex_events,
    };
    let outcome = TickOutcome {
        deltas: d,
        idle_pct,
        wake_avg_us: spec_avg_us(d.wake_lat_sum, d.wake_lat_samples),
        lat_idle_us: spec_avg_us(d.wake_lat_idle_sum, d.wake_lat_idle_cnt),
        lat_kick_us: spec_avg_us(d.wake_lat_kick_sum, d.wake_lat_kick_cnt),
        l2_pct,
        regime_changed: changed,
        knobs: knobs2,
        write_knobs: write2,
        samples_per_check: spc,
        print_telemetry: printing,
    };
    (next, outcome)
}

impl MonitorState {
    /// One tick of the monitor loop. `stats` is the fresh cumulative counter
    /// snapshot, `p99_ns` the latest published percentile, `live_knobs` the
    /// knob record as the engine holds it now, `reflex_events` the
    /// cumulative reflex tightening count. The state advances and the
    /// returned outcome says exactly what to write and print; both are
    /// pinned to [`spec_tick`].
    pub fn tick(
        &mut self,
        stats: EngineStats,
        p99_ns: u64,
        live_knobs: TuningKnobs,
        reflex_events: u64,
    ) -> (out: TickOutcome)
        requires
            old(self).wf(),
            old(self).tick_counter < u64::MAX,
            live_knobs.batch_slice_ns <= u64::MAX - BATCH_STEP_UP_NS,
        ensures
            final(self).wf(),
            (*final(self), out) == spec_tick(*old(self), stats, p99_ns, live_knobs, reflex_events),
            final(self).tick_counter == old(self).tick_counter + 1,
    {
        let d = stats_delta(&self.prev_stats, &stats);
        let idle_pct = percent_of(d.nr_idle_hits, d.nr_dispatches);

        // Regime commitment with confirmation hold.
        let detected = detect_regime(self.regime, idle_pct);
        let mut changed = false;
        if detected != self.regime {
            if detected == self.pending_regime {
                self.regime_hold = self.regime_hold + 1;
            } else {
                self.pending_regime = detected;
                self.regime_hold = 1;
            }
            if self.regime_hold >= REGIME_SWITCH_HOLD {
                self.regime = detected;
                changed = true;
                self.tightened = false;
                self.relax_counter = 0;
            }
        } else {
            self.pending_regime = self.regime;
            self.regime_hold = 0;
        }

        let baseline = regime_knobs(self.regime);
        let mut knobs = if changed {
            baseline
        } else {
            live_knobs
        };
        let mut write_knobs = changed;

        // Graduated relaxation of a tightened slice.
        if self.tightened {
            let ceiling = self.regime.p99_ceiling();
            if p99_ns <= ceiling {
                let run = self.relax_counter + 1;
                if run >= RELAX_HOLD_TICKS {
                    if knobs.slice_ns < baseline.slice_ns {
                        let stepped = knobs.slice_ns + RELAX_STEP_NS;
                        let new_slice = if stepped < baseline.slice_ns {
                            stepped
                        } else {
                            baseline.slice_ns
                        };
                        knobs = TuningKnobs {
                            slice_ns: new_slice,
                            preempt_thresh_ns: if baseline.preempt_thresh_ns < new_slice {
                                baseline.preempt_thresh_ns
                            } else {
                                new_slice
                            },
                            lag_scale: knobs.lag_scale,
                            batch_slice_ns: knobs.batch_slice_ns,
                            cpu_bound_thresh_ns: knobs.cpu_bound_thresh_ns,
                            lat_cri_thresh_high: knobs.lat_cri_thresh_high,
                            lat_cri_thresh_low: knobs.lat_cri_thresh_low,
                        };
                        write_knobs = true;
                        if new_slice >= baseline.slice_ns {
                            self.tightened = false;
                        }
                    } else {
                        self.tightened = false;
                    }
                    self.relax_counter = 0;
                } else {
                    self.relax_counter = run;
                }
            } else {
                self.relax_counter = 0;
            }
        }

        // A live slice below the baseline means the reflex controller acted
        // without this loop's knowledge.
        if !self.tightened && knobs.slice_ns < baseline.slice_ns {
            self.tightened = true;
            self.relax_counter = 0;
        }

        // Cache-affinity feedback on the batch slice.
        let l2_pct = ratio_percent(d.nr_affinity_hits, d.nr_affinity_misses);
        if d.nr_affinity_hits > 0 || d.nr_affinity_misses > 0 {
            let (new_batch, new_low, new_high) = adjust_batch_slice(
                knobs.batch_slice_ns,
                baseline.batch_slice_ns,
                l2_pct,
                self.l2_low_ticks,
                self.l2_high_ticks,
            );
            self.l2_low_ticks = new_low;
            self.l2_high_ticks = new_high;
            if new_batch != knobs.batch_slice_ns {
                knobs = TuningKnobs {
                    slice_ns: knobs.slice_ns,
                    preempt_thresh_ns: knobs.preempt_thresh_ns,
                    lag_scale: knobs.lag_scale,
                    batch_slice_ns: new_batch,
                    cpu_bound_thresh_ns: knobs.cpu_bound_thresh_ns,
                    lat_cri_thresh_high: knobs.lat_cri_thresh_high,
                    lat_cri_thresh_low: knobs.lat_cri_thresh_low,
                };
                write_knobs = true;
            }
        }

        // Stability scoring, hibernation, telemetry gating.
        let reflex_delta = wsub(reflex_events, self.prev_reflex_events);
        let score = compute_stability_score(
            self.stability_score,
            changed,
            d.nr_guard_clamps,
            reflex_delta,
            p99_ns,
            self.regime.p99_ceiling(),
        );
        self.stability_score = score;
        let spc = hibernate_samples_per_check(self.regime, score);
        let printing = should_print_telemetry(self.tick_counter, score);

        match self.regime {
            Regime::Light => {
                self.light_ticks = self.light_ticks + 1;
            },
            Regime::Mixed => {
                self.mixed_ticks = self.mixed_ticks + 1;
            },
            Regime::Heavy => {
                self.heavy_ticks = self.heavy_ticks + 1;
            },
        }
        let out = TickOutcome {
            deltas: d,
            idle_pct,
            wake_avg_us: avg_us(d.wake_lat_sum, d.wake_lat_samples),
            lat_idle_us: avg_us(d.wake_lat_idle_sum, d.wake_lat_idle_cnt),
            lat_kick_us: avg_us(d.wake_lat_kick_sum, d.wake_lat_kick_cnt),
            l2_pct,
            regime_changed: changed,
            knobs,
            write_knobs,
            samples_per_check: spc,
            print_telemetry: printing,
        };
        self.tick_counter = self.tick_counter + 1;
        self.prev_stats = stats;
        self.prev_reflex_events = reflex_events;
        out
    }
}

} // verus!
