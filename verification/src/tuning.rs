//! Regime classification and the pure knob-tuning rules.
//!
//! A `Regime` is a discrete classification of system load; each regime has a
//! fixed baseline `TuningKnobs` profile and a tail-latency ceiling. Regime
//! detection is a Schmitt trigger: the thresholds for entering a regime differ
//! from those for leaving it, so a boundary value cannot make the classifier
//! oscillate. The rest of this module is the pure arithmetic of the control
//! loops: stability scoring, sampling-rate hibernation, cache-affinity
//! feedback on the batch slice, and telemetry gating.

use vstd::prelude::*;

verus! {

// Schmitt-trigger thresholds, in percent idle.
pub const HEAVY_ENTER_PCT: u64 = 10;
pub const HEAVY_EXIT_PCT: u64 = 25;
pub const LIGHT_ENTER_PCT: u64 = 50;
pub const LIGHT_EXIT_PCT: u64 = 30;

// Baseline profiles, per regime.
pub const LIGHT_SLICE_NS: u64 = 2_000_000;
pub const LIGHT_PREEMPT_NS: u64 = 1_000_000;
pub const LIGHT_LAG_SCALE: u64 = 6;
pub const LIGHT_BATCH_NS: u64 = 20_000_000;

pub const MIXED_SLICE_NS: u64 = 1_000_000;
pub const MIXED_PREEMPT_NS: u64 = 1_000_000;
pub const MIXED_LAG_SCALE: u64 = 4;
pub const MIXED_BATCH_NS: u64 = 20_000_000;

pub const HEAVY_SLICE_NS: u64 = 4_000_000;
pub const HEAVY_PREEMPT_NS: u64 = 2_000_000;
pub const HEAVY_LAG_SCALE: u64 = 2;
pub const HEAVY_BATCH_NS: u64 = 20_000_000;

// Tail-latency ceilings, per regime.
pub const LIGHT_P99_CEIL_NS: u64 = 3_000_000;
pub const MIXED_P99_CEIL_NS: u64 = 5_000_000;
pub const HEAVY_P99_CEIL_NS: u64 = 10_000_000;

// CPU-bound demotion thresholds, per regime.
pub const LIGHT_DEMOTION_NS: u64 = 3_500_000;
pub const MIXED_DEMOTION_NS: u64 = 2_500_000;
pub const HEAVY_DEMOTION_NS: u64 = 2_000_000;

// Adaptive reflex sampling rate, per regime.
pub const LIGHT_SAMPLES_PER_CHECK: u32 = 16;
pub const MIXED_SAMPLES_PER_CHECK: u32 = 32;
pub const HEAVY_SAMPLES_PER_CHECK: u32 = 64;

// Tier-classification score thresholds.
pub const DEFAULT_LAT_CRI_THRESH_HIGH: u64 = 32;
pub const DEFAULT_LAT_CRI_THRESH_LOW: u64 = 8;

// Stability scoring: reflex hibernation after a run of quiet ticks.
pub const STABILITY_THRESHOLD: u32 = 10;
pub const HIBERNATE_MULTIPLIER: u32 = 4;

// Cache-affinity feedback on the batch slice.
pub const L2_LOW_THRESH: u64 = 55;
pub const L2_HIGH_THRESH: u64 = 70;
pub const BATCH_STEP_UP_NS: u64 = 2_000_000;
pub const BATCH_STEP_DOWN_NS: u64 = 1_000_000;
pub const BATCH_MAX_NS: u64 = 24_000_000;
pub const L2_HOLD_TICKS: u32 = 3;

/// The shared knob record consumed by the kernel-resident engine on its next
/// scheduling decision.
#[derive(Clone, Copy, Debug, PartialEq, Eq, Structural)]
pub struct TuningKnobs {
    pub slice_ns: u64,
    pub preempt_thresh_ns: u64,
    pub lag_scale: u64,
    pub batch_slice_ns: u64,
    pub cpu_bound_thresh_ns: u64,
    pub lat_cri_thresh_high: u64,
    pub lat_cri_thresh_low: u64,
}

impl Default for TuningKnobs {
    /// The knobs the engine starts with before any regime is committed:
    /// the Mixed baseline.
    fn default() -> (k: TuningKnobs)
        ensures
            k == spec_regime_knobs(Regime::Mixed),
    {
        TuningKnobs {
            slice_ns: MIXED_SLICE_NS,
            preempt_thresh_ns: MIXED_PREEMPT_NS,
            lag_scale: MIXED_LAG_SCALE,
            batch_slice_ns: MIXED_BATCH_NS,
            cpu_bound_thresh_ns: MIXED_DEMOTION_NS,
            lat_cri_thresh_high: DEFAULT_LAT_CRI_THRESH_HIGH,
            lat_cri_thresh_low: DEFAULT_LAT_CRI_THRESH_LOW,
        }
    }
}

/// Discrete classification of current system load.
#[derive(Clone, Copy, Debug, PartialEq, Eq, Structural)]
pub enum Regime {
    Light,
    Mixed,
    Heavy,
}

impl Regime {
    /// Decodes the regime from its shared-state byte; any unknown byte is
    /// read as Heavy, the most conservative profile.
    pub fn from_u8(v: u8) -> (r: Self)
        ensures
            r == spec_regime_from_u8(v),
    {
        match v {
            0 => Self::Light,
            1 => Self::Mixed,
            _ => Self::Heavy,
        }
    }

    /// Encodes the regime as the byte stored in shared state.
    pub fn to_u8(self) -> (v: u8)
        ensures
            v == spec_regime_u8(self),
            v <= 2,
    {
        match self {
            Self::Light => 0,
            Self::Mixed => 1,
            Self::Heavy => 2,
        }
    }

    pub fn label(self) -> (s: &'static str)
        ensures
            self == Regime::Light ==> s@ == "LIGHT"@,
            self == Regime::Mixed ==> s@ == "MIXED"@,
            self == Regime::Heavy ==> s@ == "HEAVY"@,
    {
        match self {
            Self::Light => "LIGHT",
            Self::Mixed => "MIXED",
            Self::Heavy => "HEAVY",
        }
    }

    /// The tail-latency ceiling the reflex controller enforces in this regime.
    pub fn p99_ceiling(self) -> (c: u64)
        ensures
            c == spec_p99_ceiling(self),
    {
        match self {
            Self::Light => LIGHT_P99_CEIL_NS,
            Self::Mixed => MIXED_P99_CEIL_NS,
            Self::Heavy => HEAVY_P99_CEIL_NS,
        }
    }
}

pub open spec fn spec_regime_from_u8(v: u8) -> Regime {
    if v == 0 {
        Regime::Light
    } else if v == 1 {
        Regime::Mixed
    } else {
        Regime::Heavy
    }
}

pub open spec fn spec_regime_u8(r: Regime) -> u8 {
    match r {
        Regime::Light => 0,
        Regime::Mixed => 1,
        Regime::Heavy => 2,
    }
}

pub open spec fn spec_p99_ceiling(r: Regime) -> u64 {
    match r {
        Regime::Light => LIGHT_P99_CEIL_NS,
        Regime::Mixed => MIXED_P99_CEIL_NS,
        Regime::Heavy => HEAVY_P99_CEIL_NS,
    }
}

pub open spec fn spec_regime_knobs(r: Regime) -> TuningKnobs {
    match r {
        Regime::Light => (TuningKnobs {
            slice_ns: LIGHT_SLICE_NS,
            preempt_thresh_ns: LIGHT_PREEMPT_NS,
            lag_scale: LIGHT_LAG_SCALE,
            batch_slice_ns: LIGHT_BATCH_NS,
            cpu_bound_thresh_ns: LIGHT_DEMOTION_NS,
            lat_cri_thresh_high: DEFAULT_LAT_CRI_THRESH_HIGH,
            lat_cri_thresh_low: DEFAULT_LAT_CRI_THRESH_LOW,
        }),
        Regime::Mixed => (TuningKnobs {
            slice_ns: MIXED_SLICE_NS,
            preempt_thresh_ns: MIXED_PREEMPT_NS,
            lag_scale: MIXED_LAG_SCALE,
            batch_slice_ns: MIXED_BATCH_NS,
            cpu_bound_thresh_ns: MIXED_DEMOTION_NS,
            lat_cri_thresh_high: DEFAULT_LAT_CRI_THRESH_HIGH,
            lat_cri_thresh_low: DEFAULT_LAT_CRI_THRESH_LOW,
        }),
        Regime::Heavy => (TuningKnobs {
            slice_ns: HEAVY_SLICE_NS,
            preempt_thresh_ns: HEAVY_PREEMPT_NS,
            lag_scale: HEAVY_LAG_SCALE,
            batch_slice_ns: HEAVY_BATCH_NS,
            cpu_bound_thresh_ns: HEAVY_DEMOTION_NS,
            lat_cri_thresh_high: DEFAULT_LAT_CRI_THRESH_HIGH,
            lat_cri_thresh_low: DEFAULT_LAT_CRI_THRESH_LOW,
        }),
    }
}

/// Baseline knob profile for a regime.
pub fn regime_knobs(r: Regime) -> (k: TuningKnobs)
    ensures
        k == spec_regime_knobs(r),
{
    match r {
        Regime::Light => TuningKnobs {
            slice_ns: LIGHT_SLICE_NS,
            preempt_thresh_ns: LIGHT_PREEMPT_NS,
            lag_scale: LIGHT_LAG_SCALE,
            batch_slice_ns: LIGHT_BATCH_NS,
            cpu_bound_thresh_ns: LIGHT_DEMOTION_NS,
            lat_cri_thresh_high: DEFAULT_LAT_CRI_THRESH_HIGH,
            lat_cri_thresh_low: DEFAULT_LAT_CRI_THRESH_LOW,
        },
        Regime::Mixed => TuningKnobs::default(),
        Regime::Heavy => TuningKnobs {
            slice_ns: HEAVY_SLICE_NS,
            preempt_thresh_ns: HEAVY_PREEMPT_NS,
            lag_scale: HEAVY_LAG_SCALE,
            batch_slice_ns: HEAVY_BATCH_NS,
            cpu_bound_thresh_ns: HEAVY_DEMOTION_NS,
            lat_cri_thresh_high: DEFAULT_LAT_CRI_THRESH_HIGH,
            lat_cri_thresh_low: DEFAULT_LAT_CRI_THRESH_LOW,
        },
    }
}

/// Direction-aware hysteresis: the thresholds consulted depend on the regime
/// the classifier is currently in, never on the target alone.
pub open spec fn spec_detect(current: Regime, idle_pct: u64) -> Regime {
    match current {
        Regime::Light => if idle_pct < LIGHT_EXIT_PCT {
            Regime::Mixed
        } else {
            Regime::Light
        },
        Regime::Mixed => if idle_pct > LIGHT_ENTER_PCT {
            Regime::Light
        } else if idle_pct < HEAVY_ENTER_PCT {
            Regime::Heavy
        } else {
            Regime::Mixed
        },
        Regime::Heavy => if idle_pct > HEAVY_EXIT_PCT {
            Regime::Mixed
        } else {
            Regime::Heavy
        },
    }
}

/// Classifies the load of the last interval. Pure: the result depends only on
/// the current regime and the measured idle percentage.
pub fn detect_regime(current: Regime, idle_pct: u64) -> (r: Regime)
    ensures
        r == spec_detect(current, idle_pct),
{
    match current {
        Regime::Light => {
            if idle_pct < LIGHT_EXIT_PCT {
                Regime::Mixed
            } else {
                Regime::Light
            }
        },
        Regime::Mixed => {
            if idle_pct > LIGHT_ENTER_PCT {
                Regime::Light
            } else if idle_pct < HEAVY_ENTER_PCT {
                Regime::Heavy
            } else {
                Regime::Mixed
            }
        },
        Regime::Heavy => {
            if idle_pct > HEAVY_EXIT_PCT {
                Regime::Mixed
            } else {
                Regime::Heavy
            }
        },
    }
}

/// Inside a regime's dead zone the classifier is a fixed point: an idle
/// percentage between the regime's exit and entry thresholds leaves the
/// regime unchanged, which is what keeps a boundary load from oscillating.
pub proof fn lemma_detect_dead_zone(current: Regime, idle_pct: u64)
    requires
        current == Regime::Light ==> idle_pct >= LIGHT_EXIT_PCT,
        current == Regime::Mixed ==> HEAVY_ENTER_PCT <= idle_pct <= LIGHT_ENTER_PCT,
        current == Regime::Heavy ==> idle_pct <= HEAVY_EXIT_PCT,
    ensures
        spec_detect(current, idle_pct) == current,
{
}

/// Direction sensitivity of the hysteresis: for any idle percentage in the
/// band between the Heavy-enter and Light-exit thresholds, Light falls to
/// Mixed while Mixed stays Mixed — the same measurement yields different
/// outcomes depending on the regime it is seen from.
pub proof fn lemma_detect_direction_sensitive(idle_pct: u64)
    requires
        HEAVY_ENTER_PCT <= idle_pct < LIGHT_EXIT_PCT,
    ensures
        spec_detect(Regime::Light, idle_pct) == Regime::Mixed,
        spec_detect(Regime::Mixed, idle_pct) == Regime::Mixed,
{
}

/// How many latency samples the reflex controller accumulates between
/// percentile checks, at base sensitivity.
pub fn samples_per_check_for_regime(r: Regime) -> (n: u32)
    ensures
        n == spec_samples_per_check(r),
{
    match r {
        Regime::Light => LIGHT_SAMPLES_PER_CHECK,
        Regime::Mixed => MIXED_SAMPLES_PER_CHECK,
        Regime::Heavy => HEAVY_SAMPLES_PER_CHECK,
    }
}

pub open spec fn spec_samples_per_check(r: Regime) -> u32 {
    match r {
        Regime::Light => LIGHT_SAMPLES_PER_CHECK,
        Regime::Mixed => MIXED_SAMPLES_PER_CHECK,
        Regime::Heavy => HEAVY_SAMPLES_PER_CHECK,
    }
}

pub open spec fn spec_stability_score(
    prev_score: u32,
    regime_changed: bool,
    guard_clamps: u64,
    reflex_events_delta: u64,
    p99_ns: u64,
    p99_ceiling_ns: u64,
) -> u32 {
    if regime_changed || guard_clamps > 0 || reflex_events_delta > 0 || p99_ns > p99_ceiling_ns
        / 2 {
        0
    } else if prev_score + 1 < STABILITY_THRESHOLD {
        (prev_score + 1) as u32
    } else {
        STABILITY_THRESHOLD
    }
}

/// One step of the stability score: a quiet tick (no regime change, no
/// defensive clamps, no reflex tightening, P99 at or below half the ceiling)
/// raises the score by one up to the cap; anything else resets it to zero.
pub fn compute_stability_score(
    prev_score: u32,
    regime_changed: bool,
    guard_clamps: u64,
    reflex_events_delta: u64,
    p99_ns: u64,
    p99_ceiling_ns: u64,
) -> (score: u32)
    requires
        prev_score < u32::MAX,
    ensures
        score == spec_stability_score(
            prev_score,
            regime_changed,
            guard_clamps,
            reflex_events_delta,
            p99_ns,
            p99_ceiling_ns,
        ),
        score <= STABILITY_THRESHOLD,
{
    if regime_changed || guard_clamps > 0 || reflex_events_delta > 0 || p99_ns > p99_ceiling_ns
        / 2 {
        return 0;
    }
    let next = prev_score + 1;
    if next < STABILITY_THRESHOLD {
        next
    } else {
        STABILITY_THRESHOLD
    }
}

pub open spec fn spec_hibernate_samples(regime: Regime, stability_score: u32) -> u32 {
    if stability_score >= STABILITY_THRESHOLD {
        (spec_samples_per_check(regime) * HIBERNATE_MULTIPLIER) as u32
    } else {
        spec_samples_per_check(regime)
    }
}

/// The reflex controller's live sample threshold: the regime base rate,
/// multiplied once the stability score has reached its cap, so a stable
/// system pays less percentile-computation overhead.
pub fn hibernate_samples_per_check(regime: Regime, stability_score: u32) -> (n: u32)
    ensures
        n == spec_hibernate_samples(regime, stability_score),
        stability_score < STABILITY_THRESHOLD ==> n == spec_samples_per_check(regime),
{
    let base = samples_per_check_for_regime(regime);
    if stability_score >= STABILITY_THRESHOLD {
        base * HIBERNATE_MULTIPLIER
    } else {
        base
    }
}

pub open spec fn spec_adjust_batch_slice(
    current_batch_ns: u64,
    baseline_batch_ns: u64,
    l2_pct: u64,
    l2_low_ticks: u32,
    l2_high_ticks: u32,
) -> (u64, u32, u32) {
    if l2_pct < L2_LOW_THRESH {
        if l2_low_ticks + 1 >= L2_HOLD_TICKS {
            (
                if current_batch_ns + BATCH_STEP_UP_NS < BATCH_MAX_NS {
                    (current_batch_ns + BATCH_STEP_UP_NS) as u64
                } else {
                    BATCH_MAX_NS
                },
                0u32,
                0u32,
            )
        } else {
            (current_batch_ns, (l2_low_ticks + 1) as u32, 0u32)
        }
    } else if l2_pct > L2_HIGH_THRESH {
        if l2_high_ticks + 1 >= L2_HOLD_TICKS {
            (
                if current_batch_ns >= BATCH_STEP_DOWN_NS && current_batch_ns - BATCH_STEP_DOWN_NS
                    > baseline_batch_ns {
                    (current_batch_ns - BATCH_STEP_DOWN_NS) as u64
                } else {
                    baseline_batch_ns
                },
                0u32,
                0u32,
            )
        } else {
            (current_batch_ns, 0u32, (l2_high_ticks + 1) as u32)
        }
    } else {
        (current_batch_ns, 0u32, 0u32)
    }
}

/// Closed-loop cache-affinity feedback. A hit rate below the low threshold
/// held for `L2_HOLD_TICKS` consecutive ticks steps the batch slice up by the
/// larger increment (capped at `BATCH_MAX_NS`); one above the high threshold
/// held as long steps it down by the smaller increment (floored at the regime
/// baseline); a rate strictly between the thresholds resets both hold
/// counters without touching the slice. Returns the new slice and the two
/// hold counters.
pub fn adjust_batch_slice(
    current_batch_ns: u64,
    baseline_batch_ns: u64,
    l2_pct: u64,
    l2_low_ticks: u32,
    l2_high_ticks: u32,
) -> (r: (u64, u32, u32))
    requires
        current_batch_ns <= u64::MAX - BATCH_STEP_UP_NS,
        l2_low_ticks < u32::MAX,
        l2_high_ticks < u32::MAX,
    ensures
        r == spec_adjust_batch_slice(
            current_batch_ns,
            baseline_batch_ns,
            l2_pct,
            l2_low_ticks,
            l2_high_ticks,
        ),
        L2_LOW_THRESH <= l2_pct <= L2_HIGH_THRESH ==> r == (current_batch_ns, 0u32, 0u32),
{
    if l2_pct < L2_LOW_THRESH {
        let new_low = l2_low_ticks + 1;
        if new_low >= L2_HOLD_TICKS {
            let stepped = current_batch_ns + BATCH_STEP_UP_NS;
            let new_batch = if stepped < BATCH_MAX_NS {
                stepped
            } else {
                BATCH_MAX_NS
            };
            return (new_batch, 0, 0);
        }
        return (current_batch_ns, new_low, 0);
    }
    if l2_pct > L2_HIGH_THRESH {
        let new_high = l2_high_ticks + 1;
        if new_high >= L2_HOLD_TICKS {
            let lowered = if current_batch_ns >= BATCH_STEP_DOWN_NS {
                current_batch_ns - BATCH_STEP_DOWN_NS
            } else {
                0
            };
            let new_batch = if lowered > baseline_batch_ns {
                lowered
            } else {
                baseline_batch_ns
            };
            return (new_batch, 0, 0);
        }
        return (current_batch_ns, 0, new_high);
    }
    (current_batch_ns, 0, 0)
}

pub open spec fn spec_should_print(tick_counter: u64, stability_score: u32) -> bool {
    if stability_score >= STABILITY_THRESHOLD {
        tick_counter % 2 == 0
    } else {
        true
    }
}

/// Telemetry gating: every tick while unstable, every other tick once the
/// stability score has reached its cap.
pub fn should_print_telemetry(tick_counter: u64, stability_score: u32) -> (p: bool)
    ensures
        p == spec_should_print(tick_counter, stability_score),
{
    if stability_score >= STABILITY_THRESHOLD {
        tick_counter % 2 == 0
    } else {
        true
    }
}

} // verus!
