// Monitor tick scenarios: regime commitment with the confirmation hold,
// graduated relaxation, reflex-tightening detection, cache-affinity
// feedback, stability scoring and telemetry gating; and the reflex
// controller's debounce, cooldown, regime gate and tightening rule.

use pandemonium::monitor::{EngineStats, MonitorState, TickOutcome};
use pandemonium::reflex::{tighten_knobs, ReflexController, COOLDOWN_CHECKS, MIN_SLICE_NS};
use pandemonium::tuning::{regime_knobs, Regime, TuningKnobs, STABILITY_THRESHOLD};

fn stats_with(dispatches: u64, idle_hits: u64) -> EngineStats {
    let mut s = EngineStats::default();
    s.nr_dispatches = dispatches;
    s.nr_idle_hits = idle_hits;
    s
}

fn run_tick(m: &mut MonitorState, stats: EngineStats, p99: u64, knobs: TuningKnobs) -> TickOutcome {
    m.tick(stats, p99, knobs, 0)
}

#[test]
fn regime_switch_needs_two_consecutive_detections() {
    let mut m = MonitorState::new();
    let baseline = regime_knobs(Regime::Mixed);
    // TICK 1: 60% IDLE DETECTS LIGHT, BUT THE SWITCH IS HELD
    let out1 = run_tick(&mut m, stats_with(100, 60), 0, baseline);

    assert!(!out1.regime_changed);
    assert_eq!(m.regime, Regime::Mixed);
    assert_eq!(m.pending_regime, Regime::Light);

    // TICK 2: SAME DETECTION CONFIRMS, SWITCH COMMITTED, BASELINE WRITTEN
    let out2 = run_tick(&mut m, stats_with(200, 120), 0, baseline);
    assert!(out2.regime_changed);
    assert_eq!(m.regime, Regime::Light);
    assert!(out2.write_knobs);
    assert_eq!(out2.knobs, regime_knobs(Regime::Light));
}

#[test]
fn regime_switch_restarts_hold_on_changed_detection() {
    let mut m = MonitorState::new();
    let baseline = regime_knobs(Regime::Mixed);
    // LIGHT DETECTED ONCE...
    run_tick(&mut m, stats_with(100, 60), 0, baseline);
    // ...THEN HEAVY (IDLE DELTA 5%): THE HOLD RESTARTS AT 1, NO SWITCH
    let out = run_tick(&mut m, stats_with(200, 65), 0, baseline);
    assert!(!out.regime_changed);
    assert_eq!(m.regime, Regime::Mixed);
    assert_eq!(m.pending_regime, Regime::Heavy);
    // A SECOND HEAVY DETECTION COMMITS
    let out2 = run_tick(&mut m, stats_with(300, 70), 0, baseline);
    assert!(out2.regime_changed);
    assert_eq!(m.regime, Regime::Heavy);
}

#[test]
fn idle_pct_zero_without_dispatches() {
    let mut m = MonitorState::new();
    // NO DISPATCH DELTA: IDLE 0% DETECTS HEAVY FROM MIXED (HELD ONE TICK)
    let out = run_tick(&mut m, stats_with(0, 0), 0, regime_knobs(Regime::Mixed));
    assert_eq!(out.idle_pct, 0);
    assert_eq!(m.pending_regime, Regime::Heavy);
}

#[test]
fn tightened_slice_relaxes_to_baseline_and_never_overshoots() {
    let mut m = MonitorState::new();
    // HEAVY BASELINE (4MS SLICE) GIVES SEVERAL RELAX STEPS FROM THE FLOOR.
    m.regime = Regime::Heavy;
    m.pending_regime = Regime::Heavy;
    let baseline = regime_knobs(Regime::Heavy);

    // THE LIVE SLICE SITS FAR BELOW BASELINE (THE REFLEX PATH ACTED).
    let mut slice = 562_500u64;
    let mut cum = EngineStats::default();

    // TICK 1 ONLY DISCOVERS THE TIGHTENING
    cum.nr_dispatches += 100;
    cum.nr_idle_hits += 20;
    let out1 = m.tick(cum, 0, live_with(slice, baseline), 0);
    assert!(m.tightened);
    assert!(!out1.write_knobs);

    // GOOD P99 TICKS STEP THE SLICE BY 500000 NS EVERY SECOND TICK,
    // CLAMPED TO THE BASELINE, AND THE FLAG CLEARS EXACTLY AT BASELINE.
    let mut steps = 0;
    let mut ticks = 0;
    while m.tightened {
        cum.nr_dispatches += 100;
        cum.nr_idle_hits += 20;
        let out = m.tick(cum, 1_000_000, live_with(slice, baseline), 0);
        if out.write_knobs {
            assert_eq!(out.knobs.slice_ns, (slice + 500_000).min(baseline.slice_ns));
            assert_eq!(
                out.knobs.preempt_thresh_ns,
                baseline.preempt_thresh_ns.min(out.knobs.slice_ns)
            );
            slice = out.knobs.slice_ns;
            steps += 1;
        }
        ticks += 1;
        assert!(ticks < 32, "relaxation did not converge");
    }
    assert_eq!(slice, baseline.slice_ns); // EXACTLY BASELINE, NO OVERSHOOT
    assert_eq!(steps, 7); // 562500 + 7 STEPS OF 500000, LAST ONE CLAMPED
}

fn live_with(slice: u64, baseline: TuningKnobs) -> TuningKnobs {
    let mut k = baseline;
    k.slice_ns = slice;
    k.preempt_thresh_ns = slice.min(baseline.preempt_thresh_ns);
    k
}

#[test]
fn bad_p99_resets_the_relax_hold() {
    let mut m = MonitorState::new();
    let baseline = regime_knobs(Regime::Mixed);
    let live = live_with(600_000, baseline);
    let mut cum = EngineStats::default();

    cum.nr_dispatches += 100;
    cum.nr_idle_hits += 20;
    m.tick(cum, 0, live, 0); // DISCOVER TIGHTENING
    assert!(m.tightened);
    // ONE GOOD TICK ACCUMULATES HOLD...
    cum.nr_dispatches += 100;
    cum.nr_idle_hits += 20;
    m.tick(cum, 1_000_000, live, 0);
    assert_eq!(m.relax_counter, 1);
    // ...A SPIKE ABOVE THE CEILING RESETS IT WITHOUT REVERSING ANYTHING
    cum.nr_dispatches += 100;
    cum.nr_idle_hits += 20;
    let out = m.tick(cum, 9_000_000, live, 0);
    assert_eq!(m.relax_counter, 0);
    assert!(m.tightened);
    assert!(!out.write_knobs);
}

#[test]
fn cache_affinity_feedback_steps_batch_slice() {
    let mut m = MonitorState::new();
    let baseline = regime_knobs(Regime::Mixed);
    let mut knobs = baseline;

    // HIT RATE 50% (BELOW 55%) HELD FOR 3 CONSECUTIVE TICKS: +2MS, CAPPED AT 24MS
    let mut cumulative = EngineStats::default();
    for tick in 0..3 {
        cumulative.nr_affinity_hits += 50;
        cumulative.nr_affinity_misses += 50;
        cumulative.nr_dispatches += 100;
        cumulative.nr_idle_hits += 20;
        let out = m.tick(cumulative, 0, knobs, 0);
        assert_eq!(out.l2_pct, 50);
        if tick < 2 {
            assert_eq!(out.knobs.batch_slice_ns, 20_000_000);
        } else {
            assert_eq!(out.knobs.batch_slice_ns, 22_000_000);
            assert!(out.write_knobs);
            knobs = out.knobs;
        }
    }

    // HIT RATE 75% (ABOVE 70%) HELD FOR 3 TICKS: -1MS, FLOORED AT BASELINE
    for tick in 0..3 {
        cumulative.nr_affinity_hits += 75;
        cumulative.nr_affinity_misses += 25;
        cumulative.nr_dispatches += 100;
        cumulative.nr_idle_hits += 20;
        let out = m.tick(cumulative, 0, knobs, 0);
        assert_eq!(out.l2_pct, 75);
        if tick == 2 {
            assert_eq!(out.knobs.batch_slice_ns, 21_000_000);
            knobs = out.knobs;
        }
    }
    assert_eq!(knobs.batch_slice_ns, 21_000_000);
}

#[test]
fn stability_cap_hibernates_the_reflex_threshold() {
    let mut m = MonitorState::new();
    let baseline = regime_knobs(Regime::Mixed);
    let mut cum = EngineStats::default();
    // QUIET TICKS: NO REGIME CHANGE, NO CLAMPS, NO REFLEX EVENTS, P99 LOW
    for i in 0..12u32 {
        cum.nr_dispatches += 100;
        cum.nr_idle_hits += 20;
        let out = m.tick(cum, 0, baseline, 0);
        assert_eq!(m.stability_score, (i + 1).min(STABILITY_THRESHOLD));
        if m.stability_score >= STABILITY_THRESHOLD {
            assert_eq!(out.samples_per_check, 32 * 4);
        } else {
            assert_eq!(out.samples_per_check, 32);
        }
        // TELEMETRY PRINTS EVERY TICK WHILE UNSTABLE, EVERY OTHER ONCE CAPPED
        if m.stability_score < STABILITY_THRESHOLD {
            assert!(out.print_telemetry);
        }
    }
    assert_eq!(m.stability_score, STABILITY_THRESHOLD);
}

#[test]
fn reflex_event_delta_resets_stability() {
    let mut m = MonitorState::new();
    let baseline = regime_knobs(Regime::Mixed);
    run_tick(&mut m, stats_with(100, 20), 0, baseline);
    run_tick(&mut m, stats_with(200, 40), 0, baseline);
    assert!(m.stability_score > 0);
    // A REFLEX TIGHTENING EVENT SINCE THE LAST TICK RESETS THE SCORE
    let _ = m.tick(stats_with(300, 60), 0, baseline, 1);
    assert_eq!(m.stability_score, 0);
}

#[test]
fn deltas_survive_counter_wraparound() {
    let mut m = MonitorState::new();
    let baseline = regime_knobs(Regime::Mixed);
    let mut first = EngineStats::default();
    first.nr_dispatches = u64::MAX - 10;
    first.nr_idle_hits = u64::MAX - 10;
    run_tick(&mut m, first, 0, baseline);

    // THE COUNTER WRAPS PAST ZERO; THE DELTA IS STILL 40 DISPATCHES
    let mut second = first;
    second.nr_dispatches = 29; // +40 MOD 2^64
    second.nr_idle_hits = 9; // +20
    let out = run_tick(&mut m, second, 0, baseline);
    assert_eq!(out.deltas.nr_dispatches, 40);
    assert_eq!(out.deltas.nr_idle_hits, 20);
    assert_eq!(out.idle_pct, 50);
}

// === REFLEX CONTROLLER ===

#[test]
fn tighten_cuts_slice_to_three_quarters() {
    let mut k = regime_knobs(Regime::Light);
    assert_eq!(k.slice_ns, 2_000_000);
    k = tighten_knobs(&k);
    assert_eq!(k.slice_ns, 1_500_000);
    assert_eq!(k.preempt_thresh_ns, 1_500_000);
    // EVERYTHING ELSE UNTOUCHED
    assert_eq!(k.lag_scale, 6);
    assert_eq!(k.batch_slice_ns, 20_000_000);
}

#[test]
fn repeated_tightening_never_goes_below_the_floor() {
    let mut k = regime_knobs(Regime::Light);
    for _ in 0..64 {
        k = tighten_knobs(&k);
        assert!(k.slice_ns >= MIN_SLICE_NS);
    }
    assert_eq!(k.slice_ns, MIN_SLICE_NS);
}

#[test]
fn reflex_debounce_needs_two_consecutive_spikes() {
    let mut c = ReflexController::new();
    // ONE SPIKE: NO ACTION YET
    assert!(!c.on_p99(9_000_000, Regime::Mixed));
    // A QUIET CHECK CLEARS THE RUN
    assert!(!c.on_p99(1_000_000, Regime::Mixed));
    // TWO CONSECUTIVE SPIKES TRIGGER
    assert!(!c.on_p99(9_000_000, Regime::Mixed));
    assert!(c.on_p99(9_000_000, Regime::Mixed));
}

#[test]
fn reflex_only_tightens_in_mixed() {
    let mut c = ReflexController::new();
    assert!(!c.on_p99(99_000_000, Regime::Heavy));
    assert!(!c.on_p99(99_000_000, Regime::Heavy));
    // THE DEBOUNCE FIRED BUT THE REGIME GATE WITHHELD THE ACTION,
    // AND THE COOLDOWN STILL STARTED
    assert_eq!(c.cooldown, COOLDOWN_CHECKS);

    let mut l = ReflexController::new();
    assert!(!l.on_p99(99_000_000, Regime::Light));
    assert!(!l.on_p99(99_000_000, Regime::Light));
    assert_eq!(l.spike_count, 0);
}

#[test]
fn reflex_cooldown_suppresses_checks() {
    let mut c = ReflexController::new();
    assert!(!c.on_p99(9_000_000, Regime::Mixed));
    assert!(c.on_p99(9_000_000, Regime::Mixed));
    assert_eq!(c.cooldown, COOLDOWN_CHECKS);
    // THE NEXT TWO CHECKS ONLY COUNT THE WINDOW DOWN, EVEN ON SPIKES
    assert!(!c.on_p99(99_000_000, Regime::Mixed));
    assert!(!c.on_p99(99_000_000, Regime::Mixed));
    assert_eq!(c.cooldown, 0);
    // AND THE DEBOUNCE STARTS OVER AFTERWARDS
    assert!(!c.on_p99(99_000_000, Regime::Mixed));
    assert!(c.on_p99(99_000_000, Regime::Mixed));
}
