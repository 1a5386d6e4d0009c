// Shared-state latency histogram: recording, the drain-and-compute
// percentile, the sleep breakdown and raw event ingestion.

use pandemonium::adaptive::SharedState;
use pandemonium::tuning::Regime;

#[test]
fn empty_drain_returns_zero() {
    let mut s = SharedState::new();
    assert_eq!(s.compute_and_reset_p99(), 0);
    assert_eq!(s.p99_ns, 0);
}

#[test]
fn p99_single_sample_is_its_bucket_edge() {
    let mut s = SharedState::new();
    s.record_sample(30_000); // LANDS IN THE 50US BUCKET
    let p99 = s.compute_and_reset_p99();
    assert_eq!(p99, 50_000);
    assert_eq!(s.p99_ns, 50_000);
    assert_eq!(s.sample_count, 0);
}

#[test]
fn p99_picks_the_right_tail_bucket() {
    let mut s = SharedState::new();
    // 99 FAST SAMPLES, 1 SLOW: THE 99TH-PERCENTILE RANK (CEIL(0.99*100) = 99)
    // STILL FALLS IN THE FAST BUCKET.
    for _ in 0..99 {
        s.record_sample(5_000); // 10US BUCKET
    }
    s.record_sample(4_000_000); // 5MS BUCKET
    assert_eq!(s.compute_and_reset_p99(), 10_000);

    // WITH 2 SLOW SAMPLES OUT OF 100, RANK 99 FALLS IN THE SLOW BUCKET.
    for _ in 0..98 {
        s.record_sample(5_000);
    }
    s.record_sample(4_000_000);
    s.record_sample(4_000_000);
    assert_eq!(s.compute_and_reset_p99(), 5_000_000);
}

#[test]
fn p99_never_returns_the_infinity_edge() {
    let mut s = SharedState::new();
    // EVERY SAMPLE BEYOND THE LAST FINITE EDGE: CLAMPED TO THE
    // SECOND-TO-LAST EDGE, NEVER u64::MAX.
    for _ in 0..100 {
        s.record_sample(u64::MAX);
    }
    let p99 = s.compute_and_reset_p99();
    assert_eq!(p99, 20_000_000);
    assert!(p99 < u64::MAX);
}

#[test]
fn drain_resets_the_window() {
    let mut s = SharedState::new();
    for _ in 0..10 {
        s.record_sample(300_000); // 500US BUCKET
    }
    assert_eq!(s.sample_count, 10);
    assert_eq!(s.compute_and_reset_p99(), 500_000);
    // A FRESH WINDOW STARTS EMPTY
    assert_eq!(s.sample_count, 0);
    assert_eq!(s.compute_and_reset_p99(), 0);
}

#[test]
fn empty_drain_keeps_published_estimate() {
    let mut s = SharedState::new();
    for _ in 0..10 {
        s.record_sample(300_000); // 500US BUCKET
    }
    assert_eq!(s.compute_and_reset_p99(), 500_000);
    assert_eq!(s.p99_ns, 500_000);
    // A DRAIN OF AN EMPTY WINDOW RETURNS 0 BUT ONLY A COMPUTED PERCENTILE
    // IS PUBLISHED: THE LAST REAL ESTIMATE STANDS.
    assert_eq!(s.compute_and_reset_p99(), 0);
    assert_eq!(s.p99_ns, 500_000);
}

#[test]
fn new_state_carries_mixed_base_threshold() {
    let s = SharedState::new();
    assert_eq!(s.samples_per_check, 32);
}

#[test]
fn sleep_breakdown_io_vs_idle() {
    let mut s = SharedState::new();
    // 2 IO-WAIT SLEEPS (UNDER 10MS), 1 MODERATE, 1 IDLE (OVER 100MS)
    s.record_sleep(500_000);
    s.record_sleep(8_000_000);
    s.record_sleep(50_000_000);
    s.record_sleep(2_000_000_000);
    let (io_pct, idle_pct) = s.compute_and_reset_sleep();
    assert_eq!(io_pct, 50);
    assert_eq!(idle_pct, 25);
    assert_eq!(s.sleep_count, 0);

    let (io2, idle2) = s.compute_and_reset_sleep();
    assert_eq!(io2, 0);
    assert_eq!(idle2, 0);
}

#[test]
fn regime_byte_round_trips() {
    let mut s = SharedState::new();
    assert_eq!(s.current_regime(), Regime::Mixed);
    s.set_regime(Regime::Heavy);
    assert_eq!(s.current_regime(), Regime::Heavy);
    s.set_regime(Regime::Light);
    assert_eq!(s.current_regime(), Regime::Light);
}

fn sample_bytes(lat_ns: u64, sleep_ns: u64, pid: u32, path: u8, tier: u8) -> Vec<u8> {
    let mut v = Vec::new();
    v.extend_from_slice(&lat_ns.to_le_bytes());
    v.extend_from_slice(&sleep_ns.to_le_bytes());
    v.extend_from_slice(&pid.to_le_bytes());
    v.push(path);
    v.push(tier);
    v.push(0);
    v.push(0);
    v
}

#[test]
fn record_event_parses_and_records() {
    let mut s = SharedState::new();
    let data = sample_bytes(30_000, 5_000_000, 1234, 1, 2);
    s.record_event(&data);
    assert_eq!(s.sample_count, 1);
    assert_eq!(s.sleep_count, 1);
    assert_eq!(s.compute_and_reset_p99(), 50_000);
}

#[test]
fn record_event_skips_zero_sleep() {
    let mut s = SharedState::new();
    let data = sample_bytes(30_000, 0, 1, 0, 0);
    s.record_event(&data);
    assert_eq!(s.sample_count, 1);
    assert_eq!(s.sleep_count, 0);
}

#[test]
fn record_event_discards_undersized_payload() {
    let mut s = SharedState::new();
    let data = vec![0u8; 23];
    s.record_event(&data);
    assert_eq!(s.sample_count, 0);
    assert_eq!(s.sleep_count, 0);
}
