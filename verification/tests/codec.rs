// Byte codecs for the records shared with the engine: knob and counter
// snapshots, per-process table values, name keys, exit info and the idle
// bitmap.

use pandemonium::bytes::{le_value_at, name_key, push_le_value};
use pandemonium::engine::{
    c_str_len, idle_cpu_list, knobs_to_bytes, parse_engine_stats, parse_exit_info, parse_knobs,
    parse_task_class_value, restart_requested, sum_stats, task_class_value_bytes,
    ENGINE_STATS_BYTES, KNOBS_BYTES, SCX_ECODE_RST_MASK, TASK_CLASS_ENTRY_BYTES,
};
use pandemonium::monitor::EngineStats;
use pandemonium::tuning::TuningKnobs;

#[test]
fn le_value_round_trips() {
    let mut buf: Vec<u8> = Vec::new();
    push_le_value(&mut buf, 0xDEAD_BEEF_0102_0304, 8);
    push_le_value(&mut buf, 513, 2);
    assert_eq!(buf.len(), 10);
    assert_eq!(le_value_at(&buf, 0, 8), 0xDEAD_BEEF_0102_0304);
    assert_eq!(le_value_at(&buf, 8, 2), 513);
    // LITTLE-ENDIAN: LOW BYTE FIRST
    assert_eq!(buf[0], 0x04);
    assert_eq!(buf[8], 1);
    assert_eq!(buf[9], 2);
}

#[test]
fn knobs_round_trip_through_bytes() {
    let k = TuningKnobs {
        slice_ns: 1_500_000,
        preempt_thresh_ns: 1_000_000,
        lag_scale: 4,
        batch_slice_ns: 22_000_000,
        cpu_bound_thresh_ns: 2_500_000,
        lat_cri_thresh_high: 32,
        lat_cri_thresh_low: 8,
    };
    let bytes = knobs_to_bytes(&k);
    assert_eq!(bytes.len(), KNOBS_BYTES);
    let back = parse_knobs(&bytes).unwrap();
    assert_eq!(back, k);
}

#[test]
fn knobs_undersized_value_discarded() {
    let bytes = vec![0u8; KNOBS_BYTES - 1];
    assert!(parse_knobs(&bytes).is_none());
}

#[test]
fn engine_stats_parse_and_sum() {
    // TWO PER-CPU SNAPSHOTS, EVERY FIELD DISTINCT
    let mut a_bytes: Vec<u8> = Vec::new();
    let mut b_bytes: Vec<u8> = Vec::new();
    for i in 0..18u64 {
        a_bytes.extend_from_slice(&(i + 1).to_le_bytes());
        b_bytes.extend_from_slice(&(100 * (i + 1)).to_le_bytes());
    }
    assert_eq!(a_bytes.len(), ENGINE_STATS_BYTES);
    let a = parse_engine_stats(&a_bytes).unwrap();
    let b = parse_engine_stats(&b_bytes).unwrap();
    assert_eq!(a.nr_dispatches, 1);
    assert_eq!(a.nr_affinity_misses, 18);
    assert_eq!(b.wake_lat_sum, 1000);

    let total = sum_stats(&vec![a, b]);
    assert_eq!(total.nr_dispatches, 101);
    assert_eq!(total.nr_idle_hits, 202);
    assert_eq!(total.nr_affinity_misses, 1818);
}

#[test]
fn engine_stats_sum_wraps() {
    let mut a = EngineStats::default();
    let mut b = EngineStats::default();
    a.nr_dispatches = u64::MAX;
    b.nr_dispatches = 2;
    let total = sum_stats(&vec![a, b]);
    assert_eq!(total.nr_dispatches, 1);
}

#[test]
fn engine_stats_undersized_value_discarded() {
    let bytes = vec![0u8; ENGINE_STATS_BYTES - 8];
    assert!(parse_engine_stats(&bytes).is_none());
}

#[test]
fn task_class_entry_layout() {
    // THE PER-PROCESS TABLE VALUE IS 1 + 7 + 8 = 16 BYTES
    let bytes = task_class_value_bytes(2, 123_456);
    assert_eq!(bytes.len(), 16);
    assert_eq!(bytes.len(), TASK_CLASS_ENTRY_BYTES);
    let (tier, avg) = parse_task_class_value(&bytes).unwrap();
    assert_eq!(tier, 2);
    assert_eq!(avg, 123_456);
    assert!(parse_task_class_value(&bytes[..15]).is_none());
}

#[test]
fn name_key_truncates_and_pads() {
    // A SHORT NAME IS ZERO-PADDED...
    let short = name_key(b"cc1");
    let padded = name_key(b"cc1\0\0\0\0\0\0\0\0\0\0\0\0\0");
    assert_eq!(short, padded);
    // ...AND ONLY THE FIRST 16 BYTES COUNT
    let long = name_key(b"a-very-long-process-name");
    let truncated = name_key(b"a-very-long-proc");
    assert_eq!(long, truncated);
    // DIFFERENT NAMES GIVE DIFFERENT KEYS
    assert_ne!(name_key(b"cc1"), name_key(b"cc2"));
    // LOW BYTE OF THE KEY IS THE FIRST CHARACTER
    assert_eq!(name_key(b"A") as u8, b'A');
}

#[test]
fn c_str_len_stops_at_first_nul() {
    assert_eq!(c_str_len(b"hello\0world\0"), 5);
    assert_eq!(c_str_len(b"\0"), 0);
    assert_eq!(c_str_len(b"no nul here"), 11);
    assert_eq!(c_str_len(b""), 0);
}

#[test]
fn restart_bit_is_bit_sixteen() {
    assert_eq!(SCX_ECODE_RST_MASK, 1 << 16);
    assert!(restart_requested(1 << 16));
    assert!(restart_requested((1 << 16) | 5));
    assert!(!restart_requested(0));
    assert!(!restart_requested(5));
    assert!(!restart_requested(1 << 17));
}

#[test]
fn exit_info_head_decodes() {
    let mut bytes: Vec<u8> = Vec::new();
    bytes.extend_from_slice(&64u32.to_le_bytes()); // KIND
    bytes.extend_from_slice(&[0u8; 4]); // ALIGNMENT PADDING
    bytes.extend_from_slice(&((1u64 << 16) | 3).to_le_bytes()); // EXIT CODE
    let (kind, code) = parse_exit_info(&bytes).unwrap();
    assert_eq!(kind, 64);
    assert_eq!(code, (1 << 16) | 3);
    assert!(restart_requested(code));
    assert!(parse_exit_info(&bytes[..15]).is_none());
}

#[test]
fn idle_cpu_list_decodes_the_bitmap() {
    assert_eq!(idle_cpu_list(0), Vec::<u32>::new());
    assert_eq!(idle_cpu_list(0b1011), vec![0, 1, 3]);
    assert_eq!(idle_cpu_list(1u64 << 63), vec![63]);
    assert_eq!(idle_cpu_list(u64::MAX).len(), 64);
}
