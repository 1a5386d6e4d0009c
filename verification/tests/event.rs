// Event log ring buffer: recording, wraparound and chronological order.

use pandemonium::event::{log_totals, EventLog, MAX_SNAPSHOTS};

#[test]
fn snapshot_records() {
    let mut log = EventLog::new();
    assert_eq!(log.len, 0);

    log.snapshot(1, 100, 90, 10, 5, 30, 65);
    assert_eq!(log.len, 1);
    assert_eq!(log.snapshots[0].dispatches, 100);
    assert_eq!(log.snapshots[0].idle_hits, 90);
    assert_eq!(log.snapshots[0].any_hits, 10);
    assert_eq!(log.snapshots[0].lat_cri, 5);
    assert_eq!(log.snapshots[0].interactive, 30);
    assert_eq!(log.snapshots[0].batch, 65);
    assert!(log.snapshots[0].ts_ns > 0);
}

#[test]
fn ring_buffer_wraps() {
    let mut log = EventLog::new();

    // FILL TO CAPACITY
    for i in 0..MAX_SNAPSHOTS {
        log.snapshot(1 + i as u64, i as u64, 0, 0, 0, 0, 0);
    }
    assert_eq!(log.len, MAX_SNAPSHOTS);
    assert_eq!(log.head, 0); // WRAPPED BACK TO START

    // WRITE ONE MORE -- OVERWRITES OLDEST
    log.snapshot(1 + MAX_SNAPSHOTS as u64, 9999, 0, 0, 0, 0, 0);
    assert_eq!(log.len, MAX_SNAPSHOTS);
    assert_eq!(log.head, 1);
    assert_eq!(log.snapshots[0].dispatches, 9999);

    // CHRONOLOGICAL ITERATION STARTS FROM OLDEST (INDEX 1)
    let ordered: Vec<u64> = log.iter_chronological().iter().map(|s| s.dispatches).collect();
    assert_eq!(ordered[0], 1); // OLDEST SURVIVING ENTRY
    assert_eq!(*ordered.last().unwrap(), 9999); // NEWEST
    assert_eq!(ordered.len(), MAX_SNAPSHOTS);
}

#[test]
fn totals_empty_log() {
    let log = EventLog::new();
    let chron = log.iter_chronological();
    let (d, idle, any, peak) = log_totals(&chron);
    assert_eq!(d, 0);
    assert_eq!(idle, 0);
    assert_eq!(any, 0);
    assert_eq!(peak, 0);
}

#[test]
fn totals_sum_and_peak() {
    let mut log = EventLog::new();
    log.snapshot(1, 100, 50, 50, 5, 25, 70);
    log.snapshot(2, 200, 150, 50, 10, 40, 150);
    log.snapshot(3, 150, 60, 90, 1, 2, 3);
    let chron = log.iter_chronological();
    let (d, idle, any, peak) = log_totals(&chron);
    assert_eq!(d, 450);
    assert_eq!(idle, 260);
    assert_eq!(any, 190);
    assert_eq!(peak, 200);
}
