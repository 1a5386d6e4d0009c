//! Fixed-capacity ring buffer of per-tick telemetry snapshots.
//!
//! One snapshot is recorded per monitor tick; at capacity the oldest entry is
//! overwritten. The buffer exists purely for reporting after a session, so
//! its one obligation is order: `iter_chronological` hands the surviving
//! snapshots back oldest first.

use vstd::prelude::*;

use crate::arith::sum_prefix;

verus! {

pub const MAX_SNAPSHOTS: usize = 8192;

/// One per-tick record of the interval's headline counters.
#[derive(Clone, Copy, Debug, PartialEq, Eq, Structural)]
pub struct Snapshot {
    pub ts_ns: u64,
    pub dispatches: u64,
    pub idle_hits: u64,
    pub any_hits: u64,
    pub lat_cri: u64,
    pub interactive: u64,
    pub batch: u64,
}

impl Snapshot {
    pub fn zeroed() -> (s: Snapshot)
        ensures
            s == (Snapshot {
                ts_ns: 0u64,
                dispatches: 0u64,
                idle_hits: 0u64,
                any_hits: 0u64,
                lat_cri: 0u64,
                interactive: 0u64,
                batch: 0u64,
            }),
    {
        Snapshot {
            ts_ns: 0,
            dispatches: 0,
            idle_hits: 0,
            any_hits: 0,
            lat_cri: 0,
            interactive: 0,
            batch: 0,
        }
    }
}

/// Pre-allocated ring buffer of snapshots; wraps at capacity, overwriting the
/// oldest entries.
pub struct EventLog {
    /// Backing storage, always `MAX_SNAPSHOTS` entries.
    pub snapshots: Vec<Snapshot>,
    /// Next slot to write.
    pub head: usize,
    /// Number of valid entries.
    pub len: usize,
}

/// Index of the oldest surviving snapshot.
pub open spec fn spec_log_start(log: EventLog) -> int {
    if log.len < MAX_SNAPSHOTS {
        0
    } else {
        log.head as int
    }
}

impl EventLog {
    pub open spec fn wf(self) -> bool {
        &&& self.snapshots@.len() == MAX_SNAPSHOTS
        &&& self.head < MAX_SNAPSHOTS
        &&& self.len <= MAX_SNAPSHOTS
        &&& (self.len < MAX_SNAPSHOTS ==> self.head == self.len)
    }

    /// An empty log with its storage pre-allocated.
    pub fn new() -> (log: Self)
        ensures
            log.wf(),
            log.len == 0,
            log.head == 0,
    {
        EventLog { snapshots: vec![Snapshot::zeroed(); 8192], head: 0, len: 0 }
    }

    /// Records one snapshot, overwriting the oldest entry once the buffer is
    /// full.
    pub fn snapshot(
        &mut self,
        ts_ns: u64,
        dispatches: u64,
        idle_hits: u64,
        any_hits: u64,
        lat_cri: u64,
        interactive: u64,
        batch: u64,
    )
        requires
            old(self).wf(),
        ensures
            final(self).wf(),
            final(self).snapshots@ == old(self).snapshots@.update(
                old(self).head as int,
                (Snapshot { ts_ns, dispatches, idle_hits, any_hits, lat_cri, interactive, batch }),
            ),
            final(self).head == (old(self).head + 1) % (MAX_SNAPSHOTS as int),
            final(self).len == if old(self).len < MAX_SNAPSHOTS {
                old(self).len + 1
            } else {
                old(self).len as int
            },
    {
        let s = Snapshot { ts_ns, dispatches, idle_hits, any_hits, lat_cri, interactive, batch };
        self.snapshots[self.head] = s;
        self.head = (self.head + 1) % MAX_SNAPSHOTS;
        if self.len < MAX_SNAPSHOTS {
            self.len = self.len + 1;
        }
    }

    /// The surviving snapshots in chronological order, oldest first.
    pub fn iter_chronological(&self) -> (r: Vec<Snapshot>)
        requires
            self.wf(),
        ensures
            r@.len() == self.len,
            forall|i: int|
                0 <= i < self.len ==> r@[i] == self.snapshots@[(spec_log_start(*self) + i) % (
                MAX_SNAPSHOTS as int)],
    {
        let start: usize = if self.len < MAX_SNAPSHOTS {
            0
        } else {
            self.head
        };
        let mut r: Vec<Snapshot> = Vec::new();
        let mut i: usize = 0;
        while i < self.len
            invariant
                self.wf(),
                start as int == spec_log_start(*self),
                i <= self.len,
                r@.len() == i,
                forall|j: int|
                    0 <= j < i ==> r@[j] == self.snapshots@[(spec_log_start(*self) + j) % (
                    MAX_SNAPSHOTS as int)],
            decreases self.len - i,
        {
            let idx = (start + i) % MAX_SNAPSHOTS;
            r.push(self.snapshots[idx]);
            i = i + 1;
        }
        r
    }

}

/// Totals over a chronological snapshot list, for the end-of-session
/// summary: exact (wide) sums of dispatches, idle hits and shared hits, and
/// the peak dispatch count of any single snapshot.
pub fn log_totals(chron: &Vec<Snapshot>) -> (t: (u128, u128, u128, u64))
    requires
        chron@.len() <= MAX_SNAPSHOTS,
    ensures
        t.0 == sum_prefix(chron@.map_values(|s: Snapshot| s.dispatches), chron@.len() as int),
        t.1 == sum_prefix(chron@.map_values(|s: Snapshot| s.idle_hits), chron@.len() as int),
        t.2 == sum_prefix(chron@.map_values(|s: Snapshot| s.any_hits), chron@.len() as int),
        forall|i: int| 0 <= i < chron@.len() ==> #[trigger] chron@[i].dispatches <= t.3,
        chron@.len() > 0 ==> exists|i: int|
            0 <= i < chron@.len() && #[trigger] chron@[i].dispatches == t.3,
        chron@.len() == 0 ==> t.3 == 0,
{
    let n = chron.len();
    let mut dispatches: u128 = 0;
    let mut idle_hits: u128 = 0;
    let mut any_hits: u128 = 0;
    let mut peak: u64 = 0;
    let mut i: usize = 0;
    while i < n
        invariant
            n == chron@.len(),
            n <= MAX_SNAPSHOTS,
            i <= n,
            dispatches == sum_prefix(chron@.map_values(|s: Snapshot| s.dispatches), i as int),
            idle_hits == sum_prefix(chron@.map_values(|s: Snapshot| s.idle_hits), i as int),
            any_hits == sum_prefix(chron@.map_values(|s: Snapshot| s.any_hits), i as int),
            dispatches <= i * (u64::MAX as int),
            idle_hits <= i * (u64::MAX as int),
            any_hits <= i * (u64::MAX as int),
            forall|j: int| 0 <= j < i ==> #[trigger] chron@[j].dispatches <= peak,
            i > 0 ==> exists|j: int| 0 <= j < i && #[trigger] chron@[j].dispatches == peak,
            i == 0 ==> peak == 0,
        decreases n - i,
    {
        let s = chron[i];
        proof {
            assert((i + 1) * (u64::MAX as int) == i * (u64::MAX as int) + u64::MAX)
                by (nonlinear_arith);
            assert((MAX_SNAPSHOTS as int) * (u64::MAX as int) < u128::MAX as int)
                by (nonlinear_arith);
            assert(i * (u64::MAX as int) <= (MAX_SNAPSHOTS as int) * (u64::MAX as int))
                by (nonlinear_arith)
                requires
                    0 <= i <= MAX_SNAPSHOTS,
            ;
        }
        dispatches = dispatches + s.dispatches as u128;
        idle_hits = idle_hits + s.idle_hits as u128;
        any_hits = any_hits + s.any_hits as u128;
        if s.dispatches > peak {
            peak = s.dispatches;
        }
        i = i + 1;
    }
    (dispatches, idle_hits, any_hits, peak)
}

} // verus!
