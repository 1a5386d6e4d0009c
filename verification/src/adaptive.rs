//! Shared state of the two control loops: the lock-free latency histogram,
//! the published P99 estimate, the active regime byte and the reflex event
//! counter.
//!
//! In the running system this record sits behind atomics and is touched from
//! both loops; every consumer tolerates a slightly stale combination of
//! fields, so each method here describes one atomic step of one loop. The
//! histogram has twelve buckets with fixed, monotonically increasing upper
//! edges, the last standing for infinity; a sample lands in the first bucket
//! whose edge is at or above it. Draining swaps every counter to zero and
//! walks the buckets for the 99th percentile, clamped so that the sentinel
//! infinity edge can never be published.

use vstd::prelude::*;

use crate::arith::{
    lemma_sum_prefix_elem, lemma_sum_prefix_mono, lemma_sum_prefix_update, sum_prefix,
};
use crate::bytes::{le_value_at, spec_le_value};
use crate::tuning::{
    Regime, spec_regime_from_u8, spec_regime_u8, spec_samples_per_check, MIXED_SAMPLES_PER_CHECK,
};

verus! {

pub const HIST_BUCKETS: usize = 12;

pub const SLEEP_BUCKETS: usize = 4;

/// Upper edge of latency bucket `i`, in nanoseconds; the last bucket's edge
/// is `u64::MAX`, standing for infinity. Out-of-range indices are given the
/// infinity edge so that the clamp below is total.
pub open spec fn spec_hist_edge(i: int) -> u64 {
    if i == 0 {
        10_000
    } else if i == 1 {
        25_000
    } else if i == 2 {
        50_000
    } else if i == 3 {
        100_000
    } else if i == 4 {
        250_000
    } else if i == 5 {
        500_000
    } else if i == 6 {
        1_000_000
    } else if i == 7 {
        2_000_000
    } else if i == 8 {
        5_000_000
    } else if i == 9 {
        10_000_000
    } else if i == 10 {
        20_000_000
    } else {
        u64::MAX
    }
}

pub fn hist_edge(i: usize) -> (e: u64)
    requires
        i < HIST_BUCKETS,
    ensures
        e == spec_hist_edge(i as int),
{
    if i == 0 {
        10_000
    } else if i == 1 {
        25_000
    } else if i == 2 {
        50_000
    } else if i == 3 {
        100_000
    } else if i == 4 {
        250_000
    } else if i == 5 {
        500_000
    } else if i == 6 {
        1_000_000
    } else if i == 7 {
        2_000_000
    } else if i == 8 {
        5_000_000
    } else if i == 9 {
        10_000_000
    } else if i == 10 {
        20_000_000
    } else {
        u64::MAX
    }
}

/// Index of the first latency bucket whose edge is at or above the sample.
pub open spec fn spec_bucket_of(lat_ns: u64) -> int {
    if lat_ns <= 10_000 {
        0
    } else if lat_ns <= 25_000 {
        1
    } else if lat_ns <= 50_000 {
        2
    } else if lat_ns <= 100_000 {
        3
    } else if lat_ns <= 250_000 {
        4
    } else if lat_ns <= 500_000 {
        5
    } else if lat_ns <= 1_000_000 {
        6
    } else if lat_ns <= 2_000_000 {
        7
    } else if lat_ns <= 5_000_000 {
        8
    } else if lat_ns <= 10_000_000 {
        9
    } else if lat_ns <= 20_000_000 {
        10
    } else {
        11
    }
}

fn bucket_of_latency(lat_ns: u64) -> (b: usize)
    ensures
        b == spec_bucket_of(lat_ns),
        b < HIST_BUCKETS,
{
    if lat_ns <= 10_000 {
        0
    } else if lat_ns <= 25_000 {
        1
    } else if lat_ns <= 50_000 {
        2
    } else if lat_ns <= 100_000 {
        3
    } else if lat_ns <= 250_000 {
        4
    } else if lat_ns <= 500_000 {
        5
    } else if lat_ns <= 1_000_000 {
        6
    } else if lat_ns <= 2_000_000 {
        7
    } else if lat_ns <= 5_000_000 {
        8
    } else if lat_ns <= 10_000_000 {
        9
    } else if lat_ns <= 20_000_000 {
        10
    } else {
        11
    }
}

/// Sleep-duration buckets classifying pre-wakeup sleeps: under 1ms and under
/// 10ms count as I/O wait, over 100ms as idle.
pub open spec fn spec_sleep_bucket_of(sleep_ns: u64) -> int {
    if sleep_ns <= 1_000_000 {
        0
    } else if sleep_ns <= 10_000_000 {
        1
    } else if sleep_ns <= 100_000_000 {
        2
    } else {
        3
    }
}

fn sleep_bucket_of(sleep_ns: u64) -> (b: usize)
    ensures
        b == spec_sleep_bucket_of(sleep_ns),
        b < SLEEP_BUCKETS,
{
    if sleep_ns <= 1_000_000 {
        0
    } else if sleep_ns <= 10_000_000 {
        1
    } else if sleep_ns <= 100_000_000 {
        2
    } else {
        3
    }
}

/// Rounded-up count of samples at or below the 99th percentile.
pub open spec fn spec_p99_threshold(total: int) -> int {
    (total * 99 + 99) / 100
}

/// First index at or after `i` whose cumulative count reaches `threshold`;
/// the sequence length when none does.
pub open spec fn spec_first_reaching(counts: Seq<u64>, threshold: int, i: int) -> int
    decreases counts.len() - i,
{
    if i < 0 || i >= counts.len() {
        counts.len() as int
    } else if sum_prefix(counts, i + 1) >= threshold {
        i
    } else {
        spec_first_reaching(counts, threshold, i + 1)
    }
}

/// The percentile a drain publishes, as a function of the drained counts:
/// zero when no samples arrived, otherwise the edge of the bucket where the
/// running count first reaches the 99% threshold, clamped to the edge of the
/// second-to-last bucket so the infinity sentinel never escapes.
pub open spec fn spec_p99(counts: Seq<u64>) -> u64 {
    let total = sum_prefix(counts, counts.len() as int);
    if total == 0 {
        0
    } else {
        let b = spec_first_reaching(counts, spec_p99_threshold(total), 0);
        if spec_hist_edge(b) < spec_hist_edge(10) {
            spec_hist_edge(b)
        } else {
            spec_hist_edge(10)
        }
    }
}

/// Breakdown a sleep-histogram drain reports: percentage of sleeps counted
/// as I/O wait (the two buckets up to 10ms) and as idle (the over-100ms
/// bucket), both zero when no sleeps were recorded.
pub open spec fn spec_sleep_breakdown(counts: Seq<u64>) -> (u64, u64) {
    let total = sum_prefix(counts, counts.len() as int);
    if total == 0 {
        (0u64, 0u64)
    } else {
        ((((counts[0] + counts[1]) * 100) / total) as u64, ((counts[3] * 100) / total) as u64)
    }
}

/// State shared by the reflex and monitor loops.
pub struct SharedState {
    /// Latest published P99 estimate, nanoseconds.
    pub p99_ns: u64,
    /// Active regime, encoded as its byte.
    pub regime: u8,
    /// Samples recorded since the last drain.
    pub sample_count: u64,
    /// Latency histogram counters.
    pub histogram: Vec<u64>,
    /// Pre-wakeup sleep-duration counters.
    pub sleep_histogram: Vec<u64>,
    /// Sleeps recorded since the last sleep drain.
    pub sleep_count: u64,
    /// Monotonic count of reflex-triggered tightening events.
    pub reflex_events: u64,
    /// The reflex controller's current per-check sample threshold: the
    /// regime's base rate, multiplied while the monitor's stability score
    /// sits at its cap.
    pub samples_per_check: u32,
}

impl SharedState {
    pub open spec fn wf(self) -> bool {
        &&& self.histogram@.len() == HIST_BUCKETS
        &&& self.sleep_histogram@.len() == SLEEP_BUCKETS
        &&& sum_prefix(self.histogram@, HIST_BUCKETS as int) == self.sample_count
        &&& sum_prefix(self.sleep_histogram@, SLEEP_BUCKETS as int) == self.sleep_count
    }

    /// Fresh shared state: empty histograms, no published percentile, and
    /// the Mixed regime, the profile a session starts from.
    pub fn new() -> (s: Self)
        ensures
            s.wf(),
            s.p99_ns == 0,
            s.regime == spec_regime_u8(Regime::Mixed),
            s.sample_count == 0,
            s.sleep_count == 0,
            s.reflex_events == 0,
            s.samples_per_check == spec_samples_per_check(Regime::Mixed),
            forall|i: int| 0 <= i < HIST_BUCKETS ==> s.histogram@[i] == 0,
            forall|i: int| 0 <= i < SLEEP_BUCKETS ==> s.sleep_histogram@[i] == 0,
    {
        let histogram = vec![0u64; 12];
        let sleep_histogram = vec![0u64; 4];
        proof {
            lemma_sum_prefix_of_zeros(histogram@, 12);
            lemma_sum_prefix_of_zeros(sleep_histogram@, 4);
        }
        SharedState {
            p99_ns: 0,
            regime: 1,
            sample_count: 0,
            histogram,
            sleep_histogram,
            sleep_count: 0,
            reflex_events: 0,
            samples_per_check: MIXED_SAMPLES_PER_CHECK,
        }
    }

    /// Records one latency sample: the matching bucket and the running count
    /// each go up by one; nothing else moves.
    pub fn record_sample(&mut self, lat_ns: u64)
        requires
            old(self).wf(),
            old(self).sample_count < u64::MAX,
        ensures
            final(self).wf(),
            final(self).histogram@ == old(self).histogram@.update(
                spec_bucket_of(lat_ns),
                (old(self).histogram@[spec_bucket_of(lat_ns)] + 1) as u64,
            ),
            final(self).sample_count == old(self).sample_count + 1,
            final(self).p99_ns == old(self).p99_ns,
            final(self).regime == old(self).regime,
            final(self).sleep_histogram == old(self).sleep_histogram,
            final(self).sleep_count == old(self).sleep_count,
            final(self).reflex_events == old(self).reflex_events,
            final(self).samples_per_check == old(self).samples_per_check,
    {
        let b = bucket_of_latency(lat_ns);
        proof {
            lemma_sum_prefix_elem(self.histogram@, b as int, HIST_BUCKETS as int);
            lemma_sum_prefix_update(
                self.histogram@,
                b as int,
                (self.histogram@[b as int] + 1) as u64,
                HIST_BUCKETS as int,
            );
        }
        let c = self.histogram[b];
        self.histogram[b] = c + 1;
        self.sample_count = self.sample_count + 1;
    }

    /// Records one pre-wakeup sleep duration into the sleep histogram.
    pub fn record_sleep(&mut self, sleep_ns: u64)
        requires
            old(self).wf(),
            old(self).sleep_count < u64::MAX,
        ensures
            final(self).wf(),
            final(self).sleep_histogram@ == old(self).sleep_histogram@.update(
                spec_sleep_bucket_of(sleep_ns),
                (old(self).sleep_histogram@[spec_sleep_bucket_of(sleep_ns)] + 1) as u64,
            ),
            final(self).sleep_count == old(self).sleep_count + 1,
            final(self).p99_ns == old(self).p99_ns,
            final(self).regime == old(self).regime,
            final(self).histogram == old(self).histogram,
            final(self).sample_count == old(self).sample_count,
            final(self).reflex_events == old(self).reflex_events,
            final(self).samples_per_check == old(self).samples_per_check,
    {
        let b = sleep_bucket_of(sleep_ns);
        proof {
            lemma_sum_prefix_elem(self.sleep_histogram@, b as int, SLEEP_BUCKETS as int);
            lemma_sum_prefix_update(
                self.sleep_histogram@,
                b as int,
                (self.sleep_histogram@[b as int] + 1) as u64,
                SLEEP_BUCKETS as int,
            );
        }
        let c = self.sleep_histogram[b];
        self.sleep_histogram[b] = c + 1;
        self.sleep_count = self.sleep_count + 1;
    }

    /// Drains the histogram and computes a fresh P99 estimate: every bucket
    /// counter returns to zero, and the returned value is
    /// [`spec_p99`] of the drained counts — in particular it is never the
    /// infinity edge. Only a computed percentile is published: a drain of an
    /// empty window returns 0 and leaves the published estimate standing,
    /// so consumers keep the last real measurement rather than seeing a
    /// spurious all-clear.
    #[verifier::loop_isolation(false)]
    pub fn compute_and_reset_p99(&mut self) -> (p99: u64)
        requires
            old(self).wf(),
            old(self).sample_count <= u64::MAX / 100,
        ensures
            final(self).wf(),
            p99 == spec_p99(old(self).histogram@),
            p99 <= spec_hist_edge(10),
            p99 < u64::MAX,
            final(self).histogram@.len() == HIST_BUCKETS,
            forall|i: int| 0 <= i < HIST_BUCKETS ==> final(self).histogram@[i] == 0,
            final(self).sample_count == 0,
            old(self).sample_count > 0 ==> final(self).p99_ns == p99,
            old(self).sample_count == 0 ==> final(self).p99_ns == old(self).p99_ns,
            final(self).regime == old(self).regime,
            final(self).sleep_histogram == old(self).sleep_histogram,
            final(self).sleep_count == old(self).sleep_count,
            final(self).reflex_events == old(self).reflex_events,
            final(self).samples_per_check == old(self).samples_per_check,
    {
        let ghost drained = old(self).histogram@;
        let mut counts: Vec<u64> = Vec::new();
        let mut total: u64 = 0;
        let mut i: usize = 0;
        while i < HIST_BUCKETS
            invariant
                i <= HIST_BUCKETS,
                counts@.len() == i,
                self.histogram@.len() == HIST_BUCKETS,
                forall|j: int| 0 <= j < i ==> counts@[j] == drained[j],
                forall|j: int| 0 <= j < i ==> self.histogram@[j] == 0,
                forall|j: int| i <= j < HIST_BUCKETS ==> self.histogram@[j] == drained[j],
                total == sum_prefix(drained, i as int),
                self.sample_count == old(self).sample_count,
                self.p99_ns == old(self).p99_ns,
                self.regime == old(self).regime,
                self.sleep_histogram == old(self).sleep_histogram,
                self.sleep_count == old(self).sleep_count,
                self.reflex_events == old(self).reflex_events,
                self.samples_per_check == old(self).samples_per_check,
            decreases HIST_BUCKETS - i,
        {
            proof {
                lemma_sum_prefix_mono(drained, i as int + 1, HIST_BUCKETS as int);
                lemma_sum_prefix_nonneg_all(drained, i as int);
            }
            let c = self.histogram[i];
            counts.push(c);
            total = total + c;
            self.histogram[i] = 0;
            i = i + 1;
        }
        proof {
            lemma_sum_prefix_of_zeros(self.histogram@, HIST_BUCKETS as int);
            assert(counts@ =~= drained);
        }
        self.sample_count = 0;

        if total == 0 {
            return 0;
        }

        let threshold = (total * 99 + 99) / 100;
        let ghost t = threshold as int;
        proof {
            vstd::arithmetic::div_mod::lemma_div_is_ordered(
                total * 99 + 99,
                total * 100 + 99,
                100,
            );
            assert((total * 100 + 99) / 100 == total) by (nonlinear_arith);
            assert(t >= 1);
        }

        let mut cumulative: u64 = 0;
        let mut k: usize = 0;
        while k < HIST_BUCKETS
            invariant
                k <= HIST_BUCKETS,
                cumulative == sum_prefix(drained, k as int),
                cumulative < t,
                spec_first_reaching(drained, t, 0) == spec_first_reaching(drained, t, k as int),
                self.sample_count == 0,
                self.histogram@.len() == HIST_BUCKETS,
                forall|j: int| 0 <= j < HIST_BUCKETS ==> self.histogram@[j] == 0,
                sum_prefix(self.histogram@, HIST_BUCKETS as int) == 0,
                self.p99_ns == old(self).p99_ns,
                self.regime == old(self).regime,
                self.sleep_histogram == old(self).sleep_histogram,
                self.sleep_count == old(self).sleep_count,
                self.reflex_events == old(self).reflex_events,
                self.samples_per_check == old(self).samples_per_check,
            decreases HIST_BUCKETS - k,
        {
            proof {
                lemma_sum_prefix_mono(drained, k as int + 1, HIST_BUCKETS as int);
            }
            cumulative = cumulative + counts[k];
            if cumulative >= threshold {
                let edge = hist_edge(k);
                let cap = hist_edge(10);
                let p99 = if edge < cap {
                    edge
                } else {
                    cap
                };
                self.p99_ns = p99;
                return p99;
            }
            k = k + 1;
        }

        let p99 = hist_edge(10);
        self.p99_ns = p99;
        p99
    }

    /// Drains the sleep histogram, reporting the I/O-wait and idle
    /// percentages of the window.
    pub fn compute_and_reset_sleep(&mut self) -> (r: (u64, u64))
        requires
            old(self).wf(),
            old(self).sleep_count <= u64::MAX / 100,
        ensures
            final(self).wf(),
            r == spec_sleep_breakdown(old(self).sleep_histogram@),
            final(self).sleep_histogram@.len() == SLEEP_BUCKETS,
            forall|i: int| 0 <= i < SLEEP_BUCKETS ==> final(self).sleep_histogram@[i] == 0,
            final(self).sleep_count == 0,
            final(self).p99_ns == old(self).p99_ns,
            final(self).regime == old(self).regime,
            final(self).histogram == old(self).histogram,
            final(self).sample_count == old(self).sample_count,
            final(self).reflex_events == old(self).reflex_events,
            final(self).samples_per_check == old(self).samples_per_check,
    {
        let ghost drained = old(self).sleep_histogram@;
        proof {
            lemma_sum_prefix_nonneg_all(drained, SLEEP_BUCKETS as int);
            reveal_with_fuel(sum_prefix, 5);
            assert(sum_prefix(drained, 4) == drained[0] + drained[1] + drained[2] + drained[3]);
        }
        let c0 = self.sleep_histogram[0];
        let c1 = self.sleep_histogram[1];
        let c2 = self.sleep_histogram[2];
        let c3 = self.sleep_histogram[3];
        self.sleep_histogram[0] = 0;
        self.sleep_histogram[1] = 0;
        self.sleep_histogram[2] = 0;
        self.sleep_histogram[3] = 0;
        self.sleep_count = 0;
        proof {
            lemma_sum_prefix_of_zeros(self.sleep_histogram@, SLEEP_BUCKETS as int);
        }

        let total = c0 + c1 + c2 + c3;
        if total == 0 {
            return (0, 0);
        }
        let io_count = c0 + c1;
        let io_pct = io_count * 100 / total;
        let idle_pct = c3 * 100 / total;
        proof {
            vstd::arithmetic::div_mod::lemma_div_is_ordered(
                io_count * 100,
                total * 100,
                total as int,
            );
            vstd::arithmetic::div_mod::lemma_div_is_ordered(c3 * 100, total * 100, total as int);
            assert(total * 100 / (total as int) == 100) by (nonlinear_arith)
                requires
                    total > 0,
            ;
        }
        (io_pct, idle_pct)
    }

    /// Consumes one raw event payload from the engine's sample stream: a
    /// well-formed payload records its latency, and its sleep duration when
    /// one was reported; a malformed or undersized payload changes nothing.
    pub fn record_event(&mut self, data: &[u8])
        requires
            old(self).wf(),
            old(self).sample_count < u64::MAX,
            old(self).sleep_count < u64::MAX,
        ensures
            final(self).wf(),
            data@.len() < WAKE_LAT_SAMPLE_BYTES ==> *final(self) == *old(self),
            data@.len() >= WAKE_LAT_SAMPLE_BYTES ==> ({
                let smp = spec_parse_wake_lat_sample(data@);
                &&& final(self).histogram@ == old(self).histogram@.update(
                    spec_bucket_of(smp.lat_ns),
                    (old(self).histogram@[spec_bucket_of(smp.lat_ns)] + 1) as u64,
                )
                &&& final(self).sample_count == old(self).sample_count + 1
                &&& (smp.sleep_ns > 0 ==> final(self).sleep_histogram@ == old(
                    self,
                ).sleep_histogram@.update(
                    spec_sleep_bucket_of(smp.sleep_ns),
                    (old(self).sleep_histogram@[spec_sleep_bucket_of(smp.sleep_ns)] + 1) as u64,
                ) && final(self).sleep_count == old(self).sleep_count + 1)
                &&& (smp.sleep_ns == 0 ==> final(self).sleep_histogram == old(
                    self,
                ).sleep_histogram && final(self).sleep_count == old(self).sleep_count)
                &&& final(self).p99_ns == old(self).p99_ns
                &&& final(self).regime == old(self).regime
                &&& final(self).reflex_events == old(self).reflex_events
                &&& final(self).samples_per_check == old(self).samples_per_check
            }),
    {
        if let Some(smp) = parse_wake_lat_sample(data) {
            self.record_sample(smp.lat_ns);
            if smp.sleep_ns > 0 {
                self.record_sleep(smp.sleep_ns);
            }
        }
    }

    /// The active regime as decoded from its shared byte.
    pub fn current_regime(&self) -> (r: Regime)
        ensures
            r == spec_regime_from_u8(self.regime),
    {
        Regime::from_u8(self.regime)
    }

    /// Publishes a new active regime.
    pub fn set_regime(&mut self, r: Regime)
        requires
            old(self).wf(),
        ensures
            final(self).wf(),
            final(self).regime == spec_regime_u8(r),
            final(self).p99_ns == old(self).p99_ns,
            final(self).histogram == old(self).histogram,
            final(self).sample_count == old(self).sample_count,
            final(self).sleep_histogram == old(self).sleep_histogram,
            final(self).sleep_count == old(self).sleep_count,
            final(self).reflex_events == old(self).reflex_events,
            final(self).samples_per_check == old(self).samples_per_check,
    {
        self.regime = r.to_u8();
    }
}

/// One latency-sample event as the engine emits it: wakeup latency, how long
/// the task slept before this wakeup, the process id, the dispatch path and
/// the task's tier at wakeup time.
#[derive(Clone, Copy, Debug, PartialEq, Eq, Structural)]
pub struct WakeLatSample {
    pub lat_ns: u64,
    pub sleep_ns: u64,
    pub pid: u32,
    pub path: u8,
    pub tier: u8,
}

/// Byte size of one latency-sample event record.
pub const WAKE_LAT_SAMPLE_BYTES: usize = 24;

pub open spec fn spec_parse_wake_lat_sample(s: Seq<u8>) -> WakeLatSample {
    WakeLatSample {
        lat_ns: spec_le_value(s, 0, 8) as u64,
        sleep_ns: spec_le_value(s, 8, 8) as u64,
        pid: spec_le_value(s, 16, 4) as u32,
        path: s[20],
        tier: s[21],
    }
}

/// Decodes one latency-sample event; an undersized payload is discarded.
pub fn parse_wake_lat_sample(data: &[u8]) -> (r: Option<WakeLatSample>)
    ensures
        data@.len() < WAKE_LAT_SAMPLE_BYTES ==> r is None,
        data@.len() >= WAKE_LAT_SAMPLE_BYTES ==> r == Some(spec_parse_wake_lat_sample(data@)),
{
    if data.len() < WAKE_LAT_SAMPLE_BYTES {
        return None;
    }
    proof {
        crate::bytes::lemma_pow256_values();
        crate::bytes::lemma_le_value_bound(data@, 16, 4);
    }
    Some(
        WakeLatSample {
            lat_ns: le_value_at(data, 0, 8),
            sleep_ns: le_value_at(data, 8, 8),
            pid: le_value_at(data, 16, 4) as u32,
            path: data[20],
            tier: data[21],
        },
    )
}

/// Between two consecutive drains the histogram counts partition the window's
/// samples by bucket, so the sample with rank `spec_p99_threshold(total)` —
/// the `ceil(0.99 N)`-th smallest — lies in the first bucket whose cumulative
/// count reaches that rank. The published percentile is that bucket's upper
/// edge, clamped to the second-to-last edge, and is never the infinity
/// sentinel.
pub proof fn lemma_p99_is_threshold_bucket(counts: Seq<u64>)
    requires
        counts.len() == HIST_BUCKETS,
        sum_prefix(counts, HIST_BUCKETS as int) >= 1,
    ensures
        ({
            let total = sum_prefix(counts, HIST_BUCKETS as int);
            let t = spec_p99_threshold(total);
            let b = spec_first_reaching(counts, t, 0);
            &&& 1 <= t <= total
            &&& 0 <= b < HIST_BUCKETS
            &&& sum_prefix(counts, b + 1) >= t
            &&& (forall|j: int| 0 <= j < b ==> #[trigger] sum_prefix(counts, j + 1) < t)
            &&& spec_p99(counts) == if spec_hist_edge(b) < spec_hist_edge(10) {
                spec_hist_edge(b)
            } else {
                spec_hist_edge(10)
            }
            &&& spec_p99(counts) <= spec_hist_edge(10)
            &&& spec_p99(counts) < u64::MAX
        }),
{
    let total = sum_prefix(counts, HIST_BUCKETS as int);
    let t = spec_p99_threshold(total);
    assert(t <= total) by {
        vstd::arithmetic::div_mod::lemma_div_is_ordered(
            total * 99 + 99,
            total * 100 + 99,
            100,
        );
        assert((total * 100 + 99) / 100 == total) by (nonlinear_arith);
    }
    assert(t >= 1) by {
        vstd::arithmetic::div_mod::lemma_div_is_ordered(198, total * 99 + 99, 100);
    }
    lemma_first_reaching_props(counts, t, 0);
}

/// Induction behind [`lemma_p99_is_threshold_bucket`]: starting the walk at
/// `i` with everything before `i` short of the threshold, the walk stops at
/// an index inside the sequence, exactly where the cumulative count first
/// reaches the threshold.
proof fn lemma_first_reaching_props(counts: Seq<u64>, t: int, i: int)
    requires
        0 <= i <= counts.len(),
        sum_prefix(counts, i) < t,
        t <= sum_prefix(counts, counts.len() as int),
    ensures
        ({
            let b = spec_first_reaching(counts, t, i);
            &&& i <= b < counts.len()
            &&& sum_prefix(counts, b + 1) >= t
            &&& (forall|j: int| i <= j < b ==> #[trigger] sum_prefix(counts, j + 1) < t)
        }),
    decreases counts.len() - i,
{
    if i == counts.len() {
        assert(false);
    } else if sum_prefix(counts, i + 1) >= t {
    } else {
        lemma_first_reaching_props(counts, t, i + 1);
    }
}

proof fn lemma_sum_prefix_of_zeros(s: Seq<u64>, k: int)
    requires
        k <= s.len(),
        forall|i: int| 0 <= i < k ==> s[i] == 0,
    ensures
        sum_prefix(s, k) == 0,
    decreases k,
{
    if k > 0 {
        lemma_sum_prefix_of_zeros(s, k - 1);
    }
}

/// All prefix sums of a counter sequence are non-negative.
proof fn lemma_sum_prefix_nonneg_all(s: Seq<u64>, k: int)
    requires
        k <= s.len(),
    ensures
        forall|j: int| 0 <= j <= k ==> sum_prefix(s, j) >= 0,
    decreases k,
{
    if k > 0 {
        lemma_sum_prefix_nonneg_all(s, k - 1);
        crate::arith::lemma_sum_prefix_nonneg(s, k);
    } else {
        if k == 0 {
            crate::arith::lemma_sum_prefix_nonneg(s, 0);
        }
    }
}

} // verus!
