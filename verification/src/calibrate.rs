//! Calibration analysis: from a histogram of latency-criticality scores
//! (thirty-two buckets of width eight), suggest the two tier-classification
//! thresholds and project the tier distribution they would give. The
//! surrounding binary collects the histogram and prints the report; the
//! analysis is verified here.

use vstd::prelude::*;

use crate::adaptive::spec_first_reaching;
use crate::arith::sum_prefix;
use crate::bytes::{le_value_at, spec_le_value};
use vstd::wrapping::u64_specs;

verus! {

/// Number of score buckets in the engine's calibration histogram; bucket
/// `i` covers scores up to `(i+1) * 8`.
pub const SCORE_BUCKETS: usize = 32;

/// The suggested thresholds before clamping: the upper bound of the first
/// bucket where the cumulative count reaches the 90th and the 99th
/// percentile of all scores.
pub open spec fn spec_raw_threshold(hist: Seq<u64>, target: int) -> int {
    (spec_first_reaching(hist, target, 0) + 1) * 8
}

/// The suggested `(low, high)` classification thresholds for a score
/// histogram: the 90th-percentile bucket bound (at least 4) and the
/// 99th-percentile bucket bound (at least 8 above the low one, at most
/// 248).
pub open spec fn spec_suggested_thresholds(hist: Seq<u64>) -> (u32, u32) {
    let total = sum_prefix(hist, hist.len() as int);
    let p90 = spec_raw_threshold(hist, total * 90 / 100);
    let p99 = spec_raw_threshold(hist, total * 99 / 100);
    let low = if p90 < 4 {
        4int
    } else {
        p90
    };
    let high0 = if p99 < low + 8 {
        low + 8
    } else {
        p99
    };
    let high = if high0 > 248 {
        248int
    } else {
        high0
    };
    (low as u32, high as u32)
}

/// Suggests the two classification thresholds from a collected score
/// histogram: scores below the low suggestion would classify as batch, ones
/// at or above the high suggestion as latency-critical.
#[verifier::loop_isolation(false)]
pub fn suggest_thresholds(hist: &Vec<u64>) -> (r: (u32, u32))
    requires
        hist@.len() == SCORE_BUCKETS,
    ensures
        r == spec_suggested_thresholds(hist@),
        4 <= r.0,
{
    let ghost total = sum_prefix(hist@, SCORE_BUCKETS as int);
    let mut cumulative: u128 = 0;
    let mut i: usize = 0;
    while i < SCORE_BUCKETS
        invariant
            i <= SCORE_BUCKETS,
            cumulative == sum_prefix(hist@, i as int),
            cumulative <= i * (u64::MAX as int),
        decreases SCORE_BUCKETS - i,
    {
        proof {
            assert((i + 1) * (u64::MAX as int) == i * (u64::MAX as int) + u64::MAX)
                by (nonlinear_arith);
        }
        cumulative = cumulative + hist[i] as u128;
        i = i + 1;
    }
    let total_wide = cumulative;
    let p90_target = total_wide * 90 / 100;
    let p99_target = total_wide * 99 / 100;

    let p90_raw = first_reaching_bound(hist, p90_target);
    let p99_raw = first_reaching_bound(hist, p99_target);
    proof {
        assert(p90_target as int == total * 90 / 100);
        assert(p99_target as int == total * 99 / 100);
    }

    let p90 = if p90_raw < 4 {
        4
    } else {
        p90_raw
    };
    let p99_floored = if p99_raw < p90 + 8 {
        p90 + 8
    } else {
        p99_raw
    };
    let p99 = if p99_floored > 248 {
        248
    } else {
        p99_floored
    };
    (p90, p99)
}

/// The upper score bound of the first bucket whose cumulative count reaches
/// `target`.
#[verifier::loop_isolation(false)]
fn first_reaching_bound(hist: &Vec<u64>, target: u128) -> (r: u32)
    requires
        hist@.len() == SCORE_BUCKETS,
    ensures
        r as int == (spec_first_reaching(hist@, target as int, 0) + 1) * 8,
        8 <= r <= 264,
{
    let mut cumulative: u128 = 0;
    let mut i: usize = 0;
    while i < SCORE_BUCKETS
        invariant
            i <= SCORE_BUCKETS,
            cumulative == sum_prefix(hist@, i as int),
            cumulative <= i * (u64::MAX as int),
            spec_first_reaching(hist@, target as int, 0) == spec_first_reaching(
                hist@,
                target as int,
                i as int,
            ),
        decreases SCORE_BUCKETS - i,
    {
        proof {
            assert((i + 1) * (u64::MAX as int) == i * (u64::MAX as int) + u64::MAX)
                by (nonlinear_arith);
        }
        cumulative = cumulative + hist[i] as u128;
        if cumulative >= target {
            return (i as u32 + 1) * 8;
        }
        i = i + 1;
    }
    (SCORE_BUCKETS as u32 + 1) * 8
}

/// How the scores split into tiers at thresholds `(low, high)`: counts of
/// buckets whose upper bound is at or below `low` (batch), at or below
/// `high` (interactive), and above (latency-critical), over the first `k`
/// buckets.
pub open spec fn spec_tier_counts(hist: Seq<u64>, low: int, high: int, k: int) -> (int, int, int)
    decreases k,
{
    if k <= 0 {
        (0int, 0int, 0int)
    } else {
        let rest = spec_tier_counts(hist, low, high, k - 1);
        if k * 8 <= low {
            (rest.0 + hist[k - 1], rest.1, rest.2)
        } else if k * 8 <= high {
            (rest.0, rest.1 + hist[k - 1], rest.2)
        } else {
            (rest.0, rest.1, rest.2 + hist[k - 1])
        }
    }
}

/// Projects the tier distribution a pair of thresholds would give: how many
/// collected scores would classify as batch, interactive and
/// latency-critical.
#[verifier::loop_isolation(false)]
pub fn tier_distribution(hist: &Vec<u64>, low: u32, high: u32) -> (r: (u128, u128, u128))
    requires
        hist@.len() == SCORE_BUCKETS,
    ensures
        (r.0 as int, r.1 as int, r.2 as int) == spec_tier_counts(
            hist@,
            low as int,
            high as int,
            SCORE_BUCKETS as int,
        ),
{
    let mut batch: u128 = 0;
    let mut interactive: u128 = 0;
    let mut lat_cri: u128 = 0;
    let mut i: usize = 0;
    while i < SCORE_BUCKETS
        invariant
            i <= SCORE_BUCKETS,
            (batch as int, interactive as int, lat_cri as int) == spec_tier_counts(
                hist@,
                low as int,
                high as int,
                i as int,
            ),
            batch + interactive + lat_cri <= i * (u64::MAX as int),
        decreases SCORE_BUCKETS - i,
    {
        proof {
            assert((i + 1) * (u64::MAX as int) == i * (u64::MAX as int) + u64::MAX)
                by (nonlinear_arith);
        }
        let upper = (i as u32 + 1) * 8;
        if upper <= low {
            batch = batch + hist[i] as u128;
        } else if upper <= high {
            interactive = interactive + hist[i] as u128;
        } else {
            lat_cri = lat_cri + hist[i] as u128;
        }
        i = i + 1;
    }
    (batch, interactive, lat_cri)
}

/// Byte size of one per-CPU score-histogram value: thirty-two
/// little-endian 64-bit counters.
pub const SCORE_HISTOGRAM_BYTES: usize = 256;

/// Decodes one per-CPU score-histogram value; an undersized value is
/// discarded.
pub fn parse_score_histogram(data: &[u8]) -> (r: Option<Vec<u64>>)
    ensures
        data@.len() < SCORE_HISTOGRAM_BYTES ==> r is None,
        data@.len() >= SCORE_HISTOGRAM_BYTES ==> ({
            &&& r is Some
            &&& r.unwrap()@.len() == SCORE_BUCKETS
            &&& forall|k: int|
                0 <= k < SCORE_BUCKETS ==> r.unwrap()@[k] == spec_le_value(data@, 8 * k, 8) as u64
        }),
{
    if data.len() < SCORE_HISTOGRAM_BYTES {
        return None;
    }
    let mut out: Vec<u64> = Vec::new();
    let mut k: usize = 0;
    while k < SCORE_BUCKETS
        invariant
            data@.len() >= SCORE_HISTOGRAM_BYTES,
            k <= SCORE_BUCKETS,
            out@.len() == k,
            forall|j: int| 0 <= j < k ==> out@[j] == spec_le_value(data@, 8 * j, 8) as u64,
        decreases SCORE_BUCKETS - k,
    {
        out.push(le_value_at(data, 8 * k, 8));
        k = k + 1;
    }
    Some(out)
}

/// Wraparound sum of column `k` over per-CPU histogram rows.
pub open spec fn spec_column_sum(rows: Seq<Seq<u64>>, k: int) -> u64
    decreases rows.len(),
{
    if rows.len() == 0 {
        0
    } else {
        u64_specs::wrapping_add(spec_column_sum(rows.drop_last(), k), rows.last()[k])
    }
}

/// Sums the per-CPU score histograms into one, bucket by bucket.
#[verifier::loop_isolation(false)]
pub fn sum_score_histograms(per_cpu: &Vec<Vec<u64>>) -> (r: Vec<u64>)
    requires
        forall|i: int| 0 <= i < per_cpu@.len() ==> #[trigger] per_cpu@[i]@.len() == SCORE_BUCKETS,
    ensures
        r@.len() == SCORE_BUCKETS,
        forall|k: int|
            0 <= k < SCORE_BUCKETS ==> r@[k] == spec_column_sum(
                per_cpu@.map_values(|row: Vec<u64>| row@),
                k,
            ),
{
    let ghost rows = per_cpu@.map_values(|row: Vec<u64>| row@);
    let mut acc: Vec<u64> = Vec::new();
    let mut k: usize = 0;
    while k < SCORE_BUCKETS
        invariant
            k <= SCORE_BUCKETS,
            acc@.len() == k,
            forall|j: int| 0 <= j < k ==> acc@[j] == 0,
        decreases SCORE_BUCKETS - k,
    {
        acc.push(0);
        k = k + 1;
    }
    proof {
        assert forall|j: int| 0 <= j < SCORE_BUCKETS implies acc@[j] == spec_column_sum(
            rows.take(0),
            j,
        ) by {
            assert(rows.take(0) =~= Seq::<Seq<u64>>::empty());
        }
    }
    let n = per_cpu.len();
    let mut i: usize = 0;
    while i < n
        invariant
            n == per_cpu@.len(),
            i <= n,
            acc@.len() == SCORE_BUCKETS,
            forall|j: int|
                0 <= j < SCORE_BUCKETS ==> acc@[j] == spec_column_sum(rows.take(i as int), j),
        decreases n - i,
    {
        proof {
            assert(rows.take(i as int + 1).drop_last() =~= rows.take(i as int));
            assert(rows.take(i as int + 1).last() == rows[i as int]);
        }
        let ghost acc_before = acc@;
        let row = &per_cpu[i];
        let mut j: usize = 0;
        while j < SCORE_BUCKETS
            invariant
                i < n,
                acc@.len() == SCORE_BUCKETS,
                row@ == rows[i as int],
                row@.len() == SCORE_BUCKETS,
                j <= SCORE_BUCKETS,
                forall|m: int|
                    0 <= m < j ==> acc@[m] == u64_specs::wrapping_add(
                        acc_before[m],
                        rows[i as int][m],
                    ),
                forall|m: int| j <= m < SCORE_BUCKETS ==> acc@[m] == acc_before[m],
            decreases SCORE_BUCKETS - j,
        {
            let v = acc[j].wrapping_add(row[j]);
            acc[j] = v;
            j = j + 1;
        }
        i = i + 1;
    }
    proof {
        assert(rows.take(n as int) =~= rows);
    }
    acc
}

} // verus!
