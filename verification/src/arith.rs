//! Small arithmetic helpers shared by the histogram and the monitor loop:
//! prefix sums over counter sequences and a saturating integer percentage.

use vstd::prelude::*;

verus! {

/// Sum of the first `k` elements of `s`.
pub open spec fn sum_prefix(s: Seq<u64>, k: int) -> int
    decreases k,
{
    if k <= 0 {
        0
    } else {
        sum_prefix(s, k - 1) + s[k - 1]
    }
}

pub proof fn lemma_sum_prefix_nonneg(s: Seq<u64>, k: int)
    requires
        k <= s.len(),
    ensures
        sum_prefix(s, k) >= 0,
    decreases k,
{
    if k > 0 {
        lemma_sum_prefix_nonneg(s, k - 1);
    }
}

/// Prefix sums of unsigned counters grow with the prefix.
pub proof fn lemma_sum_prefix_mono(s: Seq<u64>, j: int, k: int)
    requires
        0 <= j <= k <= s.len(),
    ensures
        sum_prefix(s, j) <= sum_prefix(s, k),
    decreases k - j,
{
    if j < k {
        lemma_sum_prefix_mono(s, j, k - 1);
    }
}

/// Each element is bounded by the sum of any prefix containing it.
pub proof fn lemma_sum_prefix_elem(s: Seq<u64>, i: int, k: int)
    requires
        0 <= i < k <= s.len(),
    ensures
        s[i] <= sum_prefix(s, k),
    decreases k,
{
    if i == k - 1 {
        lemma_sum_prefix_nonneg(s, k - 1);
    } else {
        lemma_sum_prefix_elem(s, i, k - 1);
    }
}

/// Replacing one element shifts every prefix sum that covers it by the
/// difference, and leaves the shorter prefixes alone.
pub proof fn lemma_sum_prefix_update(s: Seq<u64>, i: int, v: u64, k: int)
    requires
        0 <= i < s.len(),
        k <= s.len(),
    ensures
        sum_prefix(s.update(i, v), k) == sum_prefix(s, k) + if i < k {
            v - s[i]
        } else {
            0
        },
    decreases k,
{
    if k > 0 {
        lemma_sum_prefix_update(s, i, v, k - 1);
    }
}

pub open spec fn spec_percent(part: u64, whole: u64) -> u64 {
    if whole == 0 {
        0
    } else if part * 100 / (whole as int) > u64::MAX {
        u64::MAX
    } else {
        (part * 100 / (whole as int)) as u64
    }
}

/// `part` as a percentage of `whole`, rounded down; 0 when `whole` is 0, and
/// saturating at `u64::MAX` (only reachable when `part` exceeds `whole` by
/// many orders of magnitude).
pub fn percent_of(part: u64, whole: u64) -> (p: u64)
    ensures
        p == spec_percent(part, whole),
        part <= whole ==> p <= 100,
{
    if whole == 0 {
        return 0;
    }
    let wide = (part as u128) * 100 / (whole as u128);
    let p = if wide > u64::MAX as u128 {
        u64::MAX
    } else {
        wide as u64
    };
    proof {
        if part <= whole {
            assert(part * 100 <= whole * 100) by (nonlinear_arith)
                requires
                    part <= whole,
            ;
            assert(part * 100 / (whole as int) <= whole * 100 / (whole as int)) by {
                vstd::arithmetic::div_mod::lemma_div_is_ordered(
                    (part * 100) as int,
                    (whole * 100) as int,
                    whole as int,
                );
            }
            assert(whole * 100 / (whole as int) == 100) by (nonlinear_arith)
                requires
                    whole > 0,
            ;
        }
    }
    p
}

pub open spec fn spec_ratio_percent(hits: u64, misses: u64) -> u64 {
    if hits + misses == 0 {
        0
    } else {
        (hits * 100 / (hits + misses)) as u64
    }
}

/// `hits` as a percentage of `hits + misses`, rounded down; 0 when there
/// were no events at all. Never exceeds 100.
pub fn ratio_percent(hits: u64, misses: u64) -> (p: u64)
    ensures
        p == spec_ratio_percent(hits, misses),
        p <= 100,
{
    if hits == 0 && misses == 0 {
        return 0;
    }
    let total = (hits as u128) + (misses as u128);
    let wide = (hits as u128) * 100 / total;
    proof {
        assert(hits * 100 <= (hits + misses) * 100) by (nonlinear_arith)
            requires
                misses >= 0,
        ;
        vstd::arithmetic::div_mod::lemma_div_is_ordered(
            (hits * 100) as int,
            ((hits + misses) * 100) as int,
            (hits + misses) as int,
        );
        assert((hits + misses) * 100 / ((hits + misses) as int) == 100) by (nonlinear_arith)
            requires
                hits + misses > 0,
        ;
    }
    wide as u64
}

} // verus!
