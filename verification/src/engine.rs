//! Byte-level views of the records shared with the kernel-resident engine:
//! per-CPU counter snapshots, the knob record, exit information and the idle
//! CPU bitmap. The binary hands raw map values in and gets plain values or
//! encoded records back; nothing here touches the engine itself.

use vstd::prelude::*;

use crate::bytes::{
    le_value_at, lemma_le_value_stable, lemma_pow256_values, push_le_value,
    spec_le_value,
};
use crate::monitor::EngineStats;
use crate::tuning::TuningKnobs;
use vstd::wrapping::u64_specs;

verus! {

/// Byte size of one counter snapshot: eighteen little-endian 64-bit
/// counters.
pub const ENGINE_STATS_BYTES: usize = 144;

/// Byte size of the knob record: seven little-endian 64-bit knobs.
pub const KNOBS_BYTES: usize = 56;

/// Exit-code bit with which the engine asks to be restarted after a
/// transient fault.
pub const SCX_ECODE_RST_MASK: u64 = 65536;

pub open spec fn spec_stat_field(s: Seq<u8>, k: int) -> u64 {
    spec_le_value(s, 8 * k, 8) as u64
}

/// The counter snapshot encoded in one map value, counters in declaration
/// order.
pub open spec fn spec_parse_engine_stats(s: Seq<u8>) -> EngineStats {
    EngineStats {
        nr_dispatches: spec_stat_field(s, 0),
        nr_idle_hits: spec_stat_field(s, 1),
        nr_shared: spec_stat_field(s, 2),
        nr_preempt: spec_stat_field(s, 3),
        nr_keep_running: spec_stat_field(s, 4),
        nr_hard_kicks: spec_stat_field(s, 5),
        nr_soft_kicks: spec_stat_field(s, 6),
        nr_enq_wakeup: spec_stat_field(s, 7),
        nr_enq_requeue: spec_stat_field(s, 8),
        wake_lat_sum: spec_stat_field(s, 9),
        wake_lat_samples: spec_stat_field(s, 10),
        wake_lat_idle_sum: spec_stat_field(s, 11),
        wake_lat_idle_cnt: spec_stat_field(s, 12),
        wake_lat_kick_sum: spec_stat_field(s, 13),
        wake_lat_kick_cnt: spec_stat_field(s, 14),
        nr_guard_clamps: spec_stat_field(s, 15),
        nr_affinity_hits: spec_stat_field(s, 16),
        nr_affinity_misses: spec_stat_field(s, 17),
    }
}

/// Decodes one per-CPU counter snapshot; an undersized value is discarded.
pub fn parse_engine_stats(data: &[u8]) -> (r: Option<EngineStats>)
    ensures
        data@.len() < ENGINE_STATS_BYTES ==> r is None,
        data@.len() >= ENGINE_STATS_BYTES ==> r == Some(spec_parse_engine_stats(data@)),
{
    if data.len() < ENGINE_STATS_BYTES {
        return None;
    }
    Some(
        EngineStats {
            nr_dispatches: le_value_at(data, 0, 8),
            nr_idle_hits: le_value_at(data, 8, 8),
            nr_shared: le_value_at(data, 16, 8),
            nr_preempt: le_value_at(data, 24, 8),
            nr_keep_running: le_value_at(data, 32, 8),
            nr_hard_kicks: le_value_at(data, 40, 8),
            nr_soft_kicks: le_value_at(data, 48, 8),
            nr_enq_wakeup: le_value_at(data, 56, 8),
            nr_enq_requeue: le_value_at(data, 64, 8),
            wake_lat_sum: le_value_at(data, 72, 8),
            wake_lat_samples: le_value_at(data, 80, 8),
            wake_lat_idle_sum: le_value_at(data, 88, 8),
            wake_lat_idle_cnt: le_value_at(data, 96, 8),
            wake_lat_kick_sum: le_value_at(data, 104, 8),
            wake_lat_kick_cnt: le_value_at(data, 112, 8),
            nr_guard_clamps: le_value_at(data, 120, 8),
            nr_affinity_hits: le_value_at(data, 128, 8),
            nr_affinity_misses: le_value_at(data, 136, 8),
        },
    )
}

/// Field-wise wraparound sum of two snapshots; the counters are cumulative
/// and may wrap, and their consumers only ever look at deltas, so wrapping
/// addition is the faithful total.
pub open spec fn spec_add_stats(a: EngineStats, b: EngineStats) -> EngineStats {
    EngineStats {
        nr_dispatches: u64_specs::wrapping_add(a.nr_dispatches, b.nr_dispatches),
        nr_idle_hits: u64_specs::wrapping_add(a.nr_idle_hits, b.nr_idle_hits),
        nr_shared: u64_specs::wrapping_add(a.nr_shared, b.nr_shared),
        nr_preempt: u64_specs::wrapping_add(a.nr_preempt, b.nr_preempt),
        nr_keep_running: u64_specs::wrapping_add(a.nr_keep_running, b.nr_keep_running),
        nr_hard_kicks: u64_specs::wrapping_add(a.nr_hard_kicks, b.nr_hard_kicks),
        nr_soft_kicks: u64_specs::wrapping_add(a.nr_soft_kicks, b.nr_soft_kicks),
        nr_enq_wakeup: u64_specs::wrapping_add(a.nr_enq_wakeup, b.nr_enq_wakeup),
        nr_enq_requeue: u64_specs::wrapping_add(a.nr_enq_requeue, b.nr_enq_requeue),
        wake_lat_sum: u64_specs::wrapping_add(a.wake_lat_sum, b.wake_lat_sum),
        wake_lat_samples: u64_specs::wrapping_add(a.wake_lat_samples, b.wake_lat_samples),
        wake_lat_idle_sum: u64_specs::wrapping_add(a.wake_lat_idle_sum, b.wake_lat_idle_sum),
        wake_lat_idle_cnt: u64_specs::wrapping_add(a.wake_lat_idle_cnt, b.wake_lat_idle_cnt),
        wake_lat_kick_sum: u64_specs::wrapping_add(a.wake_lat_kick_sum, b.wake_lat_kick_sum),
        wake_lat_kick_cnt: u64_specs::wrapping_add(a.wake_lat_kick_cnt, b.wake_lat_kick_cnt),
        nr_guard_clamps: u64_specs::wrapping_add(a.nr_guard_clamps, b.nr_guard_clamps),
        nr_affinity_hits: u64_specs::wrapping_add(a.nr_affinity_hits, b.nr_affinity_hits),
        nr_affinity_misses: u64_specs::wrapping_add(a.nr_affinity_misses, b.nr_affinity_misses),
    }
}

fn wadd(a: u64, b: u64) -> (r: u64)
    ensures
        r == u64_specs::wrapping_add(a, b),
{
    a.wrapping_add(b)
}

fn add_stats(a: &EngineStats, b: &EngineStats) -> (r: EngineStats)
    ensures
        r == spec_add_stats(*a, *b),
{
    EngineStats {
        nr_dispatches: wadd(a.nr_dispatches, b.nr_dispatches),
        nr_idle_hits: wadd(a.nr_idle_hits, b.nr_idle_hits),
        nr_shared: wadd(a.nr_shared, b.nr_shared),
        nr_preempt: wadd(a.nr_preempt, b.nr_preempt),
        nr_keep_running: wadd(a.nr_keep_running, b.nr_keep_running),
        nr_hard_kicks: wadd(a.nr_hard_kicks, b.nr_hard_kicks),
        nr_soft_kicks: wadd(a.nr_soft_kicks, b.nr_soft_kicks),
        nr_enq_wakeup: wadd(a.nr_enq_wakeup, b.nr_enq_wakeup),
        nr_enq_requeue: wadd(a.nr_enq_requeue, b.nr_enq_requeue),
        wake_lat_sum: wadd(a.wake_lat_sum, b.wake_lat_sum),
        wake_lat_samples: wadd(a.wake_lat_samples, b.wake_lat_samples),
        wake_lat_idle_sum: wadd(a.wake_lat_idle_sum, b.wake_lat_idle_sum),
        wake_lat_idle_cnt: wadd(a.wake_lat_idle_cnt, b.wake_lat_idle_cnt),
        wake_lat_kick_sum: wadd(a.wake_lat_kick_sum, b.wake_lat_kick_sum),
        wake_lat_kick_cnt: wadd(a.wake_lat_kick_cnt, b.wake_lat_kick_cnt),
        nr_guard_clamps: wadd(a.nr_guard_clamps, b.nr_guard_clamps),
        nr_affinity_hits: wadd(a.nr_affinity_hits, b.nr_affinity_hits),
        nr_affinity_misses: wadd(a.nr_affinity_misses, b.nr_affinity_misses),
    }
}

/// Sum of a sequence of per-CPU snapshots, field by field.
pub open spec fn spec_sum_stats(s: Seq<EngineStats>) -> EngineStats
    decreases s.len(),
{
    if s.len() == 0 {
        EngineStats::zeroed()
    } else {
        spec_add_stats(spec_sum_stats(s.drop_last()), s.last())
    }
}

/// Sums the per-CPU counter snapshots into one total.
pub fn sum_stats(per_cpu: &Vec<EngineStats>) -> (r: EngineStats)
    ensures
        r == spec_sum_stats(per_cpu@),
{
    let n = per_cpu.len();
    let mut acc = EngineStats::default();
    let mut i: usize = 0;
    while i < n
        invariant
            n == per_cpu@.len(),
            i <= n,
            acc == spec_sum_stats(per_cpu@.take(i as int)),
        decreases n - i,
    {
        proof {
            assert(per_cpu@.take(i as int + 1).drop_last() =~= per_cpu@.take(i as int));
        }
        acc = add_stats(&acc, &per_cpu[i]);
        i = i + 1;
    }
    proof {
        assert(per_cpu@.take(n as int) =~= per_cpu@);
    }
    acc
}

/// The knob record encoded in one map value, knobs in declaration order.
pub open spec fn spec_parse_knobs(s: Seq<u8>) -> TuningKnobs {
    TuningKnobs {
        slice_ns: spec_stat_field(s, 0),
        preempt_thresh_ns: spec_stat_field(s, 1),
        lag_scale: spec_stat_field(s, 2),
        batch_slice_ns: spec_stat_field(s, 3),
        cpu_bound_thresh_ns: spec_stat_field(s, 4),
        lat_cri_thresh_high: spec_stat_field(s, 5),
        lat_cri_thresh_low: spec_stat_field(s, 6),
    }
}

/// Decodes the knob record from its map value; an undersized value is
/// discarded.
pub fn parse_knobs(data: &[u8]) -> (r: Option<TuningKnobs>)
    ensures
        data@.len() < KNOBS_BYTES ==> r is None,
        data@.len() >= KNOBS_BYTES ==> r == Some(spec_parse_knobs(data@)),
{
    if data.len() < KNOBS_BYTES {
        return None;
    }
    Some(
        TuningKnobs {
            slice_ns: le_value_at(data, 0, 8),
            preempt_thresh_ns: le_value_at(data, 8, 8),
            lag_scale: le_value_at(data, 16, 8),
            batch_slice_ns: le_value_at(data, 24, 8),
            cpu_bound_thresh_ns: le_value_at(data, 32, 8),
            lat_cri_thresh_high: le_value_at(data, 40, 8),
            lat_cri_thresh_low: le_value_at(data, 48, 8),
        },
    )
}

/// Encodes the knob record for the engine's map: decoding the result gives
/// the record back.
pub fn knobs_to_bytes(k: &TuningKnobs) -> (r: Vec<u8>)
    ensures
        r@.len() == KNOBS_BYTES,
        spec_parse_knobs(r@) == *k,
{
    proof {
        lemma_pow256_values();
    }
    let mut out: Vec<u8> = Vec::new();
    push_le_value(&mut out, k.slice_ns, 8);
    let ghost s1 = out@;
    push_le_value(&mut out, k.preempt_thresh_ns, 8);
    let ghost s2 = out@;
    push_le_value(&mut out, k.lag_scale, 8);
    let ghost s3 = out@;
    push_le_value(&mut out, k.batch_slice_ns, 8);
    let ghost s4 = out@;
    push_le_value(&mut out, k.cpu_bound_thresh_ns, 8);
    let ghost s5 = out@;
    push_le_value(&mut out, k.lat_cri_thresh_high, 8);
    let ghost s6 = out@;
    push_le_value(&mut out, k.lat_cri_thresh_low, 8);
    proof {
        lemma_le_value_stable(s1, out@, 0, 8);
        lemma_le_value_stable(s2, out@, 8, 8);
        lemma_le_value_stable(s3, out@, 16, 8);
        lemma_le_value_stable(s4, out@, 24, 8);
        lemma_le_value_stable(s5, out@, 32, 8);
        lemma_le_value_stable(s6, out@, 40, 8);
    }
    out
}

/// Byte size of one per-process table value: a tier byte, seven bytes of
/// padding, and the little-endian smoothed runtime.
pub const TASK_CLASS_ENTRY_BYTES: usize = 16;

/// Decodes one per-process observation value into its proposed tier and
/// average runtime; an undersized value is discarded.
pub fn parse_task_class_value(data: &[u8]) -> (r: Option<(u8, u64)>)
    ensures
        data@.len() < TASK_CLASS_ENTRY_BYTES ==> r is None,
        data@.len() >= TASK_CLASS_ENTRY_BYTES ==> r == Some(
            (data@[0], spec_le_value(data@, 8, 8) as u64),
        ),
{
    if data.len() < TASK_CLASS_ENTRY_BYTES {
        return None;
    }
    Some((data[0], le_value_at(data, 8, 8)))
}

/// Encodes one per-process prediction value for the engine's initialization
/// table: decoding the result gives the tier and runtime back.
pub fn task_class_value_bytes(tier: u8, avg_runtime_ns: u64) -> (r: Vec<u8>)
    ensures
        r@.len() == TASK_CLASS_ENTRY_BYTES,
        r@[0] == tier,
        spec_le_value(r@, 8, 8) == avg_runtime_ns,
{
    proof {
        lemma_pow256_values();
    }
    let mut out: Vec<u8> = Vec::new();
    out.push(tier);
    let mut i: usize = 0;
    while i < 7
        invariant
            i <= 7,
            out@.len() == 1 + i,
            out@[0] == tier,
        decreases 7 - i,
    {
        out.push(0);
        i = i + 1;
    }
    let ghost pre = out@;
    push_le_value(&mut out, avg_runtime_ns, 8);
    proof {
        assert(out@[0] == pre[0]);
    }
    out
}

/// Byte size of the fixed head of the engine's exit record: the exit kind
/// and, eight-aligned, the exit code; a human-readable reason may follow.
pub const EXIT_INFO_HEAD_BYTES: usize = 16;

/// Decodes the head of the engine's exit record into its kind and exit
/// code; an undersized value is discarded.
pub fn parse_exit_info(data: &[u8]) -> (r: Option<(u32, u64)>)
    ensures
        data@.len() < EXIT_INFO_HEAD_BYTES ==> r is None,
        data@.len() >= EXIT_INFO_HEAD_BYTES ==> ({
            &&& r is Some
            &&& r.unwrap().0 == spec_le_value(data@, 0, 4) as u32
            &&& r.unwrap().1 == spec_le_value(data@, 8, 8) as u64
        }),
{
    if data.len() < EXIT_INFO_HEAD_BYTES {
        return None;
    }
    proof {
        lemma_pow256_values();
        crate::bytes::lemma_le_value_bound(data@, 0, 4);
    }
    Some((le_value_at(data, 0, 4) as u32, le_value_at(data, 8, 8)))
}

/// Whether the engine's exit code carries the restart-request bit: a
/// transient-fault recovery signal, distinct from a user-requested stop.
pub fn restart_requested(exit_code: u64) -> (r: bool)
    ensures
        r == (exit_code & SCX_ECODE_RST_MASK != 0),
{
    exit_code & SCX_ECODE_RST_MASK != 0
}

/// Length of the NUL-terminated prefix of a fixed-width C string field: the
/// index of the first NUL, or the whole length when none occurs.
pub fn c_str_len(bytes: &[u8]) -> (r: usize)
    ensures
        r <= bytes@.len(),
        forall|j: int| 0 <= j < r ==> bytes@[j] != 0,
        r < bytes@.len() ==> bytes@[r as int] == 0,
{
    let n = bytes.len();
    let mut i: usize = 0;
    while i < n
        invariant
            n == bytes@.len(),
            i <= n,
            forall|j: int| 0 <= j < i ==> bytes@[j] != 0,
        decreases n - i,
    {
        if bytes[i] == 0 {
            return i;
        }
        i = i + 1;
    }
    n
}

pub open spec fn spec_cpu_bit(mask: u64, cpu: u32) -> bool {
    mask & (1u64 << cpu) != 0
}

/// The CPUs marked idle in the engine's 64-bit bitmap, in ascending order.
pub fn idle_cpu_list(mask: u64) -> (r: Vec<u32>)
    ensures
        forall|i: int| 0 <= i < r@.len() ==> r@[i] < 64 && spec_cpu_bit(mask, r@[i]),
        forall|i: int, j: int| 0 <= i < j < r@.len() ==> r@[i] < r@[j],
        forall|c: u32| c < 64 && spec_cpu_bit(mask, c) ==> r@.contains(c),
{
    let mut r: Vec<u32> = Vec::new();
    let mut c: u32 = 0;
    while c < 64
        invariant
            c <= 64,
            forall|i: int| 0 <= i < r@.len() ==> r@[i] < c && spec_cpu_bit(mask, r@[i]),
            forall|i: int, j: int| 0 <= i < j < r@.len() ==> r@[i] < r@[j],
            forall|b: u32| b < c && spec_cpu_bit(mask, b) ==> r@.contains(b),
        decreases 64 - c,
    {
        let ghost pre = r@;
        if mask & (1u64 << c) != 0 {
            r.push(c);
            proof {
                assert(r@[r@.len() - 1] == c);
                assert(forall|i: int| 0 <= i < pre.len() ==> r@[i] == pre[i]);
                assert forall|b: u32| b < c + 1 && spec_cpu_bit(mask, b) implies r@.contains(
                    b,
                ) by {
                    if b < c {
                        assert(pre.contains(b));
                        let x = choose|x: int| 0 <= x < pre.len() && pre[x] == b;
                        assert(r@[x] == b);
                    } else {
                        assert(r@[r@.len() - 1] == b);
                    }
                }
            }
        } else {
            proof {
                assert forall|b: u32| b < c + 1 && spec_cpu_bit(mask, b) implies r@.contains(
                    b,
                ) by {
                    assert(b != c);
                }
            }
        }
        c = c + 1;
    }
    r
}

/// How far a timed sleep overshot its target, in microseconds; clamped at
/// zero when the clock read ran backwards or the sleep returned early.
pub fn overshoot_us(elapsed_ns: i64, target_ns: i64) -> (r: i64)
    requires
        target_ns >= 0,
        elapsed_ns >= i64::MIN + target_ns,
    ensures
        r == (if elapsed_ns - target_ns > 0 {
            (elapsed_ns - target_ns) / 1000
        } else {
            0
        }),
{
    let over = elapsed_ns - target_ns;
    if over > 0 {
        over / 1000
    } else {
        0
    }
}

} // verus!
