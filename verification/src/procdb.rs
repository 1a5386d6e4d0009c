//! The process classification store.
//!
//! The engine observes mature task behaviour and exposes per-process
//! observations keyed by a fixed-width name; the store merges them into
//! confidence-weighted profiles with exponential smoothing, publishes
//! predictions for names it is confident about, and evicts entries that went
//! stale or exceed the capacity cap. The surrounding binary only drains the
//! observation table into [`Observation`] values and writes
//! [`Prediction`] values back; every decision is made and proved here.

use vstd::prelude::*;

verus! {

/// Observations required before a profile may publish a prediction.
pub const MIN_OBSERVATIONS: u32 = 3;

/// Capacity cap on the number of profiles held.
pub const MAX_PROFILES: usize = 512;

/// A profile unseen for this many ticks is removed.
pub const STALE_TICKS: u64 = 60;

/// One observation drained from the engine's table: a fixed-width name key,
/// the tier the engine proposes, and the task's smoothed runtime.
#[derive(Clone, Copy, Debug, PartialEq, Eq, Structural)]
pub struct Observation {
    pub name: u128,
    pub tier: u8,
    pub avg_runtime_ns: u64,
}

/// One prediction for the engine's initialization table.
#[derive(Clone, Copy, Debug, PartialEq, Eq, Structural)]
pub struct Prediction {
    pub name: u128,
    pub tier: u8,
    pub avg_runtime_ns: u64,
}

/// Learned behaviour of one process name: a vote tally per tier (batch,
/// interactive, latency-critical), an exponentially smoothed average
/// runtime, an observation count and the tick of last update.
#[derive(Clone, Copy, Debug, PartialEq, Eq)]
pub struct TaskProfile {
    pub tier_votes: (u32, u32, u32),
    pub avg_runtime_ns: u64,
    pub observations: u32,
    pub last_seen_tick: u64,
}

pub open spec fn spec_total_votes(p: TaskProfile) -> int {
    p.tier_votes.0 + p.tier_votes.1 + p.tier_votes.2
}

pub open spec fn spec_max_votes(p: TaskProfile) -> int {
    let (a, b, c) = p.tier_votes;
    if a >= b && a >= c {
        a as int
    } else if b >= c {
        b as int
    } else {
        c as int
    }
}

/// Confidence as an exact comparison with 3/5: the dominant tier holds at
/// least 60% of the votes. False when there are no votes at all.
pub open spec fn spec_is_confident(p: TaskProfile) -> bool {
    spec_total_votes(p) > 0 && spec_max_votes(p) * 5 >= spec_total_votes(p) * 3
}

/// Tie-break toward the higher tier index: equal counts favour the more
/// latency-sensitive classification.
pub open spec fn spec_dominant_tier(p: TaskProfile) -> u8 {
    let (a, b, c) = p.tier_votes;
    if c >= b && c >= a {
        2
    } else if b >= a {
        1
    } else {
        0
    }
}

/// A profile publishes a prediction when it has enough observations and is
/// confident.
pub open spec fn spec_publishable(p: TaskProfile) -> bool {
    p.observations >= MIN_OBSERVATIONS && spec_is_confident(p)
}

impl TaskProfile {
    /// The empty profile a first observation is merged into.
    pub fn empty() -> (p: TaskProfile)
        ensures
            p == (TaskProfile {
                tier_votes: (0u32, 0u32, 0u32),
                avg_runtime_ns: 0u64,
                observations: 0u32,
                last_seen_tick: 0u64,
            }),
    {
        TaskProfile { tier_votes: (0, 0, 0), avg_runtime_ns: 0, observations: 0, last_seen_tick: 0 }
    }

    /// The dominant tier's share of all votes, in percent; 0 for an empty
    /// tally.
    pub fn confidence_percent(&self) -> (c: u32)
        ensures
            spec_total_votes(*self) == 0 ==> c == 0,
            spec_total_votes(*self) > 0 ==> c == spec_max_votes(*self) * 100 / spec_total_votes(
                *self,
            ),
            c <= 100,
    {
        let (a, b, c) = self.tier_votes;
        let total = a as u64 + b as u64 + c as u64;
        if total == 0 {
            return 0;
        }
        let max = if a >= b && a >= c {
            a
        } else if b >= c {
            b
        } else {
            c
        };
        let pct = (max as u64) * 100 / total;
        proof {
            vstd::arithmetic::div_mod::lemma_div_is_ordered(
                (max as u64) * 100,
                total * 100,
                total as int,
            );
            assert(total * 100 / (total as int) == 100) by (nonlinear_arith)
                requires
                    total > 0,
            ;
        }
        pct as u32
    }

    /// Whether the dominant tier holds at least 60% of the votes.
    pub fn is_confident(&self) -> (r: bool)
        ensures
            r == spec_is_confident(*self),
    {
        let (a, b, c) = self.tier_votes;
        let total = a as u64 + b as u64 + c as u64;
        if total == 0 {
            return false;
        }
        let max = if a >= b && a >= c {
            a
        } else if b >= c {
            b
        } else {
            c
        };
        (max as u64) * 5 >= total * 3
    }

    /// The tier with the most votes, ties broken toward the highest index.
    pub fn dominant_tier(&self) -> (t: u8)
        ensures
            t == spec_dominant_tier(*self),
            t <= 2,
    {
        let (a, b, c) = self.tier_votes;
        if c >= b && c >= a {
            2
        } else if b >= a {
            1
        } else {
            0
        }
    }
}

/// The dominant tier really is a maximal one, and every strictly higher
/// tier has strictly fewer votes — the exact tie-break the engine relies on.
pub proof fn lemma_dominant_tier_is_max(p: TaskProfile)
    ensures
        ({
            let t = spec_dominant_tier(p);
            let (a, b, c) = p.tier_votes;
            let votes = seq![a, b, c];
            &&& 0 <= t <= 2
            &&& forall|j: int| 0 <= j < 3 ==> #[trigger] votes[j] <= votes[t as int]
            &&& forall|j: int| t < j < 3 ==> #[trigger] votes[j] < votes[t as int]
        }),
{
}

/// One profile entry of the store.
#[derive(Clone, Copy, Debug, PartialEq, Eq)]
pub struct ProfileEntry {
    pub name: u128,
    pub profile: TaskProfile,
}

/// The vote tally with one vote added for `tier` (clamped to the highest
/// tier index; saturating, so a profile that has seen billions of
/// observations stops counting rather than wrapping).
pub open spec fn spec_vote(votes: (u32, u32, u32), tier: u8) -> (u32, u32, u32) {
    let (a, b, c) = votes;
    if tier == 0 {
        (sat_inc(a), b, c)
    } else if tier == 1 {
        (a, sat_inc(b), c)
    } else {
        (a, b, sat_inc(c))
    }
}

pub open spec fn sat_inc(x: u32) -> u32 {
    if x < u32::MAX {
        (x + 1) as u32
    } else {
        u32::MAX
    }
}

/// Exponential smoothing of the average runtime, weighted 7/8 old to 1/8
/// new; a first observation is taken as-is.
pub open spec fn spec_ewma(old_avg: u64, observations: u32, new_avg: u64) -> u64 {
    if observations == 0 {
        new_avg
    } else {
        ((old_avg * 7 + new_avg) / 8) as u64
    }
}

/// A profile after merging one observation at tick `now`.
pub open spec fn spec_merged(p: TaskProfile, o: Observation, now: u64) -> TaskProfile {
    TaskProfile {
        tier_votes: spec_vote(p.tier_votes, if o.tier >= 2 {
            2
        } else {
            o.tier
        }),
        avg_runtime_ns: spec_ewma(p.avg_runtime_ns, p.observations, o.avg_runtime_ns),
        observations: sat_inc(p.observations),
        last_seen_tick: now,
    }
}

/// Index of the first entry carrying `name`, or -1.
pub open spec fn spec_index_of_name(s: Seq<ProfileEntry>, name: u128) -> int
    decreases s.len(),
{
    if s.len() == 0 {
        -1
    } else if s[0].name == name {
        0
    } else {
        let r = spec_index_of_name(s.drop_first(), name);
        if r < 0 {
            -1
        } else {
            r + 1
        }
    }
}

pub proof fn lemma_index_of_name_char(s: Seq<ProfileEntry>, name: u128)
    ensures
        ({
            let r = spec_index_of_name(s, name);
            &&& (r == -1 <==> forall|j: int| 0 <= j < s.len() ==> s[j].name != name)
            &&& (r != -1 ==> 0 <= r < s.len() && s[r].name == name && forall|j: int|
                0 <= j < r ==> s[j].name != name)
        }),
    decreases s.len(),
{
    if s.len() > 0 && s[0].name != name {
        lemma_index_of_name_char(s.drop_first(), name);
        assert(forall|j: int| 1 <= j < s.len() ==> s[j] == s.drop_first()[j - 1]);
    }
}

/// The store after merging one observation: the matching entry is updated in
/// place, or a fresh profile is appended for an unseen name.
pub open spec fn spec_merge_one(s: Seq<ProfileEntry>, o: Observation, now: u64) -> Seq<
    ProfileEntry,
> {
    let i = spec_index_of_name(s, o.name);
    if i >= 0 {
        s.update(i, ProfileEntry { name: o.name, profile: spec_merged(s[i].profile, o, now) })
    } else {
        s.push(
            ProfileEntry {
                name: o.name,
                profile: spec_merged(
                    TaskProfile {
                        tier_votes: (0u32, 0u32, 0u32),
                        avg_runtime_ns: 0u64,
                        observations: 0u32,
                        last_seen_tick: 0u64,
                    },
                    o,
                    now,
                ),
            },
        )
    }
}

/// The store after merging a batch of observations, first to last.
pub open spec fn spec_ingest(s: Seq<ProfileEntry>, obs: Seq<Observation>, now: u64) -> Seq<
    ProfileEntry,
>
    decreases obs.len(),
{
    if obs.len() == 0 {
        s
    } else {
        spec_merge_one(spec_ingest(s, obs.drop_last(), now), obs.last(), now)
    }
}

/// The predictions a store publishes, in entry order: one per publishable
/// profile.
pub open spec fn spec_predictions(s: Seq<ProfileEntry>) -> Seq<Prediction>
    decreases s.len(),
{
    if s.len() == 0 {
        Seq::empty()
    } else {
        let rest = spec_predictions(s.drop_last());
        if spec_publishable(s.last().profile) {
            rest.push(
                Prediction {
                    name: s.last().name,
                    tier: spec_dominant_tier(s.last().profile),
                    avg_runtime_ns: s.last().profile.avg_runtime_ns,
                },
            )
        } else {
            rest
        }
    }
}

/// Number of publishable profiles among the entries.
pub open spec fn spec_confident_count(s: Seq<ProfileEntry>) -> int
    decreases s.len(),
{
    if s.len() == 0 {
        0
    } else {
        spec_confident_count(s.drop_last()) + if spec_publishable(s.last().profile) {
            1int
        } else {
            0int
        }
    }
}

pub open spec fn spec_is_stale(e: ProfileEntry, now: u64) -> bool {
    now - e.profile.last_seen_tick > STALE_TICKS
}

/// Splits the entries at tick `now` into the fresh ones (kept, in order) and
/// the names of the stale ones (in order).
pub open spec fn spec_stale_split(s: Seq<ProfileEntry>, now: u64) -> (Seq<ProfileEntry>, Seq<
    u128,
>)
    decreases s.len(),
{
    if s.len() == 0 {
        (Seq::empty(), Seq::empty())
    } else {
        let (kept, names) = spec_stale_split(s.drop_last(), now);
        if spec_is_stale(s.last(), now) {
            (kept, names.push(s.last().name))
        } else {
            (kept.push(s.last()), names)
        }
    }
}

/// Index of the first entry with the minimal `last_seen_tick`.
pub open spec fn spec_min_index(s: Seq<ProfileEntry>) -> int
    decreases s.len(),
{
    if s.len() <= 1 {
        0
    } else {
        let m = spec_min_index(s.drop_last());
        if s.last().profile.last_seen_tick < s[m].profile.last_seen_tick {
            s.len() - 1
        } else {
            m
        }
    }
}

pub proof fn lemma_min_index_char(s: Seq<ProfileEntry>)
    requires
        s.len() > 0,
    ensures
        ({
            let m = spec_min_index(s);
            &&& 0 <= m < s.len()
            &&& forall|j: int|
                0 <= j < s.len() ==> s[m].profile.last_seen_tick <= #[trigger] s[j].profile.last_seen_tick
            &&& forall|j: int|
                0 <= j < m ==> s[m].profile.last_seen_tick < #[trigger] s[j].profile.last_seen_tick
        }),
    decreases s.len(),
{
    if s.len() > 1 {
        lemma_min_index_char(s.drop_last());
        assert(forall|j: int| 0 <= j < s.len() - 1 ==> s[j] == s.drop_last()[j]);
    }
}

/// Entries kept after evicting down to the capacity cap, with the evicted
/// names in eviction order: while over the cap, the first entry with the
/// minimal last-seen tick leaves.
pub open spec fn spec_evict_excess(s: Seq<ProfileEntry>) -> (Seq<ProfileEntry>, Seq<u128>)
    decreases s.len(),
    via spec_evict_excess_decreases
{
    if s.len() <= MAX_PROFILES {
        (s, Seq::empty())
    } else {
        let m = spec_min_index(s);
        let rest = spec_evict_excess(s.remove(m));
        (rest.0, seq![s[m].name] + rest.1)
    }
}

#[via_fn]
proof fn spec_evict_excess_decreases(s: Seq<ProfileEntry>) {
    if s.len() > MAX_PROFILES {
        lemma_min_index_char(s);
    }
}

/// Capacity eviction keeps exactly the cap, keeps only entries of the input,
/// and is oldest-first: anything it dropped is no newer than anything it
/// kept.
pub proof fn lemma_evict_oldest_first(s: Seq<ProfileEntry>)
    ensures
        ({
            let (kept, names) = spec_evict_excess(s);
            &&& kept.len() == if s.len() <= MAX_PROFILES {
                s.len() as int
            } else {
                MAX_PROFILES as int
            }
            &&& names.len() == s.len() - kept.len()
            &&& forall|b: int| 0 <= b < kept.len() ==> s.contains(#[trigger] kept[b])
            &&& forall|a: int, b: int|
                0 <= a < s.len() && 0 <= b < kept.len() && !kept.contains(#[trigger] s[a])
                    ==> s[a].profile.last_seen_tick <= #[trigger] kept[b].profile.last_seen_tick
        }),
    decreases s.len(),
{
    if s.len() > MAX_PROFILES {
        let m = spec_min_index(s);
        lemma_min_index_char(s);
        let s1 = s.remove(m);
        lemma_evict_oldest_first(s1);
        let (kept, names) = spec_evict_excess(s);
        assert forall|b: int| 0 <= b < kept.len() implies s.contains(#[trigger] kept[b]) by {
            assert(s1.contains(kept[b]));
            let i = choose|i: int| 0 <= i < s1.len() && s1[i] == kept[b];
            if i < m {
                assert(s[i] == s1[i]);
            } else {
                assert(s[i + 1] == s1[i]);
            }
        }
        assert forall|a: int, b: int|
            0 <= a < s.len() && 0 <= b < kept.len() && !kept.contains(#[trigger] s[a]) implies s[
            a
        ].profile.last_seen_tick <= #[trigger] kept[b].profile.last_seen_tick by {
            assert(s1.contains(kept[b]));
            let i = choose|i: int| 0 <= i < s1.len() && s1[i] == kept[b];
            let a1 = if a < m {
                a
            } else if a > m {
                a - 1
            } else {
                -1
            };
            if a1 >= 0 {
                assert(s1[a1] == s[a]);
                assert(s1[a1].profile.last_seen_tick <= kept[b].profile.last_seen_tick);
            } else {
                // The removed minimum is no newer than anything, kept or not.
                if i < m {
                    assert(s1[i] == s[i]);
                } else {
                    assert(s1[i] == s[i + 1]);
                }
            }
        }
    }
}

/// The in-memory profile store.
pub struct ProcessDb {
    /// Profiles, one per name.
    pub entries: Vec<ProfileEntry>,
    /// The store's tick counter.
    pub tick: u64,
}

impl ProcessDb {
    /// Names are unique and nothing was last seen in the future.
    pub open spec fn wf(self) -> bool {
        &&& forall|i: int, j: int|
            0 <= i < j < self.entries@.len() ==> self.entries@[i].name != self.entries@[j].name
        &&& forall|i: int|
            0 <= i < self.entries@.len() ==> #[trigger] self.entries@[i].profile.last_seen_tick
                <= self.tick
    }

    /// An empty store at tick zero.
    pub fn new() -> (db: Self)
        ensures
            db.wf(),
            db.entries@.len() == 0,
            db.tick == 0,
    {
        ProcessDb { entries: Vec::new(), tick: 0 }
    }

    /// Merges a batch of drained observations into the profiles: each
    /// observation increments the vote for its proposed tier (clamped to the
    /// highest index), smooths the average runtime 7/8 old to 1/8 new,
    /// counts the observation and stamps the current tick; unseen names get
    /// a fresh profile.
    pub fn ingest(&mut self, observations: &Vec<Observation>)
        requires
            old(self).wf(),
        ensures
            final(self).wf(),
            final(self).entries@ == spec_ingest(
                old(self).entries@,
                observations@,
                old(self).tick,
            ),
            final(self).tick == old(self).tick,
    {
        let now = self.tick;
        let n = observations.len();
        let mut k: usize = 0;
        while k < n
            invariant
                n == observations@.len(),
                k <= n,
                self.tick == now,
                self.wf(),
                self.entries@ == spec_ingest(old(self).entries@, observations@.take(k as int), now),
            decreases n - k,
        {
            proof {
                assert(observations@.take(k as int + 1).drop_last() =~= observations@.take(
                    k as int,
                ));
                assert(observations@.take(k as int + 1).last() == observations@[k as int]);
            }
            let o = observations[k];
            self.merge_one(&o);
            k = k + 1;
        }
        proof {
            assert(observations@.take(n as int) =~= observations@);
        }
    }

    /// Merges a single observation (one step of [`Self::ingest`]).
    fn merge_one(&mut self, o: &Observation)
        requires
            old(self).wf(),
        ensures
            final(self).wf(),
            final(self).entries@ == spec_merge_one(old(self).entries@, *o, old(self).tick),
            final(self).tick == old(self).tick,
    {
        proof {
            lemma_index_of_name_char(self.entries@, o.name);
        }
        let n = self.entries.len();
        let mut i: usize = 0;
        let mut found: bool = false;
        while i < n && !found
            invariant
                n == self.entries@.len(),
                i <= n,
                found ==> i < n && self.entries@[i as int].name == o.name,
                forall|j: int| 0 <= j < i ==> self.entries@[j].name != o.name,
            decreases n - i + if found {
                0int
            } else {
                1int
            },
        {
            if self.entries[i].name == o.name {
                found = true;
            } else {
                i = i + 1;
            }
        }
        let tier: u8 = if o.tier >= 2 {
            2
        } else {
            o.tier
        };
        if found {
            proof {
                assert(spec_index_of_name(self.entries@, o.name) == i as int);
            }
            let entry = self.entries[i];
            let merged = merge_profile(&entry.profile, tier, o.avg_runtime_ns, self.tick);
            self.entries[i] = ProfileEntry { name: o.name, profile: merged };
        } else {
            proof {
                assert(spec_index_of_name(self.entries@, o.name) == -1);
            }
            let fresh = TaskProfile::empty();
            let merged = merge_profile(&fresh, tier, o.avg_runtime_ns, self.tick);
            self.entries.push(ProfileEntry { name: o.name, profile: merged });
        }
    }

    /// The predictions currently worth publishing: one per profile with at
    /// least `MIN_OBSERVATIONS` observations and 60% confidence, carrying
    /// the dominant tier and the smoothed runtime.
    pub fn flush_predictions(&self) -> (preds: Vec<Prediction>)
        ensures
            preds@ == spec_predictions(self.entries@),
    {
        let n = self.entries.len();
        let mut preds: Vec<Prediction> = Vec::new();
        let mut i: usize = 0;
        while i < n
            invariant
                n == self.entries@.len(),
                i <= n,
                preds@ == spec_predictions(self.entries@.take(i as int)),
            decreases n - i,
        {
            proof {
                assert(self.entries@.take(i as int + 1).drop_last() =~= self.entries@.take(
                    i as int,
                ));
            }
            let entry = self.entries[i];
            let obs_ok = entry.profile.observations >= MIN_OBSERVATIONS;
            if obs_ok && entry.profile.is_confident() {
                let tier = entry.profile.dominant_tier();
                preds.push(
                    Prediction { name: entry.name, tier, avg_runtime_ns: entry.profile.avg_runtime_ns },
                );
            }
            i = i + 1;
        }
        proof {
            assert(self.entries@.take(n as int) =~= self.entries@);
        }
        preds
    }

    /// Advances the store one tick: profiles unseen for more than
    /// `STALE_TICKS` ticks are removed, and if more than `MAX_PROFILES`
    /// remain, the oldest-by-last-seen are evicted until the cap holds.
    /// Returns the removed names (stale first, then evicted), for the caller
    /// to delete from the engine's prediction table.
    #[verifier::loop_isolation(false)]
    pub fn tick(&mut self) -> (removed: Vec<u128>)
        requires
            old(self).wf(),
            old(self).tick < u64::MAX,
        ensures
            final(self).wf(),
            final(self).tick == old(self).tick + 1,
            ({
                let (fresh, stale_names) = spec_stale_split(
                    old(self).entries@,
                    (old(self).tick + 1) as u64,
                );
                let (kept, evicted_names) = spec_evict_excess(fresh);
                &&& final(self).entries@ == kept
                &&& removed@ == stale_names + evicted_names
            }),
            final(self).entries@.len() <= MAX_PROFILES,
            forall|i: int|
                0 <= i < final(self).entries@.len() ==> final(self).tick
                    - #[trigger] final(self).entries@[i].profile.last_seen_tick <= STALE_TICKS,
    {
        self.tick = self.tick + 1;
        let now = self.tick;
        let ghost orig = self.entries@;

        // Phase one: drop stale profiles.
        let n = self.entries.len();
        let mut kept: Vec<ProfileEntry> = Vec::new();
        let mut removed: Vec<u128> = Vec::new();
        let mut i: usize = 0;
        while i < n
            invariant
                n == orig.len(),
                self.entries@ == orig,
                self.tick == now,
                i <= n,
                (kept@, removed@) == spec_stale_split(orig.take(i as int), now),
            decreases n - i,
        {
            proof {
                assert(orig.take(i as int + 1).drop_last() =~= orig.take(i as int));
                assert(orig.take(i as int + 1).last() == orig[i as int]);
            }
            let e = self.entries[i];
            if now - e.profile.last_seen_tick > STALE_TICKS {
                removed.push(e.name);
            } else {
                kept.push(e);
            }
            i = i + 1;
        }
        proof {
            assert(orig.take(n as int) =~= orig);
        }
        self.entries = kept;

        // Phase two: evict the oldest while over the capacity cap.
        let ghost fresh = self.entries@;
        let ghost stale_names = spec_stale_split(orig, now).1;
        proof {
            assert(fresh == spec_stale_split(orig, now).0);
            assert(removed@ == stale_names);
            lemma_stale_split_unique(orig, now);
        }
        while self.entries.len() > MAX_PROFILES
            invariant
                self.tick == now,
                spec_evict_excess(fresh).0 == spec_evict_excess(self.entries@).0,
                stale_names + spec_evict_excess(fresh).1 == removed@ + spec_evict_excess(
                    self.entries@,
                ).1,
            decreases self.entries@.len(),
        {
            let ghost before = self.entries@;
            let m = self.find_oldest();
            let name = self.entries[m].name;
            removed.push(name);
            self.entries.remove(m);
            proof {
                assert(spec_evict_excess(before).1 == seq![name] + spec_evict_excess(
                    self.entries@,
                ).1);
                assert(stale_names + spec_evict_excess(fresh).1 =~= removed@ + spec_evict_excess(
                    self.entries@,
                ).1);
            }
        }
        proof {
            assert(spec_evict_excess(self.entries@).0 == self.entries@);
            assert(spec_evict_excess(self.entries@).1 =~= Seq::<u128>::empty());
            assert(removed@ =~= stale_names + spec_evict_excess(fresh).1);
            lemma_evict_wf(fresh, now, *self);
            lemma_evict_oldest_first(fresh);
            assert forall|i: int| 0 <= i < self.entries@.len() implies now - #[trigger] self.entries@[i].profile.last_seen_tick
                <= STALE_TICKS by {
                assert(fresh.contains(self.entries@[i]));
                let x = choose|x: int| 0 <= x < fresh.len() && fresh[x] == self.entries@[i];
                assert(now - fresh[x].profile.last_seen_tick <= STALE_TICKS);
            }
        }
        removed
    }

    /// Index of the first entry with the minimal last-seen tick.
    fn find_oldest(&self) -> (m: usize)
        requires
            self.entries@.len() > 0,
        ensures
            m as int == spec_min_index(self.entries@),
            m < self.entries@.len(),
    {
        proof {
            lemma_min_index_char(self.entries@);
        }
        let n = self.entries.len();
        let mut m: usize = 0;
        let mut j: usize = 1;
        while j < n
            invariant
                n == self.entries@.len(),
                m < j <= n,
                forall|i: int|
                    0 <= i < j ==> self.entries@[m as int].profile.last_seen_tick
                        <= #[trigger] self.entries@[i].profile.last_seen_tick,
                forall|i: int|
                    0 <= i < m ==> self.entries@[m as int].profile.last_seen_tick
                        < #[trigger] self.entries@[i].profile.last_seen_tick,
            decreases n - j,
        {
            if self.entries[j].profile.last_seen_tick < self.entries[m].profile.last_seen_tick {
                m = j;
            }
            j = j + 1;
        }
        proof {
            lemma_first_min_unique(self.entries@, m as int);
        }
        m
    }

    /// Total profile count and how many are currently publishable.
    pub fn summary(&self) -> (r: (usize, usize))
        ensures
            r.0 == self.entries@.len(),
            r.1 == spec_confident_count(self.entries@),
    {
        let n = self.entries.len();
        let mut confident: usize = 0;
        let mut i: usize = 0;
        while i < n
            invariant
                n == self.entries@.len(),
                i <= n,
                confident == spec_confident_count(self.entries@.take(i as int)),
                confident <= i,
            decreases n - i,
        {
            proof {
                assert(self.entries@.take(i as int + 1).drop_last() =~= self.entries@.take(
                    i as int,
                ));
            }
            let entry = self.entries[i];
            let obs_ok = entry.profile.observations >= MIN_OBSERVATIONS;
            if obs_ok && entry.profile.is_confident() {
                confident = confident + 1;
            }
            i = i + 1;
        }
        proof {
            assert(self.entries@.take(n as int) =~= self.entries@);
        }
        (n, confident)
    }
}

/// Merges one observation into a profile (the executable twin of
/// [`spec_merged`], with the tier already clamped).
fn merge_profile(p: &TaskProfile, tier: u8, avg_runtime_ns: u64, now: u64) -> (r: TaskProfile)
    requires
        tier <= 2,
    ensures
        r == (TaskProfile {
            tier_votes: spec_vote(p.tier_votes, tier),
            avg_runtime_ns: spec_ewma(p.avg_runtime_ns, p.observations, avg_runtime_ns),
            observations: sat_inc(p.observations),
            last_seen_tick: now,
        }),
{
    let (a, b, c) = p.tier_votes;
    let votes = if tier == 0 {
        (sat_inc_exec(a), b, c)
    } else if tier == 1 {
        (a, sat_inc_exec(b), c)
    } else {
        (a, b, sat_inc_exec(c))
    };
    let avg = if p.observations == 0 {
        avg_runtime_ns
    } else {
        let wide = (p.avg_runtime_ns as u128) * 7 + (avg_runtime_ns as u128);
        (wide / 8) as u64
    };
    TaskProfile {
        tier_votes: votes,
        avg_runtime_ns: avg,
        observations: sat_inc_exec(p.observations),
        last_seen_tick: now,
    }
}

fn sat_inc_exec(x: u32) -> (r: u32)
    ensures
        r == sat_inc(x),
{
    if x < u32::MAX {
        x + 1
    } else {
        u32::MAX
    }
}

/// After the stale split at tick `now`, everything kept came from the input,
/// is fresh, and still carries a unique name.
proof fn lemma_stale_split_unique(s: Seq<ProfileEntry>, now: u64)
    requires
        forall|i: int, j: int| 0 <= i < j < s.len() ==> s[i].name != s[j].name,
        forall|i: int| 0 <= i < s.len() ==> #[trigger] s[i].profile.last_seen_tick <= now,
    ensures
        ({
            let kept = spec_stale_split(s, now).0;
            &&& forall|i: int| 0 <= i < kept.len() ==> s.contains(#[trigger] kept[i])
            &&& forall|i: int, j: int| 0 <= i < j < kept.len() ==> kept[i].name != kept[j].name
            &&& forall|i: int|
                0 <= i < kept.len() ==> now - #[trigger] kept[i].profile.last_seen_tick
                    <= STALE_TICKS
            &&& forall|i: int|
                0 <= i < kept.len() ==> #[trigger] kept[i].profile.last_seen_tick <= now
        }),
    decreases s.len(),
{
    if s.len() > 0 {
        lemma_stale_split_unique(s.drop_last(), now);
        assert(forall|j: int| 0 <= j < s.len() - 1 ==> s.drop_last()[j] == s[j]);
        let kept0 = spec_stale_split(s.drop_last(), now).0;
        let kept = spec_stale_split(s, now).0;
        if !spec_is_stale(s.last(), now) {
            assert forall|i: int, j: int| 0 <= i < j < kept.len() implies kept[i].name != kept[
                j
            ].name by {
                if j == kept.len() - 1 {
                    assert(s.drop_last().contains(kept0[i]));
                    let x = choose|x: int|
                        0 <= x < s.len() - 1 && s.drop_last()[x] == kept0[i];
                    assert(s[x].name != s[s.len() - 1].name);
                }
            }
            assert forall|i: int| 0 <= i < kept.len() implies s.contains(#[trigger] kept[i]) by {
                if i < kept.len() - 1 {
                    assert(s.drop_last().contains(kept0[i]));
                    let x = choose|x: int|
                        0 <= x < s.len() - 1 && s.drop_last()[x] == kept0[i];
                    assert(s[x] == kept[i]);
                } else {
                    assert(s[s.len() - 1] == kept[i]);
                }
            }
        } else {
            assert forall|i: int| 0 <= i < kept.len() implies s.contains(#[trigger] kept[i]) by {
                assert(s.drop_last().contains(kept0[i]));
                let x = choose|x: int| 0 <= x < s.len() - 1 && s.drop_last()[x] == kept0[i];
                assert(s[x] == kept[i]);
            }
        }
    }
}

/// A first minimal index is unique: anything satisfying the first-minimum
/// characterization equals `spec_min_index`.
proof fn lemma_first_min_unique(s: Seq<ProfileEntry>, m: int)
    requires
        s.len() > 0,
        0 <= m < s.len(),
        forall|i: int|
            0 <= i < s.len() ==> s[m].profile.last_seen_tick
                <= #[trigger] s[i].profile.last_seen_tick,
        forall|i: int|
            0 <= i < m ==> s[m].profile.last_seen_tick < #[trigger] s[i].profile.last_seen_tick,
    ensures
        m == spec_min_index(s),
{
    lemma_min_index_char(s);
    let m2 = spec_min_index(s);
    if m < m2 {
        assert(s[m2].profile.last_seen_tick <= s[m].profile.last_seen_tick);
        assert(s[m2].profile.last_seen_tick < s[m].profile.last_seen_tick);
    } else if m2 < m {
        assert(s[m].profile.last_seen_tick < s[m2].profile.last_seen_tick);
        assert(s[m].profile.last_seen_tick <= s[m2].profile.last_seen_tick);
    }
}

/// Eviction preserves the store invariant: kept entries come from the fresh
/// ones, so names stay unique and ticks stay in the past.
proof fn lemma_evict_wf(fresh: Seq<ProfileEntry>, now: u64, db: ProcessDb)
    requires
        db.tick == now,
        db.entries@ == spec_evict_excess(fresh).0,
        forall|i: int, j: int| 0 <= i < j < fresh.len() ==> fresh[i].name != fresh[j].name,
        forall|i: int|
            0 <= i < fresh.len() ==> #[trigger] fresh[i].profile.last_seen_tick <= now,
    ensures
        db.wf(),
    decreases fresh.len(),
{
    if fresh.len() <= MAX_PROFILES {
    } else {
        let m = spec_min_index(fresh);
        lemma_min_index_char(fresh);
        let s1 = fresh.remove(m);
        assert(forall|j: int|
            0 <= j < s1.len() ==> s1[j] == if j < m {
                fresh[j]
            } else {
                fresh[j + 1]
            });
        lemma_evict_wf(s1, now, db);
    }
}

} // verus!
