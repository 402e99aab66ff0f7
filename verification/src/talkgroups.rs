//! Talkgroup collection and selection.
//!
//! Candidates are collected from trunking grants and updates, filtered,
//! scored by a weighted sum of features, and the best one picked. Weights
//! and priorities are fixed-point values in thousandths, so a weight of
//! `1000` means a factor of one. Scores are compared exactly: every
//! candidate's score is put over the same denominator, so the integer
//! comparison agrees with the real-valued weighted sum.

use vstd::prelude::*;
use vstd::wrapping::u64_specs;

use crate::tgmap::{TgMap, TgSet, keys_of, seq_contains_key, seq_get, seq_insert};

verus! {

/// Encryption algorithm announced for a talkgroup.
#[derive(Copy, Clone, PartialEq, Eq, Structural, Debug)]
pub enum CryptoAlgorithm {
    /// Data Encryption Standard.
    Des,
    /// Advanced Encryption Standard.
    Aes,
    /// Any other algorithm, by its identifier.
    Other(u8),
    /// No encryption.
    Unencrypted,
}

/// Maps talkgroups to associated encryption algorithm.
pub type GroupCryptoMap = TgMap<CryptoAlgorithm>;

/// Weights for features used in talkgroup selection, in thousandths.
#[derive(Copy, Clone, PartialEq, Eq, Structural, Debug)]
pub struct FeatureWeights {
    /// Weight of user priority.
    pub prio: i32,
    /// Weight of talkgroup age.
    pub age: i32,
    /// Weight of recently-selected talkgroup reward.
    pub recent: i32,
}

impl Default for FeatureWeights {
    /// Every feature starts with weight one.
    fn default() -> (r: Self)
        ensures
            r == (FeatureWeights { prio: 1000i32, age: 1000i32, recent: 1000i32 }),
    {
        FeatureWeights { prio: 1000, age: 1000, recent: 1000 }
    }
}

/// Smallest age stamp over the collected candidates, zero when there are
/// none.
pub open spec fn spec_min_age(s: Seq<(u16, u64)>) -> u64
    decreases s.len(),
{
    if s.len() == 0 {
        0u64
    } else if s.len() == 1 {
        s[0].1
    } else {
        let prev = spec_min_age(s.drop_last());
        if s.last().1 < prev {
            s.last().1
        } else {
            prev
        }
    }
}

/// Snapshot of the scoring features: the sample counter, each candidate's
/// age stamp, the last winner, and the user's priorities and weights.
#[verifier::ext_equal]
pub ghost struct FeatModel {
    /// Current baseband sample counter since the last talkgroup selection.
    pub elapsed: u64,
    /// Sample-counter stamp at which each candidate was added.
    pub age: Seq<(u16, u64)>,
    /// The most recently selected talkgroup.
    pub recent: u16,
    /// User-set talkgroup priorities, in thousandths.
    pub prios: Seq<(u16, i32)>,
    /// User-set weights for each feature used when scoring each talkgroup.
    pub weights: FeatureWeights,
}

impl FeatModel {
    /// The priority of a talkgroup, in thousandths; one when unset.
    pub open spec fn prio(self, tg: u16) -> int {
        match seq_get(self.prios, tg) {
            Some(p) => p as int,
            None => 1000,
        }
    }

    /// One when the talkgroup was the most recently selected, else zero.
    pub open spec fn recent_ind(self, tg: u16) -> int {
        if tg == self.recent {
            1
        } else {
            0
        }
    }

    /// Samples since the talkgroup was added, in wrapping arithmetic.
    pub open spec fn age_diff(self, tg: u16) -> int {
        u64_specs::wrapping_sub(self.elapsed, seq_get(self.age, tg)->Some_0) as int
    }

    /// Samples since the oldest candidate was added.
    pub open spec fn oldest(self) -> int {
        u64_specs::wrapping_sub(self.elapsed, spec_min_age(self.age)) as int
    }

    /// The talkgroup's score, scaled by a factor common to all candidates.
    ///
    /// The real-valued score is `w_prio·p + w_age·(1 − diff/oldest) +
    /// w_recent·ind` with weights and priority in thousandths; both are
    /// multiplied by `1_000_000·oldest` (or by `1_000_000` when `oldest` is
    /// zero, where the age feature is defined as zero), which keeps the
    /// comparison between candidates exact in integers.
    pub open spec fn score(self, oldest: int, tg: u16) -> int {
        let w = self.weights;
        if oldest == 0 {
            w.prio * self.prio(tg) + 1000 * w.recent * self.recent_ind(tg)
        } else {
            w.prio * self.prio(tg) * oldest + 1000 * w.age * (oldest - self.age_diff(tg)) + 1000
                * w.recent * self.recent_ind(tg) * oldest
        }
    }

    /// The best-scoring talkgroup of a candidate list; ties go to the
    /// earliest-inserted candidate, so a later candidate only displaces a
    /// strictly higher-scoring one.
    pub open spec fn best(self, oldest: int, groups: Seq<u16>) -> Option<u16>
        decreases groups.len(),
    {
        if groups.len() == 0 {
            None
        } else {
            let last = groups.last();
            match self.best(oldest, groups.drop_last()) {
                None => Some(last),
                Some(b) => if self.score(oldest, last) > self.score(oldest, b) {
                    Some(last)
                } else {
                    Some(b)
                },
            }
        }
    }

    /// The selected candidate scores at least as high as every candidate
    /// in the list: selection really is an argmax of the weighted sum.
    pub proof fn lemma_best_is_max(self, oldest: int, groups: Seq<u16>)
        ensures
            self.best(oldest, groups) matches Some(b) ==> forall|i: int|
                0 <= i < groups.len() ==> self.score(oldest, #[trigger] groups[i]) <= self.score(
                    oldest,
                    b,
                ),
        decreases groups.len(),
    {
        if groups.len() > 0 {
            self.lemma_best_is_max(oldest, groups.drop_last());
            self.lemma_best_in_groups(oldest, groups.drop_last());
            if self.best(oldest, groups) is Some {
                let b = self.best(oldest, groups)->Some_0;
                assert forall|i: int| 0 <= i < groups.len() implies self.score(
                    oldest,
                    #[trigger] groups[i],
                ) <= self.score(oldest, b) by {
                    if i < groups.len() - 1 {
                        assert(groups.drop_last()[i] == groups[i]);
                    }
                }
            }
        }
    }

    /// The best of a candidate list is a member of the list.
    pub proof fn lemma_best_in_groups(self, oldest: int, groups: Seq<u16>)
        ensures
            self.best(oldest, groups) is Some <==> groups.len() > 0,
            self.best(oldest, groups) matches Some(tg) ==> groups.contains(tg),
        decreases groups.len(),
    {
        if groups.len() > 0 {
            self.lemma_best_in_groups(oldest, groups.drop_last());
            if self.best(oldest, groups) is Some {
                let tg = self.best(oldest, groups)->Some_0;
                if groups.len() > 1 && tg != groups.last() {
                    assert(groups.drop_last().contains(tg));
                    let i = choose|i: int|
                        0 <= i < groups.drop_last().len() && groups.drop_last()[i] == tg;
                    assert(groups[i] == tg);
                } else {
                    assert(groups[groups.len() - 1] == tg);
                }
            }
        }
    }
}

/// Tracks features used to score and rank talkgroups.
///
/// The weighted-sum method is used to compute a score for each talkgroup.
pub struct TalkgroupFeatures {
    /// Current baseband sample counter since the last talkgroup selection.
    pub elapsed: u64,
    /// Sample-counter stamp at which each candidate was added.
    pub age: TgMap<u64>,
    /// The most recently selected talkgroup.
    pub recent: u16,
    /// User-set talkgroup priorities, in thousandths.
    pub prios: TgMap<i32>,
    /// User-set weights for each feature used when scoring each talkgroup.
    pub weights: FeatureWeights,
}

impl View for TalkgroupFeatures {
    type V = FeatModel;

    open spec fn view(&self) -> FeatModel {
        FeatModel {
            elapsed: self.elapsed,
            age: self.age.entries@,
            recent: self.recent,
            prios: self.prios.entries@,
            weights: self.weights,
        }
    }
}

impl Default for TalkgroupFeatures {
    /// No candidates, counter at zero, default weights.
    fn default() -> (r: Self)
        ensures
            r.wf(),
            r.elapsed == 0,
            r.age.entries@.len() == 0,
            r.recent == 0,
            r.prios.entries@.len() == 0,
            r.weights == (FeatureWeights { prio: 1000i32, age: 1000i32, recent: 1000i32 }),
    {
        TalkgroupFeatures {
            elapsed: 0,
            age: TgMap::new(),
            recent: 0,
            prios: TgMap::new(),
            weights: FeatureWeights::default(),
        }
    }
}

impl TalkgroupFeatures {
    /// Both feature maps keep their keys unique.
    pub open spec fn wf(self) -> bool {
        self.age.wf() && self.prios.wf()
    }

    /// Samples since the oldest candidate was added.
    pub open spec fn spec_oldest(self) -> int {
        self@.oldest()
    }

    /// The talkgroup's score, scaled by a factor common to all candidates.
    pub open spec fn spec_score(self, oldest: int, tg: u16) -> int {
        self@.score(oldest, tg)
    }

    /// The best-scoring talkgroup of a candidate list.
    pub open spec fn spec_best(self, oldest: int, groups: Seq<u16>) -> Option<u16> {
        self@.best(oldest, groups)
    }

    /// Record elapsed baseband samples, wrapping on overflow.
    pub fn record_elapsed(&mut self, samples: usize)
        ensures
            final(self)@ == (FeatModel {
                elapsed: u64_specs::wrapping_add(old(self).elapsed, samples as u64),
                ..old(self)@
            }),
            final(self).weights == old(self).weights,
    {
        self.elapsed = self.elapsed.wrapping_add(samples as u64);
        proof {
            assert(final(self)@ =~= (FeatModel {
                elapsed: u64_specs::wrapping_add(old(self).elapsed, samples as u64),
                ..old(self)@
            }));
        }
    }

    /// Add the given talkgroup to the set of candidates (or update its age).
    pub fn add(&mut self, tg: u16)
        requires
            old(self).wf(),
        ensures
            final(self).wf(),
            final(self)@ == (FeatModel {
                age: seq_insert(old(self)@.age, tg, old(self).elapsed),
                ..old(self)@
            }),
            final(self).age.contains_spec(tg),
            forall|t2: u16|
                old(self).age.contains_spec(t2) ==> #[trigger] final(self).age.contains_spec(t2),
    {
        let e = self.elapsed;
        self.age.insert(tg, e);
        proof {
            assert(final(self)@ =~= (FeatModel {
                age: seq_insert(old(self)@.age, tg, old(self).elapsed),
                ..old(self)@
            }));
            assert forall|t2: u16|
                old(self).age.contains_spec(t2) implies #[trigger] final(self).age.contains_spec(
                t2,
            ) by {
                if t2 != tg {
                    assert(final(self).age.spec_get(t2) == old(self).age.spec_get(t2));
                }
            }
        }
    }

    /// Update state to reflect that the given talkgroup was selected.
    pub fn select(&mut self, tg: u16)
        requires
            old(self).wf(),
        ensures
            final(self).wf(),
            final(self)@ == (FeatModel {
                age: Seq::<(u16, u64)>::empty(),
                recent: tg,
                elapsed: 0u64,
                ..old(self)@
            }),
    {
        self.age.clear();
        self.recent = tg;
        self.elapsed = 0;
        proof {
            assert(final(self)@ =~= (FeatModel {
                age: Seq::<(u16, u64)>::empty(),
                recent: tg,
                elapsed: 0u64,
                ..old(self)@
            }));
        }
    }

    /// Reset talkgroup-related state.
    pub fn reset(&mut self)
        requires
            old(self).wf(),
        ensures
            final(self).wf(),
            final(self)@ == (FeatModel {
                age: Seq::<(u16, u64)>::empty(),
                recent: 0u16,
                elapsed: 0u64,
                ..old(self)@
            }),
    {
        self.select(0);
    }

    /// Retrieve the oldest age over all talkgroups.
    pub fn oldest(&self) -> (r: u64)
        ensures
            r == self@.oldest(),
    {
        let n = self.age.len();
        if n == 0 {
            return self.elapsed.wrapping_sub(0);
        }
        let mut m: u64 = self.age.pair_at(0).1;
        let mut i: usize = 1;
        while i < n
            invariant
                n == self.age.entries@.len(),
                1 <= i <= n,
                m == spec_min_age(self.age.entries@.subrange(0, i as int)),
            decreases n - i,
        {
            let v = self.age.pair_at(i).1;
            proof {
                assert(self.age.entries@.subrange(0, i + 1).drop_last() =~= self.age.entries@
                    .subrange(0, i as int));
                assert(self.age.entries@.subrange(0, i + 1).last() == self.age.entries@[i as int]);
            }
            if v < m {
                m = v;
            }
            i = i + 1;
        }
        proof {
            assert(self.age.entries@.subrange(0, n as int) =~= self.age.entries@);
        }
        self.elapsed.wrapping_sub(m)
    }

    /// Compute one candidate's scaled score.
    fn score_of(&self, oldest: u64, tg: u16) -> (r: i128)
        requires
            self.wf(),
            self.age.contains_spec(tg),
        ensures
            r == self@.score(oldest as int, tg),
    {
        let w = self.weights;
        let p: i32 = match self.prios.get(tg) {
            Some(p) => p,
            None => 1000,
        };
        let a: u64 = match self.age.get(tg) {
            Some(a) => a,
            None => 0,
        };
        let diff: u64 = self.elapsed.wrapping_sub(a);
        let ind: i128 = if tg == self.recent {
            1
        } else {
            0
        };
        let wp = w.prio as i128;
        let wa = w.age as i128;
        let wr = w.recent as i128;
        let pp = p as i128;
        proof {
            assert(-0x8000_0000 <= wp <= 0x7fff_ffff);
            assert(-0x8000_0000 <= pp <= 0x7fff_ffff);
            assert((-0x4000_0000_0000_0000) <= wp * pp <= 0x4000_0000_0000_0000) by (nonlinear_arith)
                requires
                    -0x8000_0000 <= wp <= 0x7fff_ffff,
                    -0x8000_0000 <= pp <= 0x7fff_ffff,
            ;
        }
        let base = wp * pp;
        let rec = 1000 * wr * ind;
        if oldest == 0 {
            base + rec
        } else {
            let o = oldest as i128;
            let d = (o) - (diff as i128);
            proof {
                assert(0 < o < 0x1_0000_0000_0000_0000);
                assert(-0x1_0000_0000_0000_0000 < d < 0x1_0000_0000_0000_0000);
                assert((-0x4000_0000_0000_0000) * 0x1_0000_0000_0000_0000 <= base * o
                    <= 0x4000_0000_0000_0000 * 0x1_0000_0000_0000_0000) by (nonlinear_arith)
                    requires
                        (-0x4000_0000_0000_0000) <= base <= 0x4000_0000_0000_0000,
                        0 < o < 0x1_0000_0000_0000_0000,
                ;
                assert(-0x8000_0000_0000 <= 1000 * wa <= 0x8000_0000_0000);
                assert((-0x8000_0000_0000) * 0x1_0000_0000_0000_0000 <= (1000 * wa) * d
                    <= 0x8000_0000_0000 * 0x1_0000_0000_0000_0000) by (nonlinear_arith)
                    requires
                        -0x8000_0000_0000 <= 1000 * wa <= 0x8000_0000_0000,
                        -0x1_0000_0000_0000_0000 < d < 0x1_0000_0000_0000_0000,
                ;
                assert(-0x8000_0000_0000 <= rec <= 0x8000_0000_0000);
                assert((-0x8000_0000_0000) * 0x1_0000_0000_0000_0000 <= rec * o <= 0x8000_0000_0000
                    * 0x1_0000_0000_0000_0000) by (nonlinear_arith)
                    requires
                        -0x8000_0000_0000 <= rec <= 0x8000_0000_0000,
                        0 < o < 0x1_0000_0000_0000_0000,
                ;
            }
            base * o + (1000 * wa) * d + rec * o
        }
    }

    /// Find the talkgroup with the highest score in the given candidate
    /// talkgroups; ties go to the earliest-inserted candidate.
    ///
    /// Each talkgroup must have been previously recorded with the `add`
    /// method.
    pub fn max_score(&self, groups: &Vec<u16>) -> (r: Option<u16>)
        requires
            self.wf(),
            forall|i: int|
                0 <= i < groups@.len() ==> self.age.contains_spec(#[trigger] groups@[i]),
        ensures
            r == self@.best(self@.oldest(), groups@),
            r is Some <==> groups@.len() > 0,
            r matches Some(tg) ==> groups@.contains(tg),
    {
        let oldest = self.oldest();
        let n = groups.len();
        let mut best: Option<u16> = None;
        let mut best_score: i128 = 0;
        let mut i: usize = 0;
        while i < n
            invariant
                self.wf(),
                forall|j: int|
                    0 <= j < groups@.len() ==> self.age.contains_spec(#[trigger] groups@[j]),
                n == groups@.len(),
                i <= n,
                oldest == self@.oldest(),
                best == self@.best(oldest as int, groups@.subrange(0, i as int)),
                best matches Some(b) ==> best_score == self@.score(oldest as int, b),
            decreases n - i,
        {
            let tg = groups[i];
            let s = self.score_of(oldest, tg);
            proof {
                assert(groups@.subrange(0, i + 1).drop_last() =~= groups@.subrange(0, i as int));
                assert(groups@.subrange(0, i + 1).last() == groups@[i as int]);
            }
            match best {
                None => {
                    best = Some(tg);
                    best_score = s;
                },
                Some(_) => {
                    if s > best_score {
                        best = Some(tg);
                        best_score = s;
                    }
                },
            }
            i = i + 1;
        }
        proof {
            assert(groups@.subrange(0, n as int) =~= groups@);
            self@.lemma_best_in_groups(oldest as int, groups@);
        }
        best
    }
}

/// Filters talkgroups with an include-by-default or exclude-by-default
/// policy.
pub struct Filter {
    /// Whether the talkgroups in `filt` should be excluded
    /// (include-by-default) or included (exclude-by-default).
    pub exclude: bool,
    /// Included/excluded talkgroups.
    pub filt: TgSet,
}

impl Default for Filter {
    /// Create a new `Filter` in an empty include-by-default state.
    fn default() -> (r: Self)
        ensures
            r.wf(),
            r.exclude == true,
            r.filt.spec_len() == 0,
    {
        Filter { exclude: true, filt: TgSet::new() }
    }
}

impl Filter {
    /// The listed talkgroups keep unique ids.
    pub open spec fn wf(self) -> bool {
        self.filt.wf()
    }

    /// A talkgroup is kept out when it is listed under an exclusion policy,
    /// or not listed under an inclusion policy.
    pub open spec fn spec_excluded(self, tg: u16) -> bool {
        (self.exclude && self.filt.contains_spec(tg)) || (!self.exclude && !self.filt.contains_spec(
            tg,
        ))
    }

    /// Check if the given talkgroup is excluded from selection.
    pub fn excluded(&self, tg: u16) -> (r: bool)
        ensures
            r == self.spec_excluded(tg),
    {
        let filtered = self.filt.contains(tg);
        self.exclude && filtered || !self.exclude && !filtered
    }

    /// Render the filter as its JSON text: the exclusion flag, then the
    /// listed talkgroups in insertion order.
    pub fn to_json(&self) -> (r: Vec<u8>)
        requires
            self.wf(),
        ensures
            r@ == crate::json::spec_filter_json(
                self.exclude,
                keys_of(self.filt.map.entries@),
            ),
    {
        let ghost keys = keys_of(self.filt.map.entries@);
        let mut out: Vec<u8> = Vec::new();
        crate::lit::push_f_exclude(&mut out);
        if self.exclude {
            crate::lit::push_lit_true(&mut out);
        } else {
            crate::lit::push_lit_false(&mut out);
        }
        crate::lit::push_f_filt(&mut out);
        let ghost head = out@;
        let n = self.filt.len();
        let mut i: usize = 0;
        while i < n
            invariant
                self.wf(),
                n == self.filt.spec_len(),
                keys == keys_of(self.filt.map.entries@),
                keys.len() == n,
                i <= n,
                out@ == head + crate::json::spec_u16_list_json(keys.subrange(0, i as int)),
            decreases n - i,
        {
            if i > 0 {
                crate::lit::push_comma(&mut out);
            }
            let tg = self.filt.key_at(i);
            crate::fmt::push_dec(tg as u64, &mut out);
            proof {
                assert(keys.subrange(0, i + 1).drop_last() =~= keys.subrange(0, i as int));
                assert(keys.subrange(0, i + 1).last() == keys[i as int]);
                assert(keys[i as int] == self.filt.map.entries@[i as int].0);
                assert(out@ =~= head + crate::json::spec_u16_list_json(keys.subrange(0, i + 1)));
            }
            i = i + 1;
        }
        crate::lit::push_close_bracket_brace(&mut out);
        proof {
            assert(keys.subrange(0, n as int) =~= keys);
            assert(out@ =~= crate::json::spec_filter_json(self.exclude, keys));
        }
        out
    }

    /// Parse a filter from its JSON text: an object holding the exclusion
    /// flag and the talkgroup list, in either order, with any JSON
    /// whitespace. Repeated talkgroups collapse to one entry.
    pub fn from_json(s: &[u8]) -> (r: Option<Filter>)
        ensures
            match (r, crate::json::spec_parse_filter(s@)) {
                (Some(f), Some((e, l))) => f.wf() && f.exclude == e && keys_of(
                    f.filt.map.entries@,
                ) == crate::tgmap::dedup_keys(l),
                (None, None) => true,
                _ => false,
            },
    {
        let (e, l) = match crate::json::parse_filter(s) {
            Some(p) => p,
            None => {
                return None;
            },
        };
        let mut filt = TgSet::new();
        let n = l.len();
        let mut i: usize = 0;
        while i < n
            invariant
                n == l@.len(),
                i <= n,
                filt.wf(),
                keys_of(filt.map.entries@) == crate::tgmap::dedup_keys(l@.subrange(0, i as int)),
            decreases n - i,
        {
            proof {
                crate::tgmap::lemma_keys_of_contains(filt.map.entries@, l@[i as int]);
                assert(l@.subrange(0, i + 1).drop_last() =~= l@.subrange(0, i as int));
                assert(l@.subrange(0, i + 1).last() == l@[i as int]);
            }
            filt.insert(l[i]);
            proof {
                assert(keys_of(filt.map.entries@) =~= crate::tgmap::dedup_keys(
                    l@.subrange(0, i + 1),
                ));
            }
            i = i + 1;
        }
        proof {
            assert(l@.subrange(0, n as int) =~= l@);
        }
        Some(Filter { exclude: e, filt })
    }
}

/// Collects, prioritizes, filters, and selects talkgroups.
pub struct TalkgroupSelection {
    /// Current set of candidate talkgroups, in insertion order.
    pub cur: Vec<u16>,
    /// Subset of `cur` talkgroups that can preempt a conversation.
    pub cur_preempt: Vec<u16>,
    /// Channel frequency associated with each candidate talkgroup.
    pub channels: TgMap<u32>,
    /// Set of talkgroups that have been observed to be encrypted.
    pub encrypted: GroupCryptoMap,
    /// Set of talkgroups that can preempt a conversation.
    pub preempt: TgSet,
    /// User-set included/excluded talkgroups.
    pub filter: Filter,
    /// Talkgroup selection features.
    pub feats: TalkgroupFeatures,
}

/// Snapshot of a selector's whole state.
#[verifier::ext_equal]
pub ghost struct SelModel {
    /// Candidate talkgroups, in insertion order.
    pub cur: Seq<u16>,
    /// Candidates that can preempt a conversation.
    pub cur_preempt: Seq<u16>,
    /// Frequency on file for each candidate.
    pub channels: Seq<(u16, u32)>,
    /// Talkgroups observed encrypted, with their algorithm.
    pub encrypted: Seq<(u16, CryptoAlgorithm)>,
    /// Talkgroups the user allows to preempt.
    pub preempt: Seq<u16>,
    /// Whether the filter list excludes (true) or includes (false).
    pub filter_exclude: bool,
    /// The filter list.
    pub filt: Seq<u16>,
    /// Scoring features.
    pub feats: FeatModel,
}

impl View for TalkgroupSelection {
    type V = SelModel;

    open spec fn view(&self) -> SelModel {
        SelModel {
            cur: self.cur@,
            cur_preempt: self.cur_preempt@,
            channels: self.channels.entries@,
            encrypted: self.encrypted.entries@,
            preempt: keys_of(self.preempt.map.entries@),
            filter_exclude: self.filter.exclude,
            filt: keys_of(self.filter.filt.map.entries@),
            feats: self.feats@,
        }
    }
}

impl SelModel {
    /// A talkgroup is kept out when it is listed under an exclusion policy,
    /// or not listed under an inclusion policy.
    pub open spec fn excluded(self, tg: u16) -> bool {
        (self.filter_exclude && self.filt.contains(tg)) || (!self.filter_exclude
            && !self.filt.contains(tg))
    }

    /// A talkgroup is rejected outright when it has been seen encrypted or
    /// the user filter keeps it out.
    pub open spec fn rejected(self, tg: u16) -> bool {
        seq_contains_key(self.encrypted, tg) || self.excluded(tg)
    }
}

/// The selector after recording elapsed samples: only the counter moves.
pub open spec fn spec_record_elapsed(m: SelModel, samples: usize) -> SelModel {
    SelModel {
        feats: FeatModel {
            elapsed: u64_specs::wrapping_add(m.feats.elapsed, samples as u64),
            ..m.feats
        },
        ..m
    }
}

/// The selector after considering a talkgroup: rejected ones change
/// nothing; otherwise the age stamp and frequency are stored, and a new
/// talkgroup joins the candidate list — and the preempting list when the
/// user marked it preempting.
pub open spec fn spec_add(m: SelModel, tg: u16, freq: u32) -> SelModel {
    if m.rejected(tg) {
        m
    } else {
        let was = seq_contains_key(m.channels, tg);
        SelModel {
            channels: seq_insert(m.channels, tg, freq),
            cur: if was {
                m.cur
            } else {
                m.cur.push(tg)
            },
            cur_preempt: if !was && m.preempt.contains(tg) {
                m.cur_preempt.push(tg)
            } else {
                m.cur_preempt
            },
            feats: FeatModel { age: seq_insert(m.feats.age, tg, m.feats.elapsed), ..m.feats },
            ..m
        }
    }
}

/// The selector after a selection is finalized: candidates and age stamps
/// are dropped, the counter restarts, and the winner becomes the recent
/// talkgroup.
pub open spec fn spec_select_tg(m: SelModel, tg: u16) -> SelModel {
    SelModel {
        cur: Seq::<u16>::empty(),
        cur_preempt: Seq::<u16>::empty(),
        channels: Seq::<(u16, u32)>::empty(),
        feats: FeatModel { age: Seq::<(u16, u64)>::empty(), recent: tg, elapsed: 0u64, ..m.feats },
        ..m
    }
}

/// The selector and answer after selecting from a candidate list: the
/// best-scoring candidate and its frequency when the list is non-empty,
/// else no change.
pub open spec fn spec_select(m: SelModel, groups: Seq<u16>) -> (SelModel, Option<(u16, u32)>) {
    match m.feats.best(m.feats.oldest(), groups) {
        None => (m, None),
        Some(tg) => (spec_select_tg(m, tg), Some((tg, seq_get(m.channels, tg)->Some_0))),
    }
}

/// The selector after a talkgroup is seen encrypted.
pub open spec fn spec_record_encrypted(m: SelModel, tg: u16, alg: CryptoAlgorithm) -> SelModel {
    SelModel { encrypted: seq_insert(m.encrypted, tg, alg), ..m }
}

/// The selector after a site change: candidates, encrypted set, and
/// features are dropped; the user configuration stays.
pub open spec fn spec_clear_state(m: SelModel) -> SelModel {
    SelModel {
        cur: Seq::<u16>::empty(),
        cur_preempt: Seq::<u16>::empty(),
        channels: Seq::<(u16, u32)>::empty(),
        encrypted: Seq::<(u16, CryptoAlgorithm)>::empty(),
        feats: FeatModel {
            age: Seq::<(u16, u64)>::empty(),
            recent: 0u16,
            elapsed: 0u64,
            ..m.feats
        },
        ..m
    }
}

impl Default for TalkgroupSelection {
    /// An empty selector with default weights and an empty
    /// include-by-default filter.
    fn default() -> (r: Self)
        ensures
            r.wf(),
            r@.cur.len() == 0,
            r@.cur_preempt.len() == 0,
            r@.channels.len() == 0,
            r@.encrypted.len() == 0,
            r@.preempt.len() == 0,
            r@.filter_exclude == true,
            r@.filt.len() == 0,
            r@.feats.elapsed == 0,
            r@.feats.age.len() == 0,
            r@.feats.recent == 0,
            r@.feats.prios.len() == 0,
            r@.feats.weights == (FeatureWeights { prio: 1000i32, age: 1000i32, recent: 1000i32 }),
    {
        let r = TalkgroupSelection {
            cur: Vec::new(),
            cur_preempt: Vec::new(),
            channels: TgMap::new(),
            encrypted: TgMap::new(),
            preempt: TgSet::new(),
            filter: Filter::default(),
            feats: TalkgroupFeatures::default(),
        };
        proof {
            assert(r.cur@ =~= keys_of(r.channels.entries@));
        }
        r
    }
}

impl TalkgroupSelection {
    /// The candidate list mirrors the frequency map in insertion order,
    /// every candidate has an age stamp, and every preempting candidate is
    /// a candidate that the user marked preempting.
    pub open spec fn wf(self) -> bool {
        &&& self.channels.wf()
        &&& self.encrypted.wf()
        &&& self.preempt.wf()
        &&& self.filter.wf()
        &&& self.feats.wf()
        &&& self.cur@ == keys_of(self.channels.entries@)
        &&& forall|i: int|
            0 <= i < self.cur@.len() ==> self.feats.age.contains_spec(#[trigger] self.cur@[i])
        &&& forall|i: int|
            0 <= i < self.cur_preempt@.len() ==> self.channels.contains_spec(
                #[trigger] self.cur_preempt@[i],
            ) && self.feats.age.contains_spec(self.cur_preempt@[i])
                && self.preempt.contains_spec(self.cur_preempt@[i])
    }

    /// A talkgroup is rejected outright when it has been seen encrypted or
    /// the user filter keeps it out.
    pub open spec fn spec_rejected(self, tg: u16) -> bool {
        self.encrypted.contains_spec(tg) || self.filter.spec_excluded(tg)
    }

    /// The selector and its snapshot reject the same talkgroups.
    pub proof fn lemma_rejected_model(self, tg: u16)
        ensures
            self.spec_rejected(tg) == self@.rejected(tg),
    {
        crate::tgmap::lemma_keys_of_contains(self.filter.filt.map.entries@, tg);
    }

    /// Record the given elapsed amount of baseband samples.
    pub fn record_elapsed(&mut self, samples: usize)
        requires
            old(self).wf(),
        ensures
            final(self).wf(),
            final(self)@ == spec_record_elapsed(old(self)@, samples),
    {
        self.feats.record_elapsed(samples);
        proof {
            assert(final(self)@ =~= spec_record_elapsed(old(self)@, samples));
        }
    }

    /// Consider the given talkgroup for the current set of candidate
    /// talkgroups.
    ///
    /// A talkgroup seen encrypted, or kept out by the user filter, changes
    /// nothing. Otherwise its age stamp and frequency are updated, and a
    /// talkgroup not yet collected joins the candidate list — and the
    /// preempting candidate list when the user marked it preempting.
    pub fn add_talkgroup(&mut self, tg: u16, freq: u32)
        requires
            old(self).wf(),
        ensures
            final(self).wf(),
            final(self)@ == spec_add(old(self)@, tg, freq),
    {
        proof {
            self.lemma_rejected_model(tg);
        }
        if self.encrypted.contains(tg) || self.filter.excluded(tg) {
            return ;
        }
        self.feats.add(tg);
        let was = self.channels.insert(tg, freq);
        if was {
            proof {
                self.lemma_add_wf(*old(self), tg);
                assert(final(self)@ =~= spec_add(old(self)@, tg, freq));
            }
            return ;
        }
        self.cur.push(tg);
        proof {
            crate::tgmap::lemma_keys_of_contains(self.preempt.map.entries@, tg);
        }
        if self.preempt.contains(tg) {
            self.cur_preempt.push(tg);
        }
        proof {
            self.lemma_add_wf(*old(self), tg);
            assert(final(self)@ =~= spec_add(old(self)@, tg, freq));
        }
    }

    /// After stamping a talkgroup's age and storing its frequency, pushing
    /// it onto the candidate lists (when new) keeps the selector
    /// well-formed.
    proof fn lemma_add_wf(self, pre: TalkgroupSelection, tg: u16)
        requires
            pre.wf(),
            self.channels.wf(),
            self.encrypted.wf(),
            self.preempt.wf(),
            self.filter.wf(),
            self.feats.wf(),
            self.feats.age.contains_spec(tg),
            forall|t2: u16|
                pre.feats.age.contains_spec(t2) ==> #[trigger] self.feats.age.contains_spec(t2),
            self.channels.contains_spec(tg),
            forall|t2: u16|
                t2 != tg ==> #[trigger] self.channels.spec_get(t2) == pre.channels.spec_get(t2),
            self.preempt.map.entries@ == pre.preempt.map.entries@,
            pre.channels.contains_spec(tg) ==> self.cur@ == pre.cur@ && self.cur_preempt@
                == pre.cur_preempt@ && keys_of(self.channels.entries@) == keys_of(
                pre.channels.entries@,
            ),
            !pre.channels.contains_spec(tg) ==> self.cur@ == pre.cur@.push(tg) && keys_of(
                self.channels.entries@,
            ) == keys_of(pre.channels.entries@).push(tg) && (self.cur_preempt@ == pre.cur_preempt@
                || (self.cur_preempt@ == pre.cur_preempt@.push(tg) && self.preempt.contains_spec(
                    tg,
                ))),
        ensures
            self.wf(),
    {
        assert(self.cur@ =~= keys_of(self.channels.entries@));
        assert forall|i: int| 0 <= i < self.cur@.len() implies self.feats.age.contains_spec(
            #[trigger] self.cur@[i],
        ) by {
            let t2 = self.cur@[i];
            if i < pre.cur@.len() {
                assert(pre.feats.age.contains_spec(t2));
            } else {
                assert(t2 == tg);
            }
        }
        assert forall|i: int| 0 <= i < self.cur_preempt@.len() implies self.channels.contains_spec(
            #[trigger] self.cur_preempt@[i],
        ) && self.feats.age.contains_spec(self.cur_preempt@[i]) && self.preempt.contains_spec(
            self.cur_preempt@[i],
        ) by {
            let t2 = self.cur_preempt@[i];
            if i < pre.cur_preempt@.len() && pre.cur_preempt@[i] == t2 {
                assert(pre.channels.contains_spec(t2));
                if t2 != tg {
                    assert(self.channels.spec_get(t2) == pre.channels.spec_get(t2));
                    assert(pre.channels.spec_get(t2) is Some);
                    assert(self.channels.contains_spec(t2));
                }
                assert(pre.feats.age.contains_spec(t2));
                assert(pre.preempt.contains_spec(t2));
            } else {
                assert(t2 == tg);
            }
        }
    }

    /// Select a talkgroup from the set of candidate non-preempting
    /// talkgroups.
    ///
    /// Returns `Some((tg, freq))` — the best-scoring candidate and its
    /// traffic channel center frequency (Hz) — exactly when candidates have
    /// been collected, clearing the candidate state; otherwise returns
    /// `None` and changes nothing.
    pub fn select_idle(&mut self) -> (r: Option<(u16, u32)>)
        requires
            old(self).wf(),
        ensures
            final(self).wf(),
            (final(self)@, r) == spec_select(old(self)@, old(self)@.cur),
            r is Some <==> old(self)@.cur.len() > 0,
    {
        let best = self.feats.max_score(&self.cur);
        match best {
            None => {
                proof {
                    assert(final(self)@ =~= spec_select(old(self)@, old(self)@.cur).0);
                }
                None
            },
            Some(tg) => {
                proof {
                    self.lemma_candidate_has_channel(tg);
                }
                Some(self.select_tg(tg))
            },
        }
    }

    /// Select a talkgroup from the set of candidate preempting talkgroups.
    ///
    /// Returns `Some((tg, freq))` — the best-scoring preempting candidate
    /// and its traffic channel center frequency (Hz) — exactly when
    /// preempting candidates have been collected, clearing the candidate
    /// state; otherwise returns `None` and changes nothing.
    pub fn select_preempt(&mut self) -> (r: Option<(u16, u32)>)
        requires
            old(self).wf(),
        ensures
            final(self).wf(),
            (final(self)@, r) == spec_select(old(self)@, old(self)@.cur_preempt),
            r is Some <==> old(self)@.cur_preempt.len() > 0,
    {
        let best = self.feats.max_score(&self.cur_preempt);
        match best {
            None => {
                proof {
                    assert(final(self)@ =~= spec_select(old(self)@, old(self)@.cur_preempt).0);
                }
                None
            },
            Some(tg) => Some(self.select_tg(tg)),
        }
    }

    /// A collected candidate always has a frequency on file.
    proof fn lemma_candidate_has_channel(self, tg: u16)
        requires
            self.wf(),
            self.cur@.contains(tg),
        ensures
            self.channels.contains_spec(tg),
    {
        let i = choose|i: int| 0 <= i < self.cur@.len() && self.cur@[i] == tg;
        assert(self.channels.entries@[i].0 == tg);
    }

    /// Record that the given talkgroup is encrypted with the given
    /// algorithm; it can then never rejoin the candidates until the site
    /// state is cleared.
    pub fn record_encrypted(&mut self, tg: u16, alg: CryptoAlgorithm)
        requires
            old(self).wf(),
        ensures
            final(self).wf(),
            final(self)@ == spec_record_encrypted(old(self)@, tg, alg),
            final(self).spec_rejected(tg),
    {
        self.encrypted.insert(tg, alg);
        proof {
            assert(final(self)@ =~= spec_record_encrypted(old(self)@, tg, alg));
        }
    }

    /// Finalize selection of the given talkgroup.
    fn select_tg(&mut self, tg: u16) -> (r: (u16, u32))
        requires
            old(self).wf(),
            old(self).channels.contains_spec(tg),
        ensures
            final(self).wf(),
            final(self)@ == spec_select_tg(old(self)@, tg),
            r.0 == tg,
            Some(r.1) == seq_get(old(self)@.channels, tg),
    {
        let freq = match self.channels.get(tg) {
            Some(f) => f,
            None => 0,
        };
        self.clear_candidates();
        self.feats.select(tg);
        proof {
            assert(final(self)@ =~= spec_select_tg(old(self)@, tg));
        }
        (tg, freq)
    }

    /// Clear candidate talkgroup state.
    fn clear_candidates(&mut self)
        requires
            old(self).wf(),
        ensures
            final(self).wf(),
            final(self)@ == (SelModel {
                cur: Seq::<u16>::empty(),
                cur_preempt: Seq::<u16>::empty(),
                channels: Seq::<(u16, u32)>::empty(),
                ..old(self)@
            }),
    {
        self.cur = Vec::new();
        self.cur_preempt = Vec::new();
        self.channels.clear();
        proof {
            assert(self.cur@ =~= keys_of(self.channels.entries@));
            assert(final(self)@ =~= (SelModel {
                cur: Seq::<u16>::empty(),
                cur_preempt: Seq::<u16>::empty(),
                channels: Seq::<(u16, u32)>::empty(),
                ..old(self)@
            }));
        }
    }

    /// Clear state related to the current talkgroup site: candidates, the
    /// encrypted set, and the selection features, keeping the user
    /// configuration.
    pub fn clear_state(&mut self)
        requires
            old(self).wf(),
        ensures
            final(self).wf(),
            final(self)@ == spec_clear_state(old(self)@),
    {
        self.clear_candidates();
        self.encrypted.clear();
        self.feats.reset();
        proof {
            assert(final(self)@ =~= spec_clear_state(old(self)@));
        }
    }
}

/// Once a talkgroup has been recorded encrypted, considering it again
/// changes nothing, whatever frequency comes with it.
pub proof fn lemma_encrypted_add_noop(m: SelModel, tg: u16, alg: CryptoAlgorithm, freq: u32)
    ensures
        spec_add(spec_record_encrypted(m, tg, alg), tg, freq) == spec_record_encrypted(m, tg, alg),
{
    let m2 = spec_record_encrypted(m, tg, alg);
    assert(seq_insert(m.encrypted, tg, alg)[seq_index_of_inserted(m.encrypted, tg)].0 == tg);
    assert(seq_contains_key(m2.encrypted, tg));
}

/// The position an insertion writes to: the existing index when the key is
/// present, the appended slot otherwise.
pub open spec fn seq_index_of_inserted<V>(s: Seq<(u16, V)>, k: u16) -> int {
    if seq_contains_key(s, k) {
        crate::tgmap::seq_index_of(s, k)
    } else {
        s.len() as int
    }
}

/// With a positive age weight and all other features equal, a candidate
/// added earlier (an older candidate, with the larger sample difference)
/// scores strictly lower than one added later, so the freshest candidate
/// wins.
pub proof fn lemma_score_age_monotonic(f: FeatModel, oldest: int, tg1: u16, tg2: u16)
    requires
        f.weights.age > 0,
        oldest > 0,
        f.prio(tg1) == f.prio(tg2),
        f.recent_ind(tg1) == f.recent_ind(tg2),
        f.age_diff(tg1) > f.age_diff(tg2),
    ensures
        f.score(oldest, tg1) < f.score(oldest, tg2),
{
    let w = f.weights;
    let d1 = f.age_diff(tg1);
    let d2 = f.age_diff(tg2);
    assert(f.score(oldest, tg2) - f.score(oldest, tg1) == 1000 * w.age * (d1 - d2))
        by (nonlinear_arith)
        requires
            f.score(oldest, tg1) == w.prio * f.prio(tg1) * oldest + 1000 * w.age * (oldest - d1)
                + 1000 * w.recent * f.recent_ind(tg1) * oldest,
            f.score(oldest, tg2) == w.prio * f.prio(tg2) * oldest + 1000 * w.age * (oldest - d2)
                + 1000 * w.recent * f.recent_ind(tg2) * oldest,
            f.prio(tg1) == f.prio(tg2),
            f.recent_ind(tg1) == f.recent_ind(tg2),
    ;
    assert(1000 * w.age * (d1 - d2) > 0) by (nonlinear_arith)
        requires
            w.age > 0,
            d1 > d2,
    ;
}

} // verus!
