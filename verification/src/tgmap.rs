//! Small association map and set keyed by talkgroup id.
//!
//! Entries are kept in insertion order in a vector with unique keys, which
//! is what the selector needs: its candidate bookkeeping and its JSON forms
//! both follow insertion order.

use vstd::prelude::*;

verus! {

/// Map from talkgroup id to a copyable value, in insertion order.
pub struct TgMap<V> {
    /// Key-value pairs; keys are unique.
    pub entries: Vec<(u16, V)>,
}

/// The keys of an entry sequence, in order.
pub open spec fn keys_of<V>(s: Seq<(u16, V)>) -> Seq<u16> {
    s.map_values(|p: (u16, V)| p.0)
}

/// A key sequence holds a key exactly when some entry has it.
pub proof fn lemma_keys_of_contains<V>(s: Seq<(u16, V)>, k: u16)
    ensures
        keys_of(s).contains(k) <==> seq_contains_key(s, k),
{
    if keys_of(s).contains(k) {
        let i = choose|i: int| 0 <= i < keys_of(s).len() && keys_of(s)[i] == k;
        assert(s[i].0 == k);
    }
    if seq_contains_key(s, k) {
        let i = seq_index_of(s, k);
        assert(keys_of(s)[i] == k);
    }
}

/// A key list with later repeats of a key dropped: what keyed insertion
/// in order leaves behind.
pub open spec fn dedup_keys(s: Seq<u16>) -> Seq<u16>
    decreases s.len(),
{
    if s.len() == 0 {
        Seq::<u16>::empty()
    } else {
        let p = dedup_keys(s.drop_last());
        if p.contains(s.last()) {
            p
        } else {
            p.push(s.last())
        }
    }
}

/// Whether an entry sequence holds the given key.
pub open spec fn seq_contains_key<V>(s: Seq<(u16, V)>, k: u16) -> bool {
    exists|i: int| 0 <= i < s.len() && (#[trigger] s[i]).0 == k
}

/// Index of the entry with the given key, when one exists.
pub open spec fn seq_index_of<V>(s: Seq<(u16, V)>, k: u16) -> int {
    choose|i: int| 0 <= i < s.len() && (#[trigger] s[i]).0 == k
}

/// The value stored under the given key.
pub open spec fn seq_get<V>(s: Seq<(u16, V)>, k: u16) -> Option<V> {
    if seq_contains_key(s, k) {
        Some(s[seq_index_of(s, k)].1)
    } else {
        None
    }
}

/// An entry sequence after storing a value under a key: updated in place
/// when the key is present, appended otherwise.
pub open spec fn seq_insert<V>(s: Seq<(u16, V)>, k: u16, v: V) -> Seq<(u16, V)> {
    if seq_contains_key(s, k) {
        s.update(seq_index_of(s, k), (k, v))
    } else {
        s.push((k, v))
    }
}

impl<V: Copy> TgMap<V> {
    /// Keys are unique.
    pub open spec fn wf(self) -> bool {
        forall|i: int, j: int|
            0 <= i < j < self.entries@.len() ==> (#[trigger] self.entries@[i]).0 != (
            #[trigger] self.entries@[j]).0
    }

    /// Whether some entry has the given key.
    pub open spec fn contains_spec(self, k: u16) -> bool {
        seq_contains_key(self.entries@, k)
    }

    /// Index of the entry with the given key, when one exists.
    pub open spec fn index_of(self, k: u16) -> int {
        seq_index_of(self.entries@, k)
    }

    /// The value stored under the given key.
    pub open spec fn spec_get(self, k: u16) -> Option<V> {
        seq_get(self.entries@, k)
    }

    /// Every index holding the key gives the stored value, because keys are
    /// unique.
    pub proof fn lemma_get_at(self, k: u16, i: int)
        requires
            self.wf(),
            0 <= i < self.entries@.len(),
            self.entries@[i].0 == k,
        ensures
            self.contains_spec(k),
            self.index_of(k) == i,
            self.spec_get(k) == Some(self.entries@[i].1),
    {
    }

    /// An empty map.
    pub fn new() -> (r: TgMap<V>)
        ensures
            r.wf(),
            r.entries@.len() == 0,
    {
        TgMap { entries: Vec::new() }
    }

    /// Number of entries.
    pub fn len(&self) -> (r: usize)
        ensures
            r == self.entries@.len(),
    {
        self.entries.len()
    }

    /// The entry at the given insertion position.
    pub fn pair_at(&self, i: usize) -> (r: (u16, V))
        requires
            i < self.entries@.len(),
        ensures
            r == self.entries@[i as int],
    {
        self.entries[i]
    }

    /// Whether the map holds the given key.
    pub fn contains(&self, k: u16) -> (r: bool)
        ensures
            r == self.contains_spec(k),
    {
        let n = self.entries.len();
        let mut i: usize = 0;
        while i < n
            invariant
                n == self.entries@.len(),
                i <= n,
                forall|j: int| 0 <= j < i ==> (#[trigger] self.entries@[j]).0 != k,
            decreases n - i,
        {
            if self.entries[i].0 == k {
                return true;
            }
            i = i + 1;
        }
        false
    }

    /// The value under the given key, if any.
    pub fn get(&self, k: u16) -> (r: Option<V>)
        requires
            self.wf(),
        ensures
            r == self.spec_get(k),
    {
        let n = self.entries.len();
        let mut i: usize = 0;
        while i < n
            invariant
                self.wf(),
                n == self.entries@.len(),
                i <= n,
                forall|j: int| 0 <= j < i ==> (#[trigger] self.entries@[j]).0 != k,
            decreases n - i,
        {
            if self.entries[i].0 == k {
                proof {
                    self.lemma_get_at(k, i as int);
                }
                return Some(self.entries[i].1);
            }
            i = i + 1;
        }
        None
    }

    /// Store a value under a key, updating in place when the key is already
    /// present; returns whether it was.
    pub fn insert(&mut self, k: u16, v: V) -> (was: bool)
        requires
            old(self).wf(),
        ensures
            final(self).wf(),
            was == old(self).contains_spec(k),
            final(self).contains_spec(k),
            final(self).spec_get(k) == Some(v),
            forall|k2: u16|
                k2 != k ==> #[trigger] final(self).spec_get(k2) == old(self).spec_get(k2),
            was ==> {
                &&& final(self).entries@ == old(self).entries@.update(
                    old(self).index_of(k),
                    (k, v),
                )
                &&& final(self).entries@.len() == old(self).entries@.len()
            },
            !was ==> final(self).entries@ == old(self).entries@.push((k, v)),
            final(self).entries@ == seq_insert(old(self).entries@, k, v),
            keys_of(final(self).entries@) == if was {
                keys_of(old(self).entries@)
            } else {
                keys_of(old(self).entries@).push(k)
            },
    {
        let n = self.entries.len();
        let mut i: usize = 0;
        while i < n
            invariant
                self.wf(),
                self.entries@ == old(self).entries@,
                n == self.entries@.len(),
                i <= n,
                forall|j: int| 0 <= j < i ==> (#[trigger] self.entries@[j]).0 != k,
            decreases n - i,
        {
            if self.entries[i].0 == k {
                proof {
                    self.lemma_get_at(k, i as int);
                }
                self.entries[i] = (k, v);
                proof {
                    let pre = *old(self);
                    let post = *self;
                    assert(forall|j: int|
                        0 <= j < post.entries@.len() ==> (#[trigger] post.entries@[j]).0
                            == pre.entries@[j].0);
                    assert(post.wf());
                    post.lemma_get_at(k, i as int);
                    assert forall|k2: u16| k2 != k implies #[trigger] post.spec_get(k2)
                        == pre.spec_get(k2) by {
                        if pre.contains_spec(k2) {
                            let j = pre.index_of(k2);
                            pre.lemma_get_at(k2, j);
                            post.lemma_get_at(k2, j);
                        } else if post.contains_spec(k2) {
                            let j = post.index_of(k2);
                            assert(pre.entries@[j].0 == k2);
                        }
                    }
                    assert(keys_of(post.entries@) =~= keys_of(pre.entries@));
                }
                return true;
            }
            i = i + 1;
        }
        self.entries.push((k, v));
        proof {
            let pre = *old(self);
            let post = *self;
            assert(forall|j: int|
                0 <= j < pre.entries@.len() ==> #[trigger] post.entries@[j] == pre.entries@[j]);
            assert(post.entries@[post.entries@.len() - 1].0 == k);
            assert(post.wf());
            post.lemma_get_at(k, post.entries@.len() - 1);
            assert forall|k2: u16| k2 != k implies #[trigger] post.spec_get(k2) == pre.spec_get(
                k2,
            ) by {
                if pre.contains_spec(k2) {
                    let j = pre.index_of(k2);
                    pre.lemma_get_at(k2, j);
                    post.lemma_get_at(k2, j);
                } else if post.contains_spec(k2) {
                    let j = post.index_of(k2);
                    if j < pre.entries@.len() {
                        assert(pre.entries@[j].0 == k2);
                    }
                }
            }
            assert(keys_of(post.entries@) =~= keys_of(pre.entries@).push(k));
        }
        false
    }

    /// Drop every entry.
    pub fn clear(&mut self)
        ensures
            final(self).wf(),
            final(self).entries@.len() == 0,
    {
        self.entries = Vec::new();
    }
}

/// Set of talkgroup ids, in insertion order.
pub struct TgSet {
    /// Members keyed by id; the value is unused.
    pub map: TgMap<()>,
}

impl TgSet {
    /// Keys are unique.
    pub open spec fn wf(self) -> bool {
        self.map.wf()
    }

    /// Whether the set holds the given id.
    pub open spec fn contains_spec(self, k: u16) -> bool {
        self.map.contains_spec(k)
    }

    /// Number of members.
    pub open spec fn spec_len(self) -> nat {
        self.map.entries@.len()
    }

    /// An empty set.
    pub fn new() -> (r: TgSet)
        ensures
            r.wf(),
            r.spec_len() == 0,
    {
        TgSet { map: TgMap::new() }
    }

    /// Number of members.
    pub fn len(&self) -> (r: usize)
        ensures
            r == self.spec_len(),
    {
        self.map.len()
    }

    /// The member at the given insertion position.
    pub fn key_at(&self, i: usize) -> (r: u16)
        requires
            i < self.spec_len(),
        ensures
            r == self.map.entries@[i as int].0,
            self.contains_spec(r),
    {
        let p = self.map.pair_at(i);
        proof {
            assert(self.map.entries@[i as int].0 == p.0);
        }
        p.0
    }

    /// Whether the set holds the given id.
    pub fn contains(&self, k: u16) -> (r: bool)
        ensures
            r == self.contains_spec(k),
    {
        self.map.contains(k)
    }

    /// Add an id; adding a member again changes nothing.
    pub fn insert(&mut self, k: u16) -> (was: bool)
        requires
            old(self).wf(),
        ensures
            final(self).wf(),
            was == old(self).contains_spec(k),
            final(self).contains_spec(k),
            forall|k2: u16|
                k2 != k ==> #[trigger] final(self).contains_spec(k2) == old(self).contains_spec(
                    k2,
                ),
            final(self).spec_len() == old(self).spec_len() + (if was {
                0int
            } else {
                1int
            }),
            keys_of(final(self).map.entries@) == if was {
                keys_of(old(self).map.entries@)
            } else {
                keys_of(old(self).map.entries@).push(k)
            },
    {
        let was = self.map.insert(k, ());
        proof {
            assert(forall|k2: u16|
                k2 != k ==> (#[trigger] final(self).contains_spec(k2) == old(self).contains_spec(
                    k2,
                ))) by {
                assert(forall|k2: u16|
                    k2 != k ==> #[trigger] final(self).map.spec_get(k2) == old(
                        self,
                    ).map.spec_get(k2));
                assert(forall|k2: u16|
                    #[trigger] final(self).contains_spec(k2) == (final(self).map.spec_get(k2)
                        is Some));
                assert(forall|k2: u16|
                    #[trigger] old(self).contains_spec(k2) == (old(self).map.spec_get(k2)
                        is Some));
            }
        }
        was
    }

    /// Drop every member.
    pub fn clear(&mut self)
        ensures
            final(self).wf(),
            final(self).spec_len() == 0,
    {
        self.map.clear();
    }
}

} // verus!
