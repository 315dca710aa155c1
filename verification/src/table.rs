//! A small association table over a vector, for keys that are compared by value.

use vstd::prelude::*;

verus! {

/// A key that can be compared for equality at run time.
pub trait Key: Sized {
    /// Whether the two keys are the same value.
    fn same(&self, other: &Self) -> (r: bool)
        ensures
            r == (*self == *other),
    ;
}

impl Key for u128 {
    fn same(&self, other: &Self) -> (r: bool) {
        *self == *other
    }
}

impl Key for [u8; 32] {
    fn same(&self, other: &Self) -> (r: bool) {
        let mut i: usize = 0;
        while i < 32
            invariant
                i <= 32,
                forall|j: int| 0 <= j < i ==> self[j] == other[j],
            decreases 32 - i,
        {
            if self[i] != other[i] {
                return false;
            }
            i = i + 1;
        }
        assert(*self =~= *other);
        true
    }
}

impl<A: Key, B: Key> Key for (A, B) {
    fn same(&self, other: &Self) -> (r: bool) {
        self.0.same(&other.0) && self.1.same(&other.1)
    }
}

/// The index of the entry with key `k`, when there is one.
spec fn position<K, V>(entries: Seq<(K, V)>, k: K) -> int {
    choose|i: int| 0 <= i < entries.len() && entries[i].0 == k
}

/// Whether some entry has key `k`.
spec fn has_key<K, V>(entries: Seq<(K, V)>, k: K) -> bool {
    exists|i: int| 0 <= i < entries.len() && entries[i].0 == k
}

/// Whether no key occurs in two entries.
spec fn distinct_keys<K, V>(entries: Seq<(K, V)>) -> bool {
    forall|i: int, j: int|
        0 <= i < entries.len() && 0 <= j < entries.len() && entries[i].0 == entries[j].0 ==> i
            == j
}

/// The map that a sequence of entries stands for.
spec fn entries_map<K, V>(entries: Seq<(K, V)>) -> Map<K, V> {
    Map::new(|k: K| has_key(entries, k), |k: K| entries[position(entries, k)].1)
}

/// A finite map from keys to values, held as a vector of entries with distinct keys.
#[derive(Clone, Debug)]
pub struct Table<K, V> {
    entries: Vec<(K, V)>,
}

impl<K, V> View for Table<K, V> {
    type V = Map<K, V>;

    closed spec fn view(&self) -> Map<K, V> {
        entries_map(self.entries@)
    }
}

impl<K: Key + Copy, V: Copy> Table<K, V> {
    /// Whether no key is held twice.
    pub closed spec fn wf(&self) -> bool {
        distinct_keys(self.entries@)
    }

    /// The empty table.
    pub fn new() -> (t: Self)
        ensures
            t.wf(),
            t@ == Map::<K, V>::empty(),
    {
        let t = Table { entries: Vec::new() };
        assert(t@ =~= Map::<K, V>::empty());
        t
    }

    /// The index of the entry for `k`, or the number of entries when there is none.
    fn find(&self, k: &K) -> (i: usize)
        requires
            self.wf(),
        ensures
            i <= self.entries@.len(),
            i < self.entries@.len() ==> self.entries@[i as int].0 == *k,
            i == self.entries@.len() ==> !has_key(self.entries@, *k),
    {
        let mut i: usize = 0;
        while i < self.entries.len()
            invariant
                i <= self.entries@.len(),
                forall|j: int| 0 <= j < i ==> self.entries@[j].0 != *k,
            decreases self.entries@.len() - i,
        {
            if self.entries[i].0.same(k) {
                return i;
            }
            i = i + 1;
        }
        i
    }

    /// The value held for `k`, if any.
    pub fn get(&self, k: &K) -> (r: Option<V>)
        requires
            self.wf(),
        ensures
            r == (if self@.contains_key(*k) {
                Some(self@[*k])
            } else {
                None
            }),
    {
        let i = self.find(k);
        if i < self.entries.len() {
            Some(self.entries[i].1)
        } else {
            None
        }
    }

    /// Whether a value is held for `k`.
    pub fn contains(&self, k: &K) -> (r: bool)
        requires
            self.wf(),
        ensures
            r == self@.contains_key(*k),
    {
        let i = self.find(k);
        i < self.entries.len()
    }

    /// Sets the value for `k`, replacing an earlier one.
    pub fn insert(&mut self, k: K, v: V)
        requires
            old(self).wf(),
        ensures
            final(self).wf(),
            final(self)@ == old(self)@.insert(k, v),
    {
        let i = self.find(&k);
        let ghost before = self.entries@;
        if i < self.entries.len() {
            self.entries.set(i, (k, v));
            proof {
                let after = self.entries@;
                assert forall|q: K| has_key(after, q) == has_key(before, q) by {
                    if has_key(before, q) {
                        let j = position(before, q);
                        assert(after[j].0 == q);
                    }
                    if has_key(after, q) {
                        let j = position(after, q);
                        assert(before[j].0 == q);
                    }
                }
                assert forall|q: K| has_key(after, q) implies entries_map(after)[q] == (if q == k {
                    v
                } else {
                    entries_map(before)[q]
                }) by {
                    let j = position(after, q);
                    assert(before[j].0 == q);
                }
            }
        } else {
            self.entries.push((k, v));
            proof {
                let after = self.entries@;
                assert(after[before.len() as int].0 == k);
                assert forall|q: K| has_key(after, q) == (q == k || has_key(before, q)) by {
                    if has_key(before, q) {
                        let j = position(before, q);
                        assert(after[j].0 == q);
                    }
                    if has_key(after, q) {
                        let j = position(after, q);
                        if j < before.len() {
                            assert(before[j].0 == q);
                        }
                    }
                }
                assert forall|q: K| has_key(after, q) implies entries_map(after)[q] == (if q == k {
                    v
                } else {
                    entries_map(before)[q]
                }) by {
                    let j = position(after, q);
                    if q != k {
                        assert(before[j].0 == q);
                    }
                }
            }
        }
        assert(self@ =~= old(self)@.insert(k, v));
    }

    /// Drops the value for `k`, if one is held.
    pub fn remove(&mut self, k: &K)
        requires
            old(self).wf(),
        ensures
            final(self).wf(),
            final(self)@ == old(self)@.remove(*k),
    {
        let i = self.find(k);
        let ghost before = self.entries@;
        if i < self.entries.len() {
            self.entries.remove(i);
            proof {
                let after = self.entries@;
                assert forall|q: K| has_key(after, q) == (q != *k && has_key(before, q)) by {
                    if q != *k && has_key(before, q) {
                        let j = position(before, q);
                        if j < i {
                            assert(after[j].0 == q);
                        } else {
                            assert(after[j - 1].0 == q);
                        }
                    }
                    if has_key(after, q) {
                        let j = position(after, q);
                        if j < i {
                            assert(before[j].0 == q);
                        } else {
                            assert(before[j + 1].0 == q);
                        }
                    }
                }
                assert forall|q: K| has_key(after, q) implies entries_map(after)[q] == entries_map(
                    before,
                )[q] by {
                    let j = position(after, q);
                    if j < i {
                        assert(before[j].0 == q);
                    } else {
                        assert(before[j + 1].0 == q);
                    }
                }
            }
        }
        assert(self@ =~= old(self)@.remove(*k));
    }
}

} // verus!
