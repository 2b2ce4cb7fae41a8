//! A keyed store that remembers the order in which its keys first arrived.
//!
//! A [`Table`] is the building block of every sub-ledger: a point lookup by
//! key, a last-write-wins `insert` that keeps an existing key in its slot, and
//! an indexed scan in storage order. Its mathematical model is [`Contents`]:
//! a finite map together with the sequence of its keys.

use vstd::prelude::*;

verus! {

/// What a table holds: the keys in storage order and the value under each.
#[verifier::ext_equal]
#[verifier::reject_recursive_types(K)]
pub struct Contents<K, V> {
    pub keys: Seq<K>,
    pub map: Map<K, V>,
}

impl<K, V> Contents<K, V> {
    /// The contents of a table that holds nothing.
    pub open spec fn empty() -> Self {
        Contents { keys: Seq::empty(), map: Map::empty() }
    }

    /// No key is listed twice, and the listed keys are those of the map.
    pub open spec fn wf(self) -> bool {
        &&& self.keys.no_duplicates()
        &&& forall|k: K|
            #![trigger self.map.contains_key(k)]
            #![trigger self.keys.contains(k)]
            self.map.contains_key(k) <==> self.keys.contains(k)
    }

    /// Whether there is a value under `key`.
    pub open spec fn contains_key(self, key: K) -> bool {
        self.map.contains_key(key)
    }

    /// The value under `key`, if there is one.
    pub open spec fn get(self, key: K) -> Option<V> {
        if self.map.contains_key(key) {
            Some(self.map[key])
        } else {
            None
        }
    }

    /// The values in storage order.
    pub open spec fn values(self) -> Seq<V> {
        self.keys.map_values(|k: K| self.map[k])
    }

    /// Last write wins: a key that is present keeps its place in the order
    /// and takes the new value, a new key goes to the end.
    pub open spec fn insert(self, key: K, value: V) -> Self {
        Contents {
            keys: if self.map.contains_key(key) {
                self.keys
            } else {
                self.keys.push(key)
            },
            map: self.map.insert(key, value),
        }
    }

    /// The contents without `key`; the other keys keep their order.
    pub open spec fn remove(self, key: K) -> Self {
        Contents {
            keys: if self.map.contains_key(key) {
                self.keys.remove(self.keys.index_of(key))
            } else {
                self.keys
            },
            map: self.map.remove(key),
        }
    }
}

/// A value that can key a [`Table`]: it has a mathematical view and an
/// executable test that decides equality of views.
pub trait TableKey: View + Sized {
    /// Whether `self` and `other` denote the same key.
    fn same_key(&self, other: &Self) -> (r: bool)
        ensures
            r == (self@ == other@),
    ;
}

impl TableKey for String {
    fn same_key(&self, other: &Self) -> (r: bool) {
        *self == *other
    }
}

impl TableKey for (String, String) {
    fn same_key(&self, other: &Self) -> (r: bool) {
        self.0 == other.0 && self.1 == other.1
    }
}

/// One slot of a table.
struct Entry<K, V> {
    key: K,
    value: V,
}

/// A map from keys to values, held in the order in which the keys were first
/// inserted. No two slots hold the same key.
pub struct Table<K: TableKey, V> {
    entries: Vec<Entry<K, V>>,
}

impl<K: TableKey, V> View for Table<K, V> {
    type V = Contents<K::V, V>;

    closed spec fn view(&self) -> Contents<K::V, V> {
        Contents {
            keys: Seq::new(self.entries.len() as nat, |i: int| self.entries[i].key@),
            map: Map::new(
                |k: K::V| exists|i: int| 0 <= i < self.entries.len() && self.entries[i].key@ == k,
                |k: K::V|
                    self.entries[choose|i: int|
                        0 <= i < self.entries.len() && self.entries[i].key@ == k].value,
            ),
        }
    }
}

impl<K: TableKey, V> Table<K, V> {
    #[verifier::type_invariant]
    spec fn distinct_keys(self) -> bool {
        forall|i: int, j: int|
            0 <= i < j < self.entries.len() ==> self.entries[i].key@ != self.entries[j].key@
    }

    /// An empty table.
    pub fn new() -> (t: Self)
        ensures
            t@ == Contents::<K::V, V>::empty(),
    {
        let t = Table { entries: Vec::new() };
        assert(t@ =~= Contents::<K::V, V>::empty());
        t
    }

    /// The number of keys held.
    pub fn len(&self) -> (n: usize)
        ensures
            n == self@.keys.len(),
            self@.wf(),
    {
        proof {
            use_type_invariant(self);
            self.lemma_model();
        }
        self.entries.len()
    }

    /// The slot that holds `key`, if any does.
    pub fn position(&self, key: &K) -> (r: Option<usize>)
        ensures
            self@.wf(),
            match r {
                Some(i) => i < self@.keys.len() && self@.keys[i as int] == key@,
                None => !self@.contains_key(key@),
            },
    {
        proof {
            use_type_invariant(self);
            self.lemma_model();
        }
        let mut i: usize = 0;
        while i < self.entries.len()
            invariant
                self@.wf(),
                self@.keys.len() == self.entries.len(),
                forall|j: int|
                    0 <= j < self.entries.len() ==> #[trigger] self@.keys[j]
                        == self.entries[j].key@,
                i <= self.entries.len(),
                forall|j: int| 0 <= j < i ==> self.entries[j].key@ != key@,
            decreases self.entries.len() - i,
        {
            if self.entries[i].key.same_key(key) {
                return Some(i);
            }
            i += 1;
        }
        proof {
            if self@.keys.contains(key@) {
                let j = self@.keys.index_of(key@);
                assert(self.entries[j].key@ == key@);
            }
        }
        None
    }

    /// Whether `key` is held.
    pub fn contains_key(&self, key: &K) -> (r: bool)
        ensures
            r == self@.contains_key(key@),
    {
        proof {
            use_type_invariant(self);
            self.lemma_model();
        }
        self.position(key).is_some()
    }

    /// Point lookup: the value stored under `key`, or `None` where the key is
    /// absent.
    pub fn get(&self, key: &K) -> (r: Option<&V>)
        ensures
            self@.wf(),
            match r {
                Some(v) => self@.get(key@) == Some(*v),
                None => self@.get(key@).is_none(),
            },
    {
        proof {
            use_type_invariant(self);
            self.lemma_model();
        }
        match self.position(key) {
            Some(i) => Some(&self.entries[i].value),
            None => None,
        }
    }

    /// The key in slot `i`.
    pub fn key_at(&self, i: usize) -> (r: &K)
        requires
            i < self@.keys.len(),
        ensures
            r@ == self@.keys[i as int],
    {
        &self.entries[i].key
    }

    /// The value in slot `i`.
    pub fn value_at(&self, i: usize) -> (r: &V)
        requires
            i < self@.keys.len(),
        ensures
            self@.wf(),
            *r == self@.values()[i as int],
    {
        proof {
            use_type_invariant(self);
            self.lemma_model();
        }
        &self.entries[i].value
    }

    /// Stores `value` under `key`, last write wins: an existing key keeps its
    /// slot and gets the new value, a new key takes a new slot at the end.
    pub fn insert(&mut self, key: K, value: V)
        ensures
            final(self)@ == old(self)@.insert(key@, value),
            final(self)@.wf(),
    {
        proof {
            use_type_invariant(&*self);
            self.lemma_model();
        }
        let ghost before = *self;
        let found = self.position(&key);
        let mut entries = self.take_entries();
        match found {
            Some(i) => {
                entries.set(i, Entry { key, value });
            },
            None => {
                entries.push(Entry { key, value });
            },
        }
        proof {
            assert forall|a: int, b: int| 0 <= a < b < entries.len() implies entries[a].key@
                != entries[b].key@ by {
                assert(before@.keys[a] == entries[a].key@);
                if b < before@.keys.len() {
                    assert(before@.keys[b] == entries[b].key@);
                } else {
                    assert(before@.keys.contains(before@.keys[a]));
                }
            }
        }
        self.entries = entries;
        proof {
            self.lemma_model();
            let goal = before@.insert(key@, value);
            assert(self@.keys =~= goal.keys);
            assert forall|k: K::V| self@.map.contains_key(k) == goal.map.contains_key(k) by {
                if self@.map.contains_key(k) && k != key@ {
                    let i = self@.keys.index_of(k);
                    assert(before@.keys[i] == k);
                }
                if before@.map.contains_key(k) {
                    let j = before@.keys.index_of(k);
                    assert(self@.keys[j] == k);
                }
                if k == key@ {
                    match found {
                        Some(i) => {
                            assert(self@.keys[i as int] == k);
                        },
                        None => {
                            assert(self@.keys[self@.keys.len() - 1] == k);
                        },
                    }
                }
            }
            assert forall|k: K::V| self@.map.contains_key(k) implies self@.map[k]
                == goal.map[k] by {
                let i = self@.keys.index_of(k);
                self.lemma_slot(i);
                if k != key@ {
                    assert(before@.keys[i] == k);
                    before.lemma_slot(i);
                }
            }
            assert(self@.map =~= goal.map);
        }
    }

    /// Removes `key` and its value, closing the gap; an absent key changes
    /// nothing. Returns whether the key was held.
    pub fn remove(&mut self, key: &K) -> (r: bool)
        ensures
            r == old(self)@.contains_key(key@),
            final(self)@ == old(self)@.remove(key@),
            final(self)@.wf(),
    {
        proof {
            use_type_invariant(&*self);
            self.lemma_model();
        }
        let ghost before = *self;
        match self.position(key) {
            Some(i) => {
                let mut entries = self.take_entries();
                let _ = entries.remove(i);
                proof {
                    assert forall|a: int, b: int| 0 <= a < b < entries.len() implies entries[a].key@
                        != entries[b].key@ by {
                        let a0 = if a < i { a } else { a + 1 };
                        let b0 = if b < i { b } else { b + 1 };
                        assert(before@.keys[a0] == entries[a].key@);
                        assert(before@.keys[b0] == entries[b].key@);
                    }
                }
                self.entries = entries;
                proof {
                    self.lemma_model();
                    before.lemma_slot(i as int);
                    let goal = before@.remove(key@);
                    assert(self@.keys =~= goal.keys);
                    assert forall|k: K::V| self@.map.contains_key(k) == goal.map.contains_key(
                        k,
                    ) by {
                        if self@.map.contains_key(k) {
                            let a = self@.keys.index_of(k);
                            let b = if a < i { a } else { a + 1 };
                            assert(before@.keys[b] == k);
                        }
                        if goal.map.contains_key(k) {
                            let b = before@.keys.index_of(k);
                            let a = if b < i { b } else { b - 1 };
                            assert(self@.keys[a] == k);
                        }
                    }
                    assert forall|k: K::V| self@.map.contains_key(k) implies self@.map[k]
                        == goal.map[k] by {
                        let a = self@.keys.index_of(k);
                        self.lemma_slot(a);
                        let b = if a < i { a } else { a + 1 };
                        before.lemma_slot(b);
                    }
                    assert(self@.map =~= goal.map);
                }
                true
            },
            None => {
                assert(self@.map =~= before@.remove(key@).map);
                false
            },
        }
    }

    /// Moves the slots out and leaves the table empty, so that they can be
    /// changed and put back in one step.
    fn take_entries(&mut self) -> (entries: Vec<Entry<K, V>>)
        ensures
            entries == old(self).entries,
            final(self).entries@ == Seq::<Entry<K, V>>::empty(),
    {
        let mut entries: Vec<Entry<K, V>> = Vec::new();
        core::mem::swap(&mut self.entries, &mut entries);
        entries
    }

    /// The type's invariant in terms of the model.
    proof fn lemma_model(&self)
        requires
            self.distinct_keys(),
        ensures
            self@.wf(),
            self@.keys.len() == self.entries.len(),
            forall|i: int|
                0 <= i < self.entries.len() ==> #[trigger] self@.keys[i] == self.entries[i].key@,
            forall|i: int|
                0 <= i < self.entries.len() ==> #[trigger] self@.values()[i]
                    == self.entries[i].value,
    {
        assert forall|i: int, j: int|
            0 <= i < self@.keys.len() && 0 <= j < self@.keys.len() && i != j implies self@.keys[i]
            != self@.keys[j] by {
            if i < j {
                assert(self.entries[i].key@ != self.entries[j].key@);
            } else {
                assert(self.entries[j].key@ != self.entries[i].key@);
            }
        }
        assert forall|k: K::V| self@.map.contains_key(k) <==> self@.keys.contains(k) by {
            if self@.map.contains_key(k) {
                let i = choose|i: int| 0 <= i < self.entries.len() && self.entries[i].key@ == k;
                assert(self@.keys[i] == k);
            }
            if self@.keys.contains(k) {
                let i = self@.keys.index_of(k);
                assert(self.entries[i].key@ == k);
            }
        }
        assert forall|i: int| 0 <= i < self.entries.len() implies #[trigger] self@.values()[i]
            == self.entries[i].value by {
            self.lemma_slot(i);
        }
    }

    /// In a table whose keys are distinct, the map gives for the key of slot
    /// `i` the value of slot `i`.
    proof fn lemma_slot(&self, i: int)
        requires
            self.distinct_keys(),
            0 <= i < self.entries.len(),
        ensures
            self@.map.contains_key(self.entries[i].key@),
            self@.map[self.entries[i].key@] == self.entries[i].value,
            self@.keys[i] == self.entries[i].key@,
    {
        let k = self.entries[i].key@;
        let j = choose|j: int| 0 <= j < self.entries.len() && self.entries[j].key@ == k;
        if j < i {
            assert(self.entries[j].key@ != self.entries[i].key@);
        } else if i < j {
            assert(self.entries[i].key@ != self.entries[j].key@);
        }
    }
}

} // verus!
