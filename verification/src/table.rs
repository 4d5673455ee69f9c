use vstd::prelude::*;

use crate::bytes::bytes_eq;

verus! {

/// A finite map from byte-string keys to values, held as a list in which no
/// key occurs twice.
pub struct Table<V> {
    entries: Vec<(Vec<u8>, V)>,
}

impl<V: View> View for Table<V> {
    type V = Map<Seq<u8>, V::V>;

    closed spec fn view(&self) -> Map<Seq<u8>, V::V> {
        Map::new(
            |k: Seq<u8>| exists|i: int| self.key_at(i, k),
            |k: Seq<u8>| self.entries@[choose|i: int| self.key_at(i, k)].1@,
        )
    }
}

impl<V: View> Table<V> {
    spec fn key_at(&self, i: int, k: Seq<u8>) -> bool {
        0 <= i < self.entries@.len() && self.entries@[i].0@ == k
    }

    /// No key occurs twice.
    pub closed spec fn wf(&self) -> bool {
        forall|i: int, j: int|
            0 <= i < self.entries@.len() && 0 <= j < self.entries@.len() && i != j
                ==> #[trigger] self.entries@[i].0@ != #[trigger] self.entries@[j].0@
    }

    proof fn lemma_entry(&self, i: int)
        requires
            self.wf(),
            0 <= i < self.entries@.len(),
        ensures
            self@.contains_key(self.entries@[i].0@),
            self@[self.entries@[i].0@] == self.entries@[i].1@,
    {
        let k = self.entries@[i].0@;
        assert(self.key_at(i, k));
        let j = choose|j: int| self.key_at(j, k);
        assert(self.key_at(j, k));
        assert(j == i);
    }

    /// A table whose entries are those of `old` but for the entry at `idx`,
    /// which holds `k` and `val` (replacing the entry with key `k`, or added at
    /// the end), views as `old` with `k` mapped to `val`.
    proof fn lemma_insert_view(old: Self, new: Self, k: Seq<u8>, val: V::V, idx: int)
        requires
            old.wf(),
            new.wf(),
            new.key_at(idx, k),
            new.entries@[idx].1@ == val,
            idx < old.entries@.len() ==> old.key_at(idx, k),
            forall|j: int|
                0 <= j < new.entries@.len() && j != idx ==> j < old.entries@.len()
                    && #[trigger] new.entries@[j] == old.entries@[j],
            old.entries@.len() <= new.entries@.len(),
        ensures
            new@ == old@.insert(k, val),
    {
        assert forall|k2: Seq<u8>|
            #![trigger new@.contains_key(k2)]
            #![trigger old@.insert(k, val).contains_key(k2)]
            new@.contains_key(k2) == old@.insert(k, val).contains_key(k2) && (new@.contains_key(k2)
                ==> new@[k2] == old@.insert(k, val)[k2]) by {
            if k2 == k {
                new.lemma_entry(idx);
            } else {
                if new@.contains_key(k2) {
                    let j = choose|j: int| new.key_at(j, k2);
                    new.lemma_entry(j);
                    assert(new.entries@[j] == old.entries@[j]);
                    old.lemma_entry(j);
                }
                if old@.contains_key(k2) {
                    let j = choose|j: int| old.key_at(j, k2);
                    old.lemma_entry(j);
                    assert(new.entries@[j] == old.entries@[j]);
                    new.lemma_entry(j);
                }
            }
        }
        assert(new@ =~= old@.insert(k, val));
    }

    /// An empty table.
    pub fn new() -> (t: Self)
        ensures
            t.wf(),
            t@ == Map::<Seq<u8>, V::V>::empty(),
    {
        let t = Table { entries: Vec::new() };
        assert(t@ =~= Map::<Seq<u8>, V::V>::empty());
        t
    }

    fn index_of(&self, key: &[u8]) -> (r: Option<usize>)
        requires
            self.wf(),
        ensures
            match r {
                Some(i) => self.key_at(i as int, key@),
                None => !self@.contains_key(key@),
            },
    {
        let n = self.entries.len();
        let mut i: usize = 0;
        while i < n
            invariant
                n == self.entries@.len(),
                i <= n,
                forall|j: int| 0 <= j < i ==> self.entries@[j].0@ != key@,
            decreases n - i,
        {
            if bytes_eq(self.entries[i].0.as_slice(), key) {
                return Some(i);
            }
            i = i + 1;
        }
        None
    }

    /// Whether the key is present.
    pub fn contains_key(&self, key: &[u8]) -> (r: bool)
        requires
            self.wf(),
        ensures
            r == self@.contains_key(key@),
    {
        match self.index_of(key) {
            Some(i) => {
                proof {
                    self.lemma_entry(i as int);
                }
                true
            },
            None => false,
        }
    }

    /// The value stored under the key, if any.
    pub fn get(&self, key: &[u8]) -> (r: Option<&V>)
        requires
            self.wf(),
        ensures
            match r {
                Some(v) => self@.contains_key(key@) && self@[key@] == v@,
                None => !self@.contains_key(key@),
            },
    {
        match self.index_of(key) {
            Some(i) => {
                proof {
                    self.lemma_entry(i as int);
                }
                Some(&self.entries[i].1)
            },
            None => None,
        }
    }

    /// Stores the value under the key, replacing what was there.
    pub fn insert(&mut self, key: Vec<u8>, value: V)
        requires
            old(self).wf(),
        ensures
            final(self).wf(),
            final(self)@ == old(self)@.insert(key@, value@),
    {
        let ghost old_t = *self;
        let ghost k = key@;
        let ghost val = value@;
        match self.index_of(key.as_slice()) {
            Some(i) => {
                self.entries.set(i, (key, value));
                assert(self.wf());
                proof {
                    Self::lemma_insert_view(old_t, *self, k, val, i as int);
                }
            },
            None => {
                self.entries.push((key, value));
                let ghost n = old_t.entries@.len() as int;
                assert(self.wf()) by {
                    assert forall|a: int, b: int|
                        0 <= a < self.entries@.len() && 0 <= b < self.entries@.len() && a != b
                        implies #[trigger] self.entries@[a].0@ != #[trigger] self.entries@[b].0@ by {
                        if a == n {
                            if old_t@.contains_key(self.entries@[b].0@) {
                            } else {
                                old_t.lemma_entry(b);
                            }
                        } else if b == n {
                            old_t.lemma_entry(a);
                        } else {
                            assert(old_t.entries@[a] == self.entries@[a]);
                            assert(old_t.entries@[b] == self.entries@[b]);
                        }
                    }
                }
                proof {
                    Self::lemma_insert_view(old_t, *self, k, val, n);
                }
            },
        }
    }
}

} // verus!
