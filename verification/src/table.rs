//! `Table<V>`: a finite map from byte-string keys to records, kept as two
//! parallel vectors with pairwise distinct keys.

use vstd::prelude::*;

use crate::bytes::bytes_eq;

verus! {

/// A map keyed by byte strings. Each key occurs at most once.
pub struct Table<V> {
    keys: Vec<Vec<u8>>,
    vals: Vec<V>,
}

impl<V: View> Table<V> {
    /// The table's own invariant: one value per key, and no key twice.
    pub closed spec fn wf(&self) -> bool {
        &&& self.keys@.len() == self.vals@.len()
        &&& forall|i: int, j: int|
            0 <= i < self.keys@.len() && 0 <= j < self.keys@.len() && i != j
                ==> #[trigger] self.keys@[i]@ != #[trigger] self.keys@[j]@
    }

    /// The keys in the order in which they are stored.
    pub closed spec fn key_list(&self) -> Seq<Seq<u8>> {
        Seq::new(self.keys@.len(), |i: int| self.keys@[i]@)
    }

    spec fn holds_at(&self, k: Seq<u8>, i: int) -> bool {
        0 <= i < self.keys@.len() && self.keys@[i]@ == k
    }

    spec fn index_of(&self, k: Seq<u8>) -> int {
        choose|i: int| self.holds_at(k, i)
    }

    /// The entries of the table as a map.
    pub closed spec fn entries(&self) -> Map<Seq<u8>, V::V> {
        Map::new(
            |k: Seq<u8>| exists|i: int| self.holds_at(k, i),
            |k: Seq<u8>| self.vals@[self.index_of(k)]@,
        )
    }

    proof fn lemma_at(&self, i: int)
        requires
            self.wf(),
            0 <= i < self.keys@.len(),
        ensures
            self.index_of(self.keys@[i]@) == i,
            self.entries().contains_key(self.keys@[i]@),
            self.entries()[self.keys@[i]@] == self.vals@[i]@,
    {
        assert(self.holds_at(self.keys@[i]@, i));
        let j = self.index_of(self.keys@[i]@);
        assert(self.holds_at(self.keys@[i]@, j));
        if j != i {
            assert(self.keys@[i]@ != self.keys@[j]@);
        }
    }

    proof fn lemma_absent(&self, k: Seq<u8>)
        requires
            forall|j: int| 0 <= j < self.keys@.len() ==> self.keys@[j]@ != k,
        ensures
            !self.entries().contains_key(k),
    {
        if exists|i: int| self.holds_at(k, i) {
            let i = choose|i: int| self.holds_at(k, i);
            assert(self.keys@[i]@ != k);
        }
    }

    /// The empty table.
    pub fn new() -> (r: Self)
        ensures
            r.wf(),
            r@ == Map::<Seq<u8>, V::V>::empty(),
    {
        let r = Table { keys: Vec::new(), vals: Vec::new() };
        assert(r.entries() =~= Map::<Seq<u8>, V::V>::empty());
        r
    }

    /// The position of `key`, if it is present.
    fn find(&self, key: &Vec<u8>) -> (r: Option<usize>)
        requires
            self.wf(),
        ensures
            match r {
                Some(i) => i < self.keys@.len() && self.keys@[i as int]@ == key@,
                None => forall|j: int| 0 <= j < self.keys@.len() ==> self.keys@[j]@ != key@,
            },
    {
        let mut i: usize = 0;
        while i < self.keys.len()
            invariant
                i <= self.keys@.len(),
                forall|j: int| 0 <= j < i ==> self.keys@[j]@ != key@,
            decreases self.keys@.len() - i,
        {
            if bytes_eq(&self.keys[i], key) {
                return Some(i);
            }
            i = i + 1;
        }
        None
    }

    /// Whether `key` is present.
    pub fn contains(&self, key: &Vec<u8>) -> (r: bool)
        requires
            self.wf(),
        ensures
            r == self@.contains_key(key@),
    {
        match self.find(key) {
            Some(i) => {
                proof {
                    self.lemma_at(i as int);
                }
                true
            },
            None => {
                proof {
                    self.lemma_absent(key@);
                }
                false
            },
        }
    }

    /// The value stored under `key`, if any.
    pub fn get(&self, key: &Vec<u8>) -> (r: Option<&V>)
        requires
            self.wf(),
        ensures
            match r {
                Some(v) => self@.contains_key(key@) && v@ == self@[key@],
                None => !self@.contains_key(key@),
            },
    {
        match self.find(key) {
            Some(i) => {
                proof {
                    self.lemma_at(i as int);
                }
                Some(&self.vals[i])
            },
            None => {
                proof {
                    self.lemma_absent(key@);
                }
                None
            },
        }
    }

    /// Stores `val` under `key`, replacing the value that was there.
    pub fn insert(&mut self, key: Vec<u8>, val: V)
        requires
            old(self).wf(),
        ensures
            final(self).wf(),
            final(self)@ == old(self)@.insert(key@, val@),
            final(self).key_list().len() == old(self).key_list().len() + (if old(
                self,
            )@.contains_key(key@) {
                0int
            } else {
                1int
            }),
    {
        let ghost pre = *self;
        let ghost kv = key@;
        let ghost vv = val@;
        match self.find(&key) {
            Some(i) => {
                proof {
                    pre.lemma_at(i as int);
                }
                self.vals.set(i, val);
                assert(self.keys@ == pre.keys@);
                assert forall|k: Seq<u8>| #![auto]
                    self.entries().contains_key(k) == pre.entries().insert(kv, vv).contains_key(
                        k,
                    ) by {
                    if pre.entries().contains_key(k) {
                        let j = pre.index_of(k);
                        assert(self.holds_at(k, j));
                    }
                    if self.entries().contains_key(k) {
                        let j = self.index_of(k);
                        assert(pre.holds_at(k, j));
                    }
                }
                assert forall|k: Seq<u8>| #![auto]
                    self.entries().contains_key(k) implies self.entries()[k]
                    == pre.entries().insert(kv, vv)[k] by {
                    let j = self.index_of(k);
                    assert(self.holds_at(k, j));
                    if k == kv {
                        if j != i {
                            assert(self.keys@[j as int]@ != self.keys@[i as int]@);
                        }
                    } else {
                        assert(pre.index_of(k) == j);
                        assert(j != i);
                    }
                }
                assert(self.entries() =~= pre.entries().insert(kv, vv));
                assert(self.key_list() =~= pre.key_list());
            },
            None => {
                proof {
                    pre.lemma_absent(kv);
                }
                self.keys.push(key);
                self.vals.push(val);
                let ghost n: int = pre.keys@.len() as int;
                assert(self.keys@[n]@ == kv);
                assert forall|a: int, b: int|
                    0 <= a < self.keys@.len() && 0 <= b < self.keys@.len() && a != b
                        implies #[trigger] self.keys@[a]@ != #[trigger] self.keys@[b]@ by {
                    if a < n && b < n {
                        assert(self.keys@[a] == pre.keys@[a]);
                        assert(self.keys@[b] == pre.keys@[b]);
                    } else if a < n {
                        assert(self.keys@[a] == pre.keys@[a]);
                    } else {
                        assert(self.keys@[b] == pre.keys@[b]);
                    }
                }
                assert forall|k: Seq<u8>| #![auto]
                    self.entries().contains_key(k) == pre.entries().insert(kv, vv).contains_key(
                        k,
                    ) by {
                    if pre.entries().contains_key(k) {
                        let j = pre.index_of(k);
                        assert(self.holds_at(k, j));
                    }
                    if k == kv {
                        assert(self.holds_at(k, n));
                    }
                    if self.entries().contains_key(k) {
                        let j = self.index_of(k);
                        if j < n {
                            assert(pre.holds_at(k, j));
                        }
                    }
                }
                assert forall|k: Seq<u8>| #![auto]
                    self.entries().contains_key(k) implies self.entries()[k]
                    == pre.entries().insert(kv, vv)[k] by {
                    let j = self.index_of(k);
                    assert(self.holds_at(k, j));
                    if k == kv {
                        if j != n {
                            assert(self.keys@[j]@ != self.keys@[n]@);
                        }
                    } else {
                        assert(j < n);
                        assert(pre.holds_at(k, j));
                        let j0 = pre.index_of(k);
                        assert(pre.holds_at(k, j0));
                        if j0 != j {
                            assert(pre.keys@[j0]@ != pre.keys@[j]@);
                        }
                    }
                }
                assert(self.entries() =~= pre.entries().insert(kv, vv));
                assert(self.key_list() =~= pre.key_list().push(kv));
            },
        }
    }

    /// The number of entries.
    pub fn len(&self) -> (r: usize)
        requires
            self.wf(),
        ensures
            r == self.key_list().len(),
    {
        self.keys.len()
    }

    /// The `i`-th entry in storage order.
    pub fn entry(&self, i: usize) -> (r: (&Vec<u8>, &V))
        requires
            self.wf(),
            i < self.key_list().len(),
        ensures
            r.0@ == self.key_list()[i as int],
            self@.contains_key(r.0@),
            self@[r.0@] == r.1@,
    {
        proof {
            self.lemma_at(i as int);
        }
        (&self.keys[i], &self.vals[i])
    }

    /// Every key of the map is listed exactly once in `key_list`.
    pub proof fn lemma_key_list(&self)
        requires
            self.wf(),
        ensures
            forall|k: Seq<u8>| self@.contains_key(k) <==> self.key_list().contains(k),
            forall|i: int, j: int|
                0 <= i < self.key_list().len() && 0 <= j < self.key_list().len() && i != j
                    ==> self.key_list()[i] != self.key_list()[j],
    {
        assert forall|k: Seq<u8>| self@.contains_key(k) <==> self.key_list().contains(k) by {
            if self@.contains_key(k) {
                let i = self.index_of(k);
                assert(self.holds_at(k, i));
                assert(self.key_list()[i] == k);
            }
            if self.key_list().contains(k) {
                let i = choose|i: int| 0 <= i < self.key_list().len() && self.key_list()[i] == k;
                assert(self.holds_at(k, i));
            }
        }
        assert forall|i: int, j: int|
            0 <= i < self.key_list().len() && 0 <= j < self.key_list().len() && i != j
                implies self.key_list()[i] != self.key_list()[j] by {
            assert(self.keys@[i]@ != self.keys@[j]@);
        }
    }
}

impl<V: View> View for Table<V> {
    type V = Map<Seq<u8>, V::V>;

    closed spec fn view(&self) -> Map<Seq<u8>, V::V> {
        self.entries()
    }
}

} // verus!
