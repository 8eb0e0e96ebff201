//! A map keyed by byte strings that keeps its entries in ascending key order,
//! as the contract storage does.
use vstd::prelude::*;
use crate::bytes::{lex_lt, compare_bytes, KeyOrder, lemma_lex_lt_transitive,
    lemma_lex_lt_irreflexive, lemma_lex_lt_asymmetric, lemma_lex_lt_connected};

verus! {

/// Entries in strictly ascending key order.
#[derive(Debug)]
pub struct ByteMap<V> {
    pub entries: Vec<(Vec<u8>, V)>,
}

impl<V> ByteMap<V> {
    pub open spec fn size(&self) -> nat {
        self.entries@.len()
    }

    pub open spec fn key_at(&self, i: int) -> Seq<u8> {
        self.entries@[i].0@
    }

    pub open spec fn val_at(&self, i: int) -> V {
        self.entries@[i].1
    }

    /// Keys strictly ascend.
    pub open spec fn wf(&self) -> bool {
        forall|i: int, j: int|
            0 <= i < j < self.size() ==> lex_lt(#[trigger] self.key_at(i), #[trigger] self.key_at(j))
    }

    pub open spec fn has(&self, k: Seq<u8>) -> bool {
        exists|i: int| 0 <= i < self.size() && #[trigger] self.key_at(i) == k
    }

    pub open spec fn index_of(&self, k: Seq<u8>) -> int {
        choose|i: int| 0 <= i < self.size() && #[trigger] self.key_at(i) == k
    }

    pub open spec fn lookup(&self, k: Seq<u8>) -> V {
        self.val_at(self.index_of(k))
    }

    /// The entries as a map from key to value.
    pub open spec fn map(&self) -> Map<Seq<u8>, V> {
        Map::new(|k: Seq<u8>| self.has(k), |k: Seq<u8>| self.lookup(k))
    }

    /// The keys in ascending order.
    pub open spec fn keys(&self) -> Seq<Seq<u8>> {
        self.entries@.map_values(|e: (Vec<u8>, V)| e.0@)
    }

    /// The values in ascending key order.
    pub open spec fn values(&self) -> Seq<V> {
        self.entries@.map_values(|e: (Vec<u8>, V)| e.1)
    }

    /// In a well-formed map, a key is found at exactly one index.
    pub proof fn lemma_index_unique(&self, i: int, k: Seq<u8>)
        requires
            self.wf(),
            0 <= i < self.size(),
            self.key_at(i) == k,
        ensures
            self.has(k),
            self.index_of(k) == i,
            self.lookup(k) == self.val_at(i),
    {
        let j = self.index_of(k);
        if j != i {
            if j < i {
                assert(lex_lt(self.key_at(j), self.key_at(i)));
            } else {
                assert(lex_lt(self.key_at(i), self.key_at(j)));
            }
            lemma_lex_lt_irreflexive(k);
        }
    }

    /// An empty map.
    pub fn new() -> (m: Self)
        ensures
            m.wf(),
            m.size() == 0,
            m.map() == Map::<Seq<u8>, V>::empty(),
    {
        let m = ByteMap { entries: Vec::new() };
        assert(m.map() =~= Map::<Seq<u8>, V>::empty());
        m
    }

    /// The number of entries.
    pub fn len(&self) -> (n: usize)
        ensures
            n == self.size(),
    {
        self.entries.len()
    }

    /// The first index whose key is not below `k`, and whether that key is `k`.
    pub fn find(&self, k: &Vec<u8>) -> (r: (usize, bool))
        requires
            self.wf(),
        ensures
            r.0 <= self.size(),
            forall|i: int| 0 <= i < r.0 ==> lex_lt(#[trigger] self.key_at(i), k@),
            forall|i: int| r.0 < i < self.size() ==> lex_lt(k@, #[trigger] self.key_at(i)),
            r.1 <==> (r.0 < self.size() && self.key_at(r.0 as int) == k@),
            r.0 < self.size() && !r.1 ==> lex_lt(k@, self.key_at(r.0 as int)),
            r.1 == self.has(k@),
    {
        let mut i: usize = 0;
        while i < self.entries.len()
            invariant
                self.wf(),
                i <= self.size(),
                forall|j: int| 0 <= j < i ==> lex_lt(#[trigger] self.key_at(j), k@),
            decreases self.entries.len() - i,
        {
            match compare_bytes(self.entries[i].0.as_slice(), k.as_slice()) {
                KeyOrder::Before => {
                    i = i + 1;
                },
                KeyOrder::Same => {
                    proof {
                        assert forall|j: int| i < j < self.size() implies lex_lt(
                            k@,
                            #[trigger] self.key_at(j),
                        ) by {
                            assert(lex_lt(self.key_at(i as int), self.key_at(j)));
                        }
                    }
                    return (i, true);
                },
                KeyOrder::After => {
                    proof {
                        assert forall|j: int| i < j < self.size() implies lex_lt(
                            k@,
                            #[trigger] self.key_at(j),
                        ) by {
                            assert(lex_lt(self.key_at(i as int), self.key_at(j)));
                            lemma_lex_lt_transitive(k@, self.key_at(i as int), self.key_at(j));
                        }
                        if self.has(k@) {
                            let j = choose|j: int| 0 <= j < self.size() && #[trigger] self.key_at(j) == k@;
                            if j < i {
                                lemma_lex_lt_irreflexive(k@);
                            } else if j == i {
                                lemma_lex_lt_irreflexive(k@);
                            } else {
                                lemma_lex_lt_irreflexive(k@);
                            }
                        }
                        lemma_lex_lt_asymmetric(k@, self.key_at(i as int));
                    }
                    return (i, false);
                },
            }
        }
        proof {
            if self.has(k@) {
                let j = choose|j: int| 0 <= j < self.size() && #[trigger] self.key_at(j) == k@;
                lemma_lex_lt_irreflexive(k@);
            }
        }
        (i, false)
    }

    /// The value stored under `k`, if any.
    pub fn get(&self, k: &Vec<u8>) -> (r: Option<&V>)
        requires
            self.wf(),
        ensures
            r is Some <==> self.map().contains_key(k@),
            r matches Some(v) ==> *v == self.map()[k@],
    {
        let (i, found) = self.find(k);
        if found {
            proof {
                self.lemma_index_unique(i as int, k@);
            }
            Some(&self.entries[i].1)
        } else {
            None
        }
    }

    /// Whether a value is stored under `k`.
    pub fn contains(&self, k: &Vec<u8>) -> (r: bool)
        requires
            self.wf(),
        ensures
            r == self.map().contains_key(k@),
    {
        let (_, found) = self.find(k);
        found
    }

    /// Stores `v` under `k`, replacing what was there.
    pub fn insert(&mut self, k: Vec<u8>, v: V)
        requires
            old(self).wf(),
        ensures
            final(self).wf(),
            final(self).map() == old(self).map().insert(k@, v),
    {
        let ghost old_map = self.map();
        let ghost kv = k@;
        let (i, found) = self.find(&k);
        let ghost old_self = *self;
        if found {
            self.entries.set(i, (k, v));
            proof {
                assert forall|a: int, b: int| 0 <= a < b < self.size() implies lex_lt(
                    #[trigger] self.key_at(a),
                    #[trigger] self.key_at(b),
                ) by {
                    assert(old_self.key_at(a) == self.key_at(a));
                    assert(old_self.key_at(b) == self.key_at(b));
                    assert(lex_lt(old_self.key_at(a), old_self.key_at(b)));
                }
                assert forall|key: Seq<u8>| #[trigger] self.map().contains_key(key)
                    <==> old_map.insert(kv, v).contains_key(key) by {
                    if self.has(key) {
                        let j = choose|j: int| 0 <= j < self.size() && #[trigger] self.key_at(j) == key;
                        assert(old_self.key_at(j) == key);
                    }
                    if old_self.has(key) {
                        let j = choose|j: int| 0 <= j < old_self.size() && #[trigger] old_self.key_at(j) == key;
                        assert(self.key_at(j) == key);
                    }
                    if key == kv {
                        assert(self.key_at(i as int) == kv);
                    }
                }
                assert forall|key: Seq<u8>| self.map().contains_key(key) implies #[trigger] self.map()[key]
                    == old_map.insert(kv, v)[key] by {
                    let j = choose|j: int| 0 <= j < self.size() && #[trigger] self.key_at(j) == key;
                    self.lemma_index_unique(j, key);
                    if key != kv {
                        assert(old_self.key_at(j) == key);
                        assert(j != i);
                        assert(self.val_at(j) == old_self.val_at(j));
                        old_self.lemma_index_unique(j, key);
                    } else {
                        self.lemma_index_unique(i as int, key);
                        assert(self.val_at(i as int) == v);
                    }
                }
                assert(self.map() =~= old_map.insert(kv, v));
            }
        } else {
            self.entries.insert(i, (k, v));
            proof {
                assert forall|j: int| 0 <= j < self.size() implies #[trigger] self.key_at(j) == (
                if j < i {
                    old_self.key_at(j)
                } else if j == i {
                    kv
                } else {
                    old_self.key_at(j - 1)
                }) by {}
                assert forall|a: int, b: int| 0 <= a < b < self.size() implies lex_lt(
                    #[trigger] self.key_at(a),
                    #[trigger] self.key_at(b),
                ) by {
                    if a < i && b < i {
                        assert(lex_lt(old_self.key_at(a), old_self.key_at(b)));
                    } else if a < i && b == i {
                    } else if a < i && b > i {
                        assert(lex_lt(old_self.key_at(a), kv));
                        if b - 1 == i {
                        } else {
                            assert(lex_lt(kv, old_self.key_at(b - 1)));
                        }
                        lemma_lex_lt_transitive(old_self.key_at(a), kv, old_self.key_at(b - 1));
                    } else if a == i {
                        if b - 1 == i {
                        } else {
                            assert(lex_lt(kv, old_self.key_at(b - 1)));
                        }
                    } else {
                        assert(lex_lt(old_self.key_at(a - 1), old_self.key_at(b - 1)));
                    }
                }
                assert forall|key: Seq<u8>| #[trigger] self.map().contains_key(key)
                    <==> old_map.insert(kv, v).contains_key(key) by {
                    if self.has(key) {
                        let j = choose|j: int| 0 <= j < self.size() && #[trigger] self.key_at(j) == key;
                        if j < i {
                            assert(old_self.key_at(j) == key);
                        } else if j > i {
                            assert(old_self.key_at(j - 1) == key);
                        }
                    }
                    if old_self.has(key) {
                        let j = choose|j: int| 0 <= j < old_self.size() && #[trigger] old_self.key_at(j) == key;
                        if j < i {
                            assert(self.key_at(j) == key);
                        } else {
                            assert(self.key_at(j + 1) == key);
                        }
                    }
                    if key == kv {
                        assert(self.key_at(i as int) == kv);
                    }
                }
                assert forall|key: Seq<u8>| self.map().contains_key(key) implies #[trigger] self.map()[key]
                    == old_map.insert(kv, v)[key] by {
                    let j = choose|j: int| 0 <= j < self.size() && #[trigger] self.key_at(j) == key;
                    self.lemma_index_unique(j, key);
                    if j < i {
                        assert(old_self.key_at(j) == key);
                        assert(self.val_at(j) == old_self.val_at(j));
                        old_self.lemma_index_unique(j, key);
                        if key == kv {
                            lemma_lex_lt_irreflexive(kv);
                        }
                    } else if j == i {
                        assert(self.val_at(j) == v);
                    } else {
                        assert(old_self.key_at(j - 1) == key);
                        assert(self.val_at(j) == old_self.val_at(j - 1));
                        old_self.lemma_index_unique(j - 1, key);
                        if key == kv {
                            if j - 1 == i {
                                lemma_lex_lt_irreflexive(kv);
                            } else {
                                assert(lex_lt(kv, old_self.key_at(j - 1)));
                                lemma_lex_lt_irreflexive(kv);
                            }
                        }
                    }
                }
                assert(self.map() =~= old_map.insert(kv, v));
            }
        }
    }

    /// Removes the entry under `k`, if there is one, and returns its value.
    pub fn remove(&mut self, k: &Vec<u8>) -> (r: Option<V>)
        requires
            old(self).wf(),
        ensures
            final(self).wf(),
            final(self).map() == old(self).map().remove(k@),
            r is Some <==> old(self).map().contains_key(k@),
            r matches Some(v) ==> v == old(self).map()[k@],
            r is None ==> *final(self) == *old(self),
    {
        let ghost old_map = self.map();
        let ghost old_self = *self;
        let ghost kv = k@;
        let (i, found) = self.find(k);
        if found {
            proof {
                old_self.lemma_index_unique(i as int, kv);
            }
            let (_, v) = self.entries.remove(i);
            proof {
                assert forall|j: int| 0 <= j < self.size() implies #[trigger] self.key_at(j) == (
                if j < i {
                    old_self.key_at(j)
                } else {
                    old_self.key_at(j + 1)
                }) by {}
                assert forall|a: int, b: int| 0 <= a < b < self.size() implies lex_lt(
                    #[trigger] self.key_at(a),
                    #[trigger] self.key_at(b),
                ) by {
                    if b < i {
                        assert(lex_lt(old_self.key_at(a), old_self.key_at(b)));
                    } else if a < i {
                        assert(lex_lt(old_self.key_at(a), old_self.key_at(b + 1)));
                    } else {
                        assert(lex_lt(old_self.key_at(a + 1), old_self.key_at(b + 1)));
                    }
                }
                assert forall|key: Seq<u8>| #[trigger] self.map().contains_key(key)
                    <==> old_map.remove(kv).contains_key(key) by {
                    if self.has(key) {
                        let j = choose|j: int| 0 <= j < self.size() && #[trigger] self.key_at(j) == key;
                        if j < i {
                            assert(old_self.key_at(j) == key);
                            assert(lex_lt(key, kv));
                            if key == kv {
                                lemma_lex_lt_irreflexive(kv);
                            }
                        } else {
                            assert(old_self.key_at(j + 1) == key);
                            assert(lex_lt(kv, key));
                            if key == kv {
                                lemma_lex_lt_irreflexive(kv);
                            }
                        }
                    }
                    if old_self.has(key) && key != kv {
                        let j = choose|j: int| 0 <= j < old_self.size() && #[trigger] old_self.key_at(j) == key;
                        if j < i {
                            assert(self.key_at(j) == key);
                        } else {
                            assert(j != i);
                            assert(self.key_at(j - 1) == key);
                        }
                    }
                }
                assert forall|key: Seq<u8>| self.map().contains_key(key) implies #[trigger] self.map()[key]
                    == old_map.remove(kv)[key] by {
                    let j = choose|j: int| 0 <= j < self.size() && #[trigger] self.key_at(j) == key;
                    self.lemma_index_unique(j, key);
                    if j < i {
                        assert(old_self.key_at(j) == key);
                        old_self.lemma_index_unique(j, key);
                    } else {
                        assert(old_self.key_at(j + 1) == key);
                        old_self.lemma_index_unique(j + 1, key);
                    }
                }
                assert(self.map() =~= old_map.remove(kv));
            }
            Some(v)
        } else {
            assert(self.map() =~= old_map.remove(kv));
            None
        }
    }
}

} // verus!
