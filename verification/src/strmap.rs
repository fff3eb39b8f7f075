//! A map from strings to values that keeps its entries sorted by key, so
//! iteration is in the key order of a `BTreeMap<String, _>`.
use vstd::prelude::*;
use std::sync::Arc;
use crate::text::{lex_lt, str_lt, str_eq, lemma_lex_total, lemma_lex_transitive, lemma_lex_irreflexive};

verus! {

/// A string-keyed map whose entries are held in strictly increasing key order.
#[derive(Clone, Debug)]
pub struct StrMap<V> {
    entries: Vec<(String, V)>,
}

/// Whether a sequence of keys is strictly increasing.
pub open spec fn strictly_sorted(keys: Seq<Seq<char>>) -> bool {
    forall|i: int, j: int| 0 <= i < j < keys.len() ==> lex_lt(#[trigger] keys[i], #[trigger] keys[j])
}

/// The map that a list of `(key, value)` pairs with distinct keys stands for.
pub open spec fn pairs_to_map<V>(pairs: Seq<(Seq<char>, V)>) -> Map<Seq<char>, V> {
    Map::new(
        |k: Seq<char>| exists|i: int| 0 <= i < pairs.len() && #[trigger] pairs[i].0 == k,
        |k: Seq<char>| pairs[index_of_key(pairs, k)].1,
    )
}

/// An index at which `k` stands as a key, when there is one.
pub open spec fn index_of_key<V>(pairs: Seq<(Seq<char>, V)>, k: Seq<char>) -> int {
    choose|i: int| 0 <= i < pairs.len() && #[trigger] pairs[i].0 == k
}

/// The keys of a list of pairs.
pub open spec fn keys_of<V>(pairs: Seq<(Seq<char>, V)>) -> Seq<Seq<char>> {
    Seq::new(pairs.len(), |i: int| pairs[i].0)
}

proof fn lemma_sorted_distinct(keys: Seq<Seq<char>>, i: int, j: int)
    requires
        strictly_sorted(keys),
        0 <= i < keys.len(),
        0 <= j < keys.len(),
        i != j,
    ensures
        keys[i] != keys[j],
{
    if i < j {
        assert(lex_lt(keys[i], keys[j]));
        lemma_lex_irreflexive(keys[i]);
    } else {
        assert(lex_lt(keys[j], keys[i]));
        lemma_lex_irreflexive(keys[j]);
    }
}

/// The value a list of sorted pairs maps its `j`-th key to is its `j`-th value.
pub proof fn lemma_map_value<V>(pairs: Seq<(Seq<char>, V)>, j: int)
    requires
        strictly_sorted(keys_of(pairs)),
        0 <= j < pairs.len(),
    ensures
        pairs_to_map(pairs).contains_key(pairs[j].0),
        pairs_to_map(pairs)[pairs[j].0] == pairs[j].1,
{
    let k = pairs[j].0;
    assert(keys_of(pairs)[j] == k);
    assert(pairs[j].0 == k);
    assert(pairs_to_map(pairs).contains_key(k));
    let i = index_of_key(pairs, k);
    assert(keys_of(pairs)[i] == k);
    if i != j {
        lemma_sorted_distinct(keys_of(pairs), i, j);
    }
    assert(pairs_to_map(pairs)[k] == pairs[i].1);
}

impl<V> StrMap<V> {
    /// The entries, in increasing key order.
    pub closed spec fn pairs(&self) -> Seq<(Seq<char>, V)> {
        self.entries@.map_values(|e: (String, V)| (e.0@, e.1))
    }

    /// The map this value stands for.
    pub open spec fn view(&self) -> Map<Seq<char>, V> {
        pairs_to_map(self.pairs())
    }

    /// Well-formedness: the keys are strictly increasing.
    pub open spec fn wf(&self) -> bool {
        strictly_sorted(keys_of(self.pairs()))
    }

    /// The entries are sorted by key, and each stands in the map.
    pub proof fn lemma_pairs(&self)
        requires
            self.wf(),
        ensures
            strictly_sorted(keys_of(self.pairs())),
            forall|j: int|
                0 <= j < self.pairs().len() ==> self@.contains_key(#[trigger] self.pairs()[j].0)
                    && self@[self.pairs()[j].0] == self.pairs()[j].1,
            forall|k: Seq<char>|
                self@.contains_key(k) ==> exists|j: int|
                    0 <= j < self.pairs().len() && #[trigger] self.pairs()[j].0 == k,
    {
        assert forall|j: int| 0 <= j < self.pairs().len() implies self@.contains_key(
            #[trigger] self.pairs()[j].0,
        ) && self@[self.pairs()[j].0] == self.pairs()[j].1 by {
            lemma_map_value(self.pairs(), j);
        }
    }

    /// An empty map.
    pub fn new() -> (m: Self)
        ensures
            m.wf(),
            m@ == Map::<Seq<char>, V>::empty(),
            m.pairs().len() == 0,
    {
        let m = StrMap { entries: Vec::new() };
        assert(m@ =~= Map::<Seq<char>, V>::empty());
        m
    }

    /// The number of entries.
    pub fn len(&self) -> (n: usize)
        requires
            self.wf(),
        ensures
            n == self.pairs().len(),
            n == self@.len(),
    {
        proof {
            self.lemma_len();
        }
        self.entries.len()
    }

    proof fn lemma_len(&self)
        requires
            strictly_sorted(keys_of(self.pairs())),
        ensures
            self@.len() == self.pairs().len(),
    {
        let ps = self.pairs();
        let ks = keys_of(ps);
        assert(ks.no_duplicates()) by {
            assert forall|i: int, j: int| 0 <= i < ks.len() && 0 <= j < ks.len() && i != j implies ks[i] != ks[j] by {
                lemma_sorted_distinct(ks, i, j);
            }
        }
        assert(self@.dom() =~= ks.to_set()) by {
            assert forall|k: Seq<char>| self@.dom().contains(k) <==> ks.to_set().contains(k) by {
                if self@.dom().contains(k) {
                    let i = choose|i: int| 0 <= i < ps.len() && #[trigger] ps[i].0 == k;
                    assert(ks[i] == k);
                }
                if ks.to_set().contains(k) {
                    let i = choose|i: int| 0 <= i < ks.len() && ks[i] == k;
                    assert(ps[i].0 == k);
                }
            }
        }
        ks.unique_seq_to_set();
    }

    /// Whether the map is empty.
    pub fn is_empty(&self) -> (b: bool)
        requires
            self.wf(),
        ensures
            b == (self@.len() == 0),
    {
        self.len() == 0
    }

    /// The key of the `i`-th entry in key order.
    pub fn key_at(&self, i: usize) -> (k: &String)
        requires
            i < self.pairs().len(),
        ensures
            k@ == self.pairs()[i as int].0,
    {
        &self.entries[i].0
    }

    /// The value of the `i`-th entry in key order.
    pub fn value_at(&self, i: usize) -> (v: &V)
        requires
            i < self.pairs().len(),
        ensures
            *v == self.pairs()[i as int].1,
    {
        &self.entries[i].1
    }

    /// The entries, in increasing key order, consuming the map.
    pub fn into_entries(self) -> (v: Vec<(String, V)>)
        ensures
            v@.map_values(|e: (String, V)| (e.0@, e.1)) == self.pairs(),
    {
        self.entries
    }

    /// The value stored under `key`, if any.
    pub fn get(&self, key: &str) -> (r: Option<&V>)
        requires
            self.wf(),
        ensures
            r is Some <==> self@.contains_key(key@),
            r is Some ==> *r->0 == self@[key@],
    {
        proof {
            self.lemma_pairs();
        }
        let n = self.entries.len();
        let mut i: usize = 0;
        while i < n
            invariant
                n == self.pairs().len(),
                i <= n,
                self.wf(),
                forall|j: int| 0 <= j < i ==> self.pairs()[j].0 != key@,
            decreases n - i,
        {
            if str_eq(self.entries[i].0.as_str(), key) {
                proof {
                    assert(self.pairs()[i as int] == (self.entries@[i as int].0@, self.entries@[i as int].1));
                    assert(self.pairs()[i as int].0 == key@);
                    lemma_map_value(self.pairs(), i as int);
                }
                return Some(&self.entries[i].1);
            }
            proof {
                assert(self.pairs()[i as int] == (self.entries@[i as int].0@, self.entries@[i as int].1));
            }
            i = i + 1;
        }
        proof {
            if self@.contains_key(key@) {
                let j = choose|j: int| 0 <= j < self.pairs().len() && #[trigger] self.pairs()[j].0 == key@;
                assert(self.pairs()[j].0 != key@);
            }
        }
        None
    }

    /// Store `value` under `key`, replacing any earlier value for it.
    pub fn insert(&mut self, key: String, value: V)
        requires
            old(self).wf(),
        ensures
            final(self).wf(),
            final(self)@ == old(self)@.insert(key@, value),
    {
        let ghost old_pairs = self.pairs();
        let n = self.entries.len();
        let mut i: usize = 0;
        while i < n && str_lt(self.entries[i].0.as_str(), key.as_str())
            invariant
                n == self.entries@.len(),
                i <= n,
                self.pairs() == old_pairs,
                strictly_sorted(keys_of(old_pairs)),
                forall|j: int| 0 <= j < i ==> lex_lt(#[trigger] old_pairs[j].0, key@),
            decreases n - i,
        {
            i = i + 1;
        }
        proof {
            assert(old_pairs.len() == n);
        }
        if i < n && str_eq(self.entries[i].0.as_str(), key.as_str()) {
            let ghost kv = key@;
            self.entries.set(i, (key, value));
            proof {
                let ps = self.pairs();
                assert(ps =~= old_pairs.update(i as int, (kv, value)));
                assert(keys_of(ps) =~= keys_of(old_pairs));
                self.lemma_after_replace(old_pairs, i as int, kv, value);
            }
        } else {
            let ghost kv = key@;
            proof {
                if i < n {
                    lemma_lex_total(old_pairs[i as int].0, kv);
                }
            }
            self.entries.insert(i, (key, value));
            proof {
                let ps = self.pairs();
                assert(ps =~= old_pairs.insert(i as int, (kv, value)));
                self.lemma_after_insert(old_pairs, i as int, kv, value);
            }
        }
    }

    proof fn lemma_after_replace(&self, old_pairs: Seq<(Seq<char>, V)>, i: int, k: Seq<char>, v: V)
        requires
            strictly_sorted(keys_of(old_pairs)),
            0 <= i < old_pairs.len(),
            old_pairs[i].0 == k,
            self.pairs() == old_pairs.update(i, (k, v)),
        ensures
            strictly_sorted(keys_of(self.pairs())),
            self@ == pairs_to_map(old_pairs).insert(k, v),
    {
        let ps = self.pairs();
        assert(keys_of(ps) =~= keys_of(old_pairs));
        assert forall|key: Seq<char>| #[trigger] self@.contains_key(key) <==> pairs_to_map(old_pairs).insert(k, v).contains_key(key) by {
            if self@.contains_key(key) {
                let j = choose|j: int| 0 <= j < ps.len() && #[trigger] ps[j].0 == key;
                assert(old_pairs[j].0 == key);
            }
            if pairs_to_map(old_pairs).contains_key(key) {
                let j = choose|j: int| 0 <= j < old_pairs.len() && #[trigger] old_pairs[j].0 == key;
                assert(ps[j].0 == key);
            }
            if key == k {
                assert(ps[i].0 == key);
            }
        }
        assert forall|key: Seq<char>| #[trigger] self@.contains_key(key) implies self@[key] == pairs_to_map(old_pairs).insert(k, v)[key] by {
            let j = choose|j: int| 0 <= j < ps.len() && #[trigger] ps[j].0 == key;
            lemma_map_value(ps, j);
            if j != i {
                lemma_map_value(old_pairs, j);
                assert(old_pairs[j].0 == key);
                lemma_sorted_distinct(keys_of(old_pairs), i, j);
            }
        }
        assert(self@ =~= pairs_to_map(old_pairs).insert(k, v));
    }

    proof fn lemma_after_insert(&self, old_pairs: Seq<(Seq<char>, V)>, i: int, k: Seq<char>, v: V)
        requires
            strictly_sorted(keys_of(old_pairs)),
            0 <= i <= old_pairs.len(),
            forall|j: int| 0 <= j < i ==> lex_lt(#[trigger] old_pairs[j].0, k),
            i < old_pairs.len() ==> lex_lt(k, old_pairs[i].0),
            self.pairs() == old_pairs.insert(i, (k, v)),
        ensures
            strictly_sorted(keys_of(self.pairs())),
            self@ == pairs_to_map(old_pairs).insert(k, v),
    {
        let ps = self.pairs();
        let ks = keys_of(ps);
        let oks = keys_of(old_pairs);
        assert forall|a: int, b: int| 0 <= a < b < ks.len() implies lex_lt(#[trigger] ks[a], #[trigger] ks[b]) by {
            if b < i {
                assert(lex_lt(oks[a], oks[b]));
            } else if b == i {
                assert(ks[b] == k);
                assert(ks[a] == old_pairs[a].0);
            } else if a == i {
                assert(ks[b] == old_pairs[b - 1].0);
                if b - 1 > i {
                    assert(lex_lt(oks[i], oks[b - 1]));
                    lemma_lex_transitive(k, old_pairs[i].0, old_pairs[b - 1].0);
                }
            } else if a < i {
                assert(ks[a] == old_pairs[a].0);
                assert(ks[b] == old_pairs[b - 1].0);
                assert(lex_lt(oks[a], oks[b - 1]));
            } else {
                assert(ks[a] == old_pairs[a - 1].0);
                assert(ks[b] == old_pairs[b - 1].0);
                assert(lex_lt(oks[a - 1], oks[b - 1]));
            }
        }
        assert forall|j: int| 0 <= j < old_pairs.len() implies old_pairs[j].0 != k by {
            if j < i {
                lemma_lex_irreflexive(k);
            } else {
                if j > i {
                    assert(lex_lt(oks[i], oks[j]));
                    lemma_lex_transitive(k, old_pairs[i].0, old_pairs[j].0);
                }
                lemma_lex_irreflexive(k);
            }
        }
        assert forall|key: Seq<char>| #[trigger] self@.contains_key(key) <==> pairs_to_map(old_pairs).insert(k, v).contains_key(key) by {
            if self@.contains_key(key) {
                let j = choose|j: int| 0 <= j < ps.len() && #[trigger] ps[j].0 == key;
                if j < i {
                    assert(old_pairs[j].0 == key);
                } else if j > i {
                    assert(old_pairs[j - 1].0 == key);
                }
            }
            if pairs_to_map(old_pairs).contains_key(key) {
                let j = choose|j: int| 0 <= j < old_pairs.len() && #[trigger] old_pairs[j].0 == key;
                if j < i {
                    assert(ps[j].0 == key);
                } else {
                    assert(ps[j + 1].0 == key);
                }
            }
            if key == k {
                assert(ps[i].0 == key);
            }
        }
        assert forall|key: Seq<char>| #[trigger] self@.contains_key(key) implies self@[key] == pairs_to_map(old_pairs).insert(k, v)[key] by {
            let j = choose|j: int| 0 <= j < ps.len() && #[trigger] ps[j].0 == key;
            lemma_map_value(ps, j);
            if j < i {
                assert(old_pairs[j] == ps[j]);
                lemma_map_value(old_pairs, j);
            } else if j > i {
                assert(old_pairs[j - 1] == ps[j]);
                lemma_map_value(old_pairs, j - 1);
            }
        }
        assert(self@ =~= pairs_to_map(old_pairs).insert(k, v));
    }
}

/// `Arc::clone`: another handle to the same value.
#[verifier::external_body]
pub(crate) fn share<T>(a: &Arc<T>) -> (r: Arc<T>)
    ensures
        r == *a,
{
    Arc::clone(a)
}

impl<T> StrMap<Arc<T>> {
    /// A copy of the map holding further handles to the same shared values.
    pub fn share_all(&self) -> (r: Self)
        ensures
            r.pairs() == self.pairs(),
            r@ == self@,
    {
        let n = self.entries.len();
        let mut entries: Vec<(String, Arc<T>)> = Vec::new();
        let mut i: usize = 0;
        while i < n
            invariant
                n == self.entries@.len(),
                i <= n,
                entries@.len() == i,
                forall|j: int|
                    0 <= j < i ==> #[trigger] entries@[j].0@ == self.entries@[j].0@ && entries@[j].1
                        == self.entries@[j].1,
            decreases n - i,
        {
            let k = self.entries[i].0.clone();
            let v = share(&self.entries[i].1);
            entries.push((k, v));
            i = i + 1;
        }
        let r = StrMap { entries };
        assert(r.pairs() =~= self.pairs());
        r
    }
}

} // verus!
