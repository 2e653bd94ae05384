//! `StrMap`: a map keyed by strings whose entries are kept in increasing key order (the order a
//! `BTreeMap<String, V>` iterates in). Lookups, insertion and removal are verified against a
//! mathematical map view; the key order is the type's invariant.

use vstd::prelude::*;
use crate::text::{compare_text, lemma_text_lt_asymmetric, lemma_text_lt_irreflexive, lemma_text_lt_transitive, text_lt, TextOrder};

verus! {

/// Whether a sequence of keys is strictly increasing in text order.
pub open spec fn keys_increasing(keys: Seq<Seq<char>>) -> bool {
    forall|i: int, j: int| 0 <= i < j < keys.len() ==> text_lt(keys[i], keys[j])
}

/// The keys of a map in increasing text order.
pub open spec fn sorted_keys<V>(m: Map<Seq<char>, V>) -> Seq<Seq<char>> {
    choose|ks: Seq<Seq<char>>| keys_increasing(ks) && (forall|k: Seq<char>| ks.contains(k) <==> m.dom().contains(k))
}

/// The empty map has no keys.
pub proof fn lemma_sorted_empty<V>()
    ensures
        sorted_keys(Map::<Seq<char>, V>::empty()) == Seq::<Seq<char>>::empty(),
{
    let e = Seq::<Seq<char>>::empty();
    assert(keys_increasing(e) && (forall|k: Seq<char>| e.contains(k) <==> Map::<Seq<char>, V>::empty().dom().contains(k)));
    let ks = sorted_keys(Map::<Seq<char>, V>::empty());
    if ks.len() > 0 {
        assert(ks.contains(ks[0]));
    }
    assert(ks =~= e);
}

/// Two strictly increasing key sequences with the same keys are the same sequence.
pub proof fn lemma_sorted_unique(a: Seq<Seq<char>>, b: Seq<Seq<char>>)
    requires
        keys_increasing(a),
        keys_increasing(b),
        forall|k: Seq<char>| a.contains(k) <==> b.contains(k),
    ensures
        a == b,
    decreases a.len(),
{
    if a.len() == 0 {
        if b.len() > 0 {
            assert(b.contains(b[0]));
        }
        assert(a =~= b);
    } else if b.len() == 0 {
        assert(a.contains(a[0]));
    } else {
        let x = a.last();
        let y = b.last();
        assert(a.contains(x));
        assert(b.contains(y));
        let j = choose|j: int| 0 <= j < b.len() && b[j] == x;
        let i = choose|i: int| 0 <= i < a.len() && a[i] == y;
        if j < b.len() - 1 {
            assert(text_lt(x, y));
            if i < a.len() - 1 {
                assert(text_lt(y, x));
                lemma_text_lt_asymmetric(x, y);
            } else {
                lemma_text_lt_irreflexive(x);
            }
        }
        assert(x == y);
        let a2 = a.drop_last();
        let b2 = b.drop_last();
        assert forall|k: Seq<char>| a2.contains(k) implies b2.contains(k) by {
            let p = choose|p: int| 0 <= p < a2.len() && a2[p] == k;
            assert(a.contains(k));
            assert(text_lt(k, x));
            lemma_text_lt_irreflexive(k);
            let q = choose|q: int| 0 <= q < b.len() && b[q] == k;
            assert(q != b.len() - 1);
            assert(b2[q] == k);
        }
        assert forall|k: Seq<char>| b2.contains(k) implies a2.contains(k) by {
            let p = choose|p: int| 0 <= p < b2.len() && b2[p] == k;
            assert(b.contains(k));
            assert(text_lt(k, y));
            lemma_text_lt_irreflexive(k);
            let q = choose|q: int| 0 <= q < a.len() && a[q] == k;
            assert(q != a.len() - 1);
            assert(a2[q] == k);
        }
        lemma_sorted_unique(a2, b2);
        assert(a =~= a2.push(x));
        assert(b =~= b2.push(y));
    }
}

/// A string-keyed map with its entries in increasing key order.
#[derive(Debug, PartialEq, Eq)]
pub struct StrMap<V> {
    entries: Vec<(String, V)>,
}

impl<V> StrMap<V> {
    /// The keys, in iteration (increasing) order.
    pub closed spec fn keys(self) -> Seq<Seq<char>> {
        self.entries@.map_values(|e: (String, V)| e.0@)
    }

    /// The values, in the order of their keys.
    pub closed spec fn values(self) -> Seq<V> {
        self.entries@.map_values(|e: (String, V)| e.1)
    }

    /// The map as a mathematical map from key text to value.
    pub open spec fn view(self) -> Map<Seq<char>, V> {
        Map::new(
            |k: Seq<char>| self.keys().contains(k),
            |k: Seq<char>| self.values()[self.keys().index_of(k)],
        )
    }

    /// The number of entries.
    pub open spec fn size(self) -> nat {
        self.keys().len()
    }

    #[verifier::type_invariant]
    closed spec fn inv(self) -> bool {
        keys_increasing(self.keys())
    }

    /// The facts every map satisfies: as many values as keys, keys strictly increasing.
    pub open spec fn shape(self) -> bool {
        &&& self.values().len() == self.keys().len()
        &&& keys_increasing(self.keys())
    }

    /// A map's keys are its view's keys in increasing order, and its values are the view's
    /// values at those keys.
    pub proof fn lemma_canonical(self)
        requires
            self.shape(),
        ensures
            self.keys() == sorted_keys(self@),
            forall|i: int| 0 <= i < self.size() ==> #[trigger] self.values()[i] == self@[self.keys()[i]],
    {
        let ks = self.keys();
        assert(keys_increasing(ks) && (forall|k: Seq<char>| ks.contains(k) <==> self@.dom().contains(k)));
        let s = sorted_keys(self@);
        lemma_sorted_unique(ks, s);
        assert forall|i: int| 0 <= i < self.size() implies #[trigger] self.values()[i] == self@[self.keys()[i]] by {
            lemma_unique_index(ks, i);
        }
    }

    /// Each value of a map is smaller than the map, for termination arguments.
    pub proof fn lemma_values_decrease(self, i: int)
        requires
            0 <= i < self.values().len(),
        ensures
            decreases_to!(self => self.values()[i]),
    {
        assert(decreases_to!(self => self.entries));
        assert(decreases_to!(self.entries => self.entries@));
        assert(decreases_to!(self.entries@ => self.entries@[i]));
        assert(decreases_to!(self.entries@[i] => self.entries@[i].1));
    }

    /// Every value of a map is smaller than the map, for termination arguments.
    pub proof fn lemma_all_values_decrease(self)
        ensures
            forall|i: int| 0 <= i < self.values().len() ==> decreases_to!(self => #[trigger] self.values()[i]),
    {
        assert forall|i: int| 0 <= i < self.values().len() implies decreases_to!(self => #[trigger] self.values()[i]) by {
            self.lemma_values_decrease(i);
        }
    }

    /// Every value of a map's view is smaller than the map, for termination arguments.
    pub proof fn lemma_view_values_decrease(self)
        ensures
            forall|k: Seq<char>| self@.contains_key(k) ==> decreases_to!(self => #[trigger] self@[k]),
    {
        assert forall|k: Seq<char>| self@.contains_key(k) implies decreases_to!(self => #[trigger] self@[k]) by {
            let i = self.keys().index_of(k);
            assert(self.keys().len() == self.values().len());
            self.lemma_values_decrease(i);
        }
    }

    /// The entries, in increasing key order.
    pub fn into_entries(self) -> (r: Vec<(String, V)>)
        ensures
            self.shape(),
            r@.len() == self.size(),
            forall|i: int| 0 <= i < r@.len() ==> (#[trigger] r@[i]).0@ == self.keys()[i] && r@[i].1 == self.values()[i],
    {
        proof {
            use_type_invariant(&self);
        }
        self.entries
    }

    /// An empty map.
    pub fn new() -> (m: Self)
        ensures
            m.keys() == Seq::<Seq<char>>::empty(),
            m.values() == Seq::<V>::empty(),
            m@ == Map::<Seq<char>, V>::empty(),
    {
        let m = StrMap { entries: Vec::new() };
        proof {
            assert(m.keys() =~= Seq::<Seq<char>>::empty());
            assert(m.values() =~= Seq::<V>::empty());
            assert(m@ =~= Map::<Seq<char>, V>::empty());
        }
        m
    }

    /// The number of entries.
    pub fn len(&self) -> (n: usize)
        ensures
            n == self.size(),
            self.shape(),
    {
        proof {
            use_type_invariant(self);
        }
        self.entries.len()
    }

    /// Whether the map is empty.
    pub fn is_empty(&self) -> (b: bool)
        ensures
            b == (self.size() == 0),
    {
        self.entries.len() == 0
    }

    /// The key at position `i` of the iteration order.
    pub fn key_at(&self, i: usize) -> (k: &String)
        requires
            i < self.size(),
        ensures
            k@ == self.keys()[i as int],
    {
        &self.entries[i].0
    }

    /// The value at position `i` of the iteration order.
    pub fn value_at(&self, i: usize) -> (v: &V)
        requires
            i < self.size(),
        ensures
            *v == self.values()[i as int],
    {
        &self.entries[i].1
    }

    /// Where `key` is, or where it would be inserted: the first position whose key is not below
    /// `key`.
    fn locate(&self, key: &str) -> (r: (usize, bool))
        ensures
            r.0 <= self.size(),
            forall|i: int| 0 <= i < r.0 ==> text_lt(#[trigger] self.keys()[i], key@),
            r.1 <==> (r.0 < self.size() && self.keys()[r.0 as int] == key@),
            !r.1 ==> (forall|i: int| r.0 <= i < self.size() ==> text_lt(key@, #[trigger] self.keys()[i])),
            r.1 <==> self.keys().contains(key@),
            r.1 ==> self.keys().index_of(key@) == r.0,
    {
        proof {
            use_type_invariant(self);
        }
        let n = self.entries.len();
        let mut i: usize = 0;
        while i < n
            invariant
                n == self.size(),
                keys_increasing(self.keys()),
                i <= n,
                forall|j: int| 0 <= j < i ==> text_lt(#[trigger] self.keys()[j], key@),
            decreases n - i,
        {
            let ord = compare_text(self.entries[i].0.as_str(), key);
            match ord {
                TextOrder::Less => {},
                TextOrder::Equal => {
                    proof {
                        assert(self.keys()[i as int] == key@);
                        lemma_unique_index(self.keys(), i as int);
                    }
                    return (i, true);
                },
                TextOrder::Greater => {
                    proof {
                        assert forall|j: int| i <= j < self.size() implies text_lt(key@, #[trigger] self.keys()[j]) by {
                            if j > i {
                                lemma_text_lt_transitive(key@, self.keys()[i as int], self.keys()[j]);
                            }
                        }
                        assert forall|j: int| 0 <= j < self.size() implies self.keys()[j] != key@ by {
                            lemma_text_lt_irreflexive(key@);
                        }
                    }
                    return (i, false);
                },
            }
            i += 1;
        }
        proof {
            assert forall|j: int| 0 <= j < self.size() implies self.keys()[j] != key@ by {
                lemma_text_lt_irreflexive(key@);
            }
        }
        (n, false)
    }

    /// Whether `key` is present.
    pub fn contains_key(&self, key: &str) -> (b: bool)
        ensures
            b == self@.contains_key(key@),
    {
        self.locate(key).1
    }

    /// The value at `key`, if present.
    pub fn get(&self, key: &str) -> (r: Option<&V>)
        ensures
            r is None <==> !self@.contains_key(key@),
            r matches Some(v) ==> *v == self@[key@],
    {
        let (i, found) = self.locate(key);
        if found {
            Some(&self.entries[i].1)
        } else {
            None
        }
    }

    /// Insert `value` at `key`, returning the value it replaces.
    pub fn insert(&mut self, key: String, value: V) -> (old_value: Option<V>)
        ensures
            final(self)@ == old(self)@.insert(key@, value),
            old_value is None <==> !old(self)@.contains_key(key@),
            old_value matches Some(v) ==> v == old(self)@[key@],
            final(self).shape(),
    {
        proof {
            use_type_invariant(&*self);
        }
        let ghost old_keys = self.keys();
        let ghost old_values = self.values();
        let ghost k0 = key@;
        let (i, found) = self.locate(key.as_str());
        let mut entries: Vec<(String, V)> = Vec::new();
        std::mem::swap(&mut entries, &mut self.entries);
        assert(entries@.map_values(|e: (String, V)| e.0@) == old_keys);
        assert(entries@.map_values(|e: (String, V)| e.1) == old_values);
        let result;
        if found {
            let (_, old_v) = entries.remove(i);
            entries.insert(i, (key, value));
            result = Some(old_v);
            proof {
                let nk = entries@.map_values(|e: (String, V)| e.0@);
                let nv = entries@.map_values(|e: (String, V)| e.1);
                assert(nk =~= old_keys);
                assert(nv =~= old_values.update(i as int, value));
            }
        } else {
            entries.insert(i, (key, value));
            result = None;
            proof {
                let nk = entries@.map_values(|e: (String, V)| e.0@);
                let nv = entries@.map_values(|e: (String, V)| e.1);
                assert(nk =~= old_keys.insert(i as int, k0));
                assert(nv =~= old_values.insert(i as int, value));
                assert forall|a: int, b: int| 0 <= a < b < nk.len() implies text_lt(nk[a], nk[b]) by {
                    if a < i && b > i {
                        lemma_text_lt_transitive(nk[a], k0, nk[b]);
                    }
                }
            }
        }
        self.entries = entries;
        proof {
            let nk = self.keys();
            let nv = self.values();
            assert(keys_increasing(nk));
            lemma_unique_index(nk, i as int);
            assert forall|k: Seq<char>| k != k0 && old_keys.contains(k) implies #[trigger] nk.contains(k)
                && nv[nk.index_of(k)] == old_values[old_keys.index_of(k)] by {
                let oj = old_keys.index_of(k);
                lemma_unique_index(old_keys, oj);
                let nj = if found || oj < i { oj } else { oj + 1 };
                assert(nk[nj] == k);
                lemma_unique_index(nk, nj);
            }
            assert forall|k: Seq<char>| #[trigger] nk.contains(k) && k != k0 implies old_keys.contains(k) by {
                let j = nk.index_of(k);
                let oj = if found || j < i { j } else { j - 1 };
                assert(old_keys[oj] == k);
            }
            assert(self@ =~= old(self)@.insert(k0, value));
            if found {
                lemma_unique_index(old_keys, i as int);
            }
        }
        result
    }

    /// Remove `key`, returning its value if it was present.
    pub fn remove(&mut self, key: &str) -> (old_value: Option<V>)
        ensures
            final(self)@ == old(self)@.remove(key@),
            old_value is None <==> !old(self)@.contains_key(key@),
            old_value matches Some(v) ==> v == old(self)@[key@],
            final(self).shape(),
    {
        proof {
            use_type_invariant(&*self);
        }
        let ghost old_keys = self.keys();
        let ghost old_values = self.values();
        let (i, found) = self.locate(key);
        if !found {
            proof {
                assert(self@ =~= old(self)@.remove(key@));
            }
            return None;
        }
        let mut entries: Vec<(String, V)> = Vec::new();
        std::mem::swap(&mut entries, &mut self.entries);
        assert(entries@.map_values(|e: (String, V)| e.0@) == old_keys);
        assert(entries@.map_values(|e: (String, V)| e.1) == old_values);
        let (_, v) = entries.remove(i);
        proof {
            let nk = entries@.map_values(|e: (String, V)| e.0@);
            let nv = entries@.map_values(|e: (String, V)| e.1);
            assert(nk =~= old_keys.remove(i as int));
            assert(nv =~= old_values.remove(i as int));
        }
        self.entries = entries;
        proof {
            let nk = self.keys();
            let nv = self.values();
            lemma_unique_index(old_keys, i as int);
            assert forall|k: Seq<char>| k != key@ && old_keys.contains(k) implies #[trigger] nk.contains(k)
                && nv[nk.index_of(k)] == old_values[old_keys.index_of(k)] by {
                let oj = old_keys.index_of(k);
                lemma_unique_index(old_keys, oj);
                let nj = if oj < i { oj } else { oj - 1 };
                assert(nk[nj] == k);
                lemma_unique_index(nk, nj);
            }
            assert forall|k: Seq<char>| #[trigger] nk.contains(k) implies k != key@ && old_keys.contains(k) by {
                let j = nk.index_of(k);
                let oj = if j < i { j } else { j + 1 };
                assert(old_keys[oj] == k);
                if k == key@ {
                    lemma_unique_index(old_keys, oj);
                }
            }
            assert(self@ =~= old(self)@.remove(key@));
        }
        Some(v)
    }
}

impl<V: Clone> Clone for StrMap<V> {
    fn clone(&self) -> (r: Self)
        ensures
            r.keys() == self.keys(),
            r.values().len() == self.values().len(),
            forall|i: int| 0 <= i < self.values().len() ==> cloned(self.values()[i], #[trigger] r.values()[i]),
    {
        proof {
            use_type_invariant(self);
        }
        let n = self.entries.len();
        let mut out: Vec<(String, V)> = Vec::new();
        let mut i: usize = 0;
        while i < n
            invariant
                n == self.size(),
                i <= n,
                out@.len() == i,
                forall|j: int| 0 <= j < i ==> (#[trigger] out@[j]).0@ == self.keys()[j],
                forall|j: int| 0 <= j < i ==> cloned(self.values()[j], (#[trigger] out@[j]).1),
            decreases n - i,
        {
            let k = self.entries[i].0.clone();
            let v = self.entries[i].1.clone();
            out.push((k, v));
            i += 1;
        }
        let r = StrMap { entries: out };
        proof {
            assert(r.keys() =~= self.keys());
        }
        r
    }
}

impl<V> Default for StrMap<V> {
    fn default() -> (m: Self)
        ensures
            m@ == Map::<Seq<char>, V>::empty(),
            m.keys() == Seq::<Seq<char>>::empty(),
    {
        StrMap::new()
    }
}

/// In a strictly increasing key sequence, each key's index is its position.
pub proof fn lemma_unique_index(keys: Seq<Seq<char>>, i: int)
    requires
        keys_increasing(keys),
        0 <= i < keys.len(),
    ensures
        keys.contains(keys[i]),
        keys.index_of(keys[i]) == i,
{
    assert(keys.contains(keys[i]));
    let x = keys.index_of(keys[i]);
    if x != i {
        lemma_text_lt_irreflexive(keys[i]);
    }
}

} // verus!
