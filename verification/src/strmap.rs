//! A map keyed by strings, kept as a list of entries in which no key occurs twice.
//!
//! The standard hash map is specified for keys with a known key model, which
//! strings do not have; over this list everything is proved from the entries.

use vstd::prelude::*;
use crate::text::str_eq;

verus! {

/// The map that a list of entries stands for: later entries win.
pub open spec fn entries_map<V: View>(s: Seq<(String, V)>) -> Map<Seq<char>, V::V>
    decreases s.len(),
{
    if s.len() == 0 {
        Map::empty()
    } else {
        entries_map(s.drop_last()).insert(s.last().0@, s.last().1@)
    }
}

/// No two entries share a key.
pub open spec fn distinct_keys<V>(s: Seq<(String, V)>) -> bool {
    forall|i: int, j: int| 0 <= i < j < s.len() ==> s[i].0@ != s[j].0@
}

/// Some entry has the key `k`.
pub open spec fn has_key<V>(s: Seq<(String, V)>, k: Seq<char>) -> bool {
    exists|i: int| 0 <= i < s.len() && s[i].0@ == k
}

/// The keys of the map are the keys of the entries.
pub proof fn lemma_entries_dom<V: View>(s: Seq<(String, V)>, k: Seq<char>)
    ensures
        entries_map(s).contains_key(k) <==> has_key(s, k),
    decreases s.len(),
{
    if s.len() > 0 {
        let init = s.drop_last();
        lemma_entries_dom(init, k);
        if has_key(init, k) {
            let i = choose|i: int| 0 <= i < init.len() && init[i].0@ == k;
            assert(s[i].0@ == k);
        }
        if has_key(s, k) {
            let i = choose|i: int| 0 <= i < s.len() && s[i].0@ == k;
            if i < s.len() - 1 {
                assert(init[i].0@ == k);
            }
        }
    }
}

/// With distinct keys, each entry's value is the one that the map holds.
pub proof fn lemma_entries_value<V: View>(s: Seq<(String, V)>, i: int)
    requires
        distinct_keys(s),
        0 <= i < s.len(),
    ensures
        entries_map(s).contains_key(s[i].0@),
        entries_map(s)[s[i].0@] == s[i].1@,
    decreases s.len(),
{
    if i < s.len() - 1 {
        lemma_entries_value(s.drop_last(), i);
    }
}

/// With distinct keys, dropping an entry removes its key from the map.
pub proof fn lemma_entries_remove<V: View>(s: Seq<(String, V)>, i: int)
    requires
        distinct_keys(s),
        0 <= i < s.len(),
    ensures
        distinct_keys(s.remove(i)),
        !has_key(s.remove(i), s[i].0@),
        entries_map(s.remove(i)) == entries_map(s).remove(s[i].0@),
    decreases s.len(),
{
    let init = s.drop_last();
    if i == s.len() - 1 {
        lemma_entries_dom(init, s[i].0@);
    } else {
        lemma_entries_remove(init, i);
        assert(s.remove(i).drop_last() =~= init.remove(i));
    }
}

/// Entries with distinct keys, each of which is an entry of `other`, stand
/// for a map within `other`.
pub proof fn lemma_entries_within<V: View>(s: Seq<(String, V)>, other: Map<Seq<char>, V::V>)
    requires
        distinct_keys(s),
        forall|j: int|
            0 <= j < s.len() ==> other.contains_key(#[trigger] s[j].0@) && other[s[j].0@]
                == s[j].1@,
    ensures
        entries_map(s).submap_of(other),
{
    let map = entries_map(s);
    assert forall|k: Seq<char>| #[trigger] map.dom().contains(k) implies other.dom().contains(k)
        && map[k] == other[k] by {
        lemma_entries_dom(s, k);
        let j = choose|j: int| 0 <= j < s.len() && s[j].0@ == k;
        lemma_entries_value(s, j);
    }
}

/// Two maps that are within each other are the same map.
pub proof fn lemma_submaps_are_equal<K, V>(a: Map<K, V>, b: Map<K, V>)
    requires
        a.submap_of(b),
        b.submap_of(a),
    ensures
        a == b,
{
    assert forall|k: K| a.dom().contains(k) == b.dom().contains(k) by {}
    assert(a =~= b);
}

/// A map from strings to values of type `V`.
pub struct StrMap<V> {
    entries: Vec<(String, V)>,
}

impl<V: View> View for StrMap<V> {
    type V = Map<Seq<char>, V::V>;

    closed spec fn view(&self) -> Map<Seq<char>, V::V> {
        entries_map(self.entries@)
    }
}

impl<V> StrMap<V> {
    #[verifier::type_invariant]
    spec fn well_formed(self) -> bool {
        distinct_keys(self.entries@)
    }
}

impl<V: View> StrMap<V> {
    /// The entries in the order in which the map keeps them.
    pub closed spec fn entries(&self) -> Seq<(String, V)> {
        self.entries@
    }

    /// The number of entries. Their keys are distinct, and the map is the one
    /// that they stand for.
    pub fn len(&self) -> (r: usize)
        ensures
            r == self.entries().len(),
            distinct_keys(self.entries()),
            self@ == entries_map(self.entries()),
    {
        proof {
            use_type_invariant(self);
        }
        self.entries.len()
    }

    /// The key of the entry at `i`.
    pub fn key_at(&self, i: usize) -> (r: &String)
        requires
            i < self.entries().len(),
        ensures
            *r == self.entries()[i as int].0,
    {
        &self.entries[i].0
    }

    /// The value of the entry at `i`.
    pub fn value_at(&self, i: usize) -> (r: &V)
        requires
            i < self.entries().len(),
        ensures
            *r == self.entries()[i as int].1,
    {
        &self.entries[i].1
    }

    /// The empty map.
    pub fn new() -> (r: Self)
        ensures
            r@ == Map::<Seq<char>, V::V>::empty(),
    {
        StrMap { entries: Vec::new() }
    }

    /// The index of the entry with the given key.
    fn position(&self, key: &str) -> (r: Option<usize>)
        ensures
            match r {
                Some(i) => i < self.entries@.len() && self.entries@[i as int].0@ == key@,
                None => !has_key(self.entries@, key@),
            },
    {
        let mut i: usize = 0;
        while i < self.entries.len()
            invariant
                i <= self.entries@.len(),
                forall|j: int| 0 <= j < i ==> self.entries@[j].0@ != key@,
            decreases self.entries@.len() - i,
        {
            if str_eq(self.entries[i].0.as_str(), key) {
                return Some(i);
            }
            i += 1;
        }
        None
    }

    /// Whether the map has the key.
    pub fn contains_key(&self, key: &str) -> (r: bool)
        ensures
            r == self@.contains_key(key@),
    {
        proof {
            lemma_entries_dom(self.entries@, key@);
        }
        self.position(key).is_some()
    }

    /// The value under the key, if there is one.
    pub fn get(&self, key: &str) -> (r: Option<&V>)
        ensures
            match r {
                Some(v) => self@.contains_key(key@) && self@[key@] == v@,
                None => !self@.contains_key(key@),
            },
    {
        proof {
            use_type_invariant(self);
            lemma_entries_dom(self.entries@, key@);
        }
        match self.position(key) {
            Some(i) => {
                proof {
                    lemma_entries_value(self.entries@, i as int);
                }
                Some(&self.entries[i].1)
            },
            None => None,
        }
    }

    /// Sets the value under the key and returns the value that was there before.
    pub fn insert(&mut self, key: String, value: V) -> (r: Option<V>)
        ensures
            final(self)@ == old(self)@.insert(key@, value@),
            match r {
                Some(p) => old(self)@.contains_key(key@) && old(self)@[key@] == p@,
                None => !old(self)@.contains_key(key@),
            },
    {
        proof {
            use_type_invariant(&*self);
            lemma_entries_dom(self.entries@, key@);
        }
        let found = self.position(key.as_str());
        let mut entries: Vec<(String, V)> = Vec::new();
        core::mem::swap(&mut self.entries, &mut entries);
        let previous = match found {
            Some(i) => {
                proof {
                    lemma_entries_value(entries@, i as int);
                    lemma_entries_remove(entries@, i as int);
                }
                let entry = entries.remove(i);
                Some(entry.1)
            },
            None => None,
        };
        proof {
            let grown = entries@.push((key, value));
            assert(grown.drop_last() =~= entries@);
            assert(distinct_keys(grown));
        }
        entries.push((key, value));
        self.entries = entries;
        previous
    }

    /// Removes the key and returns the value that was under it.
    pub fn remove(&mut self, key: &str) -> (r: Option<V>)
        ensures
            final(self)@ == old(self)@.remove(key@),
            match r {
                Some(p) => old(self)@.contains_key(key@) && old(self)@[key@] == p@,
                None => !old(self)@.contains_key(key@),
            },
    {
        proof {
            use_type_invariant(&*self);
            lemma_entries_dom(self.entries@, key@);
        }
        match self.position(key) {
            Some(i) => {
                let mut entries: Vec<(String, V)> = Vec::new();
                core::mem::swap(&mut self.entries, &mut entries);
                proof {
                    lemma_entries_value(entries@, i as int);
                    lemma_entries_remove(entries@, i as int);
                }
                let entry = entries.remove(i);
                self.entries = entries;
                Some(entry.1)
            },
            None => None,
        }
    }
}

impl StrMap<String> {
    /// Whether every entry of `self` is an entry of `other`.
    pub fn is_within(&self, other: &StrMap<String>) -> (r: bool)
        ensures
            r == self@.submap_of(other@),
    {
        let n = self.len();
        let mut i: usize = 0;
        while i < n
            invariant
                i <= n,
                n == self.entries().len(),
                distinct_keys(self.entries()),
                self@ == entries_map(self.entries()),
                forall|j: int|
                    0 <= j < i ==> other@.contains_key(#[trigger] self.entries()[j].0@)
                        && other@[self.entries()[j].0@] == self.entries()[j].1@,
            decreases n - i,
        {
            proof {
                lemma_entries_value(self.entries(), i as int);
            }
            let same = match other.get(self.key_at(i).as_str()) {
                Some(value) => *value == *self.value_at(i),
                None => false,
            };
            if !same {
                return false;
            }
            i += 1;
        }
        proof {
            lemma_entries_within(self.entries(), other@);
        }
        true
    }

    /// Whether the two maps hold the same entries.
    pub fn equals(&self, other: &StrMap<String>) -> (r: bool)
        ensures
            r == (self@ == other@),
    {
        let r = self.is_within(other) && other.is_within(self);
        proof {
            if r {
                lemma_submaps_are_equal(self@, other@);
            }
        }
        r
    }

    /// The entries as pairs of strings.
    pub fn to_pairs(&self) -> (r: Vec<(String, String)>)
        ensures
            entries_map(r@) == self@,
            distinct_keys(r@),
    {
        let n = self.len();
        let mut out: Vec<(String, String)> = Vec::new();
        let mut i: usize = 0;
        while i < n
            invariant
                i <= n,
                n == self.entries().len(),
                out@ == self.entries().take(i as int),
            decreases n - i,
        {
            out.push((self.key_at(i).clone(), self.value_at(i).clone()));
            i += 1;
        }
        assert(out@ =~= self.entries());
        out
    }

    /// The map that the pairs stand for: of two pairs with one key the later wins.
    pub fn from_pairs(pairs: Vec<(String, String)>) -> (r: StrMap<String>)
        ensures
            r@ == entries_map(pairs@),
    {
        let mut map: StrMap<String> = StrMap::new();
        let ghost all = pairs@;
        for pair in it: pairs
            invariant
                it.seq() == all,
                map@ == entries_map(all.take(it.index() as int)),
        {
            assert(all.take(it.index() + 1).drop_last() =~= all.take(it.index() as int));
            map.insert(pair.0, pair.1);
        }
        assert(all.take(all.len() as int) =~= all);
        map
    }
}

} // verus!
