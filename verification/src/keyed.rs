//! A small map keyed by text, kept as a list of unique keys.

use vstd::prelude::*;

use crate::text::str_eq;

verus! {

/// No key occurs twice.
pub open spec fn keys_unique<V>(s: Seq<(String, V)>) -> bool {
    forall|i: int, j: int|
        0 <= i < s.len() && 0 <= j < s.len() && #[trigger] s[i].0@ == #[trigger] s[j].0@ ==> i == j
}

/// Some entry has key `k`.
pub open spec fn has_key<V>(s: Seq<(String, V)>, k: Seq<char>) -> bool {
    exists|i: int| 0 <= i < s.len() && s[i].0@ == k
}

/// The position of the entry with key `k` (meaningful when `has_key`).
pub open spec fn key_index<V>(s: Seq<(String, V)>, k: Seq<char>) -> int {
    choose|i: int| 0 <= i < s.len() && s[i].0@ == k
}

/// The map that a list of entries stands for.
pub open spec fn entries_map<V>(s: Seq<(String, V)>) -> Map<Seq<char>, V> {
    Map::new(|k: Seq<char>| has_key(s, k), |k: Seq<char>| s[key_index(s, k)].1)
}

proof fn lemma_key_index<V>(s: Seq<(String, V)>, i: int)
    requires
        keys_unique(s),
        0 <= i < s.len(),
    ensures
        has_key(s, s[i].0@),
        key_index(s, s[i].0@) == i,
{
    let k = key_index(s, s[i].0@);
    assert(0 <= k < s.len() && s[k].0@ == s[i].0@);
}

/// A map from text keys to values, in insertion order.
pub struct StringMap<V> {
    entries: Vec<(String, V)>,
}

impl<V> View for StringMap<V> {
    type V = Map<Seq<char>, V>;

    closed spec fn view(&self) -> Map<Seq<char>, V> {
        entries_map(self.entries@)
    }
}

impl<V> StringMap<V> {
    #[verifier::type_invariant]
    spec fn inv(self) -> bool {
        keys_unique(self.entries@)
    }

    /// An empty map.
    pub fn new() -> (m: Self)
        ensures
            m@ == Map::<Seq<char>, V>::empty(),
    {
        let m = StringMap { entries: Vec::new() };
        assert(m@ =~= Map::<Seq<char>, V>::empty());
        m
    }

    fn find(&self, key: &str) -> (r: Option<usize>)
        ensures
            match r {
                Some(i) => i < self.entries@.len() && self.entries@[i as int].0@ == key@
                    && i == key_index(self.entries@, key@) && has_key(self.entries@, key@),
                None => !has_key(self.entries@, key@),
            },
    {
        proof {
            use_type_invariant(self);
        }
        let mut i: usize = 0;
        while i < self.entries.len()
            invariant
                i <= self.entries@.len(),
                keys_unique(self.entries@),
                forall|k: int| 0 <= k < i ==> self.entries@[k].0@ != key@,
            decreases self.entries.len() - i,
        {
            if str_eq(self.entries[i].0.as_str(), key) {
                proof {
                    lemma_key_index(self.entries@, i as int);
                }
                return Some(i);
            }
            i = i + 1;
        }
        None
    }

    /// Whether `key` has a value.
    pub fn contains_key(&self, key: &str) -> (r: bool)
        ensures
            r == self@.contains_key(key@),
    {
        self.find(key).is_some()
    }

    /// The value stored under `key`.
    pub fn get(&self, key: &str) -> (r: Option<&V>)
        ensures
            match r {
                Some(v) => self@.contains_key(key@) && *v == self@[key@],
                None => !self@.contains_key(key@),
            },
    {
        match self.find(key) {
            Some(i) => Some(&self.entries[i].1),
            None => None,
        }
    }

    /// Store `value` under `key`, replacing any earlier value.
    pub fn insert(&mut self, key: &str, value: V)
        ensures
            final(self)@ == old(self)@.insert(key@, value),
    {
        proof {
            use_type_invariant(&*self);
        }
        let pos = self.find(key);
        let mut entries: Vec<(String, V)> = Vec::new();
        std::mem::swap(&mut entries, &mut self.entries);
        let ghost s0 = entries@;
        match pos {
            Some(i) => {
                entries.set(i, (key.to_owned(), value));
                proof {
                    let s1 = entries@;
                    assert forall|a: int, b: int|
                        0 <= a < s1.len() && 0 <= b < s1.len() && #[trigger] s1[a].0@ == #[trigger] s1[b].0@
                        implies a == b by {
                        assert(s0[a].0@ == s1[a].0@ && s0[b].0@ == s1[b].0@);
                    }
                    assert forall|k: Seq<char>| has_key(s1, k) == (has_key(s0, k) || k == key@) by {
                        if has_key(s0, k) {
                            let a = key_index(s0, k);
                            assert(s1[a].0@ == k);
                        }
                        if has_key(s1, k) {
                            let a = key_index(s1, k);
                            if a != i {
                                assert(s0[a].0@ == k);
                            }
                        }
                    }
                    assert forall|k: Seq<char>| #[trigger] has_key(s1, k) implies s1[key_index(s1, k)].1
                        == (if k == key@ { value } else { s0[key_index(s0, k)].1 }) by {
                        let a = key_index(s1, k);
                        lemma_key_index(s1, a);
                        if k != key@ {
                            assert(s0[a].0@ == k);
                            lemma_key_index(s0, a);
                        } else {
                            lemma_key_index(s1, i as int);
                        }
                    }
                    assert(entries_map(s1) =~= entries_map(s0).insert(key@, value));
                }
            },
            None => {
                entries.push((key.to_owned(), value));
                proof {
                    let s1 = entries@;
                    assert forall|a: int, b: int|
                        0 <= a < s1.len() && 0 <= b < s1.len() && #[trigger] s1[a].0@ == #[trigger] s1[b].0@
                        implies a == b by {
                        if a < s0.len() && b < s0.len() {
                            assert(s0[a].0@ == s0[b].0@);
                        } else if a < s0.len() {
                            assert(s0[a].0@ == key@);
                        } else if b < s0.len() {
                            assert(s0[b].0@ == key@);
                        }
                    }
                    assert forall|k: Seq<char>| has_key(s1, k) == (has_key(s0, k) || k == key@) by {
                        if has_key(s0, k) {
                            let a = key_index(s0, k);
                            assert(s1[a].0@ == k);
                        }
                        if k == key@ {
                            assert(s1[s0.len() as int].0@ == k);
                        }
                        if has_key(s1, k) {
                            let a = key_index(s1, k);
                            if a < s0.len() {
                                assert(s0[a].0@ == k);
                            }
                        }
                    }
                    assert forall|k: Seq<char>| #[trigger] has_key(s1, k) implies s1[key_index(s1, k)].1
                        == (if k == key@ { value } else { s0[key_index(s0, k)].1 }) by {
                        let a = key_index(s1, k);
                        lemma_key_index(s1, a);
                        if k != key@ {
                            assert(a < s0.len());
                            assert(s0[a].0@ == k);
                            lemma_key_index(s0, a);
                        } else {
                            lemma_key_index(s1, s0.len() as int);
                        }
                    }
                    assert(entries_map(s1) =~= entries_map(s0).insert(key@, value));
                }
            },
        }
        self.entries = entries;
    }

    /// Take the value stored under `key` out of the map.
    pub fn remove(&mut self, key: &str) -> (r: Option<V>)
        ensures
            final(self)@ == old(self)@.remove(key@),
            match r {
                Some(v) => old(self)@.contains_key(key@) && v == old(self)@[key@],
                None => !old(self)@.contains_key(key@),
            },
    {
        proof {
            use_type_invariant(&*self);
        }
        match self.find(key) {
            None => {
                assert(old(self)@.remove(key@) =~= old(self)@);
                None
            },
            Some(i) => {
                let mut entries: Vec<(String, V)> = Vec::new();
                std::mem::swap(&mut entries, &mut self.entries);
                let ghost s0 = entries@;
                let (_, v) = entries.remove(i);
                proof {
                    let s1 = entries@;
                    assert(s1 =~= s0.remove(i as int));
                    assert forall|a: int| 0 <= a < s1.len() implies #[trigger] s1[a] == s0[if a < i {
                        a
                    } else {
                        a + 1
                    }] by {}
                    assert forall|a: int, b: int|
                        0 <= a < s1.len() && 0 <= b < s1.len() && #[trigger] s1[a].0@ == #[trigger] s1[b].0@
                        implies a == b by {
                        let a0 = if a < i { a } else { a + 1 };
                        let b0 = if b < i { b } else { b + 1 };
                        assert(s0[a0].0@ == s0[b0].0@);
                    }
                    assert forall|k: Seq<char>| has_key(s1, k) == (has_key(s0, k) && k != key@) by {
                        if has_key(s0, k) && k != key@ {
                            let a = key_index(s0, k);
                            assert(a != i);
                            let a1 = if a < i { a } else { a - 1 };
                            assert(s1[a1].0@ == k);
                        }
                        if has_key(s1, k) {
                            let a = key_index(s1, k);
                            let a0 = if a < i { a } else { a + 1 };
                            assert(s0[a0].0@ == k);
                            assert(a0 != i);
                        }
                    }
                    assert forall|k: Seq<char>| #[trigger] has_key(s1, k) implies s1[key_index(s1, k)].1
                        == s0[key_index(s0, k)].1 by {
                        let a = key_index(s1, k);
                        let a0 = if a < i { a } else { a + 1 };
                        assert(s0[a0].0@ == k);
                        lemma_key_index(s0, a0);
                    }
                    assert(entries_map(s1) =~= entries_map(s0).remove(key@));
                    lemma_key_index(s0, i as int);
                }
                self.entries = entries;
                Some(v)
            },
        }
    }
}

} // verus!
