//! A map from strings to values, kept as a vector of entries with distinct keys.
use vstd::prelude::*;

verus! {

/// A finite map keyed by strings.
#[derive(Debug)]
pub struct StrMap<V> {
    entries: Vec<(String, V)>,
}

/// The keys of `s` are pairwise distinct.
pub open spec fn keys_distinct<V>(s: Seq<(String, V)>) -> bool {
    forall|i: int, j: int| 0 <= i < s.len() && 0 <= j < s.len() && i != j ==> s[i].0@ != s[j].0@
}

/// Some entry of `s` has key `k`.
pub open spec fn has_key<V>(s: Seq<(String, V)>, k: Seq<char>) -> bool {
    exists|i: int| 0 <= i < s.len() && #[trigger] s[i].0@ == k
}

/// The map that the entries `s` describe.
pub open spec fn map_of<V>(s: Seq<(String, V)>) -> Map<Seq<char>, V> {
    Map::new(
        |k: Seq<char>| has_key(s, k),
        |k: Seq<char>| s[choose|i: int| 0 <= i < s.len() && #[trigger] s[i].0@ == k].1,
    )
}

impl<V> View for StrMap<V> {
    type V = Map<Seq<char>, V>;

    closed spec fn view(&self) -> Map<Seq<char>, V> {
        map_of(self.entries@)
    }
}

/// In a map with distinct keys, the value of the key of entry `i` is that entry's value.
pub proof fn lemma_map_of_at<V>(s: Seq<(String, V)>, i: int)
    requires
        keys_distinct(s),
        0 <= i < s.len(),
    ensures
        map_of(s).contains_key(s[i].0@),
        map_of(s)[s[i].0@] == s[i].1,
{
    let k = s[i].0@;
    assert(has_key(s, k));
    let j = choose|j: int| 0 <= j < s.len() && #[trigger] s[j].0@ == k;
    assert(j == i);
}

impl<V> StrMap<V> {
    #[verifier::type_invariant]
    spec fn inv(self) -> bool {
        keys_distinct(self.entries@)
    }

    /// The empty map.
    pub fn new() -> (r: Self)
        ensures
            r@ == Map::<Seq<char>, V>::empty(),
    {
        let r = StrMap { entries: Vec::new() };
        assert(r@ =~= Map::<Seq<char>, V>::empty());
        r
    }

    /// Number of keys.
    pub fn len(&self) -> (r: usize)
        ensures
            r == self@.len(),
    {
        proof {
            use_type_invariant(self);
            self.lemma_len();
        }
        self.entries.len()
    }

    proof fn lemma_len(&self)
        requires
            keys_distinct(self.entries@),
        ensures
            self@.len() == self.entries@.len(),
            self@.dom().finite(),
        decreases self.entries@.len(),
    {
        let s = self.entries@;
        let dom = self@.dom();
        // The domain is the image of the index range under the (injective) key map.
        let f = |i: int| s[i].0@;
        let idx = vstd::set_lib::set_int_range(0, s.len() as int);
        vstd::set_lib::lemma_int_range(0, s.len() as int);
        assert(idx.map(f) =~= dom) by {
            assert forall|k: Seq<char>| dom.contains(k) implies idx.map(f).contains(k) by {
                let i = choose|i: int| 0 <= i < s.len() && #[trigger] s[i].0@ == k;
                assert(idx.contains(i) && f(i) == k);
            }
            assert forall|k: Seq<char>| idx.map(f).contains(k) implies dom.contains(k) by {
                let i = choose|i: int| idx.contains(i) && f(i) == k;
                assert(s[i].0@ == k);
            }
        }
        assert(vstd::relations::injective_on(f, idx)) by {
            assert forall|a: int, b: int| idx.contains(a) && idx.contains(b) && #[trigger] f(a) == #[trigger] f(b) implies a == b by {
            }
        }
        vstd::set_lib::lemma_map_size(idx, dom, f);
    }

    /// Whether there are no keys.
    pub fn is_empty(&self) -> (r: bool)
        ensures
            r == (self@.len() == 0),
    {
        self.len() == 0
    }

    /// The index of the entry with key `key`, if any.
    fn index_of(&self, key: &str) -> (r: Option<usize>)
        ensures
            match r {
                Some(i) => i < self.entries@.len() && self.entries@[i as int].0@ == key@,
                None => !has_key(self.entries@, key@),
            },
    {
        let k = key.to_owned();
        let mut i: usize = 0;
        while i < self.entries.len()
            invariant
                i <= self.entries@.len(),
                k@ == key@,
                forall|j: int| 0 <= j < i ==> self.entries@[j].0@ != key@,
            decreases self.entries.len() - i,
        {
            if self.entries[i].0 == k {
                return Some(i);
            }
            i = i + 1;
        }
        None
    }

    /// Whether `key` has a value.
    pub fn contains_key(&self, key: &str) -> (r: bool)
        ensures
            r == self@.contains_key(key@),
    {
        self.index_of(key).is_some()
    }

    /// The value of `key`, if it has one.
    pub fn get(&self, key: &str) -> (r: Option<&V>)
        ensures
            match r {
                Some(v) => self@.contains_key(key@) && *v == self@[key@],
                None => !self@.contains_key(key@),
            },
    {
        proof {
            use_type_invariant(self);
        }
        match self.index_of(key) {
            Some(i) => {
                proof {
                    lemma_map_of_at(self.entries@, i as int);
                }
                Some(&self.entries[i].1)
            },
            None => None,
        }
    }

    /// Gives `key` the value `value`, replacing any former value.
    pub fn insert(&mut self, key: String, value: V)
        ensures
            final(self)@ == old(self)@.insert(key@, value),
    {
        proof {
            use_type_invariant(&*self);
        }
        let ghost old_s = self.entries@;
        let ghost k = key@;
        match self.index_of(key.as_str()) {
            Some(i) => {
                let mut entries: Vec<(String, V)> = Vec::new();
                std::mem::swap(&mut entries, &mut self.entries);
                entries.set(i, (key, value));
                proof {
                    let s = entries@;
                    assert(s == old_s.update(i as int, (s[i as int].0, value)));
                    assert(keys_distinct(s));
                    assert forall|kk: Seq<char>| #[trigger] map_of(s).contains_key(kk)
                        == map_of(old_s).insert(k, value).contains_key(kk) by {
                        if kk != k {
                            if has_key(s, kk) {
                                let j = choose|j: int| 0 <= j < s.len() && #[trigger] s[j].0@ == kk;
                                assert(old_s[j].0@ == kk);
                            }
                            if has_key(old_s, kk) {
                                let j = choose|j: int| 0 <= j < old_s.len() && #[trigger] old_s[j].0@ == kk;
                                assert(s[j].0@ == kk);
                            }
                        } else {
                            assert(s[i as int].0@ == kk);
                        }
                    }
                    assert forall|kk: Seq<char>| #[trigger] map_of(s).contains_key(kk) implies map_of(s)[kk]
                        == map_of(old_s).insert(k, value)[kk] by {
                        let j = choose|j: int| 0 <= j < s.len() && #[trigger] s[j].0@ == kk;
                        lemma_map_of_at(s, j);
                        if kk != k {
                            lemma_map_of_at(old_s, j);
                        }
                    }
                    assert(map_of(s) =~= map_of(old_s).insert(k, value));
                }
                self.entries = entries;
            },
            None => {
                let mut entries: Vec<(String, V)> = Vec::new();
                std::mem::swap(&mut entries, &mut self.entries);
                entries.push((key, value));
                proof {
                    let s = entries@;
                    assert(s == old_s.push(s.last()));
                    assert(keys_distinct(s)) by {
                        assert forall|a: int, b: int|
                            0 <= a < s.len() && 0 <= b < s.len() && a != b implies s[a].0@
                            != s[b].0@ by {
                            if a == s.len() - 1 {
                                assert(old_s[b].0@ != k);
                            } else if b == s.len() - 1 {
                                assert(old_s[a].0@ != k);
                            }
                        }
                    }
                    assert forall|kk: Seq<char>| #[trigger] map_of(s).contains_key(kk)
                        == map_of(old_s).insert(k, value).contains_key(kk) by {
                        if has_key(s, kk) {
                            let j = choose|j: int| 0 <= j < s.len() && #[trigger] s[j].0@ == kk;
                            if j < old_s.len() {
                                assert(old_s[j].0@ == kk);
                            }
                        }
                        if has_key(old_s, kk) {
                            let j = choose|j: int| 0 <= j < old_s.len() && #[trigger] old_s[j].0@ == kk;
                            assert(s[j].0@ == kk);
                        }
                        if kk == k {
                            assert(s[s.len() - 1].0@ == kk);
                        }
                    }
                    assert forall|kk: Seq<char>| #[trigger] map_of(s).contains_key(kk) implies map_of(s)[kk]
                        == map_of(old_s).insert(k, value)[kk] by {
                        let j = choose|j: int| 0 <= j < s.len() && #[trigger] s[j].0@ == kk;
                        lemma_map_of_at(s, j);
                        if j < old_s.len() {
                            assert(old_s[j] == s[j]);
                            lemma_map_of_at(old_s, j);
                        }
                    }
                    assert(map_of(s) =~= map_of(old_s).insert(k, value));
                }
                self.entries = entries;
            },
        }
    }

    /// Removes `key` and hands back its former value, if it had one.
    pub fn remove(&mut self, key: &str) -> (r: Option<V>)
        ensures
            final(self)@ == old(self)@.remove(key@),
            match r {
                Some(v) => old(self)@.contains_key(key@) && v == old(self)@[key@],
                None => !old(self)@.contains_key(key@),
            },
    {
        proof {
            use_type_invariant(&*self);
        }
        let ghost old_s = self.entries@;
        let ghost k = key@;
        match self.index_of(key) {
            Some(i) => {
                proof {
                    lemma_map_of_at(old_s, i as int);
                }
                let mut entries: Vec<(String, V)> = Vec::new();
                std::mem::swap(&mut entries, &mut self.entries);
                let (_, v) = entries.remove(i);
                proof {
                    let s = entries@;
                    assert(s == old_s.remove(i as int));
                    assert(keys_distinct(s)) by {
                        assert forall|a: int, b: int|
                            0 <= a < s.len() && 0 <= b < s.len() && a != b implies s[a].0@
                            != s[b].0@ by {
                            let a2 = if a < i { a } else { a + 1 };
                            let b2 = if b < i { b } else { b + 1 };
                            assert(s[a] == old_s[a2]);
                            assert(s[b] == old_s[b2]);
                        }
                    }
                    assert forall|kk: Seq<char>| #[trigger] map_of(s).contains_key(kk)
                        == map_of(old_s).remove(k).contains_key(kk) by {
                        if has_key(s, kk) {
                            let j = choose|j: int| 0 <= j < s.len() && #[trigger] s[j].0@ == kk;
                            let j2 = if j < i { j } else { j + 1 };
                            assert(old_s[j2].0@ == kk);
                            assert(j2 != i);
                        }
                        if has_key(old_s, kk) && kk != k {
                            let j = choose|j: int| 0 <= j < old_s.len() && #[trigger] old_s[j].0@ == kk;
                            assert(j != i);
                            let j2 = if j < i { j } else { j - 1 };
                            assert(s[j2].0@ == kk);
                        }
                    }
                    assert forall|kk: Seq<char>| #[trigger] map_of(s).contains_key(kk) implies map_of(s)[kk]
                        == map_of(old_s).remove(k)[kk] by {
                        let j = choose|j: int| 0 <= j < s.len() && #[trigger] s[j].0@ == kk;
                        lemma_map_of_at(s, j);
                        let j2 = if j < i { j } else { j + 1 };
                        assert(s[j] == old_s[j2]);
                        lemma_map_of_at(old_s, j2);
                    }
                    assert(map_of(s) =~= map_of(old_s).remove(k));
                }
                self.entries = entries;
                Some(v)
            },
            None => {
                proof {
                    assert(map_of(old_s).remove(k) =~= map_of(old_s));
                }
                None
            },
        }
    }

    /// The entries, in the order in which their keys were first inserted.
    pub fn into_pairs(self) -> (r: Vec<(String, V)>)
        ensures
            keys_distinct(r@),
            map_of(r@) == self@,
    {
        proof {
            use_type_invariant(&self);
        }
        self.entries
    }

    /// The keys, in the order in which they were first inserted.
    pub fn keys(&self) -> (r: Vec<String>)
        ensures
            r@.len() == self@.len(),
            forall|i: int| 0 <= i < r@.len() ==> self@.contains_key(#[trigger] r@[i]@),
            forall|k: Seq<char>| self@.contains_key(k) ==> exists|i: int| 0 <= i < r@.len() && #[trigger] r@[i]@ == k,
    {
        proof {
            use_type_invariant(self);
            self.lemma_len();
        }
        let mut r: Vec<String> = Vec::new();
        let mut i: usize = 0;
        while i < self.entries.len()
            invariant
                i <= self.entries@.len(),
                r@.len() == i,
                forall|j: int| 0 <= j < i ==> #[trigger] r@[j]@ == self.entries@[j].0@,
            decreases self.entries.len() - i,
        {
            r.push(self.entries[i].0.clone());
            i = i + 1;
        }
        proof {
            assert forall|j: int| 0 <= j < r@.len() implies self@.contains_key(#[trigger] r@[j]@) by {
                assert(self.entries@[j].0@ == r@[j]@);
            }
            assert forall|k: Seq<char>| self@.contains_key(k) implies exists|j: int| 0 <= j < r@.len() && #[trigger] r@[j]@ == k by {
                let j = choose|j: int| 0 <= j < self.entries@.len() && #[trigger] self.entries@[j].0@ == k;
                assert(r@[j]@ == k);
            }
        }
        r
    }
}

impl<V: Clone> Clone for StrMap<V> {
    /// A map with the same keys, each value cloned.
    fn clone(&self) -> (r: Self)
        ensures
            r@.dom() == self@.dom(),
            forall|k: Seq<char>| #[trigger] self@.contains_key(k) ==> cloned::<V>(self@[k], r@[k]),
    {
        proof {
            use_type_invariant(self);
        }
        let mut entries: Vec<(String, V)> = Vec::new();
        let mut i: usize = 0;
        while i < self.entries.len()
            invariant
                i <= self.entries@.len(),
                keys_distinct(self.entries@),
                entries@.len() == i,
                forall|j: int| 0 <= j < i ==> #[trigger] entries@[j].0@ == self.entries@[j].0@,
                forall|j: int| 0 <= j < i ==> cloned::<V>(self.entries@[j].1, #[trigger] entries@[j].1),
            decreases self.entries.len() - i,
        {
            let k = self.entries[i].0.clone();
            let v = self.entries[i].1.clone();
            entries.push((k, v));
            i = i + 1;
        }
        proof {
            let s = self.entries@;
            let t = entries@;
            assert(keys_distinct(t)) by {
                assert forall|a: int, b: int| 0 <= a < t.len() && 0 <= b < t.len() && a != b implies t[a].0@ != t[b].0@ by {
                    assert(t[a].0@ == s[a].0@);
                    assert(t[b].0@ == s[b].0@);
                }
            }
            assert(map_of(t).dom() =~= map_of(s).dom()) by {
                assert forall|k: Seq<char>| map_of(t).dom().contains(k) == map_of(s).dom().contains(k) by {
                    if has_key(t, k) {
                        let j = choose|j: int| 0 <= j < t.len() && #[trigger] t[j].0@ == k;
                        assert(s[j].0@ == k);
                    }
                    if has_key(s, k) {
                        let j = choose|j: int| 0 <= j < s.len() && #[trigger] s[j].0@ == k;
                        assert(t[j].0@ == k);
                    }
                }
            }
            assert forall|k: Seq<char>| #[trigger] map_of(s).contains_key(k) implies cloned::<V>(map_of(s)[k], map_of(t)[k]) by {
                let j = choose|j: int| 0 <= j < s.len() && #[trigger] s[j].0@ == k;
                lemma_map_of_at(s, j);
                assert(t[j].0@ == k);
                lemma_map_of_at(t, j);
            }
        }
        StrMap { entries }
    }
}

} // verus!
