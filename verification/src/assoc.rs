//! Association lists: a list of `(key, value)` entries whose keys are distinct
//! denotes a finite map from key views to values.

use vstd::prelude::*;

verus! {

/// No key occurs twice (compared by view).
pub open spec fn keys_distinct<K: View, V>(s: Seq<(K, V)>) -> bool {
    forall|i: int, j: int| 0 <= i < s.len() && 0 <= j < s.len() && i != j ==> s[i].0@ != s[j].0@
}

/// The map from key to value that a list of entries denotes.
pub open spec fn assoc_map<K: View, V>(s: Seq<(K, V)>) -> Map<K::V, V> {
    Map::new(
        |k: K::V| exists|i: int| 0 <= i < s.len() && s[i].0@ == k,
        |k: K::V| s[choose|i: int| 0 <= i < s.len() && s[i].0@ == k].1,
    )
}

/// The empty list denotes the empty map.
pub proof fn lemma_assoc_empty<K: View, V>(s: Seq<(K, V)>)
    requires
        s.len() == 0,
    ensures
        keys_distinct(s),
        assoc_map(s) == Map::<K::V, V>::empty(),
{
    assert(assoc_map(s) =~= Map::<K::V, V>::empty());
}

/// Every entry of a list with distinct keys is found under its key.
pub proof fn lemma_assoc_lookup<K: View, V>(s: Seq<(K, V)>, i: int)
    requires
        keys_distinct(s),
        0 <= i < s.len(),
    ensures
        assoc_map(s).contains_key(s[i].0@),
        assoc_map(s)[s[i].0@] == s[i].1,
{
    let k = s[i].0@;
    assert(exists|j: int| 0 <= j < s.len() && s[j].0@ == k);
    let j = choose|j: int| 0 <= j < s.len() && s[j].0@ == k;
    assert(j == i);
}

/// Appending an entry under a new key inserts it into the map.
pub proof fn lemma_assoc_push<K: View, V>(s: Seq<(K, V)>, key: K, v: V)
    requires
        keys_distinct(s),
        !assoc_map(s).contains_key(key@),
    ensures
        keys_distinct(s.push((key, v))),
        assoc_map(s.push((key, v))) == assoc_map(s).insert(key@, v),
{
    let t = s.push((key, v));
    assert forall|i: int, j: int| 0 <= i < t.len() && 0 <= j < t.len() && i != j implies t[i].0@
        != t[j].0@ by {
        if i < s.len() && j < s.len() {
            assert(t[i] == s[i] && t[j] == s[j]);
        } else if i < s.len() {
            assert(t[i] == s[i]);
            assert(!(0 <= i < s.len() && s[i].0@ == key@));
        } else {
            assert(t[j] == s[j]);
            assert(!(0 <= j < s.len() && s[j].0@ == key@));
        }
    }
    assert forall|k: K::V| #[trigger] assoc_map(t).contains_key(k) == assoc_map(s).insert(key@, v).contains_key(k) by {
        if assoc_map(s).contains_key(k) {
            let i = choose|i: int| 0 <= i < s.len() && s[i].0@ == k;
            assert(t[i] == s[i]);
        }
        if assoc_map(t).contains_key(k) && k != key@ {
            let i = choose|i: int| 0 <= i < t.len() && t[i].0@ == k;
            assert(i < s.len());
            assert(s[i] == t[i]);
        }
        if k == key@ {
            assert(t[s.len() as int].0@ == key@);
        }
    }
    assert forall|k: K::V| #[trigger] assoc_map(t).contains_key(k) implies assoc_map(t)[k]
        == assoc_map(s).insert(key@, v)[k] by {
        let i = choose|i: int| 0 <= i < t.len() && t[i].0@ == k;
        lemma_assoc_lookup(t, i);
        if i < s.len() {
            assert(s[i] == t[i]);
            lemma_assoc_lookup(s, i);
        }
    }
    assert(assoc_map(t) =~= assoc_map(s).insert(key@, v));
}

/// Replacing the value of the entry at `i` updates the map at its key.
pub proof fn lemma_assoc_update<K: View, V>(s: Seq<(K, V)>, i: int, key: K, v: V)
    requires
        keys_distinct(s),
        0 <= i < s.len(),
        key@ == s[i].0@,
    ensures
        keys_distinct(s.update(i, (key, v))),
        assoc_map(s.update(i, (key, v))) == assoc_map(s).insert(key@, v),
{
    let t = s.update(i, (key, v));
    assert forall|a: int, b: int| 0 <= a < t.len() && 0 <= b < t.len() && a != b implies t[a].0@
        != t[b].0@ by {
        assert(t[a].0@ == s[a].0@ && t[b].0@ == s[b].0@);
    }
    assert forall|k: K::V| #[trigger] assoc_map(t).contains_key(k) == assoc_map(s).insert(key@, v).contains_key(k) by {
        if assoc_map(s).contains_key(k) {
            let j = choose|j: int| 0 <= j < s.len() && s[j].0@ == k;
            assert(t[j].0@ == k);
        }
        if assoc_map(t).contains_key(k) {
            let j = choose|j: int| 0 <= j < t.len() && t[j].0@ == k;
            assert(s[j].0@ == k);
        }
        assert(t[i].0@ == s[i].0@);
    }
    assert forall|k: K::V| #[trigger] assoc_map(t).contains_key(k) implies assoc_map(t)[k]
        == assoc_map(s).insert(key@, v)[k] by {
        let j = choose|j: int| 0 <= j < t.len() && t[j].0@ == k;
        lemma_assoc_lookup(t, j);
        if j != i {
            assert(s[j] == t[j]);
            lemma_assoc_lookup(s, j);
        }
    }
    assert(assoc_map(t) =~= assoc_map(s).insert(key@, v));
}

/// Removing the entry at `i` removes its key from the map.
pub proof fn lemma_assoc_remove<K: View, V>(s: Seq<(K, V)>, i: int)
    requires
        keys_distinct(s),
        0 <= i < s.len(),
    ensures
        keys_distinct(s.remove(i)),
        assoc_map(s.remove(i)) == assoc_map(s).remove(s[i].0@),
{
    let t = s.remove(i);
    assert forall|a: int, b: int| 0 <= a < t.len() && 0 <= b < t.len() && a != b implies t[a].0@
        != t[b].0@ by {
        let a2 = if a < i { a } else { a + 1 };
        let b2 = if b < i { b } else { b + 1 };
        assert(t[a] == s[a2] && t[b] == s[b2]);
    }
    assert forall|k: K::V| #[trigger] assoc_map(t).contains_key(k) == assoc_map(s).remove(s[i].0@).contains_key(k) by {
        if assoc_map(s).contains_key(k) && k != s[i].0@ {
            let j = choose|j: int| 0 <= j < s.len() && s[j].0@ == k;
            let j2 = if j < i { j } else { j - 1 };
            assert(t[j2] == s[j]);
        }
        if assoc_map(t).contains_key(k) {
            let j = choose|j: int| 0 <= j < t.len() && t[j].0@ == k;
            let j2 = if j < i { j } else { j + 1 };
            assert(t[j] == s[j2]);
            assert(j2 != i);
        }
    }
    assert forall|k: K::V| #[trigger] assoc_map(t).contains_key(k) implies assoc_map(t)[k]
        == assoc_map(s).remove(s[i].0@)[k] by {
        let j = choose|j: int| 0 <= j < t.len() && t[j].0@ == k;
        lemma_assoc_lookup(t, j);
        let j2 = if j < i { j } else { j + 1 };
        assert(t[j] == s[j2]);
        lemma_assoc_lookup(s, j2);
    }
    assert(assoc_map(t) =~= assoc_map(s).remove(s[i].0@));
}

/// Inserting an entry under a new key at any position inserts it into the map.
pub proof fn lemma_assoc_insert<K: View, V>(s: Seq<(K, V)>, i: int, key: K, v: V)
    requires
        keys_distinct(s),
        0 <= i <= s.len(),
        !assoc_map(s).contains_key(key@),
    ensures
        keys_distinct(s.insert(i, (key, v))),
        assoc_map(s.insert(i, (key, v))) == assoc_map(s).insert(key@, v),
{
    let t = s.insert(i, (key, v));
    assert forall|a: int| 0 <= a < s.len() implies s[a].0@ != key@ by {
        if s[a].0@ == key@ {
            assert(assoc_map(s).contains_key(key@));
        }
    }
    assert forall|a: int, b: int| 0 <= a < t.len() && 0 <= b < t.len() && a != b implies t[a].0@
        != t[b].0@ by {
        if a != i && b != i {
            let a2 = if a < i { a } else { a - 1 };
            let b2 = if b < i { b } else { b - 1 };
            assert(t[a] == s[a2] && t[b] == s[b2]);
        } else if a == i {
            let b2 = if b < i { b } else { b - 1 };
            assert(t[b] == s[b2]);
        } else {
            let a2 = if a < i { a } else { a - 1 };
            assert(t[a] == s[a2]);
        }
    }
    assert forall|k: K::V| #[trigger] assoc_map(t).contains_key(k) == assoc_map(s).insert(key@, v).contains_key(k) by {
        if assoc_map(s).contains_key(k) {
            let j = choose|j: int| 0 <= j < s.len() && s[j].0@ == k;
            let j2 = if j < i { j } else { j + 1 };
            assert(t[j2] == s[j]);
        }
        if assoc_map(t).contains_key(k) && k != key@ {
            let j = choose|j: int| 0 <= j < t.len() && t[j].0@ == k;
            assert(j != i);
            let j2 = if j < i { j } else { j - 1 };
            assert(t[j] == s[j2]);
        }
        if k == key@ {
            assert(t[i].0@ == key@);
        }
    }
    assert forall|k: K::V| #[trigger] assoc_map(t).contains_key(k) implies assoc_map(t)[k]
        == assoc_map(s).insert(key@, v)[k] by {
        let j = choose|j: int| 0 <= j < t.len() && t[j].0@ == k;
        lemma_assoc_lookup(t, j);
        if j != i {
            let j2 = if j < i { j } else { j - 1 };
            assert(t[j] == s[j2]);
            lemma_assoc_lookup(s, j2);
        }
    }
    assert(assoc_map(t) =~= assoc_map(s).insert(key@, v));
}

/// A key is absent from the map exactly when no entry carries it.
pub proof fn lemma_assoc_absent<K: View, V>(s: Seq<(K, V)>, k: K::V)
    requires
        forall|i: int| 0 <= i < s.len() ==> s[i].0@ != k,
    ensures
        !assoc_map(s).contains_key(k),
{
}

/// `names` lists the keys of `m`, each once.
pub open spec fn names_of<V>(names: Seq<String>, m: Map<Seq<char>, V>) -> bool {
    &&& forall|k: Seq<char>| m.contains_key(k) <==> exists|i: int| 0 <= i < names.len() && #[trigger] names[i]@ == k
    &&& forall|i: int, j: int| 0 <= i < names.len() && 0 <= j < names.len() && i != j ==> names[i]@ != names[j]@
}

/// A map from names to values, kept as an association list.
#[derive(Debug)]
pub struct Registry<V> {
    entries: Vec<(String, V)>,
}

impl<V> Registry<V> {
    #[verifier::type_invariant]
    closed spec fn inv(self) -> bool {
        keys_distinct(self.entries@)
    }

    /// The values by name.
    pub closed spec fn map(&self) -> Map<Seq<char>, V> {
        assoc_map(self.entries@)
    }

    /// An empty registry.
    pub fn new() -> (r: Registry<V>)
        ensures
            r.map() == Map::<Seq<char>, V>::empty(),
    {
        let r = Registry { entries: Vec::new() };
        proof {
            lemma_assoc_empty(r.entries@);
        }
        r
    }

    fn position(&self, name: &str) -> (r: Option<usize>)
        ensures
            match r {
                Some(i) => i < self.entries@.len() && self.entries@[i as int].0@ == name@,
                None => forall|i: int| 0 <= i < self.entries@.len() ==> self.entries@[i].0@ != name@,
            },
    {
        let mut i: usize = 0;
        while i < self.entries.len()
            invariant
                i <= self.entries@.len(),
                forall|k: int| 0 <= k < i ==> self.entries@[k].0@ != name@,
            decreases self.entries@.len() - i,
        {
            if crate::text::str_eq(self.entries[i].0.as_str(), name) {
                return Some(i);
            }
            i = i + 1;
        }
        None
    }

    /// Puts `value` under `name`, replacing the value there.
    pub fn insert(&mut self, name: String, value: V)
        ensures
            final(self).map() == old(self).map().insert(name@, value),
    {
        proof {
            use_type_invariant(&*self);
        }
        let pos = self.position(name.as_str());
        let mut entries: Vec<(String, V)> = Vec::new();
        std::mem::swap(&mut entries, &mut self.entries);
        match pos {
            Some(i) => {
                proof {
                    lemma_assoc_update(entries@, i as int, name, value);
                }
                entries.set(i, (name, value));
            },
            None => {
                proof {
                    lemma_assoc_absent(entries@, name@);
                    lemma_assoc_push(entries@, name, value);
                }
                entries.push((name, value));
            },
        }
        self.entries = entries;
    }

    /// The value under `name`, if any.
    pub fn get(&self, name: &str) -> (r: Option<&V>)
        ensures
            match r {
                Some(v) => self.map().contains_key(name@) && self.map()[name@] == *v,
                None => !self.map().contains_key(name@),
            },
    {
        proof {
            use_type_invariant(self);
        }
        match self.position(name) {
            Some(i) => {
                proof {
                    lemma_assoc_lookup(self.entries@, i as int);
                }
                Some(&self.entries[i].1)
            },
            None => {
                proof {
                    lemma_assoc_absent(self.entries@, name@);
                }
                None
            },
        }
    }

    /// Drops the value under `name`, if any.
    pub fn remove(&mut self, name: &str)
        ensures
            final(self).map() == old(self).map().remove(name@),
    {
        proof {
            use_type_invariant(&*self);
        }
        match self.position(name) {
            Some(i) => {
                let mut entries: Vec<(String, V)> = Vec::new();
                std::mem::swap(&mut entries, &mut self.entries);
                proof {
                    lemma_assoc_remove(entries@, i as int);
                }
                entries.remove(i);
                self.entries = entries;
            },
            None => {
                proof {
                    lemma_assoc_absent(self.entries@, name@);
                    assert(self.map().remove(name@) =~= self.map());
                }
            },
        }
    }

    /// Removes the value under `name` and hands it back, if there was one.
    pub fn take(&mut self, name: &str) -> (r: Option<V>)
        ensures
            final(self).map() == old(self).map().remove(name@),
            r == (if old(self).map().contains_key(name@) {
                Some(old(self).map()[name@])
            } else {
                None
            }),
    {
        proof {
            use_type_invariant(&*self);
        }
        match self.position(name) {
            Some(i) => {
                let mut entries: Vec<(String, V)> = Vec::new();
                std::mem::swap(&mut entries, &mut self.entries);
                proof {
                    lemma_assoc_lookup(entries@, i as int);
                    lemma_assoc_remove(entries@, i as int);
                }
                let (_, v) = entries.remove(i);
                self.entries = entries;
                Some(v)
            },
            None => {
                proof {
                    lemma_assoc_absent(self.entries@, name@);
                    assert(self.map().remove(name@) =~= self.map());
                }
                None
            },
        }
    }

    /// The names, each once; together they are the registry's keys.
    pub fn names(&self) -> (r: Vec<String>)
        ensures
            r@.len() == self.map().dom().len(),
            names_of(r@, self.map()),
    {
        proof {
            use_type_invariant(self);
            lemma_assoc_len(self.entries@);
        }
        let mut r: Vec<String> = Vec::new();
        let mut i: usize = 0;
        while i < self.entries.len()
            invariant
                i <= self.entries@.len(),
                r@.len() == i,
                forall|j: int| 0 <= j < i ==> (#[trigger] r@[j])@ == self.entries@[j].0@,
            decreases self.entries@.len() - i,
        {
            r.push(self.entries[i].0.clone());
            i = i + 1;
        }
        proof {
            assert forall|k: Seq<char>| self.map().contains_key(k) implies exists|i: int| 0 <= i < r@.len() && #[trigger] r@[i]@ == k by {
                let i = choose|i: int| 0 <= i < self.entries@.len() && self.entries@[i].0@ == k;
                assert(r@[i]@ == k);
            }
            assert forall|k: Seq<char>| (exists|i: int| 0 <= i < r@.len() && #[trigger] r@[i]@ == k) implies self.map().contains_key(k) by {
                let i = choose|i: int| 0 <= i < r@.len() && #[trigger] r@[i]@ == k;
                lemma_assoc_lookup(self.entries@, i);
            }
            assert forall|a: int, b: int| 0 <= a < r@.len() && 0 <= b < r@.len() && a != b implies r@[a]@ != r@[b]@ by {
                assert(r@[a]@ == self.entries@[a].0@ && r@[b]@ == self.entries@[b].0@);
            }
        }
        r
    }

    /// The number of names.
    pub fn len(&self) -> (n: usize)
        ensures
            n == self.map().dom().len(),
    {
        proof {
            use_type_invariant(self);
            lemma_assoc_len(self.entries@);
        }
        self.entries.len()
    }
}

impl<V: Copy> Registry<V> {
    /// The entries, as a list with distinct names.
    pub fn to_pairs(&self) -> (r: Vec<(String, V)>)
        ensures
            keys_distinct(r@),
            assoc_map(r@) == self.map(),
    {
        proof {
            use_type_invariant(self);
        }
        let mut r: Vec<(String, V)> = Vec::new();
        let mut i: usize = 0;
        while i < self.entries.len()
            invariant
                i <= self.entries@.len(),
                r@.len() == i,
                forall|j: int| 0 <= j < i ==> (#[trigger] r@[j]).0@ == self.entries@[j].0@ && r@[j].1 == self.entries@[j].1,
            decreases self.entries@.len() - i,
        {
            let name = self.entries[i].0.clone();
            r.push((name, self.entries[i].1));
            i = i + 1;
        }
        proof {
            let s = self.entries@;
            assert forall|a: int, b: int| 0 <= a < r@.len() && 0 <= b < r@.len() && a != b implies r@[a].0@
                != r@[b].0@ by {
                assert(r@[a].0@ == s[a].0@ && r@[b].0@ == s[b].0@);
            }
            assert forall|k: Seq<char>| #[trigger] assoc_map(r@).contains_key(k) == assoc_map(s).contains_key(k) by {
                if assoc_map(s).contains_key(k) {
                    let j = choose|j: int| 0 <= j < s.len() && s[j].0@ == k;
                    assert(r@[j].0@ == k);
                }
                if assoc_map(r@).contains_key(k) {
                    let j = choose|j: int| 0 <= j < r@.len() && r@[j].0@ == k;
                    assert(s[j].0@ == k);
                }
            }
            assert forall|k: Seq<char>| #[trigger] assoc_map(r@).contains_key(k) implies assoc_map(r@)[k] == assoc_map(s)[k] by {
                let j = choose|j: int| 0 <= j < r@.len() && r@[j].0@ == k;
                lemma_assoc_lookup(r@, j);
                lemma_assoc_lookup(s, j);
            }
            assert(assoc_map(r@) =~= assoc_map(s));
        }
        r
    }
}

impl<V: Clone> Clone for Registry<V> {
    /// A registry with the same names, each value cloned.
    fn clone(&self) -> (r: Self)
        ensures
            r.map().dom() == self.map().dom(),
    {
        proof {
            use_type_invariant(self);
        }
        let mut entries: Vec<(String, V)> = Vec::new();
        let mut i: usize = 0;
        while i < self.entries.len()
            invariant
                i <= self.entries@.len(),
                entries@.len() == i,
                forall|j: int| 0 <= j < i ==> (#[trigger] entries@[j]).0@ == self.entries@[j].0@,
            decreases self.entries@.len() - i,
        {
            let name = self.entries[i].0.clone();
            let value = self.entries[i].1.clone();
            entries.push((name, value));
            i = i + 1;
        }
        proof {
            let s = self.entries@;
            let e = entries@;
            assert forall|a: int, b: int| 0 <= a < e.len() && 0 <= b < e.len() && a != b implies e[a].0@ != e[b].0@ by {
                assert(e[a].0@ == s[a].0@ && e[b].0@ == s[b].0@);
            }
            assert forall|k: Seq<char>| #[trigger] assoc_map(e).contains_key(k) == assoc_map(s).contains_key(k) by {
                if assoc_map(s).contains_key(k) {
                    let j = choose|j: int| 0 <= j < s.len() && s[j].0@ == k;
                    assert(e[j].0@ == k);
                }
                if assoc_map(e).contains_key(k) {
                    let j = choose|j: int| 0 <= j < e.len() && e[j].0@ == k;
                    assert(s[j].0@ == k);
                }
            }
            assert(assoc_map(e).dom() =~= assoc_map(s).dom());
        }
        Registry { entries }
    }
}

/// A list with distinct keys has as many entries as its map has keys.
pub proof fn lemma_assoc_len<K: View, V>(s: Seq<(K, V)>)
    requires
        keys_distinct(s),
    ensures
        assoc_map(s).dom().finite(),
        assoc_map(s).dom().len() == s.len(),
    decreases s.len(),
{
    if s.len() == 0 {
        lemma_assoc_empty(s);
    } else {
        let init = s.drop_last();
        assert(keys_distinct(init)) by {
            assert forall|a: int, b: int| 0 <= a < init.len() && 0 <= b < init.len() && a != b implies init[a].0@
                != init[b].0@ by {
                assert(init[a] == s[a] && init[b] == s[b]);
            }
        }
        lemma_assoc_len(init);
        assert forall|i: int| 0 <= i < init.len() implies init[i].0@ != s.last().0@ by {
            assert(init[i] == s[i]);
        }
        lemma_assoc_absent(init, s.last().0@);
        lemma_assoc_push(init, s.last().0, s.last().1);
        assert(init.push(s.last()) =~= s);
    }
}

} // verus!
