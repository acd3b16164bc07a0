//! A string-keyed map with unique keys, stored as an association list.

use vstd::prelude::*;

verus! {

/// The map denoted by a list of entries: later entries take precedence.
pub open spec fn entries_map(entries: Seq<(String, String)>) -> Map<Seq<char>, Seq<char>>
    decreases entries.len(),
{
    if entries.len() == 0 {
        Map::empty()
    } else {
        let last = entries.last();
        entries_map(entries.drop_last()).insert(last.0@, last.1@)
    }
}

/// No key occurs twice in the list.
pub open spec fn keys_unique(entries: Seq<(String, String)>) -> bool {
    forall|i: int, j: int|
        0 <= i < entries.len() && 0 <= j < entries.len() && i != j ==> entries[i].0@
            != entries[j].0@
}

/// A key is in the map exactly when some entry carries it, and then the map holds
/// that entry's value.
pub proof fn lemma_entries_map_lookup(entries: Seq<(String, String)>)
    requires
        keys_unique(entries),
    ensures
        forall|k: Seq<char>|
            #![trigger entries_map(entries).contains_key(k)]
            entries_map(entries).contains_key(k) <==> exists|i: int|
                0 <= i < entries.len() && entries[i].0@ == k,
        forall|i: int|
            #![trigger entries[i]]
            0 <= i < entries.len() ==> entries_map(entries).contains_key(entries[i].0@)
                && entries_map(entries)[entries[i].0@] == entries[i].1@,
        entries_map(entries).dom().finite(),
        entries_map(entries).dom().len() == entries.len(),
    decreases entries.len(),
{
    if entries.len() > 0 {
        let init = entries.drop_last();
        assert(keys_unique(init)) by {
            assert forall|i: int, j: int|
                0 <= i < init.len() && 0 <= j < init.len() && i != j implies init[i].0@
                != init[j].0@ by {
                assert(init[i] == entries[i] && init[j] == entries[j]);
            }
        }
        lemma_entries_map_lookup(init);
        let last = entries.last();
        assert(!entries_map(init).contains_key(last.0@)) by {
            if entries_map(init).contains_key(last.0@) {
                let i = choose|i: int| 0 <= i < init.len() && init[i].0@ == last.0@;
                assert(entries[i].0@ == entries[entries.len() - 1].0@);
            }
        }
        assert forall|k: Seq<char>|
            #![trigger entries_map(entries).contains_key(k)]
            entries_map(entries).contains_key(k) <==> exists|i: int|
                0 <= i < entries.len() && entries[i].0@ == k by {
            if entries_map(entries).contains_key(k) && k != last.0@ {
                let i = choose|i: int| 0 <= i < init.len() && init[i].0@ == k;
                assert(entries[i].0@ == k);
            }
            if exists|i: int| 0 <= i < entries.len() && entries[i].0@ == k {
                let i = choose|i: int| 0 <= i < entries.len() && entries[i].0@ == k;
                if i < entries.len() - 1 {
                    assert(init[i].0@ == k);
                }
            }
        }
        assert forall|i: int|
            #![trigger entries[i]]
            0 <= i < entries.len() implies entries_map(entries).contains_key(entries[i].0@)
                && entries_map(entries)[entries[i].0@] == entries[i].1@ by {
            if i < entries.len() - 1 {
                assert(init[i] == entries[i]);
                assert(entries[i].0@ != last.0@);
            }
        }
    }
}

/// Replacing the value of an existing entry updates the map at that key.
proof fn lemma_entries_map_update(entries: Seq<(String, String)>, i: int, v: String)
    requires
        keys_unique(entries),
        0 <= i < entries.len(),
    ensures
        keys_unique(entries.update(i, (entries[i].0, v))),
        entries_map(entries.update(i, (entries[i].0, v))) == entries_map(entries).insert(
            entries[i].0@,
            v@,
        ),
    decreases entries.len(),
{
    let e2 = entries.update(i, (entries[i].0, v));
    assert(keys_unique(e2)) by {
        assert forall|a: int, b: int|
            0 <= a < e2.len() && 0 <= b < e2.len() && a != b implies e2[a].0@ != e2[b].0@ by {
            assert(e2[a].0@ == entries[a].0@ && e2[b].0@ == entries[b].0@);
        }
    }
    let init = entries.drop_last();
    assert(keys_unique(init)) by {
        assert forall|a: int, b: int|
            0 <= a < init.len() && 0 <= b < init.len() && a != b implies init[a].0@
            != init[b].0@ by {
            assert(init[a] == entries[a] && init[b] == entries[b]);
        }
    }
    if i == entries.len() - 1 {
        assert(e2.drop_last() =~= init);
        assert(entries_map(e2) =~= entries_map(entries).insert(entries[i].0@, v@));
    } else {
        lemma_entries_map_update(init, i, v);
        assert(e2.drop_last() =~= init.update(i, (entries[i].0, v)));
        assert(entries.last().0@ != entries[i].0@);
        assert(entries_map(e2) =~= entries_map(entries).insert(entries[i].0@, v@));
    }
}

/// Removing the entry at `i` removes its key from the map.
proof fn lemma_entries_map_remove(entries: Seq<(String, String)>, i: int)
    requires
        keys_unique(entries),
        0 <= i < entries.len(),
    ensures
        keys_unique(entries.remove(i)),
        entries_map(entries.remove(i)) == entries_map(entries).remove(entries[i].0@),
    decreases entries.len(),
{
    let e2 = entries.remove(i);
    assert(keys_unique(e2)) by {
        assert forall|a: int, b: int|
            0 <= a < e2.len() && 0 <= b < e2.len() && a != b implies e2[a].0@ != e2[b].0@ by {
            let a2 = if a < i { a } else { a + 1 };
            let b2 = if b < i { b } else { b + 1 };
            assert(e2[a] == entries[a2] && e2[b] == entries[b2]);
        }
    }
    let init = entries.drop_last();
    assert(keys_unique(init)) by {
        assert forall|a: int, b: int|
            0 <= a < init.len() && 0 <= b < init.len() && a != b implies init[a].0@
            != init[b].0@ by {
            assert(init[a] == entries[a] && init[b] == entries[b]);
        }
    }
    lemma_entries_map_lookup(init);
    if i == entries.len() - 1 {
        assert(e2 =~= init);
        assert(!entries_map(init).contains_key(entries[i].0@)) by {
            if entries_map(init).contains_key(entries[i].0@) {
                let j = choose|j: int| 0 <= j < init.len() && init[j].0@ == entries[i].0@;
                assert(entries[j].0@ == entries[i].0@);
            }
        }
        assert(entries_map(e2) =~= entries_map(entries).remove(entries[i].0@));
    } else {
        lemma_entries_map_remove(init, i);
        assert(e2.drop_last() =~= init.remove(i));
        assert(e2.last() == entries.last());
        assert(entries.last().0@ != entries[i].0@);
        assert(entries_map(e2) =~= entries_map(entries).remove(entries[i].0@));
    }
}

/// Two lists whose entries have the same views denote the same map.
proof fn lemma_entries_map_same_views(a: Seq<(String, String)>, b: Seq<(String, String)>)
    requires
        a.len() == b.len(),
        keys_unique(b),
        forall|j: int| 0 <= j < a.len() ==> (#[trigger] a[j]).0@ == b[j].0@ && a[j].1@ == b[j].1@,
    ensures
        keys_unique(a),
        entries_map(a) == entries_map(b),
    decreases a.len(),
{
    assert forall|i: int, j: int| 0 <= i < a.len() && 0 <= j < a.len() && i != j implies a[i].0@ != a[j].0@ by {
        assert(a[i].0@ == b[i].0@ && a[j].0@ == b[j].0@);
    }
    if a.len() > 0 {
        let ai = a.drop_last();
        let bi = b.drop_last();
        assert forall|i: int, j: int| 0 <= i < bi.len() && 0 <= j < bi.len() && i != j implies bi[i].0@ != bi[j].0@ by {
            assert(bi[i] == b[i] && bi[j] == b[j]);
        }
        assert forall|j: int| 0 <= j < ai.len() implies (#[trigger] ai[j]).0@ == bi[j].0@ && ai[j].1@ == bi[j].1@ by {
            assert(ai[j] == a[j] && bi[j] == b[j]);
        }
        lemma_entries_map_same_views(ai, bi);
        assert(a.last().0@ == b.last().0@ && a.last().1@ == b.last().1@) by {
            assert(a.last() == a[a.len() - 1] && b.last() == b[b.len() - 1]);
        }
    }
}

/// A string-keyed map; each key occurs at most once.
#[derive(Debug)]
pub struct StrMap {
    entries: Vec<(String, String)>,
}

impl View for StrMap {
    type V = Map<Seq<char>, Seq<char>>;

    closed spec fn view(&self) -> Map<Seq<char>, Seq<char>> {
        entries_map(self.entries@)
    }
}

impl StrMap {
    #[verifier::type_invariant]
    closed spec fn inv(self) -> bool {
        keys_unique(self.entries@)
    }

    /// An empty map.
    pub fn new() -> (m: StrMap)
        ensures
            m@ == Map::<Seq<char>, Seq<char>>::empty(),
    {
        StrMap { entries: Vec::new() }
    }

    /// The position of the entry whose key is `key`, if any.
    fn find(&self, key: &str) -> (r: Option<usize>)
        ensures
            match r {
                Some(i) => i < self.entries@.len() && self.entries@[i as int].0@ == key@,
                None => !self@.contains_key(key@),
            },
    {
        proof {
            use_type_invariant(self);
            lemma_entries_map_lookup(self.entries@);
        }
        let mut i: usize = 0;
        while i < self.entries.len()
            invariant
                i <= self.entries@.len(),
                forall|j: int| 0 <= j < i ==> self.entries@[j].0@ != key@,
            decreases self.entries@.len() - i,
        {
            if crate::text::str_eq(self.entries[i].0.as_str(), key) {
                return Some(i);
            }
            i = i + 1;
        }
        None
    }

    /// Number of keys.
    pub fn len(&self) -> (n: usize)
        ensures
            n == self@.dom().len(),
    {
        proof {
            use_type_invariant(self);
            lemma_entries_map_lookup(self.entries@);
        }
        self.entries.len()
    }

    /// Whether the map holds no key.
    pub fn is_empty(&self) -> (b: bool)
        ensures
            b == (self@.dom().len() == 0),
    {
        self.len() == 0
    }

    /// Whether `key` is present.
    pub fn contains_key(&self, key: &str) -> (b: bool)
        ensures
            b == self@.contains_key(key@),
    {
        proof {
            use_type_invariant(self);
            lemma_entries_map_lookup(self.entries@);
        }
        self.find(key).is_some()
    }

    /// The value stored at `key`, if any.
    pub fn get(&self, key: &str) -> (r: Option<&String>)
        ensures
            match r {
                Some(v) => self@.contains_key(key@) && self@[key@] == v@,
                None => !self@.contains_key(key@),
            },
    {
        proof {
            use_type_invariant(self);
            lemma_entries_map_lookup(self.entries@);
        }
        match self.find(key) {
            Some(i) => Some(&self.entries[i].1),
            None => None,
        }
    }

    /// Sets `key` to `value`, replacing any earlier value.
    pub fn insert(&mut self, key: String, value: String)
        ensures
            final(self)@ == old(self)@.insert(key@, value@),
    {
        proof {
            use_type_invariant(&*self);
        }
        match self.find(key.as_str()) {
            Some(i) => {
                let ghost old_entries = self.entries@;
                proof {
                    lemma_entries_map_update(old_entries, i as int, value);
                }
                let mut entries: Vec<(String, String)> = Vec::new();
                std::mem::swap(&mut entries, &mut self.entries);
                let k = entries[i].0.clone();
                entries.set(i, (k, value));
                assert(entries@ =~= old_entries.update(i as int, (old_entries[i as int].0, value)));
                self.entries = entries;
            },
            None => {
                let ghost old_entries = self.entries@;
                proof {
                    lemma_entries_map_lookup(old_entries);
                    assert forall|j: int| 0 <= j < old_entries.len() implies old_entries[j].0@ != key@ by {
                        if old_entries[j].0@ == key@ {
                            assert(self@.contains_key(key@));
                        }
                    }
                }
                let mut entries: Vec<(String, String)> = Vec::new();
                std::mem::swap(&mut entries, &mut self.entries);
                entries.push((key, value));
                assert(entries@.drop_last() =~= old_entries);
                assert(keys_unique(entries@)) by {
                    assert forall|a: int, b: int|
                        0 <= a < entries@.len() && 0 <= b < entries@.len() && a != b implies entries@[a].0@
                        != entries@[b].0@ by {
                        if a < old_entries.len() {
                            assert(entries@[a] == old_entries[a]);
                        }
                        if b < old_entries.len() {
                            assert(entries@[b] == old_entries[b]);
                        }
                    }
                }
                self.entries = entries;
            },
        }
    }

    /// Removes `key`, returning its value if it was present.
    pub fn remove(&mut self, key: &str) -> (r: Option<String>)
        ensures
            final(self)@ == old(self)@.remove(key@),
            match r {
                Some(v) => old(self)@.contains_key(key@) && old(self)@[key@] == v@,
                None => !old(self)@.contains_key(key@),
            },
    {
        proof {
            use_type_invariant(&*self);
            lemma_entries_map_lookup(self.entries@);
        }
        match self.find(key) {
            Some(i) => {
                let ghost old_entries = self.entries@;
                proof {
                    lemma_entries_map_remove(old_entries, i as int);
                }
                let mut entries: Vec<(String, String)> = Vec::new();
                std::mem::swap(&mut entries, &mut self.entries);
                let e = entries.remove(i);
                self.entries = entries;
                Some(e.1)
            },
            None => {
                assert(old(self)@.remove(key@) =~= old(self)@);
                None
            },
        }
    }

    /// An equal copy of the map.
    pub fn duplicate(&self) -> (r: StrMap)
        ensures
            r@ == self@,
    {
        proof {
            use_type_invariant(self);
        }
        let mut entries: Vec<(String, String)> = Vec::new();
        let mut i: usize = 0;
        while i < self.entries.len()
            invariant
                i <= self.entries@.len(),
                entries@.len() == i,
                forall|j: int| 0 <= j < i ==> (#[trigger] entries@[j]).0@ == self.entries@[j].0@
                    && entries@[j].1@ == self.entries@[j].1@,
            decreases self.entries@.len() - i,
        {
            let k = self.entries[i].0.clone();
            let v = self.entries[i].1.clone();
            entries.push((k, v));
            i = i + 1;
        }
        proof {
            lemma_entries_map_same_views(entries@, self.entries@);
        }
        StrMap { entries }
    }

    /// Copies every entry of `other` into the map; `other` wins on shared keys.
    pub fn extend(&mut self, other: &StrMap)
        ensures
            final(self)@ == old(self)@.union_prefer_right(other@),
    {
        let ghost start = self@;
        let mut i: usize = 0;
        while i < other.entries.len()
            invariant
                i <= other.entries@.len(),
                self@ == start.union_prefer_right(entries_map(other.entries@.take(i as int))),
            decreases other.entries@.len() - i,
        {
            let k = other.entries[i].0.clone();
            let v = other.entries[i].1.clone();
            proof {
                let t = other.entries@.take(i as int + 1);
                assert(t.drop_last() =~= other.entries@.take(i as int));
                assert(t.last() == other.entries@[i as int]);
            }
            self.insert(k, v);
            proof {
                let b = entries_map(other.entries@.take(i as int));
                let e = other.entries@[i as int];
                assert(start.union_prefer_right(b.insert(e.0@, e.1@)) =~= start.union_prefer_right(b).insert(
                    e.0@,
                    e.1@,
                ));
            }
            i = i + 1;
        }
        proof {
            assert(other.entries@.take(other.entries@.len() as int) =~= other.entries@);
        }
    }

    /// The entries of the map, as key-value pairs with distinct keys.
    pub fn to_pairs(&self) -> (r: Vec<(String, String)>)
        ensures
            keys_unique(r@),
            entries_map(r@) == self@,
    {
        let copy = self.duplicate();
        proof {
            use_type_invariant(&copy);
        }
        copy.entries
    }
}

/// A value read back after it is set is the value set; setting one key leaves
/// the others as they were; removing a key just set restores the map where
/// the key was absent.
pub proof fn law_str_map_insert_get(m: Map<Seq<char>, Seq<char>>, k: Seq<char>, v: Seq<char>, other: Seq<char>)
    ensures
        m.insert(k, v).contains_key(k) && m.insert(k, v)[k] == v,
        other != k ==> (m.insert(k, v).contains_key(other) == m.contains_key(other) && (m.contains_key(other)
            ==> m.insert(k, v)[other] == m[other])),
        !m.contains_key(k) ==> m.insert(k, v).remove(k) == m,
{
    if !m.contains_key(k) {
        assert(m.insert(k, v).remove(k) =~= m);
    }
}

} // verus!
