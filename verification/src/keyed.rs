//! A string-keyed store with a map view.
//!
//! Entries live in a `Vec` in insertion order; no key occurs twice. The view
//! is the map from each key's characters to its value.

use vstd::prelude::*;

verus! {

/// The map a sequence of entries denotes: a later entry for a key overrides
/// an earlier one.
pub open spec fn pairs_map<V>(s: Seq<(String, V)>) -> Map<Seq<char>, V>
    decreases s.len(),
{
    if s.len() == 0 {
        Map::empty()
    } else {
        pairs_map(s.drop_last()).insert(s.last().0@, s.last().1)
    }
}

/// The keys of a sequence of entries, as character sequences.
pub open spec fn pair_keys<V>(s: Seq<(String, V)>) -> Seq<Seq<char>> {
    s.map_values(|e: (String, V)| e.0@)
}

/// A key occurs in the entries.
pub open spec fn has_key<V>(s: Seq<(String, V)>, k: Seq<char>) -> bool {
    exists|i: int| 0 <= i < s.len() && #[trigger] s[i].0@ == k
}

pub proof fn lemma_pairs_map_dom<V>(s: Seq<(String, V)>, k: Seq<char>)
    ensures
        pairs_map(s).contains_key(k) <==> has_key(s, k),
    decreases s.len(),
{
    if s.len() > 0 {
        let t = s.drop_last();
        lemma_pairs_map_dom(t, k);
        if has_key(t, k) {
            let i = choose|i: int| 0 <= i < t.len() && #[trigger] t[i].0@ == k;
            assert(s[i].0@ == k);
        }
        if has_key(s, k) && s.last().0@ != k {
            let i = choose|i: int| 0 <= i < s.len() && #[trigger] s[i].0@ == k;
            assert(i < s.len() - 1);
            assert(t[i].0@ == k);
        }
    }
}

pub proof fn lemma_pairs_map_finite<V>(s: Seq<(String, V)>)
    ensures
        pairs_map(s).dom().finite(),
    decreases s.len(),
{
    if s.len() > 0 {
        lemma_pairs_map_finite(s.drop_last());
    }
}

pub proof fn lemma_pairs_map_value<V>(s: Seq<(String, V)>, i: int)
    requires
        pair_keys(s).no_duplicates(),
        0 <= i < s.len(),
    ensures
        pairs_map(s).contains_key(s[i].0@),
        pairs_map(s)[s[i].0@] == s[i].1,
    decreases s.len(),
{
    let t = s.drop_last();
    if i < s.len() - 1 {
        assert(pair_keys(t) =~= pair_keys(s).drop_last());
        assert(pair_keys(s)[i] == s[i].0@);
        assert(pair_keys(s)[s.len() - 1] == s.last().0@);
        lemma_pairs_map_value(t, i);
        assert(t[i] == s[i]);
    }
}

pub proof fn lemma_pairs_map_update<V>(s: Seq<(String, V)>, i: int, e: (String, V))
    requires
        pair_keys(s).no_duplicates(),
        0 <= i < s.len(),
        s[i].0@ == e.0@,
    ensures
        pairs_map(s.update(i, e)) == pairs_map(s).insert(e.0@, e.1),
        pair_keys(s.update(i, e)).no_duplicates(),
    decreases s.len(),
{
    let u = s.update(i, e);
    assert(pair_keys(u) =~= pair_keys(s));
    let t = s.drop_last();
    if i == s.len() - 1 {
        assert(u.drop_last() =~= t);
        assert(pairs_map(u) =~= pairs_map(s).insert(e.0@, e.1));
    } else {
        assert(pair_keys(t) =~= pair_keys(s).drop_last());
        lemma_pairs_map_update(t, i, e);
        assert(u.drop_last() =~= t.update(i, e));
        assert(pair_keys(s)[i] == s[i].0@);
        assert(pair_keys(s)[s.len() - 1] == s.last().0@);
        assert(s.last().0@ != e.0@);
        assert(pairs_map(u) =~= pairs_map(s).insert(e.0@, e.1));
    }
}

pub proof fn lemma_pairs_map_push<V>(s: Seq<(String, V)>, e: (String, V))
    requires
        pair_keys(s).no_duplicates(),
        !has_key(s, e.0@),
    ensures
        pairs_map(s.push(e)) == pairs_map(s).insert(e.0@, e.1),
        pair_keys(s.push(e)).no_duplicates(),
{
    let u = s.push(e);
    assert(u.drop_last() =~= s);
    assert(pair_keys(u) =~= pair_keys(s).push(e.0@));
    assert forall|a: int, b: int|
        0 <= a < pair_keys(u).len() && 0 <= b < pair_keys(u).len() && a != b
        implies pair_keys(u)[a] != pair_keys(u)[b] by {
        if a == s.len() {
            assert(pair_keys(u)[b] == s[b].0@);
        } else if b == s.len() {
            assert(pair_keys(u)[a] == s[a].0@);
        } else {
            assert(pair_keys(u)[a] == pair_keys(s)[a]);
            assert(pair_keys(u)[b] == pair_keys(s)[b]);
        }
    }
}

pub proof fn lemma_pairs_map_remove<V>(s: Seq<(String, V)>, i: int)
    requires
        pair_keys(s).no_duplicates(),
        0 <= i < s.len(),
    ensures
        pairs_map(s.remove(i)) == pairs_map(s).remove(s[i].0@),
        pair_keys(s.remove(i)).no_duplicates(),
    decreases s.len(),
{
    let r = s.remove(i);
    let k = s[i].0@;
    assert(pair_keys(r) =~= pair_keys(s).remove(i));
    assert forall|a: int, b: int|
        0 <= a < pair_keys(r).len() && 0 <= b < pair_keys(r).len() && a != b
        implies pair_keys(r)[a] != pair_keys(r)[b] by {
        let a2 = if a < i { a } else { a + 1 };
        let b2 = if b < i { b } else { b + 1 };
        assert(pair_keys(r)[a] == pair_keys(s)[a2]);
        assert(pair_keys(r)[b] == pair_keys(s)[b2]);
    }
    assert forall|key: Seq<char>|
        #![trigger pairs_map(r).contains_key(key)]
        pairs_map(r).contains_key(key) <==> pairs_map(s).remove(k).contains_key(key) by {
        lemma_pairs_map_dom(r, key);
        lemma_pairs_map_dom(s, key);
        if has_key(r, key) {
            let a = choose|a: int| 0 <= a < r.len() && #[trigger] r[a].0@ == key;
            let a2 = if a < i { a } else { a + 1 };
            assert(s[a2].0@ == key);
            assert(pair_keys(s)[a2] == key);
            assert(pair_keys(s)[i] == k);
        }
        if has_key(s, key) && key != k {
            let a = choose|a: int| 0 <= a < s.len() && #[trigger] s[a].0@ == key;
            let a2 = if a < i { a } else { a - 1 };
            assert(r[a2].0@ == key);
        }
    }
    assert forall|key: Seq<char>| #[trigger] pairs_map(r).contains_key(key)
        implies pairs_map(r)[key] == pairs_map(s)[key] by {
        lemma_pairs_map_dom(r, key);
        let a = choose|a: int| 0 <= a < r.len() && #[trigger] r[a].0@ == key;
        let a2 = if a < i { a } else { a + 1 };
        lemma_pairs_map_value(r, a);
        lemma_pairs_map_value(s, a2);
    }
    assert(pairs_map(r) =~= pairs_map(s).remove(k));
}

/// A store of values under distinct string keys.
pub struct KeyedStore<V> {
    entries: Vec<(String, V)>,
}

impl<V> View for KeyedStore<V> {
    type V = Map<Seq<char>, V>;

    closed spec fn view(&self) -> Map<Seq<char>, V> {
        pairs_map(self.entries@)
    }
}

impl<V> KeyedStore<V> {
    #[verifier::type_invariant]
    closed spec fn wf(self) -> bool {
        pair_keys(self.entries@).no_duplicates()
    }

    /// The entries in the order their keys were first inserted.
    pub closed spec fn entries(self) -> Seq<(String, V)> {
        self.entries@
    }

    /// An empty store.
    pub fn new() -> (store: Self)
        ensures
            store@ == Map::<Seq<char>, V>::empty(),
            store.entries().len() == 0,
    {
        let store = KeyedStore { entries: Vec::new() };
        assert(pair_keys(store.entries@) =~= Seq::<Seq<char>>::empty());
        store
    }

    /// The number of keys held.
    ///
    /// Along with the count it states how the entries make up the view:
    /// every entry is in the map, and every key of the map is an entry's.
    pub fn len(&self) -> (n: usize)
        ensures
            n == self@.len(),
            n == self.entries().len(),
            self@ == pairs_map(self.entries()),
            self@.dom().finite(),
            forall|i: int|
                0 <= i < self.entries().len() ==> #[trigger] self@.contains_key(
                    self.entries()[i].0@,
                ) && self@[self.entries()[i].0@] == self.entries()[i].1,
            forall|k: Seq<char>| #[trigger]
                self@.contains_key(k) ==> exists|i: int|
                    0 <= i < self.entries().len() && #[trigger] self.entries()[i].0@ == k,
    {
        proof {
            use_type_invariant(self);
            lemma_pairs_map_finite(self.entries@);
            assert forall|i: int| 0 <= i < self.entries().len() implies #[trigger] self@.contains_key(
                self.entries()[i].0@,
            ) && self@[self.entries()[i].0@] == self.entries()[i].1 by {
                lemma_pairs_map_value(self.entries@, i);
            }
            assert forall|k: Seq<char>| #[trigger] self@.contains_key(k) implies exists|i: int|
                0 <= i < self.entries().len() && #[trigger] self.entries()[i].0@ == k by {
                lemma_pairs_map_dom(self.entries@, k);
                let i = choose|i: int| 0 <= i < self.entries@.len() && #[trigger] self.entries@[i].0@ == k;
                assert(self.entries()[i].0@ == k);
            }
            lemma_len(self.entries@);
        }
        self.entries.len()
    }

    /// The entry at position `i` in insertion order.
    pub fn entry_at(&self, i: usize) -> (e: (&String, &V))
        requires
            i < self.entries().len(),
        ensures
            *e.0 == self.entries()[i as int].0,
            *e.1 == self.entries()[i as int].1,
    {
        let e = &self.entries[i];
        (&e.0, &e.1)
    }

    /// The position of `key` among the entries, if it is held.
    fn position(&self, key: &str) -> (p: Option<usize>)
        ensures
            match p {
                Some(i) => i < self.entries().len() && self.entries()[i as int].0@ == key@,
                None => !has_key(self.entries(), key@),
            },
    {
        let mut i: usize = 0;
        while i < self.entries.len()
            invariant
                i <= self.entries@.len(),
                forall|j: int| 0 <= j < i ==> self.entries@[j].0@ != key@,
            decreases self.entries@.len() - i,
        {
            if str_eq(self.entries[i].0.as_str(), key) {
                return Some(i);
            }
            i = i + 1;
        }
        None
    }

    /// The value held under `key`.
    pub fn get(&self, key: &str) -> (v: Option<&V>)
        ensures
            match v {
                Some(x) => self@.contains_key(key@) && *x == self@[key@],
                None => !self@.contains_key(key@),
            },
    {
        proof {
            use_type_invariant(&*self);
            lemma_pairs_map_dom(self.entries@, key@);
        }
        match self.position(key) {
            Some(i) => {
                proof {
                    lemma_pairs_map_value(self.entries@, i as int);
                }
                Some(&self.entries[i].1)
            },
            None => None,
        }
    }

    /// Put `value` under `key`, replacing what was there.
    pub fn insert(&mut self, key: String, value: V)
        ensures
            final(self)@ == old(self)@.insert(key@, value),
    {
        proof {
            use_type_invariant(&*self);
        }
        match self.position(key.as_str()) {
            Some(i) => {
                proof {
                    lemma_pairs_map_update(self.entries@, i as int, (key, value));
                }
                let mut entries = Vec::new();
                std::mem::swap(&mut entries, &mut self.entries);
                entries.set(i, (key, value));
                self.entries = entries;
            },
            None => {
                proof {
                    lemma_pairs_map_push(self.entries@, (key, value));
                }
                let mut entries = Vec::new();
                std::mem::swap(&mut entries, &mut self.entries);
                entries.push((key, value));
                self.entries = entries;
            },
        }
    }

    /// Take away whatever is held under `key`, and hand it back.
    pub fn remove(&mut self, key: &str) -> (v: Option<V>)
        ensures
            final(self)@ == old(self)@.remove(key@),
            match v {
                Some(x) => old(self)@.contains_key(key@) && x == old(self)@[key@],
                None => !old(self)@.contains_key(key@),
            },
    {
        proof {
            use_type_invariant(&*self);
            lemma_pairs_map_dom(self.entries@, key@);
        }
        match self.position(key) {
            Some(i) => {
                proof {
                    lemma_pairs_map_remove(self.entries@, i as int);
                    lemma_pairs_map_value(self.entries@, i as int);
                }
                let mut entries = Vec::new();
                std::mem::swap(&mut entries, &mut self.entries);
                let e = entries.remove(i);
                self.entries = entries;
                Some(e.1)
            },
            None => {
                assert(self@ =~= self@.remove(key@));
                None
            },
        }
    }
}

proof fn lemma_len<V>(s: Seq<(String, V)>)
    requires
        pair_keys(s).no_duplicates(),
    ensures
        pairs_map(s).len() == s.len(),
    decreases s.len(),
{
    if s.len() > 0 {
        let t = s.drop_last();
        assert(pair_keys(t) =~= pair_keys(s).drop_last());
        lemma_len(t);
        lemma_pairs_map_finite(t);
        lemma_pairs_map_dom(t, s.last().0@);
        if has_key(t, s.last().0@) {
            let i = choose|i: int| 0 <= i < t.len() && #[trigger] t[i].0@ == s.last().0@;
            assert(pair_keys(s)[i] == pair_keys(s)[s.len() - 1]);
        }
    }
}

/// Whether two string slices hold the same characters.
pub fn str_eq(a: &str, b: &str) -> (r: bool)
    ensures
        r == (a@ == b@),
{
    let x: String = a.to_owned();
    let y: String = b.to_owned();
    x == y
}

} // verus!
