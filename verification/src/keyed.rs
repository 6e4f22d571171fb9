//! A small map from `String` keys to values, kept as a vector of entries in
//! insertion order with no key twice. The pairing table and the table of
//! uploads that wait for the user's answer are both of this kind.

use vstd::prelude::*;

verus! {

/// The map that a sequence of entries denotes (a later entry wins, though
/// in a well-formed list no key occurs twice).
pub open spec fn entries_map<V>(s: Seq<(String, V)>) -> Map<Seq<char>, V>
    decreases s.len(),
{
    if s.len() == 0 {
        Map::empty()
    } else {
        entries_map(s.drop_last()).insert(s.last().0@, s.last().1)
    }
}

/// Appending an entry inserts its key and value.
pub proof fn lemma_entries_map_push<V>(q: Seq<(String, V)>, x: (String, V))
    ensures
        entries_map(q.push(x)) == entries_map(q).insert(x.0@, x.1),
{
    assert(q.push(x).drop_last() =~= q);
}

/// No two entries share a key.
pub open spec fn keys_distinct<V>(s: Seq<(String, V)>) -> bool {
    forall|i: int, j: int| 0 <= i < j < s.len() ==> s[i].0@ != s[j].0@
}

/// A key is in the map exactly when some entry carries it.
pub proof fn lemma_entries_map_dom<V>(s: Seq<(String, V)>, k: Seq<char>)
    ensures
        entries_map(s).contains_key(k) <==> exists|j: int| 0 <= j < s.len() && s[j].0@ == k,
    decreases s.len(),
{
    if s.len() > 0 {
        lemma_entries_map_dom(s.drop_last(), k);
        if entries_map(s).contains_key(k) && s.last().0@ != k {
            let j = choose|j: int| 0 <= j < s.drop_last().len() && s.drop_last()[j].0@ == k;
            assert(s[j].0@ == k);
        }
        if exists|j: int| 0 <= j < s.len() && s[j].0@ == k {
            let j = choose|j: int| 0 <= j < s.len() && s[j].0@ == k;
            if j < s.len() - 1 {
                assert(s.drop_last()[j].0@ == k);
            }
        }
    }
}

/// With distinct keys, each entry's key maps to that entry's value.
pub proof fn lemma_entries_map_value<V>(s: Seq<(String, V)>, j: int)
    requires
        keys_distinct(s),
        0 <= j < s.len(),
    ensures
        entries_map(s).contains_key(s[j].0@),
        entries_map(s)[s[j].0@] == s[j].1,
    decreases s.len(),
{
    if j < s.len() - 1 {
        let p = s.drop_last();
        assert(keys_distinct(p));
        lemma_entries_map_value(p, j);
        assert(p[j] == s[j]);
    }
}

/// The map of a well-formed list is finite and has one key per entry.
pub proof fn lemma_entries_map_len<V>(s: Seq<(String, V)>)
    requires
        keys_distinct(s),
    ensures
        entries_map(s).dom().finite(),
        entries_map(s).len() == s.len(),
    decreases s.len(),
{
    if s.len() > 0 {
        let p = s.drop_last();
        assert(keys_distinct(p));
        lemma_entries_map_len(p);
        lemma_entries_map_dom(p, s.last().0@);
        if entries_map(p).contains_key(s.last().0@) {
            let j = choose|j: int| 0 <= j < p.len() && p[j].0@ == s.last().0@;
            assert(s[j].0@ == s[s.len() - 1].0@);
        }
    }
}

/// Removing the entry at `i` removes its key from the map.
pub proof fn lemma_entries_map_remove<V>(s: Seq<(String, V)>, i: int)
    requires
        keys_distinct(s),
        0 <= i < s.len(),
    ensures
        keys_distinct(s.remove(i)),
        entries_map(s.remove(i)) == entries_map(s).remove(s[i].0@),
    decreases s.len(),
{
    let p = s.drop_last();
    assert(keys_distinct(p));
    let k = s[i].0@;
    assert(keys_distinct(s.remove(i))) by {
        assert forall|a: int, b: int| 0 <= a < b < s.remove(i).len() implies s.remove(i)[a].0@
            != s.remove(i)[b].0@ by {
            let a2 = if a < i { a } else { a + 1 };
            let b2 = if b < i { b } else { b + 1 };
            assert(s.remove(i)[a] == s[a2]);
            assert(s.remove(i)[b] == s[b2]);
        }
    }
    if i == s.len() - 1 {
        assert(s.remove(i) =~= p);
        lemma_entries_map_dom(p, k);
        if entries_map(p).contains_key(k) {
            let j = choose|j: int| 0 <= j < p.len() && p[j].0@ == k;
            assert(s[j].0@ == s[i].0@);
        }
        assert(entries_map(s.remove(i)) =~= entries_map(s).remove(k));
    } else {
        lemma_entries_map_remove(p, i);
        assert(s.remove(i) =~= p.remove(i).push(s.last()));
        lemma_entries_map_push(p.remove(i), s.last());
        assert(s =~= p.push(s.last()));
        lemma_entries_map_push(p, s.last());
        assert(p[i] == s[i]);
        assert(s.last().0@ != k);
        assert(entries_map(s.remove(i)) =~= entries_map(s).remove(k));
    }
}

/// Replacing the value of the entry at `i` (same key) updates the map.
pub proof fn lemma_entries_map_update<V>(s: Seq<(String, V)>, i: int, e: (String, V))
    requires
        keys_distinct(s),
        0 <= i < s.len(),
        e.0@ == s[i].0@,
    ensures
        keys_distinct(s.update(i, e)),
        entries_map(s.update(i, e)) == entries_map(s).insert(e.0@, e.1),
    decreases s.len(),
{
    let p = s.drop_last();
    assert(keys_distinct(p));
    assert(keys_distinct(s.update(i, e))) by {
        assert forall|a: int, b: int| 0 <= a < b < s.update(i, e).len() implies s.update(i, e)[
            a].0@ != s.update(i, e)[b].0@ by {
            assert(s.update(i, e)[a].0@ == s[a].0@);
            assert(s.update(i, e)[b].0@ == s[b].0@);
        }
    }
    if i == s.len() - 1 {
        assert(s.update(i, e) =~= p.push(e));
        lemma_entries_map_push(p, e);
        assert(s =~= p.push(s.last()));
        lemma_entries_map_push(p, s.last());
        assert(entries_map(s.update(i, e)) =~= entries_map(s).insert(e.0@, e.1));
    } else {
        lemma_entries_map_update(p, i, e);
        assert(s.update(i, e) =~= p.update(i, e).push(s.last()));
        lemma_entries_map_push(p.update(i, e), s.last());
        assert(s =~= p.push(s.last()));
        lemma_entries_map_push(p, s.last());
        assert(p[i] == s[i]);
        assert(s.last().0@ != e.0@);
        assert(entries_map(s.update(i, e)) =~= entries_map(s).insert(e.0@, e.1));
    }
}

/// A map from `String` keys to values, in insertion order, no key twice.
pub struct KeyedList<V> {
    entries: Vec<(String, V)>,
}

impl<V> View for KeyedList<V> {
    type V = Map<Seq<char>, V>;

    closed spec fn view(&self) -> Map<Seq<char>, V> {
        entries_map(self.entries@)
    }
}

impl<V> KeyedList<V> {
    /// The entries, in insertion order.
    pub closed spec fn entries(&self) -> Seq<(String, V)> {
        self.entries@
    }

    /// No key occurs twice.
    pub open spec fn wf(&self) -> bool {
        keys_distinct(self.entries())
    }

    /// The map view is the map of the entries.
    pub proof fn lemma_view(&self)
        ensures
            self@ == entries_map(self.entries()),
    {
    }

    /// The map of a well-formed list is finite, one key per entry.
    pub proof fn lemma_finite(&self)
        requires
            self.wf(),
        ensures
            self@.dom().finite(),
            self@.len() == self.entries().len(),
    {
        lemma_entries_map_len(self.entries@);
    }

    /// An empty list.
    pub fn new() -> (r: Self)
        ensures
            r.wf(),
            r@ == Map::<Seq<char>, V>::empty(),
            r.entries().len() == 0,
    {
        KeyedList { entries: Vec::new() }
    }

    /// Number of entries.
    pub fn len(&self) -> (n: usize)
        requires
            self.wf(),
        ensures
            n == self@.len(),
            n == self.entries().len(),
    {
        proof {
            lemma_entries_map_len(self.entries@);
        }
        self.entries.len()
    }

    /// The entry at position `i`.
    pub fn entry_at(&self, i: usize) -> (e: &(String, V))
        requires
            i < self.entries().len(),
        ensures
            *e == self.entries()[i as int],
    {
        &self.entries[i]
    }

    /// Position of the entry with this key, if any.
    pub fn position(&self, key: &str) -> (r: Option<usize>)
        requires
            self.wf(),
        ensures
            match r {
                Some(i) => i < self.entries().len() && self.entries()[i as int].0@ == key@,
                None => !self@.contains_key(key@),
            },
    {
        let k = key.to_owned();
        let mut i: usize = 0;
        while i < self.entries.len()
            invariant
                i <= self.entries@.len(),
                k@ == key@,
                forall|j: int| 0 <= j < i ==> self.entries@[j].0@ != key@,
            decreases self.entries@.len() - i,
        {
            if self.entries[i].0 == k {
                return Some(i);
            }
            i = i + 1;
        }
        proof {
            lemma_entries_map_dom(self.entries@, key@);
        }
        None
    }

    /// Whether an entry has this key.
    pub fn contains_key(&self, key: &str) -> (r: bool)
        requires
            self.wf(),
        ensures
            r == self@.contains_key(key@),
    {
        match self.position(key) {
            Some(i) => {
                proof {
                    lemma_entries_map_value(self.entries@, i as int);
                }
                true
            },
            None => false,
        }
    }

    /// The value stored under this key, if any.
    pub fn get(&self, key: &str) -> (r: Option<&V>)
        requires
            self.wf(),
        ensures
            match r {
                Some(v) => self@.contains_key(key@) && *v == self@[key@],
                None => !self@.contains_key(key@),
            },
    {
        match self.position(key) {
            Some(i) => {
                proof {
                    lemma_entries_map_value(self.entries@, i as int);
                }
                Some(&self.entries[i].1)
            },
            None => None,
        }
    }

    /// Store `v` under `key`, replacing any value stored there; a new key
    /// goes at the end, an existing one keeps its place.
    pub fn insert(&mut self, key: String, v: V)
        requires
            old(self).wf(),
        ensures
            final(self).wf(),
            final(self)@ == old(self)@.insert(key@, v),
    {
        match self.position(key.as_str()) {
            Some(i) => {
                let e = (key, v);
                proof {
                    lemma_entries_map_update(self.entries@, i as int, e);
                }
                self.entries.set(i, e);
            },
            None => {
                proof {
                    assert forall|j: int| 0 <= j < self.entries@.len() implies self.entries@[j].0@
                        != key@ by {
                        lemma_entries_map_dom(self.entries@, key@);
                    }
                }
                let e = (key, v);
                proof {
                    lemma_entries_map_push(self.entries@, e);
                }
                self.entries.push(e);
            },
        }
    }

    /// Remove the entry at position `i`, handing it back.
    pub fn remove_at(&mut self, i: usize) -> (e: (String, V))
        requires
            old(self).wf(),
            i < old(self).entries().len(),
        ensures
            final(self).wf(),
            e == old(self).entries()[i as int],
            final(self).entries() == old(self).entries().remove(i as int),
            final(self)@ == old(self)@.remove(e.0@),
    {
        proof {
            lemma_entries_map_remove(self.entries@, i as int);
        }
        self.entries.remove(i)
    }

    /// Remove the entry with this key, handing back its value.
    pub fn remove(&mut self, key: &str) -> (r: Option<V>)
        requires
            old(self).wf(),
        ensures
            final(self).wf(),
            final(self)@ == old(self)@.remove(key@),
            match r {
                Some(v) => old(self)@.contains_key(key@) && v == old(self)@[key@],
                None => !old(self)@.contains_key(key@),
            },
    {
        match self.position(key) {
            Some(i) => {
                proof {
                    lemma_entries_map_value(self.entries@, i as int);
                }
                let (_, v) = self.remove_at(i);
                Some(v)
            },
            None => {
                assert(self@.remove(key@) =~= self@);
                None
            },
        }
    }
}

} // verus!
