//! A map from strings to strings, used for HTTP headers and cookie headers.
//!
//! Its view is a `Map` from key text to value text; the entries are kept in
//! insertion order with no key twice.
use vstd::prelude::*;
use crate::text::str_eq;

verus! {

/// The key texts of a list of entries, in order.
pub open spec fn entry_keys(s: Seq<(String, String)>) -> Seq<Seq<char>> {
    s.map_values(|e: (String, String)| e.0@)
}

/// The map that a list of entries with distinct keys stands for.
pub open spec fn entries_map(s: Seq<(String, String)>) -> Map<Seq<char>, Seq<char>> {
    Map::new(
        |k: Seq<char>| entry_keys(s).contains(k),
        |k: Seq<char>| s[entry_keys(s).index_of(k)].1@,
    )
}

/// A map from strings to strings with no key twice.
pub struct StringMap {
    entries: Vec<(String, String)>,
}

impl View for StringMap {
    type V = Map<Seq<char>, Seq<char>>;

    closed spec fn view(&self) -> Map<Seq<char>, Seq<char>> {
        entries_map(self.entries@)
    }
}

/// In a list without repeats, each item is found at its own place.
pub proof fn lemma_index_of_unique(keys: Seq<Seq<char>>, i: int)
    requires
        keys.no_duplicates(),
        0 <= i < keys.len(),
    ensures
        keys.contains(keys[i]),
        keys.index_of(keys[i]) == i,
{
    assert(keys.contains(keys[i]));
}

impl StringMap {
    #[verifier::type_invariant]
    spec fn keys_distinct(&self) -> bool {
        entry_keys(self.entries@).no_duplicates()
    }

    /// The entries in insertion order, as key and value texts.
    pub closed spec fn entries_view(&self) -> Seq<(Seq<char>, Seq<char>)> {
        self.entries@.map_values(|e: (String, String)| (e.0@, e.1@))
    }

    /// An empty map.
    pub fn new() -> (m: StringMap)
        ensures
            m@ == Map::<Seq<char>, Seq<char>>::empty(),
            m.entries_view() == Seq::<(Seq<char>, Seq<char>)>::empty(),
    {
        let m = StringMap { entries: Vec::new() };
        assert(m@ =~= Map::<Seq<char>, Seq<char>>::empty());
        assert(m.entries_view() =~= Seq::<(Seq<char>, Seq<char>)>::empty());
        m
    }

    fn position(&self, key: &str) -> (r: Option<usize>)
        ensures
            r matches Some(i) ==> i < self.entries@.len() && self.entries@[i as int].0@ == key@,
            r is None ==> !entry_keys(self.entries@).contains(key@),
    {
        let mut i: usize = 0;
        while i < self.entries.len()
            invariant
                i <= self.entries@.len(),
                forall|j: int| 0 <= j < i ==> self.entries@[j].0@ != key@,
            decreases self.entries@.len() - i,
        {
            if str_eq(self.entries[i].0.as_str(), key) {
                return Some(i);
            }
            i = i + 1;
        }
        proof {
            if entry_keys(self.entries@).contains(key@) {
                let j = choose|j: int| 0 <= j < entry_keys(self.entries@).len() && entry_keys(self.entries@)[j] == key@;
                assert(self.entries@[j].0@ == key@);
            }
        }
        None
    }

    /// Whether the key is present.
    pub fn contains_key(&self, key: &str) -> (r: bool)
        ensures
            r == self@.contains_key(key@),
    {
        let r = self.position(key);
        proof {
            if let Some(i) = r {
                assert(entry_keys(self.entries@)[i as int] == key@);
            }
        }
        r.is_some()
    }

    /// The value stored under the key.
    pub fn get(&self, key: &str) -> (r: Option<&String>)
        ensures
            r is None <==> !self@.contains_key(key@),
            r matches Some(v) ==> self@.contains_key(key@) && v@ == self@[key@],
    {
        proof {
            use_type_invariant(self);
        }
        match self.position(key) {
            Some(i) => {
                proof {
                    lemma_index_of_unique(entry_keys(self.entries@), i as int);
                }
                Some(&self.entries[i].1)
            },
            None => None,
        }
    }

    /// Stores `value` under `key`, replacing an earlier value. A new key goes
    /// after the existing ones.
    pub fn insert(&mut self, key: &str, value: &str)
        ensures
            final(self)@ == old(self)@.insert(key@, value@),
            old(self)@.contains_key(key@) ==> final(self).entries_view().len() == old(
                self,
            ).entries_view().len(),
            !old(self)@.contains_key(key@) ==> final(self).entries_view() == old(
                self,
            ).entries_view().push((key@, value@)),
    {
        proof {
            use_type_invariant(&*self);
        }
        let k = key.to_owned();
        let v = value.to_owned();
        let ghost old_entries = self.entries@;
        match self.position(key) {
            Some(i) => {
                proof {
                    lemma_index_of_unique(entry_keys(old_entries), i as int);
                }
                let mut entries: Vec<(String, String)> = Vec::new();
                std::mem::swap(&mut entries, &mut self.entries);
                entries.set(i, (k, v));
                assert(entry_keys(entries@) =~= entry_keys(old_entries));
                self.entries = entries;
                proof {
                    assert forall|q: Seq<char>|
                        #![auto]
                        entry_keys(self.entries@).contains(q) implies entries_map(
                        self.entries@,
                    )[q] == entries_map(old_entries).insert(key@, value@)[q] by {
                        let j = entry_keys(self.entries@).index_of(q);
                        if q != key@ {
                            assert(j != i);
                        }
                    }
                    assert(self@ =~= entries_map(old_entries).insert(key@, value@));
                }
            },
            None => {
                let mut entries: Vec<(String, String)> = Vec::new();
                std::mem::swap(&mut entries, &mut self.entries);
                entries.push((k, v));
                assert(entry_keys(entries@) =~= entry_keys(old_entries).push(key@));
                self.entries = entries;
                proof {
                    let ks = entry_keys(self.entries@);
                    assert forall|q: Seq<char>|
                        #![auto]
                        ks.contains(q) implies entries_map(self.entries@)[q] == entries_map(
                            old_entries,
                        ).insert(key@, value@)[q] by {
                        if q == key@ {
                            lemma_index_of_unique(ks, ks.len() - 1);
                        } else {
                            let j = entry_keys(old_entries).index_of(q);
                            assert(entry_keys(old_entries).contains(q)) by {
                                let t = ks.index_of(q);
                                assert(t != ks.len() - 1);
                                assert(entry_keys(old_entries)[t] == q);
                            }
                            lemma_index_of_unique(ks, j);
                        }
                    }
                    assert forall|q: Seq<char>|
                        ks.contains(q) <==> (entry_keys(old_entries).contains(q) || q == key@) by {
                        if ks.contains(q) && q != key@ {
                            let t = ks.index_of(q);
                            assert(t != ks.len() - 1);
                            assert(entry_keys(old_entries)[t] == q);
                        }
                        if entry_keys(old_entries).contains(q) {
                            let t = entry_keys(old_entries).index_of(q);
                            assert(ks[t] == q);
                        }
                        if q == key@ {
                            assert(ks[ks.len() - 1] == q);
                        }
                    }
                    assert(self@ =~= entries_map(old_entries).insert(key@, value@));
                    assert(self.entries_view() =~= old(self).entries_view().push((key@, value@)));
                }
            },
        }
    }

    /// Number of entries.
    pub fn len(&self) -> (r: usize)
        ensures
            r == self@.dom().len(),
            r == self.entries_view().len(),
    {
        proof {
            use_type_invariant(self);
            let ks = entry_keys(self.entries@);
            ks.unique_seq_to_set();
            assert(self@.dom() =~= ks.to_set());
        }
        self.entries.len()
    }

    /// Whether the map has no entry.
    pub fn is_empty(&self) -> (r: bool)
        ensures
            r == (self@.dom().len() == 0),
            r == (self.entries_view().len() == 0),
    {
        self.len() == 0
    }

    /// The key and value of the entry at `i` in insertion order.
    pub fn entry_at(&self, i: usize) -> (r: (&String, &String))
        requires
            i < self.entries_view().len(),
        ensures
            (r.0@, r.1@) == self.entries_view()[i as int],
    {
        (&self.entries[i].0, &self.entries[i].1)
    }
}

impl Clone for StringMap {
    fn clone(&self) -> (r: StringMap)
        ensures
            r@ == self@,
            r.entries_view() == self.entries_view(),
    {
        proof {
            use_type_invariant(self);
        }
        let mut entries: Vec<(String, String)> = Vec::new();
        let mut i: usize = 0;
        while i < self.entries.len()
            invariant
                i <= self.entries@.len(),
                entries@.len() == i,
                forall|j: int|
                    0 <= j < i ==> #[trigger] entries@[j].0@ == self.entries@[j].0@
                        && entries@[j].1@ == self.entries@[j].1@,
            decreases self.entries@.len() - i,
        {
            let k = self.entries[i].0.clone();
            let v = self.entries[i].1.clone();
            entries.push((k, v));
            i = i + 1;
        }
        assert(entry_keys(entries@) =~= entry_keys(self.entries@));
        let r = StringMap { entries };
        assert(r@ =~= self@);
        assert(r.entries_view() =~= self.entries_view());
        r
    }
}

} // verus!
