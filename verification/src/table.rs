//! A map from names to values, kept as a list of entries with distinct names.

use vstd::prelude::*;

verus! {

/// No two entries carry the same name.
pub open spec fn keys_distinct<V>(s: Seq<(String, V)>) -> bool {
    forall|i: int, j: int| 0 <= i < s.len() && 0 <= j < s.len() && i != j ==> s[i].0@ != s[j].0@
}

/// Some entry carries the name `k`.
pub open spec fn has_key<V>(s: Seq<(String, V)>, k: Seq<char>) -> bool {
    exists|i: int| 0 <= i < s.len() && #[trigger] s[i].0@ == k
}

/// The map that a list of entries stands for: each name to the view of its
/// value.
pub open spec fn entries_map<V: View>(s: Seq<(String, V)>) -> Map<Seq<char>, V::V> {
    Map::new(
        |k: Seq<char>| has_key(s, k),
        |k: Seq<char>| s[choose|i: int| 0 <= i < s.len() && #[trigger] s[i].0@ == k].1@,
    )
}

/// In a list with distinct names, each entry gives the map's value at its
/// name.
pub proof fn lemma_entries_map_at<V: View>(s: Seq<(String, V)>, i: int)
    requires
        keys_distinct(s),
        0 <= i < s.len(),
    ensures
        entries_map(s).contains_key(s[i].0@),
        entries_map(s)[s[i].0@] == s[i].1@,
{
    let k = s[i].0@;
    assert(has_key(s, k));
    let j = choose|j: int| 0 <= j < s.len() && #[trigger] s[j].0@ == k;
    assert(j == i);
}

/// A map from names to values.
#[derive(Debug)]
pub struct Table<V> {
    entries: Vec<(String, V)>,
}

impl<V: View> View for Table<V> {
    type V = Map<Seq<char>, V::V>;

    closed spec fn view(&self) -> Self::V {
        entries_map(self.entries@)
    }
}

impl<V> Table<V> {
    #[verifier::type_invariant]
    spec fn distinct(&self) -> bool {
        keys_distinct(self.entries@)
    }
}

impl<V: View> Table<V> {
    /// An empty table.
    pub fn new() -> (t: Self)
        ensures
            t@ == Map::<Seq<char>, V::V>::empty(),
    {
        let t = Table { entries: Vec::new() };
        assert(t@ =~= Map::<Seq<char>, V::V>::empty());
        t
    }

    /// The position of the entry named `key`, if there is one.
    fn find(&self, key: &String) -> (pos: Option<usize>)
        ensures
            match pos {
                Some(i) => i < self.entries@.len() && self.entries@[i as int].0@ == key@,
                None => !has_key(self.entries@, key@),
            },
    {
        let mut i: usize = 0;
        while i < self.entries.len()
            invariant
                i <= self.entries@.len(),
                forall|j: int| 0 <= j < i ==> self.entries@[j].0@ != key@,
            decreases self.entries@.len() - i,
        {
            if self.entries[i].0 == *key {
                return Some(i);
            }
            i = i + 1;
        }
        None
    }

    /// The value named `key`, if there is one.
    pub fn get(&self, key: &String) -> (value: Option<&V>)
        ensures
            match value {
                Some(v) => self@.contains_key(key@) && v@ == self@[key@],
                None => !self@.contains_key(key@),
            },
    {
        proof {
            use_type_invariant(self);
        }
        match self.find(key) {
            Some(i) => {
                proof {
                    lemma_entries_map_at(self.entries@, i as int);
                }
                Some(&self.entries[i].1)
            },
            None => None,
        }
    }

    /// Names `value` by `key`, in place of what `key` named before.
    pub fn insert(&mut self, key: String, value: V)
        ensures
            final(self)@ == old(self)@.insert(key@, value@),
    {
        proof {
            use_type_invariant(&*self);
        }
        let ghost before = self.entries@;
        let ghost k = key@;
        let ghost v = value@;
        match self.find(&key) {
            Some(i) => {
                let mut entries: Vec<(String, V)> = Vec::new();
                std::mem::swap(&mut entries, &mut self.entries);
                entries.set(i, (key, value));
                self.entries = entries;
                proof {
                    let after = self.entries@;
                    assert(keys_distinct(after));
                    assert forall|q: Seq<char>| has_key(after, q) == (has_key(before, q) || q == k) by {
                        if has_key(before, q) {
                            let j = choose|j: int| 0 <= j < before.len() && #[trigger] before[j].0@ == q;
                            assert(after[j].0@ == q);
                        }
                        if has_key(after, q) {
                            let j = choose|j: int| 0 <= j < after.len() && #[trigger] after[j].0@ == q;
                            if j != i {
                                assert(before[j].0@ == q);
                            }
                        }
                    }
                    assert forall|q: Seq<char>| #[trigger] entries_map(after).contains_key(q)
                        implies entries_map(after)[q] == entries_map(before).insert(k, v)[q] by {
                        let j = choose|j: int| 0 <= j < after.len() && #[trigger] after[j].0@ == q;
                        lemma_entries_map_at(after, j);
                        if j != i {
                            lemma_entries_map_at(before, j);
                        }
                    }
                    assert(entries_map(after) =~= entries_map(before).insert(k, v));
                }
            },
            None => {
                let mut entries: Vec<(String, V)> = Vec::new();
                std::mem::swap(&mut entries, &mut self.entries);
                entries.push((key, value));
                self.entries = entries;
                proof {
                    let after = self.entries@;
                    assert(after.len() == before.len() + 1);
                    assert(keys_distinct(after));
                    assert forall|q: Seq<char>| has_key(after, q) == (has_key(before, q) || q == k) by {
                        if has_key(before, q) {
                            let j = choose|j: int| 0 <= j < before.len() && #[trigger] before[j].0@ == q;
                            assert(after[j].0@ == q);
                        }
                        if q == k {
                            assert(after[before.len() as int].0@ == q);
                        }
                    }
                    assert forall|q: Seq<char>| #[trigger] entries_map(after).contains_key(q)
                        implies entries_map(after)[q] == entries_map(before).insert(k, v)[q] by {
                        let j = choose|j: int| 0 <= j < after.len() && #[trigger] after[j].0@ == q;
                        lemma_entries_map_at(after, j);
                        if j < before.len() {
                            lemma_entries_map_at(before, j);
                        }
                    }
                    assert(entries_map(after) =~= entries_map(before).insert(k, v));
                }
            },
        }
    }

    /// Takes out the value named `key`, if there is one.
    pub fn remove(&mut self, key: &String) -> (removed: Option<V>)
        ensures
            final(self)@ == old(self)@.remove(key@),
            match removed {
                Some(v) => old(self)@.contains_key(key@) && v@ == old(self)@[key@],
                None => !old(self)@.contains_key(key@),
            },
    {
        proof {
            use_type_invariant(&*self);
        }
        let ghost before = self.entries@;
        let ghost k = key@;
        match self.find(key) {
            Some(i) => {
                proof {
                    lemma_entries_map_at(before, i as int);
                }
                let mut entries: Vec<(String, V)> = Vec::new();
                std::mem::swap(&mut entries, &mut self.entries);
                let (_name, value) = entries.remove(i);
                self.entries = entries;
                proof {
                    let after = self.entries@;
                    assert(after =~= before.remove(i as int));
                    assert(keys_distinct(after));
                    assert forall|q: Seq<char>| has_key(after, q) == (has_key(before, q) && q != k) by {
                        if has_key(before, q) && q != k {
                            let j = choose|j: int| 0 <= j < before.len() && #[trigger] before[j].0@ == q;
                            if j < i {
                                assert(after[j].0@ == q);
                            } else {
                                assert(j != i);
                                assert(after[j - 1].0@ == q);
                            }
                        }
                        if has_key(after, q) {
                            let j = choose|j: int| 0 <= j < after.len() && #[trigger] after[j].0@ == q;
                            if j < i {
                                assert(before[j].0@ == q);
                            } else {
                                assert(before[j + 1].0@ == q);
                            }
                        }
                    }
                    assert forall|q: Seq<char>| #[trigger] entries_map(after).contains_key(q)
                        implies entries_map(after)[q] == entries_map(before).remove(k)[q] by {
                        let j = choose|j: int| 0 <= j < after.len() && #[trigger] after[j].0@ == q;
                        lemma_entries_map_at(after, j);
                        if j < i {
                            lemma_entries_map_at(before, j);
                        } else {
                            lemma_entries_map_at(before, j + 1);
                        }
                    }
                    assert(entries_map(after) =~= entries_map(before).remove(k));
                }
                Some(value)
            },
            None => {
                proof {
                    assert(entries_map(before) =~= entries_map(before).remove(k));
                }
                None
            },
        }
    }

    /// The entries of the table, with distinct names, standing for the
    /// table's map.
    pub fn pairs(&self) -> (entries: &Vec<(String, V)>)
        ensures
            keys_distinct(entries@),
            entries_map(entries@) == self@,
    {
        proof {
            use_type_invariant(self);
        }
        &self.entries
    }
}

} // verus!
