//! An insertion-ordered mapping from strings to strings with unique keys, as
//! used for environment variables, labels, metadata and volume bindings.

use vstd::prelude::*;
use crate::strings::str_eq;

verus! {

/// Whether some pair of the sequence has the given key.
pub open spec fn has_key(pairs: Seq<(Seq<char>, Seq<char>)>, key: Seq<char>) -> bool {
    exists|i: int| 0 <= i < pairs.len() && (#[trigger] pairs[i]).0 == key
}

/// The position of the first pair with the given key.
pub open spec fn index_of_key(pairs: Seq<(Seq<char>, Seq<char>)>, key: Seq<char>) -> int {
    choose|i: int| 0 <= i < pairs.len() && (#[trigger] pairs[i]).0 == key
}

/// No key occurs in two pairs.
pub open spec fn keys_distinct(pairs: Seq<(Seq<char>, Seq<char>)>) -> bool {
    forall|i: int, j: int|
        0 <= i < pairs.len() && 0 <= j < pairs.len() && (#[trigger] pairs[i]).0 == (
        #[trigger] pairs[j]).0 ==> i == j
}

/// The mapping that a sequence of pairs stands for.
pub open spec fn pairs_to_map(pairs: Seq<(Seq<char>, Seq<char>)>) -> Map<Seq<char>, Seq<char>> {
    Map::new(
        |k: Seq<char>| has_key(pairs, k),
        |k: Seq<char>| pairs[index_of_key(pairs, k)].1,
    )
}

/// The texts of a list of owned pairs.
pub open spec fn spec_pairs(entries: Seq<(String, String)>) -> Seq<(Seq<char>, Seq<char>)> {
    Seq::new(entries.len(), |i: int| (entries[i].0@, entries[i].1@))
}

/// An ordered mapping from strings to strings. Keys are unique; a key keeps the
/// place at which it was first inserted.
#[derive(Debug, PartialEq, Eq)]
pub struct StringMap {
    entries: Vec<(String, String)>,
}

impl View for StringMap {
    type V = Map<Seq<char>, Seq<char>>;

    closed spec fn view(&self) -> Map<Seq<char>, Seq<char>> {
        pairs_to_map(self.pairs())
    }
}

impl StringMap {
    /// The pairs of the mapping, in the order in which their keys were inserted.
    pub closed spec fn pairs(&self) -> Seq<(Seq<char>, Seq<char>)> {
        spec_pairs(self.entries@)
    }

    /// Moves the entries out, leaving the mapping empty.
    fn take_entries(&mut self) -> (entries: Vec<(String, String)>)
        ensures
            entries == old(self).entries,
            final(self).entries@.len() == 0,
    {
        let mut taken = StringMap { entries: Vec::new() };
        core::mem::swap(self, &mut taken);
        taken.entries
    }

    /// Keys are unique.
    #[verifier::type_invariant]
    pub closed spec fn wf(&self) -> bool {
        keys_distinct(self.pairs())
    }

    /// In a well-formed mapping no key comes twice.
    pub proof fn lemma_keys_distinct(&self)
        requires
            self.wf(),
        ensures
            keys_distinct(self.pairs()),
    {
    }

    /// The view is the mapping of the pairs.
    pub proof fn lemma_view(&self)
        ensures
            self@ == pairs_to_map(self.pairs()),
    {
    }

    /// An empty mapping.
    pub fn new() -> (m: Self)
        ensures
            m.pairs() == Seq::<(Seq<char>, Seq<char>)>::empty(),
            m@ == Map::<Seq<char>, Seq<char>>::empty(),
            m.wf(),
    {
        let m = StringMap { entries: Vec::new() };
        assert(m.pairs() =~= Seq::<(Seq<char>, Seq<char>)>::empty());
        assert(m@ =~= Map::<Seq<char>, Seq<char>>::empty());
        m
    }

    /// The number of keys.
    pub fn len(&self) -> (n: usize)
        ensures
            n == self.pairs().len(),
            self.wf(),
    {
        proof {
            use_type_invariant(self);
        }
        self.entries.len()
    }

    /// Whether the mapping holds no key.
    pub fn is_empty(&self) -> (empty: bool)
        ensures
            empty == (self.pairs().len() == 0),
            empty == (self@ == Map::<Seq<char>, Seq<char>>::empty()),
    {
        let empty = self.entries.len() == 0;
        proof {
            if empty {
                assert(self@ =~= Map::<Seq<char>, Seq<char>>::empty());
            } else {
                assert(self.pairs()[0].0 == self.pairs()[0].0);
                assert(has_key(self.pairs(), self.pairs()[0].0));
                assert(self@.contains_key(self.pairs()[0].0));
            }
        }
        empty
    }

    /// The key at a position of the insertion order.
    pub fn key_at(&self, i: usize) -> (key: &String)
        requires
            i < self.pairs().len(),
        ensures
            key@ == self.pairs()[i as int].0,
    {
        &self.entries[i].0
    }

    /// The value at a position of the insertion order.
    pub fn value_at(&self, i: usize) -> (value: &String)
        requires
            i < self.pairs().len(),
        ensures
            value@ == self.pairs()[i as int].1,
    {
        &self.entries[i].1
    }

    /// The position of a key, if the mapping holds it.
    fn find(&self, key: &str) -> (found: Option<usize>)
        ensures
            match found {
                Some(i) => i < self.pairs().len() && self.pairs()[i as int].0 == key@,
                None => !has_key(self.pairs(), key@),
            },
    {
        let mut i: usize = 0;
        while i < self.entries.len()
            invariant
                i <= self.entries.len(),
                forall|j: int| 0 <= j < i ==> (#[trigger] self.pairs()[j]).0 != key@,
            decreases self.entries.len() - i,
        {
            if str_eq(self.entries[i].0.as_str(), key) {
                return Some(i);
            }
            i += 1;
        }
        None
    }

    /// Whether the mapping holds the key.
    pub fn contains_key(&self, key: &str) -> (held: bool)
        ensures
            held == self@.contains_key(key@),
            held == has_key(self.pairs(), key@),
    {
        self.find(key).is_some()
    }

    /// The value of a key, if the mapping holds it.
    pub fn get(&self, key: &str) -> (value: Option<&String>)
        ensures
            match value {
                Some(v) => self@.contains_key(key@) && v@ == self@[key@],
                None => !self@.contains_key(key@),
            },
    {
        proof {
            use_type_invariant(self);
        }
        match self.find(key) {
            Some(i) => {
                proof {
                    lemma_value_at(self.pairs(), i as int);
                }
                Some(&self.entries[i].1)
            },
            None => None,
        }
    }

    /// Binds the key to the value. A key that is already held keeps its place
    /// and gets the new value; a new key goes to the end. Returns the value
    /// that the key had before.
    pub fn insert(&mut self, key: String, value: String) -> (previous: Option<String>)
        ensures
            final(self).wf(),
            final(self)@ == old(self)@.insert(key@, value@),
            match previous {
                Some(p) => old(self)@.contains_key(key@) && p@ == old(self)@[key@]
                    && final(self).pairs() == old(self).pairs().update(
                    index_of_key(old(self).pairs(), key@),
                    (key@, value@),
                ),
                None => !old(self)@.contains_key(key@) && final(self).pairs() == old(self).pairs().push((key@, value@)),
            },
    {
        proof {
            use_type_invariant(&*self);
        }
        let ghost before = self.pairs();
        let found = self.find(key.as_str());
        let mut entries = self.take_entries();
        match found {
            Some(i) => {
                proof {
                    lemma_value_at(before, i as int);
                }
                let old_value = entries[i].1.clone();
                let ghost pair = (key@, value@);
                entries.set(i, (key, value));
                proof {
                    assert(spec_pairs(entries@) =~= before.update(i as int, pair));
                    lemma_update_keeps_keys(before, i as int, pair.1);
                }
                self.entries = entries;
                Some(old_value)
            },
            None => {
                let ghost pair = (key@, value@);
                entries.push((key, value));
                proof {
                    assert(spec_pairs(entries@) =~= before.push(pair));
                    lemma_push_new_key(before, pair);
                }
                self.entries = entries;
                None
            },
        }
    }

    /// Takes the key out. Returns the value that it had.
    pub fn remove(&mut self, key: &str) -> (previous: Option<String>)
        ensures
            final(self).wf(),
            final(self)@ == old(self)@.remove(key@),
            match previous {
                Some(p) => old(self)@.contains_key(key@) && p@ == old(self)@[key@]
                    && final(self).pairs() == old(self).pairs().remove(
                    index_of_key(old(self).pairs(), key@),
                ),
                None => !old(self)@.contains_key(key@) && final(self).pairs() == old(self).pairs(),
            },
    {
        proof {
            use_type_invariant(&*self);
        }
        let ghost before = self.pairs();
        match self.find(key) {
            Some(i) => {
                proof {
                    lemma_value_at(before, i as int);
                }
                let mut entries = self.take_entries();
                let removed = entries.remove(i);
                proof {
                    assert(spec_pairs(entries@) =~= before.remove(i as int));
                    lemma_remove_key(before, i as int);
                }
                self.entries = entries;
                Some(removed.1)
            },
            None => {
                proof {
                    assert(self@ =~= old(self)@.remove(key@));
                }
                None
            },
        }
    }

    /// The mapping of a list of pairs, in the order of the list. Where a key
    /// comes twice, its place is that of the first and its value that of the
    /// last.
    pub fn from_pairs(list: Vec<(String, String)>) -> (map: Self)
        ensures
            map.wf(),
            keys_distinct(spec_pairs(list@)) ==> map.pairs() == spec_pairs(list@) && map@
                == pairs_to_map(spec_pairs(list@)),
    {
        let mut map = StringMap::new();
        let mut i: usize = 0;
        let ghost all = spec_pairs(list@);
        assert(all.subrange(0, 0) =~= Seq::<(Seq<char>, Seq<char>)>::empty());
        while i < list.len()
            invariant
                i <= list.len(),
                all == spec_pairs(list@),
                map.wf(),
                keys_distinct(all) ==> map.pairs() == all.subrange(0, i as int),
            decreases list.len() - i,
        {
            let ghost before = map.pairs();
            proof {
                map.lemma_view();
                if keys_distinct(all) {
                    if has_key(before, all[i as int].0) {
                        let j = index_of_key(before, all[i as int].0);
                        assert(all[j].0 == all[i as int].0);
                    }
                }
            }
            let _ = map.insert(list[i].0.clone(), list[i].1.clone());
            proof {
                if keys_distinct(all) {
                    assert(map.pairs() =~= all.subrange(0, i + 1));
                }
            }
            i += 1;
        }
        proof {
            assert(all.subrange(0, all.len() as int) =~= all);
            map.lemma_view();
        }
        map
    }

    /// The pairs as owned strings, in insertion order.
    pub fn to_pairs(&self) -> (list: Vec<(String, String)>)
        ensures
            list@.len() == self.pairs().len(),
            forall|i: int|
                0 <= i < list@.len() ==> (#[trigger] list@[i]).0@ == self.pairs()[i].0 && list@[i].1@
                    == self.pairs()[i].1,
    {
        let mut list: Vec<(String, String)> = Vec::new();
        let mut i: usize = 0;
        while i < self.entries.len()
            invariant
                i <= self.entries.len(),
                list@.len() == i,
                forall|j: int|
                    0 <= j < i ==> (#[trigger] list@[j]).0@ == self.pairs()[j].0 && list@[j].1@
                        == self.pairs()[j].1,
            decreases self.entries.len() - i,
        {
            list.push((self.entries[i].0.clone(), self.entries[i].1.clone()));
            i += 1;
        }
        list
    }
}

impl Clone for StringMap {
    /// A copy with the same pairs in the same order.
    fn clone(&self) -> (copy: Self)
        ensures
            copy.pairs() == self.pairs(),
            copy@ == self@,
            copy.wf(),
    {
        proof {
            use_type_invariant(self);
        }
        let mut entries: Vec<(String, String)> = Vec::new();
        let mut i: usize = 0;
        while i < self.entries.len()
            invariant
                i <= self.entries.len(),
                entries@.len() == i,
                forall|j: int| 0 <= j < i ==> entries@[j] == self.entries@[j],
                self.wf(),
            decreases self.entries.len() - i,
        {
            entries.push((self.entries[i].0.clone(), self.entries[i].1.clone()));
            i += 1;
        }
        assert(entries@ =~= self.entries@);
        StringMap { entries }
    }
}

/// With distinct keys, the mapping binds each key to the value beside it.
pub proof fn lemma_value_at(pairs: Seq<(Seq<char>, Seq<char>)>, i: int)
    requires
        keys_distinct(pairs),
        0 <= i < pairs.len(),
    ensures
        pairs_to_map(pairs).contains_key(pairs[i].0),
        pairs_to_map(pairs)[pairs[i].0] == pairs[i].1,
        index_of_key(pairs, pairs[i].0) == i,
{
    assert(has_key(pairs, pairs[i].0));
}

/// Replacing the value of a present key keeps the keys distinct and is an
/// insert on the mapping.
proof fn lemma_update_keeps_keys(pairs: Seq<(Seq<char>, Seq<char>)>, i: int, value: Seq<char>)
    requires
        keys_distinct(pairs),
        0 <= i < pairs.len(),
    ensures
        keys_distinct(pairs.update(i, (pairs[i].0, value))),
        pairs_to_map(pairs.update(i, (pairs[i].0, value))) == pairs_to_map(pairs).insert(
            pairs[i].0,
            value,
        ),
{
    let key = pairs[i].0;
    let after = pairs.update(i, (key, value));
    assert forall|a: int, b: int|
        0 <= a < after.len() && 0 <= b < after.len() && (#[trigger] after[a]).0 == (
        #[trigger] after[b]).0 implies a == b by {
        assert(after[a].0 == pairs[a].0);
        assert(after[b].0 == pairs[b].0);
    }
    assert forall|k: Seq<char>| has_key(after, k) == (has_key(pairs, k) || k == key) by {
        if has_key(after, k) {
            let j = index_of_key(after, k);
            assert(pairs[j].0 == k);
        }
        if has_key(pairs, k) {
            let j = index_of_key(pairs, k);
            assert(after[j].0 == k);
        }
        if k == key {
            assert(after[i].0 == k);
        }
    }
    assert forall|k: Seq<char>| has_key(after, k) implies #[trigger] pairs_to_map(after)[k]
        == pairs_to_map(pairs).insert(key, value)[k] by {
        let j = index_of_key(after, k);
        lemma_value_at(after, j);
        if k != key {
            assert(pairs[j].0 == k);
            lemma_value_at(pairs, j);
        }
    }
    assert(pairs_to_map(after) =~= pairs_to_map(pairs).insert(key, value));
}

/// Appending a pair with a key that is not yet held keeps the keys distinct
/// and is an insert on the mapping.
proof fn lemma_push_new_key(pairs: Seq<(Seq<char>, Seq<char>)>, pair: (Seq<char>, Seq<char>))
    requires
        keys_distinct(pairs),
        !has_key(pairs, pair.0),
    ensures
        keys_distinct(pairs.push(pair)),
        pairs_to_map(pairs.push(pair)) == pairs_to_map(pairs).insert(pair.0, pair.1),
{
    let after = pairs.push(pair);
    assert forall|a: int, b: int|
        0 <= a < after.len() && 0 <= b < after.len() && (#[trigger] after[a]).0 == (
        #[trigger] after[b]).0 implies a == b by {
        if a < pairs.len() {
            assert(after[a] == pairs[a]);
        }
        if b < pairs.len() {
            assert(after[b] == pairs[b]);
        }
    }
    assert forall|k: Seq<char>| has_key(after, k) == (has_key(pairs, k) || k == pair.0) by {
        if has_key(after, k) {
            let j = index_of_key(after, k);
            if j < pairs.len() {
                assert(pairs[j].0 == k);
            }
        }
        if has_key(pairs, k) {
            let j = index_of_key(pairs, k);
            assert(after[j].0 == k);
        }
        if k == pair.0 {
            assert(after[pairs.len() as int].0 == k);
        }
    }
    assert forall|k: Seq<char>| has_key(after, k) implies #[trigger] pairs_to_map(after)[k]
        == pairs_to_map(pairs).insert(pair.0, pair.1)[k] by {
        let j = index_of_key(after, k);
        lemma_value_at(after, j);
        if k != pair.0 {
            assert(pairs[j].0 == k);
            lemma_value_at(pairs, j);
        }
    }
    assert(pairs_to_map(after) =~= pairs_to_map(pairs).insert(pair.0, pair.1));
}

/// Taking the pair of a key out keeps the keys distinct and is a remove on the
/// mapping.
proof fn lemma_remove_key(pairs: Seq<(Seq<char>, Seq<char>)>, i: int)
    requires
        keys_distinct(pairs),
        0 <= i < pairs.len(),
    ensures
        keys_distinct(pairs.remove(i)),
        pairs_to_map(pairs.remove(i)) == pairs_to_map(pairs).remove(pairs[i].0),
{
    let key = pairs[i].0;
    let after = pairs.remove(i);
    assert forall|a: int| 0 <= a < after.len() implies #[trigger] after[a] == pairs[if a < i {
        a
    } else {
        a + 1
    }] by {}
    assert forall|a: int, b: int|
        0 <= a < after.len() && 0 <= b < after.len() && (#[trigger] after[a]).0 == (
        #[trigger] after[b]).0 implies a == b by {
        let a2 = if a < i { a } else { a + 1 };
        let b2 = if b < i { b } else { b + 1 };
        assert(pairs[a2].0 == pairs[b2].0);
    }
    assert forall|k: Seq<char>| has_key(after, k) == (has_key(pairs, k) && k != key) by {
        if has_key(after, k) {
            let j = index_of_key(after, k);
            let j2 = if j < i { j } else { j + 1 };
            assert(pairs[j2].0 == k);
            assert(j2 != i);
        }
        if has_key(pairs, k) && k != key {
            let j = index_of_key(pairs, k);
            let j2 = if j < i { j } else { j - 1 };
            assert(after[j2].0 == k);
        }
    }
    assert forall|k: Seq<char>| has_key(after, k) implies #[trigger] pairs_to_map(after)[k]
        == pairs_to_map(pairs).remove(key)[k] by {
        let j = index_of_key(after, k);
        lemma_value_at(after, j);
        let j2 = if j < i { j } else { j + 1 };
        assert(pairs[j2].0 == k);
        lemma_value_at(pairs, j2);
    }
    assert(pairs_to_map(after) =~= pairs_to_map(pairs).remove(key));
}

} // verus!
