//! A small map from names to values, kept as a list of entries.
use vstd::prelude::*;
use vstd::string::*;

verus! {

/// A finite map whose keys are strings. A key is looked up by its
/// characters; where the list holds a key more than once, the last entry
/// counts.
#[derive(Debug)]
pub struct StrMap<V> {
    entries: Vec<(String, V)>,
}

/// The map that a list of entries stands for.
pub open spec fn entries_map<V>(entries: Seq<(String, V)>) -> Map<Seq<char>, V>
    decreases entries.len(),
{
    if entries.len() == 0 {
        Map::empty()
    } else {
        entries_map(entries.drop_last()).insert(entries.last().0@, entries.last().1)
    }
}

/// The entries whose key is not `key`, in their order.
pub open spec fn entries_without<V>(entries: Seq<(String, V)>, key: Seq<char>) -> Seq<(String, V)>
    decreases entries.len(),
{
    if entries.len() == 0 {
        Seq::empty()
    } else if entries.last().0@ == key {
        entries_without(entries.drop_last(), key)
    } else {
        entries_without(entries.drop_last(), key).push(entries.last())
    }
}

proof fn lemma_absent<V>(entries: Seq<(String, V)>, key: Seq<char>)
    requires
        forall|j: int| 0 <= j < entries.len() ==> entries[j].0@ != key,
    ensures
        !entries_map(entries).dom().contains(key),
    decreases entries.len(),
{
    if entries.len() > 0 {
        lemma_absent(entries.drop_last(), key);
    }
}

proof fn lemma_last_entry<V>(entries: Seq<(String, V)>, key: Seq<char>, i: int)
    requires
        0 <= i < entries.len(),
        entries[i].0@ == key,
        forall|j: int| i < j < entries.len() ==> entries[j].0@ != key,
    ensures
        entries_map(entries).dom().contains(key),
        entries_map(entries)[key] == entries[i].1,
    decreases entries.len(),
{
    if i < entries.len() - 1 {
        lemma_last_entry(entries.drop_last(), key, i);
    }
}

proof fn lemma_replace<V>(entries: Seq<(String, V)>, i: int, entry: (String, V))
    requires
        0 <= i < entries.len(),
        entries[i].0@ == entry.0@,
        forall|j: int| i < j < entries.len() ==> entries[j].0@ != entry.0@,
    ensures
        entries_map(entries.update(i, entry)) == entries_map(entries).insert(entry.0@, entry.1),
    decreases entries.len(),
{
    let updated = entries.update(i, entry);
    if i == entries.len() - 1 {
        assert(updated.drop_last() =~= entries.drop_last());
        assert(entries_map(updated) =~= entries_map(entries).insert(entry.0@, entry.1));
    } else {
        lemma_replace(entries.drop_last(), i, entry);
        assert(updated.drop_last() =~= entries.drop_last().update(i, entry));
        assert(updated.last() == entries.last());
        assert(entries_map(updated) =~= entries_map(entries).insert(entry.0@, entry.1));
    }
}

proof fn lemma_without<V>(entries: Seq<(String, V)>, key: Seq<char>)
    ensures
        entries_map(entries_without(entries, key)) == entries_map(entries).remove(key),
    decreases entries.len(),
{
    if entries.len() == 0 {
        assert(entries_map(entries).remove(key) =~= Map::empty());
    } else {
        lemma_without(entries.drop_last(), key);
        let rest = entries_without(entries.drop_last(), key);
        if entries.last().0@ == key {
            assert(entries_map(rest) =~= entries_map(entries).remove(key));
        } else {
            assert(rest.push(entries.last()).drop_last() =~= rest);
            assert(entries_map(rest.push(entries.last())) =~= entries_map(entries).remove(key));
        }
    }
}

proof fn lemma_without_step<V>(entries: Seq<(String, V)>, key: Seq<char>, n: int)
    requires
        0 <= n < entries.len(),
    ensures
        entries_without(entries.take(n + 1), key) == if entries[n].0@ == key {
            entries_without(entries.take(n), key)
        } else {
            entries_without(entries.take(n), key).push(entries[n])
        },
{
    assert(entries.take(n + 1).drop_last() =~= entries.take(n));
}

impl<V> View for StrMap<V> {
    type V = Map<Seq<char>, V>;

    closed spec fn view(&self) -> Map<Seq<char>, V> {
        entries_map(self.entries@)
    }
}

impl<V> StrMap<V> {
    /// The empty map.
    pub fn new() -> (r: Self)
        ensures
            r@ == Map::<Seq<char>, V>::empty(),
    {
        StrMap { entries: Vec::new() }
    }

    /// The index of the entry that counts for `key`, if the map has the key.
    fn find(&self, key: &str) -> (r: Option<usize>)
        ensures
            match r {
                Some(i) => i < self.entries.len() && self.entries[i as int].0@ == key@
                    && self@.dom().contains(key@) && self@[key@] == self.entries[i as int].1
                    && forall|j: int| i < j < self.entries.len() ==> self.entries[j].0@ != key@,
                None => !self@.dom().contains(key@),
            },
    {
        let mut i = self.entries.len();
        while i > 0
            invariant
                i <= self.entries.len(),
                forall|j: int| i <= j < self.entries.len() ==> self.entries[j].0@ != key@,
            decreases i,
        {
            i -= 1;
            if self.entries[i].0.as_str().eq(key) {
                proof {
                    lemma_last_entry(self.entries@, key@, i as int);
                }
                return Some(i);
            }
        }
        proof {
            lemma_absent(self.entries@, key@);
        }
        None
    }

    /// Tells whether the map has the key.
    pub fn contains_key(&self, key: &str) -> (r: bool)
        ensures
            r == self@.dom().contains(key@),
    {
        self.find(key).is_some()
    }

    /// The value bound to the key, if the map has the key.
    pub fn get(&self, key: &str) -> (r: Option<&V>)
        ensures
            match r {
                Some(value) => self@.dom().contains(key@) && *value == self@[key@],
                None => !self@.dom().contains(key@),
            },
    {
        match self.find(key) {
            Some(i) => Some(&self.entries[i].1),
            None => None,
        }
    }

    /// Binds the key to the value; an earlier binding of the key is lost.
    pub fn insert(&mut self, key: String, value: V)
        ensures
            final(self)@ == old(self)@.insert(key@, value),
    {
        match self.find(key.as_str()) {
            Some(i) => {
                proof {
                    lemma_replace(self.entries@, i as int, (key, value));
                }
                self.entries[i] = (key, value);
            },
            None => {
                assert(self.entries@.push((key, value)).drop_last() =~= self.entries@);
                self.entries.push((key, value));
            },
        }
    }

    /// Takes the key out of the map; a map without the key stays as it is.
    pub fn remove(&mut self, key: &str)
        ensures
            final(self)@ == old(self)@.remove(key@),
    {
        let ghost before = self.entries@;
        let mut i: usize = 0;
        let ghost mut seen: int = 0;
        assert(before.take(0) =~= Seq::empty());
        assert(before.skip(0) =~= before);
        while i < self.entries.len()
            invariant
                0 <= seen <= before.len(),
                i <= self.entries.len(),
                i == entries_without(before.take(seen), key@).len(),
                self.entries@ == entries_without(before.take(seen), key@) + before.skip(seen),
            decreases self.entries.len() - i,
        {
            proof {
                assert(self.entries@[i as int] == before.skip(seen)[0]);
                lemma_without_step(before, key@, seen);
            }
            if self.entries[i].0.as_str().eq(key) {
                self.entries.remove(i);
                assert(self.entries@ =~= entries_without(before.take(seen + 1), key@) + before.skip(
                    seen + 1,
                ));
            } else {
                assert(self.entries@ =~= entries_without(before.take(seen + 1), key@) + before.skip(
                    seen + 1,
                ));
                i += 1;
            }
            proof {
                seen = seen + 1;
            }
        }
        proof {
            assert(seen == before.len()) by {
                if seen < before.len() {
                    assert(self.entries@.len() == i + before.skip(seen).len());
                }
            }
            assert(before.take(seen) =~= before);
            assert(self.entries@ =~= entries_without(before, key@));
            lemma_without(before, key@);
        }
    }
}

} // verus!
