//! A table keyed by device id.
//!
//! The plugin keeps two such tables: the devices that are registered with the
//! host, and the cancellation token of every session that is running or about
//! to run. Both are small, so the table is a vector of pairs in which no id
//! occurs twice; its view is the map from id to value.

use vstd::prelude::*;

verus! {

/// Whether `key` is the id of one of `entries`.
spec fn has_key<V>(entries: Seq<(String, V)>, key: Seq<char>) -> bool {
    exists|i: int| 0 <= i < entries.len() && (#[trigger] entries[i]).0@ == key
}

/// A position at which `key` stands in `entries`, if it stands there at all.
spec fn position_of<V>(entries: Seq<(String, V)>, key: Seq<char>) -> int {
    choose|i: int| 0 <= i < entries.len() && (#[trigger] entries[i]).0@ == key
}

/// No id occurs twice in `entries`.
spec fn distinct_keys<V>(entries: Seq<(String, V)>) -> bool {
    forall|i: int, j: int|
        0 <= i < j < entries.len() ==> (#[trigger] entries[i]).0@ != (#[trigger] entries[j]).0@
}

/// The map that `entries` stands for.
spec fn as_map<V>(entries: Seq<(String, V)>) -> Map<Seq<char>, V> {
    Map::new(
        |key: Seq<char>| has_key(entries, key),
        |key: Seq<char>| entries[position_of(entries, key)].1,
    )
}

/// Where no id occurs twice, the entry at position `i` is the one that the
/// map holds for its id.
proof fn lemma_entry_in_map<V>(entries: Seq<(String, V)>, i: int)
    requires
        distinct_keys(entries),
        0 <= i < entries.len(),
    ensures
        has_key(entries, entries[i].0@),
        position_of(entries, entries[i].0@) == i,
        as_map(entries).contains_key(entries[i].0@),
        as_map(entries)[entries[i].0@] == entries[i].1,
{
}

/// Appending an entry under a fresh id inserts it into the map.
proof fn lemma_push_inserts<V>(entries: Seq<(String, V)>, key: String, value: V)
    requires
        distinct_keys(entries),
        !has_key(entries, key@),
    ensures
        distinct_keys(entries.push((key, value))),
        as_map(entries.push((key, value))) == as_map(entries).insert(key@, value),
{
    let after = entries.push((key, value));
    assert forall|k: Seq<char>| has_key(after, k) <==> (k == key@ || has_key(entries, k)) by {
        if has_key(entries, k) {
            assert(after[position_of(entries, k)].0@ == k);
        }
        if k == key@ {
            assert(after[entries.len() as int].0@ == k);
        }
    }
    let expected = as_map(entries).insert(key@, value);
    assert forall|k: Seq<char>| has_key(after, k) implies as_map(after)[k] == expected[k] by {
        if k == key@ {
            lemma_entry_in_map(after, entries.len() as int);
        } else {
            lemma_entry_in_map(after, position_of(entries, k));
        }
    }
}

/// Taking out the entry at position `i` removes its id from the map.
proof fn lemma_remove_removes<V>(entries: Seq<(String, V)>, i: int)
    requires
        distinct_keys(entries),
        0 <= i < entries.len(),
    ensures
        distinct_keys(entries.remove(i)),
        !has_key(entries.remove(i), entries[i].0@),
        as_map(entries.remove(i)) == as_map(entries).remove(entries[i].0@),
{
    let after = entries.remove(i);
    let gone = entries[i].0@;
    assert forall|k: Seq<char>| has_key(after, k) <==> (k != gone && has_key(entries, k)) by {
        if k != gone && has_key(entries, k) {
            let p = position_of(entries, k);
            let q = if p < i { p } else { p - 1 };
            assert(after[q].0@ == k);
        }
    }
    let expected = as_map(entries).remove(gone);
    assert forall|k: Seq<char>| has_key(after, k) implies as_map(after)[k] == expected[k] by {
        let p = position_of(after, k);
        lemma_entry_in_map(after, p);
        lemma_entry_in_map(entries, if p < i { p } else { p + 1 });
    }
}

/// Where no id occurs twice, the map has as many ids as there are entries.
proof fn lemma_domain_size<V>(entries: Seq<(String, V)>)
    requires
        distinct_keys(entries),
    ensures
        as_map(entries).dom().finite(),
        as_map(entries).dom().len() == entries.len(),
    decreases entries.len(),
{
    if entries.len() == 0 {
        assert(as_map(entries).dom() =~= Set::<Seq<char>>::empty());
    } else {
        let last = entries.len() - 1;
        lemma_remove_removes(entries, last);
        lemma_entry_in_map(entries, last);
        lemma_domain_size(entries.remove(last));
    }
}

/// A table from device id to `V`.
pub struct IdMap<V> {
    entries: Vec<(String, V)>,
}

impl<V> View for IdMap<V> {
    type V = Map<Seq<char>, V>;

    closed spec fn view(&self) -> Map<Seq<char>, V> {
        as_map(self.entries@)
    }
}

impl<V> IdMap<V> {
    #[verifier::type_invariant]
    spec fn well_formed(&self) -> bool {
        distinct_keys(self.entries@)
    }

    /// The empty table.
    pub fn new() -> (table: Self)
        ensures
            table@ == Map::<Seq<char>, V>::empty(),
    {
        IdMap { entries: Vec::new() }
    }

    /// The position of `key` among the entries, if it is there.
    fn find(&self, key: &String) -> (found: Option<usize>)
        ensures
            found is Some <==> has_key(self.entries@, key@),
            found matches Some(i) ==> i < self.entries@.len() && self.entries@[i as int].0@ == key@,
    {
        let mut i: usize = 0;
        while i < self.entries.len()
            invariant
                i <= self.entries@.len(),
                forall|j: int| 0 <= j < i ==> (#[trigger] self.entries@[j]).0@ != key@,
            decreases self.entries@.len() - i,
        {
            if self.entries[i].0 == *key {
                return Some(i);
            }
            i += 1;
        }
        None
    }

    /// Whether the table holds a value for `key`.
    pub fn contains_key(&self, key: &String) -> (held: bool)
        ensures
            held == self@.contains_key(key@),
    {
        self.find(key).is_some()
    }

    /// The number of ids in the table.
    pub fn len(&self) -> (n: usize)
        ensures
            n == self@.dom().len(),
            self@.dom().finite(),
    {
        proof {
            use_type_invariant(self);
            lemma_domain_size(self.entries@);
        }
        self.entries.len()
    }

    /// Puts `value` under `key`, and hands back the value that was there.
    pub fn insert(&mut self, key: String, value: V) -> (previous: Option<V>)
        ensures
            final(self)@ == old(self)@.insert(key@, value),
            previous == (if old(self)@.contains_key(key@) {
                Some(old(self)@[key@])
            } else {
                None::<V>
            }),
    {
        proof {
            use_type_invariant(&*self);
        }
        let found = self.find(&key);
        let mut entries: Vec<(String, V)> = Vec::new();
        core::mem::swap(&mut self.entries, &mut entries);
        let previous = match found {
            Some(i) => {
                proof {
                    lemma_entry_in_map(entries@, i as int);
                    lemma_remove_removes(entries@, i as int);
                }
                Some(entries.remove(i).1)
            },
            None => None,
        };
        proof {
            lemma_push_inserts(entries@, key, value);
        }
        entries.push((key, value));
        self.entries = entries;
        previous
    }

    /// Takes `key` out of the table, and hands back the value that was there.
    pub fn remove(&mut self, key: &String) -> (previous: Option<V>)
        ensures
            final(self)@ == old(self)@.remove(key@),
            previous == (if old(self)@.contains_key(key@) {
                Some(old(self)@[key@])
            } else {
                None::<V>
            }),
    {
        proof {
            use_type_invariant(&*self);
        }
        match self.find(key) {
            Some(i) => {
                let mut entries: Vec<(String, V)> = Vec::new();
                core::mem::swap(&mut self.entries, &mut entries);
                proof {
                    lemma_entry_in_map(entries@, i as int);
                    lemma_remove_removes(entries@, i as int);
                }
                let taken = entries.remove(i);
                self.entries = entries;
                Some(taken.1)
            },
            None => None,
        }
    }
}

} // verus!
