//! A map from names to values that remembers the order in which the names
//! were first added.

use vstd::prelude::*;
use vstd::string::*;

use crate::text::same_text;

verus! {

/// No name occurs twice among the entries.
pub open spec fn distinct_names<V>(entries: Seq<(Seq<char>, V)>) -> bool {
    forall|i: int, j: int|
        0 <= i < j < entries.len() ==> (#[trigger] entries[i]).0 != (#[trigger] entries[j]).0
}

/// Whether some entry has the given name.
pub open spec fn has_name<V>(entries: Seq<(Seq<char>, V)>, name: Seq<char>) -> bool {
    exists|i: int| 0 <= i < entries.len() && (#[trigger] entries[i]).0 == name
}

/// The place of the entry with the given name, if there is one.
pub open spec fn position<V>(entries: Seq<(Seq<char>, V)>, name: Seq<char>) -> Option<int> {
    if has_name(entries, name) {
        Some(choose|i: int| 0 <= i < entries.len() && (#[trigger] entries[i]).0 == name)
    } else {
        None
    }
}

/// The value stored under the given name, if there is one.
pub open spec fn lookup<V>(entries: Seq<(Seq<char>, V)>, name: Seq<char>) -> Option<V> {
    match position(entries, name) {
        Some(i) => Some(entries[i].1),
        None => None,
    }
}

/// The entries after storing a value under a name: the value of an existing
/// entry is replaced where it stands, a new entry goes to the end.
pub open spec fn upsert<V>(entries: Seq<(Seq<char>, V)>, name: Seq<char>, value: V) -> Seq<
    (Seq<char>, V),
> {
    match position(entries, name) {
        Some(i) => entries.update(i, (name, value)),
        None => entries.push((name, value)),
    }
}

/// Among distinct names, the entry at a place is the one found under its name.
pub proof fn lemma_position_of_entry<V>(entries: Seq<(Seq<char>, V)>, i: int)
    requires
        distinct_names(entries),
        0 <= i < entries.len(),
    ensures
        has_name(entries, entries[i].0),
        position(entries, entries[i].0) == Some(i),
        lookup(entries, entries[i].0) == Some(entries[i].1),
{
}

/// A place that `position` reports holds the name asked for.
pub proof fn lemma_position_is_valid<V>(entries: Seq<(Seq<char>, V)>, name: Seq<char>)
    ensures
        match position(entries, name) {
            Some(i) => 0 <= i < entries.len() && entries[i].0 == name,
            None => forall|i: int| 0 <= i < entries.len() ==> (#[trigger] entries[i]).0 != name,
        },
{
}

/// Storing a value keeps the names distinct; afterwards the name is found
/// and holds the value, and every other name holds what it held before.
pub proof fn lemma_upsert<V>(entries: Seq<(Seq<char>, V)>, name: Seq<char>, value: V)
    requires
        distinct_names(entries),
    ensures
        distinct_names(upsert(entries, name, value)),
        lookup(upsert(entries, name, value), name) == Some(value),
        forall|other: Seq<char>|
            other != name ==> #[trigger] lookup(upsert(entries, name, value), other) == lookup(
                entries,
                other,
            ),
        upsert(entries, name, value).len() == if has_name(entries, name) {
            entries.len()
        } else {
            entries.len() + 1
        },
{
    let after = upsert(entries, name, value);
    lemma_position_is_valid(entries, name);
    let at: int = match position(entries, name) {
        Some(i) => i,
        None => entries.len() as int,
    };
    lemma_position_of_entry(after, at);
    assert forall|other: Seq<char>| other != name implies #[trigger] lookup(after, other)
        == lookup(entries, other) by {
        lemma_position_is_valid(entries, other);
        lemma_position_is_valid(after, other);
        if position(entries, other) is Some {
            lemma_position_of_entry(after, position(entries, other)->0);
        }
    }
}

#[derive(Debug)]
struct Entry<V> {
    name: String,
    value: V,
}

spec fn entries_view<V>(entries: Seq<Entry<V>>) -> Seq<(Seq<char>, V)> {
    Seq::new(entries.len(), |i: int| (entries[i].name@, entries[i].value))
}

/// A map from names to values. Names are compared character by character,
/// no name occurs twice, and the entries stay in the order in which their
/// names were first added.
#[derive(Debug)]
pub struct Table<V> {
    entries: Vec<Entry<V>>,
}

impl<V> View for Table<V> {
    type V = Seq<(Seq<char>, V)>;

    /// The entries in order, each a name with its value.
    closed spec fn view(&self) -> Seq<(Seq<char>, V)> {
        entries_view(self.entries@)
    }
}

impl<V> Table<V> {
    /// Holds of every table: no name occurs twice.
    #[verifier::type_invariant]
    pub open spec fn no_name_twice(self) -> bool {
        distinct_names(self@)
    }

    /// An empty table.
    pub fn new() -> (r: Table<V>)
        ensures
            r@ == Seq::<(Seq<char>, V)>::empty(),
    {
        Table { entries: Vec::new() }
    }

    /// The number of entries.
    pub fn len(&self) -> (r: usize)
        ensures
            r == self@.len(),
    {
        self.entries.len()
    }

    /// Whether the table has no entry.
    pub fn is_empty(&self) -> (r: bool)
        ensures
            r == (self@.len() == 0),
    {
        self.entries.len() == 0
    }

    /// The place of the entry with the given name.
    pub fn position(&self, name: &str) -> (r: Option<usize>)
        ensures
            distinct_names(self@),
            match r {
                Some(i) => position(self@, name@) == Some(i as int) && i < self@.len()
                    && self@[i as int].0 == name@,
                None => position(self@, name@) is None && !has_name(self@, name@),
            },
    {
        proof {
            use_type_invariant(self);
        }
        let mut i: usize = 0;
        while i < self.entries.len()
            invariant
                i <= self.entries@.len(),
                self@.len() == self.entries@.len(),
                distinct_names(self@),
                forall|j: int| 0 <= j < i ==> (#[trigger] self@[j]).0 != name@,
            decreases self.entries@.len() - i,
        {
            if same_text(self.entries[i].name.as_str(), name) {
                proof {
                    lemma_position_of_entry(self@, i as int);
                }
                return Some(i);
            }
            i += 1;
        }
        None
    }

    /// Whether some entry has the given name.
    pub fn contains_key(&self, name: &str) -> (r: bool)
        ensures
            r == has_name(self@, name@),
    {
        self.position(name).is_some()
    }

    /// The value stored under the given name.
    pub fn get(&self, name: &str) -> (r: Option<&V>)
        ensures
            match r {
                Some(v) => lookup(self@, name@) == Some(*v),
                None => lookup(self@, name@) is None,
            },
    {
        match self.position(name) {
            Some(i) => Some(&self.entries[i].value),
            None => None,
        }
    }

    /// The name of the entry at a place.
    pub fn name_at(&self, i: usize) -> (r: &str)
        requires
            i < self@.len(),
        ensures
            r@ == self@[i as int].0,
    {
        self.entries[i].name.as_str()
    }

    /// The value of the entry at a place.
    pub fn value_at(&self, i: usize) -> (r: &V)
        requires
            i < self@.len(),
        ensures
            *r == self@[i as int].1,
    {
        &self.entries[i].value
    }

    /// Puts a value in the place of the one that the entry at `i` holds, and
    /// hands back the one it held.
    pub fn replace_at(&mut self, i: usize, value: V) -> (r: V)
        requires
            i < old(self)@.len(),
        ensures
            r == old(self)@[i as int].1,
            final(self)@ == old(self)@.update(i as int, (old(self)@[i as int].0, value)),
    {
        proof {
            use_type_invariant(&*self);
        }
        let ghost before = self@;
        let mut entries: Vec<Entry<V>> = Vec::new();
        core::mem::swap(&mut self.entries, &mut entries);
        let entry = entries.remove(i);
        entries.insert(i, Entry { name: entry.name, value });
        proof {
            let after = before.update(i as int, (before[i as int].0, value));
            assert(entries_view(entries@) =~= after);
        }
        self.entries = entries;
        entry.value
    }

    /// Stores a value under a name. Where the name already has an entry, its
    /// value is replaced and the earlier value handed back; otherwise a new
    /// entry is added after all others.
    pub fn insert(&mut self, name: &str, value: V) -> (r: Option<V>)
        ensures
            final(self)@ == upsert(old(self)@, name@, value),
            r == lookup(old(self)@, name@),
            distinct_names(final(self)@),
    {
        proof {
            use_type_invariant(&*self);
            lemma_upsert(self@, name@, value);
        }
        match self.position(name) {
            Some(i) => {
                let earlier = self.replace_at(i, value);
                Some(earlier)
            },
            None => {
                let ghost before = self@;
                let mut entries: Vec<Entry<V>> = Vec::new();
                core::mem::swap(&mut self.entries, &mut entries);
                entries.push(Entry { name: String::from_str(name), value });
                assert(entries_view(entries@) =~= before.push((name@, value)));
                self.entries = entries;
                None
            },
        }
    }
}

} // verus!
