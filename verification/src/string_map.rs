//! A map from strings to strings that keeps its entries in the order in
//! which their names first came.

use vstd::prelude::*;

verus! {

/// Does the entry at `index` carry `name`?
pub open spec fn names_entry(entries: Seq<(String, String)>, index: int, name: Seq<char>) -> bool {
    0 <= index < entries.len() && entries[index].0@ == name
}

/// No two entries carry the same name.
pub open spec fn distinct_names(entries: Seq<(String, String)>) -> bool {
    forall|i: int, j: int|
        0 <= i < j < entries.len() ==> (#[trigger] entries[i]).0@ != (#[trigger] entries[j]).0@
}

/// The map that a run of entries stands for: each name that occurs, with
/// the value of an entry that carries it.
pub open spec fn entries_map(entries: Seq<(String, String)>) -> Map<Seq<char>, Seq<char>> {
    Map::new(
        |name: Seq<char>| exists|i: int| names_entry(entries, i, name),
        |name: Seq<char>| entries[choose|i: int| names_entry(entries, i, name)].1@,
    )
}

/// Where the names are distinct, the map holds each entry's value under the
/// entry's name.
pub proof fn lemma_entries_map(entries: Seq<(String, String)>)
    requires
        distinct_names(entries),
    ensures
        forall|i: int|
            0 <= i < entries.len() ==> {
                &&& entries_map(entries).contains_key((#[trigger] entries[i]).0@)
                &&& entries_map(entries)[entries[i].0@] == entries[i].1@
            },
{
    assert forall|i: int| 0 <= i < entries.len() implies {
        &&& entries_map(entries).contains_key((#[trigger] entries[i]).0@)
        &&& entries_map(entries)[entries[i].0@] == entries[i].1@
    } by {
        let name = entries[i].0@;
        assert(names_entry(entries, i, name));
        let chosen = choose|j: int| names_entry(entries, j, name);
        assert(names_entry(entries, chosen, name));
        if chosen < i {
            assert(entries[chosen].0@ != entries[i].0@);
        } else if i < chosen {
            assert(entries[i].0@ != entries[chosen].0@);
        }
    }
}

/// A map from strings to strings.
#[derive(Debug)]
pub struct StringMap {
    entries: Vec<(String, String)>,
}

impl View for StringMap {
    type V = Map<Seq<char>, Seq<char>>;

    closed spec fn view(&self) -> Map<Seq<char>, Seq<char>> {
        entries_map(self.entries@)
    }
}

impl DeepView for StringMap {
    type V = Map<Seq<char>, Seq<char>>;

    open spec fn deep_view(&self) -> Map<Seq<char>, Seq<char>> {
        self@
    }
}

impl Clone for StringMap {
    /// A copy with the same entries in the same order.
    fn clone(&self) -> (copy: StringMap)
        ensures
            copy@ == self@,
            copy.entries() == self.entries(),
    {
        proof {
            use_type_invariant(self);
        }
        let mut entries: Vec<(String, String)> = Vec::new();
        let mut index: usize = 0;
        while index < self.entries.len()
            invariant
                index <= self.entries.len(),
                entries@ == self.entries@.take(index as int),
            decreases self.entries.len() - index,
        {
            let pair = &self.entries[index];
            entries.push((pair.0.clone(), pair.1.clone()));
            assert(entries@ =~= self.entries@.take(index + 1));
            index = index + 1;
        }
        assert(entries@ =~= self.entries@);
        StringMap { entries }
    }
}

impl StringMap {
    #[verifier::type_invariant]
    spec fn distinct(&self) -> bool {
        distinct_names(self.entries@)
    }

    /// The entries, in the order in which their names first came.
    pub closed spec fn entries(&self) -> Seq<(String, String)> {
        self.entries@
    }

    /// What the view is made of: the entries carry distinct names, and the
    /// view holds each entry's value under its name and nothing else.
    pub proof fn lemma_view(&self)
        ensures
            self@ == entries_map(self.entries()),
    {
    }

    /// An empty map.
    pub fn new() -> (map: StringMap)
        ensures
            map@ == Map::<Seq<char>, Seq<char>>::empty(),
            map.entries().len() == 0,
    {
        let map = StringMap { entries: Vec::new() };
        assert(map@ =~= Map::<Seq<char>, Seq<char>>::empty());
        map
    }

    /// The number of entries. No two of them carry the same name.
    pub fn len(&self) -> (count: usize)
        ensures
            count == self.entries().len(),
            distinct_names(self.entries()),
    {
        proof {
            use_type_invariant(self);
        }
        self.entries.len()
    }

    /// The entry at `index`, by the order in which the names first came.
    pub fn entry(&self, index: usize) -> (found: Option<(&String, &String)>)
        ensures
            distinct_names(self.entries()),
            match found {
                Some((name, value)) => {
                    &&& index < self.entries().len()
                    &&& *name == self.entries()[index as int].0
                    &&& *value == self.entries()[index as int].1
                    &&& self@.contains_key(name@)
                    &&& self@[name@] == value@
                },
                None => index >= self.entries().len(),
            },
    {
        proof {
            use_type_invariant(self);
            lemma_entries_map(self.entries@);
        }
        if index < self.entries.len() {
            let pair = &self.entries[index];
            Some((&pair.0, &pair.1))
        } else {
            None
        }
    }

    /// The position of the entry that carries `name`, if there is one.
    fn position(&self, name: &String) -> (found: Option<usize>)
        ensures
            match found {
                Some(index) => names_entry(self.entries@, index as int, name@),
                None => forall|i: int| !names_entry(self.entries@, i, name@),
            },
    {
        let mut index: usize = 0;
        while index < self.entries.len()
            invariant
                index <= self.entries.len(),
                forall|i: int| 0 <= i < index ==> !names_entry(self.entries@, i, name@),
            decreases self.entries.len() - index,
        {
            if self.entries[index].0 == *name {
                return Some(index);
            }
            index = index + 1;
        }
        None
    }

    /// The value under `name`, if the map has one.
    pub fn get(&self, name: &str) -> (found: Option<&String>)
        ensures
            match found {
                Some(value) => self@.contains_key(name@) && self@[name@] == value@,
                None => !self@.contains_key(name@),
            },
    {
        proof {
            use_type_invariant(self);
            lemma_entries_map(self.entries@);
        }
        let wanted = name.to_owned();
        match self.position(&wanted) {
            Some(index) => Some(&self.entries[index].1),
            None => None,
        }
    }

    /// Is there a value under `name`?
    pub fn contains_key(&self, name: &str) -> (present: bool)
        ensures
            present == self@.contains_key(name@),
    {
        self.get(name).is_some()
    }

    /// Puts `value` under `name`, in place of any value that was there. An
    /// entry that carried the name keeps its place; a new entry comes last.
    pub fn insert(&mut self, name: String, value: String)
        ensures
            final(self)@ == old(self)@.insert(name@, value@),
            forall|i: int|
                names_entry(old(self).entries(), i, name@) ==> final(self).entries() == old(
                    self,
                ).entries().update(i, (name, value)),
            !old(self)@.contains_key(name@) ==> final(self).entries() == old(self).entries().push(
                (name, value),
            ),
    {
        proof {
            use_type_invariant(&*self);
            lemma_entries_map(self.entries@);
        }
        let ghost before = self.entries@;
        let found = self.position(&name);
        let mut taken = StringMap { entries: Vec::new() };
        core::mem::swap(self, &mut taken);
        let mut entries = taken.entries;
        match found {
            Some(index) => {
                entries.set(index, (name, value));
            },
            None => {
                entries.push((name, value));
            },
        }
        assert(distinct_names(entries@));
        *self = StringMap { entries };
        proof {
            let after = self.entries@;
            let slot: int = match found {
                Some(index) => index as int,
                None => before.len() as int,
            };
            lemma_entries_map(after);
            assert(names_entry(after, slot, name@));
            assert forall|key: Seq<char>| #[trigger]
                entries_map(after).contains_key(key) <==> (key == name@ || entries_map(
                    before,
                ).contains_key(key)) by {
                if entries_map(after).contains_key(key) && key != name@ {
                    let i = choose|i: int| names_entry(after, i, key);
                    assert(names_entry(before, i, key));
                }
                if entries_map(before).contains_key(key) && key != name@ {
                    let i = choose|i: int| names_entry(before, i, key);
                    assert(names_entry(after, i, key));
                }
            }
            assert forall|key: Seq<char>|
                key != name@ && #[trigger] entries_map(before).contains_key(
                    key,
                ) implies entries_map(after)[key] == entries_map(before)[key] by {
                let i = choose|i: int| names_entry(before, i, key);
                assert(names_entry(after, i, key));
                assert(after[i] == before[i]);
            }
            assert(after[slot].1@ == value@);
            assert(entries_map(after) =~= entries_map(before).insert(name@, value@));
        }
    }
}

} // verus!
