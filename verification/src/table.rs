//! The modules of a chunk, each under its module id.
//!
//! A table is a mapping: no id has two entries. It also keeps the order in
//! which the ids were entered, so that whatever is made from a table comes out
//! the same way every time.

use vstd::prelude::*;

verus! {

/// The ids of `entries`, in order.
pub open spec fn ids<M>(entries: Seq<(String, M)>) -> Seq<Seq<char>> {
    Seq::new(entries.len(), |i: int| entries[i].0@)
}

/// No id has two entries.
pub open spec fn distinct_ids<M>(entries: Seq<(String, M)>) -> bool {
    forall|i: int, j: int|
        0 <= i < j < entries.len() ==> (#[trigger] entries[i]).0@ != (#[trigger] entries[j]).0@
}

/// `id` has an entry at position `i`.
pub open spec fn entered_at<M>(entries: Seq<(String, M)>, id: Seq<char>, i: int) -> bool {
    0 <= i < entries.len() && entries[i].0@ == id
}

/// What `entries` holds under `id`.
pub open spec fn lookup<M>(entries: Seq<(String, M)>, id: Seq<char>) -> Option<M> {
    if exists|i: int| entered_at(entries, id, i) {
        Some(entries[choose|i: int| entered_at(entries, id, i)].1)
    } else {
        None
    }
}

/// Where no id has two entries, what is held under an id is the entry with
/// that id, wherever it stands.
pub proof fn lemma_lookup_finds<M>(entries: Seq<(String, M)>, i: int)
    requires
        distinct_ids(entries),
        0 <= i < entries.len(),
    ensures
        lookup(entries, entries[i].0@) == Some(entries[i].1),
{
    let id = entries[i].0@;
    assert(entered_at(entries, id, i));
    let j = choose|j: int| entered_at(entries, id, j);
    if j < i {
        assert(entries[j].0@ != entries[i].0@);
    } else if i < j {
        assert(entries[i].0@ != entries[j].0@);
    }
}

/// The modules of a chunk under their ids.
#[derive(Debug, PartialEq, Eq)]
pub struct ModuleTable<M> {
    entries: Vec<(String, M)>,
}

impl<M> ModuleTable<M> {
    #[verifier::type_invariant]
    spec fn no_id_twice(&self) -> bool {
        distinct_ids(self.entries@)
    }

    /// The entries, in the order in which their ids were entered.
    pub closed spec fn entries(&self) -> Seq<(String, M)> {
        self.entries@
    }

    /// What the table holds under `id`.
    pub open spec fn spec_get(&self, id: Seq<char>) -> Option<M> {
        lookup(self.entries(), id)
    }

    /// The table without an entry.
    pub fn new() -> (table: Self)
        ensures
            table.entries() == Seq::<(String, M)>::empty(),
    {
        ModuleTable { entries: Vec::new() }
    }

    /// The table of `entries`, which hold no id twice.
    pub(crate) fn from_distinct(entries: Vec<(String, M)>) -> (table: Self)
        requires
            distinct_ids(entries@),
        ensures
            table.entries() == entries@,
    {
        ModuleTable { entries }
    }

    /// The number of entries.
    pub fn len(&self) -> (n: usize)
        ensures
            n == self.entries().len(),
    {
        self.entries.len()
    }

    /// The position of the entry of `id` among `entries`, if it has one.
    fn position(entries: &Vec<(String, M)>, id: &String) -> (found: Option<usize>)
        ensures
            match found {
                Some(i) => entered_at(entries@, id@, i as int),
                None => forall|i: int| !entered_at(entries@, id@, i),
            },
    {
        let mut i: usize = 0;
        while i < entries.len()
            invariant
                i <= entries@.len(),
                forall|j: int| 0 <= j < i ==> !entered_at(entries@, id@, j),
            decreases entries@.len() - i,
        {
            if entries[i].0 == *id {
                return Some(i);
            }
            i += 1;
        }
        None
    }

    /// The module held under `id`, if there is one.
    pub fn get(&self, id: &String) -> (found: Option<&M>)
        ensures
            match found {
                Some(module) => self.spec_get(id@) == Some(*module),
                None => self.spec_get(id@) is None,
            },
            distinct_ids(self.entries()),
    {
        proof {
            use_type_invariant(self);
        }
        match Self::position(&self.entries, id) {
            Some(i) => {
                proof {
                    lemma_lookup_finds(self.entries@, i as int);
                }
                Some(&self.entries[i].1)
            },
            None => None,
        }
    }

    /// Enters `module` under `id`. Where `id` had an entry, the module takes
    /// its place, and the one that was held is returned; otherwise the entry
    /// comes after those entered so far. Nothing else in the table changes.
    pub fn insert(&mut self, id: String, module: M) -> (previous: Option<M>)
        ensures
            previous == old(self).spec_get(id@),
            final(self).spec_get(id@) == Some(module),
            forall|other: Seq<char>|
                other != id@ ==> final(self).spec_get(other) == old(self).spec_get(other),
            match previous {
                Some(_) => exists|i: int|
                    entered_at(old(self).entries(), id@, i) && final(self).entries() == old(
                        self,
                    ).entries().update(i, (id, module)),
                None => final(self).entries() == old(self).entries().push((id, module)),
            },
            distinct_ids(final(self).entries()),
    {
        proof {
            use_type_invariant(&*self);
        }
        let mut entries: Vec<(String, M)> = Vec::new();
        std::mem::swap(&mut entries, &mut self.entries);
        let ghost before = entries@;
        let found = Self::position(&entries, &id);
        entries.push((id, module));
        let previous = match found {
            Some(i) => {
                let replaced = entries.swap_remove(i);
                proof {
                    assert(entries@ == before.update(i as int, (id, module)));
                    lemma_lookup_finds(before, i as int);
                }
                Some(replaced.1)
            },
            None => {
                None
            },
        };
        proof {
            let after = entries@;
            assert(distinct_ids(after)) by {
                assert forall|a: int, b: int| 0 <= a < b < after.len() implies (
                #[trigger] after[a]).0@ != (#[trigger] after[b]).0@ by {
                    if found is Some {
                        let i = found->0 as int;
                        if a != i && b != i {
                            assert(before[a].0@ != before[b].0@);
                        } else if a == i {
                            assert(entered_at(before, id@, i));
                            assert(before[i].0@ != before[b].0@);
                        } else {
                            assert(before[a].0@ != before[i].0@);
                        }
                    } else {
                        if b < before.len() {
                            assert(before[a].0@ != before[b].0@);
                        } else {
                            assert(!entered_at(before, id@, a));
                        }
                    }
                }
            }
            let at = if found is Some {
                found->0 as int
            } else {
                before.len() as int
            };
            lemma_lookup_finds(after, at);
            assert forall|other: Seq<char>| other != id@ implies lookup(after, other) == lookup(
                before,
                other,
            ) by {
                if exists|k: int| entered_at(before, other, k) {
                    let k = choose|k: int| entered_at(before, other, k);
                    assert(after[k] == before[k]);
                    assert(entered_at(after, other, k));
                    lemma_lookup_finds(after, k);
                    lemma_lookup_finds(before, k);
                } else {
                    assert forall|k: int| !entered_at(after, other, k) by {
                        if 0 <= k < after.len() && k != at {
                            assert(after[k] == before[k]);
                            assert(!entered_at(before, other, k));
                        }
                    }
                }
            }
        }
        self.entries = entries;
        previous
    }

    /// The entries, in the order in which their ids were entered. No id
    /// occurs twice among them.
    pub fn into_entries(self) -> (entries: Vec<(String, M)>)
        ensures
            entries@ == self.entries(),
            distinct_ids(entries@),
    {
        proof {
            use_type_invariant(&self);
        }
        self.entries
    }
}

impl<M: Clone> Clone for ModuleTable<M> {
    /// A table with a copy of each entry, under the same ids in the same order.
    fn clone(&self) -> (copy: Self)
        ensures
            ids(copy.entries()) == ids(self.entries()),
    {
        proof {
            use_type_invariant(self);
        }
        let mut entries: Vec<(String, M)> = Vec::new();
        let mut i: usize = 0;
        while i < self.entries.len()
            invariant
                i <= self.entries@.len(),
                entries@.len() == i,
                forall|j: int| 0 <= j < i ==> (#[trigger] entries@[j]).0@ == self.entries@[j].0@,
            decreases self.entries@.len() - i,
        {
            let entry = &self.entries[i];
            entries.push((entry.0.clone(), entry.1.clone()));
            i += 1;
        }
        proof {
            assert forall|a: int, b: int| 0 <= a < b < entries@.len() implies (
            #[trigger] entries@[a]).0@ != (#[trigger] entries@[b]).0@ by {
                assert(self.entries@[a].0@ != self.entries@[b].0@);
            }
        }
        ModuleTable { entries }
    }
}

} // verus!
