//! A table from column names to the text of their data types.

use crate::text::text_eq;
use vstd::prelude::*;

verus! {

/// The columns of a row type as a configuration file lists them: for each
/// column name the text of one data type. No name is held twice.
#[derive(Debug)]
pub struct ColumnTable {
    entries: Vec<(String, String)>,
}

/// Whether an entry of the name `name` stands at `i`.
pub open spec fn named_at(entries: Seq<(String, String)>, name: Seq<char>, i: int) -> bool {
    0 <= i < entries.len() && entries[i].0@ == name
}

/// The table that a list of entries without a repeated name stands for.
pub open spec fn table_of(entries: Seq<(String, String)>) -> Map<Seq<char>, Seq<char>> {
    Map::new(
        |name: Seq<char>| exists|i: int| named_at(entries, name, i),
        |name: Seq<char>| entries[choose|i: int| named_at(entries, name, i)].1@,
    )
}

/// Whether no name stands twice among the entries.
pub open spec fn no_name_twice(entries: Seq<(String, String)>) -> bool {
    forall|i: int, j: int|
        0 <= i < j < entries.len() ==> (#[trigger] entries[i]).0@ != (#[trigger] entries[j]).0@
}

/// In a list without a repeated name, the entry at a place is what the table
/// holds under its name.
pub proof fn lemma_table_entry(entries: Seq<(String, String)>, i: int)
    requires
        no_name_twice(entries),
        0 <= i < entries.len(),
    ensures
        table_of(entries).dom().contains(entries[i].0@),
        table_of(entries)[entries[i].0@] == entries[i].1@,
{
    let name = entries[i].0@;
    assert(named_at(entries, name, i));
    let chosen = choose|k: int| named_at(entries, name, k);
    if chosen < i {
        assert(entries[chosen].0@ != entries[i].0@);
    } else if i < chosen {
        assert(entries[i].0@ != entries[chosen].0@);
    }
}

impl View for ColumnTable {
    type V = Map<Seq<char>, Seq<char>>;

    closed spec fn view(&self) -> Map<Seq<char>, Seq<char>> {
        table_of(self.entries@)
    }
}

impl ColumnTable {
    #[verifier::type_invariant]
    spec fn well_formed(self) -> bool {
        no_name_twice(self.entries@)
    }

    /// A table without columns.
    pub fn new() -> (table: Self)
        ensures
            table@ == Map::<Seq<char>, Seq<char>>::empty(),
    {
        let table = ColumnTable { entries: Vec::new() };
        assert(table@ =~= Map::<Seq<char>, Seq<char>>::empty());
        table
    }

    /// The place of the entry of a name, if the table holds the name.
    fn place(&self, name: &str) -> (found: Option<usize>)
        ensures
            match found {
                Some(i) => i < self.entries.len() && self.entries[i as int].0@ == name@,
                None => !self@.dom().contains(name@),
            },
    {
        let mut i: usize = 0;
        while i < self.entries.len()
            invariant
                i <= self.entries.len(),
                forall|j: int| 0 <= j < i ==> self.entries[j].0@ != name@,
            decreases self.entries.len() - i,
        {
            if text_eq(self.entries[i].0.as_str(), name) {
                return Some(i);
            }
            i += 1;
        }
        assert(forall|j: int| !named_at(self.entries@, name@, j));
        None
    }

    /// The data type of a column, if the table holds the column.
    pub fn get(&self, name: &str) -> (found: Option<&String>)
        ensures
            match found {
                Some(data_type) => self@.dom().contains(name@) && self@[name@] == data_type@,
                None => !self@.dom().contains(name@),
            },
    {
        proof {
            use_type_invariant(self);
        }
        match self.place(name) {
            Some(i) => {
                proof {
                    lemma_table_entry(self.entries@, i as int);
                }
                Some(&self.entries[i].1)
            },
            None => None,
        }
    }

    /// Puts a column into the table, in place of the column of that name if
    /// the table holds one.
    pub fn insert(&mut self, name: String, data_type: String)
        ensures
            final(self)@ == old(self)@.insert(name@, data_type@),
    {
        proof {
            use_type_invariant(&*self);
        }
        let ghost before = self.entries@;
        let place = self.place(name.as_str());
        let mut entries: Vec<(String, String)> = Vec::new();
        std::mem::swap(&mut entries, &mut self.entries);
        match place {
            Some(i) => {
                entries.set(i, (name, data_type));
                proof {
                    let after = entries@;
                    assert(no_name_twice(after)) by {
                        assert forall|a: int, b: int| 0 <= a < b < after.len() implies (
                        #[trigger] after[a]).0@ != (#[trigger] after[b]).0@ by {
                            assert(after[a].0@ == before[a].0@);
                            assert(after[b].0@ == before[b].0@);
                        }
                    }
                    assert forall|key: Seq<char>|
                        table_of(after).dom().contains(key) <==> table_of(before).insert(
                            name@,
                            data_type@,
                        ).dom().contains(key) by {
                        if table_of(after).dom().contains(key) {
                            let k = choose|k: int| named_at(after, key, k);
                            assert(named_at(before, key, k));
                        }
                        if table_of(before).dom().contains(key) {
                            let k = choose|k: int| named_at(before, key, k);
                            assert(named_at(after, key, k));
                        }
                        if key == name@ {
                            assert(named_at(after, key, i as int));
                        }
                    }
                    assert forall|key: Seq<char>| table_of(after).dom().contains(key) implies
                        table_of(after)[key] == table_of(before).insert(name@, data_type@)[key] by {
                        let k = choose|k: int| named_at(after, key, k);
                        lemma_table_entry(after, k);
                        if key != name@ {
                            assert(named_at(before, key, k));
                            lemma_table_entry(before, k);
                        } else {
                            assert(named_at(after, key, i as int));
                            lemma_table_entry(after, i as int);
                        }
                    }
                    assert(table_of(after) =~= table_of(before).insert(name@, data_type@));
                }
            },
            None => {
                entries.push((name, data_type));
                proof {
                    let after = entries@;
                    let last = after.len() - 1;
                    assert(no_name_twice(after)) by {
                        assert forall|a: int, b: int| 0 <= a < b < after.len() implies (
                        #[trigger] after[a]).0@ != (#[trigger] after[b]).0@ by {
                            if b == last {
                                assert(!named_at(before, name@, a));
                            } else {
                                assert(after[a] == before[a]);
                                assert(after[b] == before[b]);
                            }
                        }
                    }
                    assert forall|key: Seq<char>|
                        table_of(after).dom().contains(key) <==> table_of(before).insert(
                            name@,
                            data_type@,
                        ).dom().contains(key) by {
                        if table_of(after).dom().contains(key) {
                            let k = choose|k: int| named_at(after, key, k);
                            if k != last {
                                assert(named_at(before, key, k));
                            }
                        }
                        if table_of(before).dom().contains(key) {
                            let k = choose|k: int| named_at(before, key, k);
                            assert(named_at(after, key, k));
                        }
                        if key == name@ {
                            assert(named_at(after, key, last));
                        }
                    }
                    assert forall|key: Seq<char>| table_of(after).dom().contains(key) implies
                        table_of(after)[key] == table_of(before).insert(name@, data_type@)[key] by {
                        let k = choose|k: int| named_at(after, key, k);
                        lemma_table_entry(after, k);
                        if key != name@ {
                            assert(named_at(before, key, k));
                            lemma_table_entry(before, k);
                        } else {
                            assert(named_at(after, key, last));
                            lemma_table_entry(after, last);
                        }
                    }
                    assert(table_of(after) =~= table_of(before).insert(name@, data_type@));
                }
            },
        }
        self.entries = entries;
    }
}

impl ColumnTable {
    /// Whether `other` holds every column of this table, with the same data
    /// type.
    pub fn within(&self, other: &ColumnTable) -> (all: bool)
        ensures
            all == self@.submap_of(other@),
    {
        proof {
            use_type_invariant(self);
        }
        let mut i: usize = 0;
        while i < self.entries.len()
            invariant
                i <= self.entries.len(),
                no_name_twice(self.entries@),
                forall|j: int|
                    0 <= j < i ==> other@.dom().contains(#[trigger] self.entries[j].0@)
                        && other@[self.entries[j].0@] == self.entries[j].1@,
            decreases self.entries.len() - i,
        {
            proof {
                lemma_table_entry(self.entries@, i as int);
            }
            match other.get(self.entries[i].0.as_str()) {
                Some(data_type) => {
                    if !text_eq(data_type.as_str(), self.entries[i].1.as_str()) {
                        return false;
                    }
                },
                None => {
                    return false;
                },
            }
            i += 1;
        }
        proof {
            assert forall|key: Seq<char>| self@.dom().contains(key) implies #[trigger] other@.dom().contains(
                key,
            ) && self@[key] == other@[key] by {
                let k = choose|k: int| named_at(self.entries@, key, k);
                lemma_table_entry(self.entries@, k);
            }
        }
        true
    }

    /// Whether two tables hold the same columns with the same data types.
    pub fn same_as(&self, other: &ColumnTable) -> (same: bool)
        ensures
            same == (self@ == other@),
    {
        let same = self.within(other) && other.within(self);
        proof {
            if same {
                assert(self@ =~= other@);
            }
        }
        same
    }

    /// The columns of the table, each name with its data type, no name twice.
    pub fn entries(&self) -> (entries: &Vec<(String, String)>)
        ensures
            no_name_twice(entries@),
            table_of(entries@) == self@,
    {
        proof {
            use_type_invariant(self);
        }
        &self.entries
    }
}

} // verus!
