//! A table of named model parameters.

use vstd::prelude::*;
use vstd::string::*;
use crate::scalar::Scalar;

verus! {

/// One named value of a table.
#[derive(Debug)]
pub struct Param {
    pub name: String,
    pub value: Scalar,
}

/// A table from parameter names to values, in which no name occurs twice.
///
/// Its view is the map from each name, as a sequence of characters, to its
/// value.
#[derive(Debug)]
pub struct ParamTable {
    entries: Vec<Param>,
}

/// The map that a sequence of entries stands for; of two entries with one
/// name the later one counts.
pub open spec fn table_of(entries: Seq<Param>) -> Map<Seq<char>, Scalar>
    decreases entries.len(),
{
    if entries.len() == 0 {
        Map::empty()
    } else {
        table_of(entries.drop_last()).insert(entries.last().name@, entries.last().value)
    }
}

/// No two entries carry the same name.
pub open spec fn distinct_names(entries: Seq<Param>) -> bool {
    forall|i: int, j: int|
        0 <= i < j < entries.len() ==> (#[trigger] entries[i]).name@ != (#[trigger] entries[j]).name@
}

/// A name is in the table exactly where some entry carries it.
proof fn lemma_table_dom(entries: Seq<Param>, name: Seq<char>)
    ensures
        table_of(entries).contains_key(name) <==> exists|i: int|
            0 <= i < entries.len() && (#[trigger] entries[i]).name@ == name,
    decreases entries.len(),
{
    if entries.len() > 0 {
        let front = entries.drop_last();
        lemma_table_dom(front, name);
        if table_of(entries).contains_key(name) {
            if entries.last().name@ == name {
                assert(entries[entries.len() - 1].name@ == name);
            } else {
                let i = choose|i: int| 0 <= i < front.len() && (#[trigger] front[i]).name@ == name;
                assert(entries[i].name@ == name);
            }
        }
        if exists|i: int| 0 <= i < entries.len() && (#[trigger] entries[i]).name@ == name {
            let i = choose|i: int| 0 <= i < entries.len() && (#[trigger] entries[i]).name@ == name;
            if i < entries.len() - 1 {
                assert(front[i].name@ == name);
            }
        }
    }
}

/// Where no name occurs twice, the table maps the name of each entry to that
/// entry's value.
proof fn lemma_table_value(entries: Seq<Param>, i: int)
    requires
        distinct_names(entries),
        0 <= i < entries.len(),
    ensures
        table_of(entries).contains_key(entries[i].name@),
        table_of(entries)[entries[i].name@] == entries[i].value,
    decreases entries.len(),
{
    let front = entries.drop_last();
    if i < entries.len() - 1 {
        assert(distinct_names(front)) by {
            assert forall|a: int, b: int| 0 <= a < b < front.len() implies (#[trigger] front[a]).name@
                != (#[trigger] front[b]).name@ by {
                assert(entries[a].name@ != entries[b].name@);
            }
        }
        lemma_table_value(front, i);
        assert(front[i] == entries[i]);
        assert(entries[i].name@ != entries[entries.len() - 1].name@);
    }
}

/// Replacing the value of one entry replaces the value of its name.
proof fn lemma_table_update(entries: Seq<Param>, i: int, entry: Param)
    requires
        distinct_names(entries),
        0 <= i < entries.len(),
        entry.name@ == entries[i].name@,
    ensures
        distinct_names(entries.update(i, entry)),
        table_of(entries.update(i, entry)) =~= table_of(entries).insert(entry.name@, entry.value),
    decreases entries.len(),
{
    let updated = entries.update(i, entry);
    assert(distinct_names(updated)) by {
        assert forall|a: int, b: int| 0 <= a < b < updated.len() implies (#[trigger] updated[a]).name@
            != (#[trigger] updated[b]).name@ by {
            assert(entries[a].name@ != entries[b].name@);
        }
    }
    let front = entries.drop_last();
    if i == entries.len() - 1 {
        assert(updated.drop_last() =~= front);
    } else {
        assert(distinct_names(front)) by {
            assert forall|a: int, b: int| 0 <= a < b < front.len() implies (#[trigger] front[a]).name@
                != (#[trigger] front[b]).name@ by {
                assert(entries[a].name@ != entries[b].name@);
            }
        }
        lemma_table_update(front, i, entry);
        assert(updated.drop_last() =~= front.update(i, entry));
        assert(updated.last() == entries.last());
        assert(entries[i].name@ != entries[entries.len() - 1].name@);
    }
}

impl View for ParamTable {
    type V = Map<Seq<char>, Scalar>;

    closed spec fn view(&self) -> Map<Seq<char>, Scalar> {
        table_of(self.entries@)
    }
}

impl ParamTable {
    #[verifier::type_invariant]
    spec fn well_formed(self) -> bool {
        distinct_names(self.entries@)
    }

    /// The empty table.
    pub fn new() -> (table: ParamTable)
        ensures
            table@ == Map::<Seq<char>, Scalar>::empty(),
    {
        ParamTable { entries: Vec::new() }
    }

    /// The position of the entry named `name`, if there is one.
    fn position(&self, name: &String) -> (found: Option<usize>)
        ensures
            match found {
                Some(i) => i < self.entries@.len() && self.entries@[i as int].name@ == name@,
                None => forall|j: int|
                    0 <= j < self.entries@.len() ==> (#[trigger] self.entries@[j]).name@ != name@,
            },
    {
        let mut i: usize = 0;
        while i < self.entries.len()
            invariant
                i <= self.entries@.len(),
                forall|j: int| 0 <= j < i ==> (#[trigger] self.entries@[j]).name@ != name@,
            decreases self.entries@.len() - i,
        {
            if self.entries[i].name == *name {
                return Some(i);
            }
            i += 1;
        }
        None
    }

    /// The value of `name`, if the table holds one.
    pub fn get(&self, name: &str) -> (value: Option<Scalar>)
        ensures
            self@.contains_key(name@) ==> value == Some(self@[name@]),
            !self@.contains_key(name@) ==> value.is_none(),
    {
        let key = String::from_str(name);
        proof {
            use_type_invariant(self);
            lemma_table_dom(self.entries@, name@);
        }
        match self.position(&key) {
            Some(i) => {
                proof {
                    lemma_table_value(self.entries@, i as int);
                }
                Some(self.entries[i].value)
            },
            None => None,
        }
    }

    /// A table with the same names and values.
    pub fn duplicate(&self) -> (copy: ParamTable)
        ensures
            copy@ == self@,
    {
        let mut copy = ParamTable::new();
        let mut i: usize = 0;
        while i < self.entries.len()
            invariant
                i <= self.entries@.len(),
                copy@ == table_of(self.entries@.take(i as int)),
            decreases self.entries@.len() - i,
        {
            proof {
                assert(self.entries@.take(i + 1).drop_last() =~= self.entries@.take(i as int));
            }
            copy.insert(self.entries[i].name.clone(), self.entries[i].value);
            i += 1;
        }
        proof {
            assert(self.entries@.take(i as int) =~= self.entries@);
        }
        copy
    }

    /// The names that the table holds a value for, each once.
    pub fn names(&self) -> (names: Vec<String>)
        ensures
            forall|name: Seq<char>|
                self@.contains_key(name) <==> exists|i: int|
                    0 <= i < names@.len() && (#[trigger] names@[i])@ == name,
            forall|i: int, j: int|
                0 <= i < j < names@.len() ==> (#[trigger] names@[i])@ != (#[trigger] names@[j])@,
    {
        let mut names: Vec<String> = Vec::new();
        let mut i: usize = 0;
        while i < self.entries.len()
            invariant
                i <= self.entries@.len(),
                names@.len() == i,
                forall|j: int| 0 <= j < i ==> (#[trigger] names@[j])@ == self.entries@[j].name@,
            decreases self.entries@.len() - i,
        {
            names.push(self.entries[i].name.clone());
            i += 1;
        }
        proof {
            use_type_invariant(self);
            assert forall|name: Seq<char>|
                self@.contains_key(name) <==> exists|i: int|
                    0 <= i < names@.len() && (#[trigger] names@[i])@ == name by {
                lemma_table_dom(self.entries@, name);
                if self@.contains_key(name) {
                    let k = choose|k: int|
                        0 <= k < self.entries@.len() && (#[trigger] self.entries@[k]).name@ == name;
                    assert(names@[k]@ == name);
                }
                if exists|i: int| 0 <= i < names@.len() && (#[trigger] names@[i])@ == name {
                    let k = choose|k: int| 0 <= k < names@.len() && (#[trigger] names@[k])@ == name;
                    assert(self.entries@[k].name@ == name);
                }
            }
            assert forall|i: int, j: int| 0 <= i < j < names@.len() implies (#[trigger] names@[i])@
                != (#[trigger] names@[j])@ by {
                assert(self.entries@[i].name@ != self.entries@[j].name@);
            }
        }
        names
    }

    /// Whether the table holds a value for `name`.
    pub fn contains_key(&self, name: &str) -> (present: bool)
        ensures
            present == self@.contains_key(name@),
    {
        self.get(name).is_some()
    }

    /// Sets the value of `name`, and returns the value it had before.
    pub fn insert(&mut self, name: String, value: Scalar) -> (before: Option<Scalar>)
        ensures
            final(self)@ == old(self)@.insert(name@, value),
            old(self)@.contains_key(name@) ==> before == Some(old(self)@[name@]),
            !old(self)@.contains_key(name@) ==> before.is_none(),
    {
        proof {
            use_type_invariant(&*self);
            lemma_table_dom(self.entries@, name@);
        }
        let found = self.position(&name);
        let mut taken = ParamTable { entries: Vec::new() };
        core::mem::swap(self, &mut taken);
        let mut entries = taken.entries;
        let before = match found {
            Some(i) => {
                let before = entries[i].value;
                proof {
                    lemma_table_value(entries@, i as int);
                    lemma_table_update(entries@, i as int, Param { name, value });
                }
                entries[i] = Param { name, value };
                Some(before)
            },
            None => {
                proof {
                    assert(entries@.push(Param { name, value }).drop_last() =~= entries@);
                }
                entries.push(Param { name, value });
                None
            },
        };
        *self = ParamTable { entries };
        before
    }
}

} // verus!
