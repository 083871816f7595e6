//! The states of a workflow, each under its name.

use crate::operations_sm::config::{OperationState, OperationStateView};
use vstd::prelude::*;

verus! {

/// The table that a list of named states stands for: a later state replaces an
/// earlier one of the same name.
pub open spec fn table_of(entries: Seq<(String, OperationState)>) -> Map<
    Seq<char>,
    OperationStateView,
>
    decreases entries.len(),
{
    if entries.len() == 0 {
        Map::empty()
    } else {
        table_of(entries.drop_last()).insert(entries.last().0@, entries.last().1@)
    }
}

/// Whether no two entries of a list of named states have the same name.
pub open spec fn names_are_distinct(entries: Seq<(String, OperationState)>) -> bool {
    forall|i: int, j: int|
        0 <= i < j < entries.len() ==> (#[trigger] entries[i]).0@ != (#[trigger] entries[j]).0@
}

/// Where names are distinct, they are distinct among all the entries but the
/// last.
pub proof fn lemma_distinct_before(entries: Seq<(String, OperationState)>)
    requires
        names_are_distinct(entries),
        entries.len() > 0,
    ensures
        names_are_distinct(entries.drop_last()),
{
    let before = entries.drop_last();
    assert forall|a: int, b: int| 0 <= a < b < before.len() implies (#[trigger] before[a]).0@ != (
    #[trigger] before[b]).0@ by {
        assert(before[a] == entries[a] && before[b] == entries[b]);
    }
}

/// The names of the table are the names of the entries.
pub proof fn lemma_table_names(entries: Seq<(String, OperationState)>, name: Seq<char>)
    ensures
        table_of(entries).contains_key(name) <==> exists|i: int|
            0 <= i < entries.len() && (#[trigger] entries[i]).0@ == name,
    decreases entries.len(),
{
    if entries.len() > 0 {
        let before = entries.drop_last();
        lemma_table_names(before, name);
        if table_of(entries).contains_key(name) {
            if entries.last().0@ == name {
                assert(entries[entries.len() - 1].0@ == name);
            } else {
                let i = choose|i: int| 0 <= i < before.len() && (#[trigger] before[i]).0@ == name;
                assert(entries[i].0@ == name);
            }
        }
        if exists|i: int| 0 <= i < entries.len() && (#[trigger] entries[i]).0@ == name {
            let i = choose|i: int| 0 <= i < entries.len() && (#[trigger] entries[i]).0@ == name;
            if i < entries.len() - 1 {
                assert(before[i].0@ == name);
            }
        }
    }
}

/// Where names are distinct, the table maps the name of each entry to its state.
pub proof fn lemma_table_lookup(entries: Seq<(String, OperationState)>, i: int)
    requires
        names_are_distinct(entries),
        0 <= i < entries.len(),
    ensures
        table_of(entries).contains_key(entries[i].0@),
        table_of(entries)[entries[i].0@] == entries[i].1@,
    decreases entries.len(),
{
    if i < entries.len() - 1 {
        let before = entries.drop_last();
        lemma_distinct_before(entries);
        lemma_table_lookup(before, i);
        assert(entries[i].0@ != entries[entries.len() - 1].0@);
    }
}

/// Where names are distinct, putting another state in the place of an entry,
/// under the same name, changes the table at that name only.
pub proof fn lemma_table_update(
    entries: Seq<(String, OperationState)>,
    i: int,
    entry: (String, OperationState),
)
    requires
        names_are_distinct(entries),
        0 <= i < entries.len(),
        entries[i].0@ == entry.0@,
    ensures
        names_are_distinct(entries.update(i, entry)),
        table_of(entries.update(i, entry)) == table_of(entries).insert(entry.0@, entry.1@),
    decreases entries.len(),
{
    let updated = entries.update(i, entry);
    assert(names_are_distinct(updated)) by {
        assert forall|a: int, b: int| 0 <= a < b < updated.len() implies (#[trigger] updated[a]).0@
            != (#[trigger] updated[b]).0@ by {
            assert(updated[a].0@ == entries[a].0@);
            assert(updated[b].0@ == entries[b].0@);
        }
    }
    let before = entries.drop_last();
    if i == entries.len() - 1 {
        assert(updated.drop_last() =~= before);
        assert(table_of(updated) =~= table_of(entries).insert(entry.0@, entry.1@));
    } else {
        lemma_distinct_before(entries);
        lemma_table_update(before, i, entry);
        assert(updated.drop_last() =~= before.update(i, entry));
        assert(updated.last() == entries.last());
        assert(entries[i].0@ != entries[entries.len() - 1].0@);
        assert(table_of(updated) =~= table_of(entries).insert(entry.0@, entry.1@));
    }
}

/// Two lists of named states that agree, entry by entry, on what the entries
/// hold stand for the same table.
pub proof fn lemma_table_of_same_entries(
    left: Seq<(String, OperationState)>,
    right: Seq<(String, OperationState)>,
)
    requires
        left.len() == right.len(),
        forall|i: int|
            0 <= i < left.len() ==> (#[trigger] left[i]).0@ == right[i].0@ && left[i].1@
                == right[i].1@,
    ensures
        table_of(left) == table_of(right),
        names_are_distinct(left) ==> names_are_distinct(right),
    decreases left.len(),
{
    if left.len() > 0 {
        assert(left.last() == left[left.len() - 1]);
        lemma_table_of_same_entries(left.drop_last(), right.drop_last());
    }
    if names_are_distinct(left) {
        assert forall|i: int, j: int| 0 <= i < j < right.len() implies (#[trigger] right[i]).0@
            != (#[trigger] right[j]).0@ by {
            assert(left[i].0@ == right[i].0@);
            assert(left[j].0@ == right[j].0@);
        }
    }
}

/// The states of a workflow, each under its name.
#[derive(Debug)]
pub struct WorkflowStates {
    entries: Vec<(String, OperationState)>,
}

impl View for WorkflowStates {
    type V = Map<Seq<char>, OperationStateView>;

    closed spec fn view(&self) -> Map<Seq<char>, OperationStateView> {
        table_of(self.entries@)
    }
}

impl Clone for WorkflowStates {
    fn clone(&self) -> (copy: WorkflowStates)
        ensures
            copy@ == self@,
    {
        proof {
            use_type_invariant(self);
        }
        let mut entries: Vec<(String, OperationState)> = Vec::new();
        let mut i: usize = 0;
        while i < self.entries.len()
            invariant
                i <= self.entries@.len(),
                entries@.len() == i,
                forall|j: int|
                    0 <= j < i ==> (#[trigger] entries@[j]).0@ == self.entries@[j].0@
                        && entries@[j].1@ == self.entries@[j].1@,
            decreases self.entries@.len() - i,
        {
            let name = self.entries[i].0.clone();
            let state = self.entries[i].1.clone();
            entries.push((name, state));
            i += 1;
        }
        proof {
            lemma_table_of_same_entries(self.entries@, entries@);
        }
        WorkflowStates { entries }
    }
}

impl Default for WorkflowStates {
    /// A table with no state.
    fn default() -> (states: WorkflowStates)
        ensures
            states@ == Map::<Seq<char>, OperationStateView>::empty(),
    {
        WorkflowStates::new()
    }
}

impl WorkflowStates {
    #[verifier::type_invariant]
    spec fn each_name_once(&self) -> bool {
        names_are_distinct(self.entries@)
    }

    /// A table with no state.
    pub fn new() -> (states: WorkflowStates)
        ensures
            states@ == Map::<Seq<char>, OperationStateView>::empty(),
    {
        WorkflowStates { entries: Vec::new() }
    }

    /// Where the state named `name` stands among the entries, if anywhere.
    fn position(&self, name: &str) -> (found: Option<usize>)
        ensures
            match found {
                Some(i) => i < self.entries@.len() && self.entries@[i as int].0@ == name@,
                None => forall|i: int|
                    0 <= i < self.entries@.len() ==> (#[trigger] self.entries@[i]).0@ != name@,
            },
    {
        let wanted = name.to_owned();
        let mut i: usize = 0;
        while i < self.entries.len()
            invariant
                i <= self.entries@.len(),
                wanted@ == name@,
                forall|j: int| 0 <= j < i ==> (#[trigger] self.entries@[j]).0@ != name@,
            decreases self.entries@.len() - i,
        {
            if self.entries[i].0 == wanted {
                return Some(i);
            }
            i += 1;
        }
        None
    }

    /// The state named `name`, if the table has one.
    pub fn get(&self, name: &str) -> (state: Option<&OperationState>)
        ensures
            match state {
                Some(s) => self@.contains_key(name@) && self@[name@] == s@,
                None => !self@.contains_key(name@),
            },
    {
        proof {
            use_type_invariant(self);
        }
        match self.position(name) {
            Some(i) => {
                proof {
                    lemma_table_lookup(self.entries@, i as int);
                }
                Some(&self.entries[i].1)
            },
            None => {
                proof {
                    lemma_table_names(self.entries@, name@);
                }
                None
            },
        }
    }

    /// The names of the states of the table, each once.
    pub fn names(&self) -> (names: Vec<String>)
        ensures
            forall|name: Seq<char>|
                self@.contains_key(name) <==> exists|i: int|
                    0 <= i < names@.len() && (#[trigger] names@[i])@ == name,
            forall|i: int, j: int|
                0 <= i < j < names@.len() ==> (#[trigger] names@[i])@ != (#[trigger] names@[j])@,
    {
        proof {
            use_type_invariant(self);
        }
        let mut names: Vec<String> = Vec::new();
        let mut i: usize = 0;
        while i < self.entries.len()
            invariant
                i <= self.entries@.len(),
                names@.len() == i,
                forall|j: int| 0 <= j < i ==> (#[trigger] names@[j])@ == self.entries@[j].0@,
            decreases self.entries@.len() - i,
        {
            names.push(self.entries[i].0.clone());
            i += 1;
        }
        proof {
            assert forall|name: Seq<char>|
                self@.contains_key(name) <==> exists|i: int|
                    0 <= i < names@.len() && (#[trigger] names@[i])@ == name by {
                lemma_table_names(self.entries@, name);
                if self@.contains_key(name) {
                    let k = choose|k: int|
                        0 <= k < self.entries@.len() && (#[trigger] self.entries@[k]).0@ == name;
                    assert(names@[k]@ == name);
                }
                if exists|i: int| 0 <= i < names@.len() && (#[trigger] names@[i])@ == name {
                    let k = choose|k: int| 0 <= k < names@.len() && (#[trigger] names@[k])@ == name;
                    assert(self.entries@[k].0@ == name);
                }
            }
            assert forall|i: int, j: int| 0 <= i < j < names@.len() implies (#[trigger] names@[i])@
                != (#[trigger] names@[j])@ by {
                assert(self.entries@[i].0@ != self.entries@[j].0@);
            }
        }
        names
    }

    /// Puts `state` in the table under `name`, in the place of the state that
    /// had this name, if there was one.
    pub fn insert(&mut self, name: String, state: OperationState)
        ensures
            final(self)@ == old(self)@.insert(name@, state@),
    {
        proof {
            use_type_invariant(&*self);
        }
        let found = self.position(name.as_str());
        let mut entries: Vec<(String, OperationState)> = Vec::new();
        core::mem::swap(&mut self.entries, &mut entries);
        match found {
            Some(i) => {
                proof {
                    lemma_table_update(entries@, i as int, (name, state));
                }
                entries.set(i, (name, state));
            },
            None => {
                let ghost before = entries@;
                entries.push((name, state));
                assert(entries@.drop_last() =~= before);
            },
        }
        self.entries = entries;
    }
}

} // verus!
