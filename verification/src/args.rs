//! The arguments of a message: a map from argument names to values.

use crate::value::{ToFluentValue, Value, ValueView};
use vstd::prelude::*;
use vstd::string::*;

verus! {

/// The map that a sequence of entries stands for, later entries winning.
pub open spec fn entries_map(entries: Seq<(String, Value)>) -> Map<Seq<char>, ValueView>
    decreases entries.len(),
{
    if entries.len() == 0 {
        Map::empty()
    } else {
        entries_map(entries.drop_last()).insert(entries.last().0@, entries.last().1@)
    }
}

/// No two entries have the same name.
pub open spec fn names_distinct(entries: Seq<(String, Value)>) -> bool {
    forall|i: int, j: int| 0 <= i < j < entries.len() ==> entries[i].0@ != entries[j].0@
}

/// Whether `name` is the name of one of the first `n` entries.
spec fn named_before(entries: Seq<(String, Value)>, n: int, name: Seq<char>) -> bool {
    exists|i: int| 0 <= i < n && #[trigger] entries[i].0@ == name
}

proof fn lemma_map_domain(entries: Seq<(String, Value)>)
    ensures
        forall|name: Seq<char>|
            entries_map(entries).dom().contains(name) <==> named_before(
                entries,
                entries.len() as int,
                name,
            ),
    decreases entries.len(),
{
    if entries.len() > 0 {
        let front = entries.drop_last();
        lemma_map_domain(front);
        assert forall|name: Seq<char>|
            entries_map(entries).dom().contains(name) <==> named_before(
                entries,
                entries.len() as int,
                name,
            ) by {
            if named_before(entries, entries.len() as int, name) {
                let i = choose|i: int| 0 <= i < entries.len() && #[trigger] entries[i].0@ == name;
                if i < front.len() {
                    assert(front[i].0@ == name);
                    assert(named_before(front, front.len() as int, name));
                }
            }
            if entries_map(entries).dom().contains(name) {
                if name == entries.last().0@ {
                    assert(entries[entries.len() - 1].0@ == name);
                } else {
                    assert(named_before(front, front.len() as int, name));
                    let i = choose|i: int| 0 <= i < front.len() && #[trigger] front[i].0@ == name;
                    assert(entries[i].0@ == name);
                }
            }
        }
    }
}

proof fn lemma_map_value(entries: Seq<(String, Value)>, i: int)
    requires
        names_distinct(entries),
        0 <= i < entries.len(),
    ensures
        entries_map(entries).dom().contains(entries[i].0@),
        entries_map(entries)[entries[i].0@] == entries[i].1@,
    decreases entries.len(),
{
    let front = entries.drop_last();
    if i < entries.len() - 1 {
        assert(names_distinct(front));
        lemma_map_value(front, i);
        assert(front[i] == entries[i]);
        assert(entries[i].0@ != entries[entries.len() - 1].0@);
    }
}

proof fn lemma_map_replace(entries: Seq<(String, Value)>, i: int, entry: (String, Value))
    requires
        names_distinct(entries),
        0 <= i < entries.len(),
        entry.0@ == entries[i].0@,
    ensures
        names_distinct(entries.update(i, entry)),
        entries_map(entries.update(i, entry)) == entries_map(entries).insert(entry.0@, entry.1@),
    decreases entries.len(),
{
    let replaced = entries.update(i, entry);
    let front = entries.drop_last();
    assert(names_distinct(replaced)) by {
        assert forall|a: int, b: int| 0 <= a < b < replaced.len() implies replaced[a].0@
            != replaced[b].0@ by {
            assert(entries[a].0@ != entries[b].0@);
        }
    }
    if i == entries.len() - 1 {
        assert(replaced.drop_last() =~= front);
        assert(entries_map(replaced) =~= entries_map(entries).insert(entry.0@, entry.1@));
    } else {
        assert(names_distinct(front));
        lemma_map_replace(front, i, entry);
        assert(replaced.drop_last() =~= front.update(i, entry));
        assert(replaced.last() == entries.last());
        assert(entries[i].0@ != entries[entries.len() - 1].0@);
        assert(entries_map(replaced) =~= entries_map(entries).insert(entry.0@, entry.1@));
    }
}

/// The arguments of one lookup. Each name has one value: a value given for a
/// name that is present replaces the earlier one.
#[derive(Debug)]
pub struct Args {
    pub(crate) entries: Vec<(String, Value)>,
}

impl View for Args {
    type V = Map<Seq<char>, ValueView>;

    closed spec fn view(&self) -> Map<Seq<char>, ValueView> {
        entries_map(self.entries@)
    }
}

impl Args {
    #[verifier::type_invariant]
    spec fn names_are_distinct(self) -> bool {
        names_distinct(self.entries@)
    }

    /// No arguments.
    pub fn new() -> (args: Args)
        ensures
            args@ == Map::<Seq<char>, ValueView>::empty(),
    {
        Args { entries: Vec::new() }
    }

    /// The position of the entry named `name`, if there is one.
    fn position(&self, name: &String) -> (found: Option<usize>)
        ensures
            match found {
                Some(i) => i < self.entries.len() && self.entries[i as int].0@ == name@,
                None => !named_before(self.entries@, self.entries.len() as int, name@),
            },
    {
        let mut i: usize = 0;
        while i < self.entries.len()
            invariant
                i <= self.entries.len(),
                !named_before(self.entries@, i as int, name@),
            decreases self.entries.len() - i,
        {
            if self.entries[i].0 == *name {
                return Some(i);
            }
            assert forall|j: int| 0 <= j < i + 1 implies #[trigger] self.entries@[j].0@
                != name@ by {
                if j < i {
                    assert(!named_before(self.entries@, i as int, name@));
                }
            }
            i += 1;
        }
        None
    }

    /// Gives the argument `name` the value `value`, in place of any value it
    /// had before.
    pub fn insert(&mut self, name: &str, value: Value)
        ensures
            final(self)@ == old(self)@.insert(name@, value@),
    {
        proof {
            use_type_invariant(&*self);
        }
        let owned = String::from_str(name);
        let found = self.position(&owned);
        let mut entries: Vec<(String, Value)> = Vec::new();
        core::mem::swap(&mut self.entries, &mut entries);
        let ghost before = entries@;
        match found {
            Some(i) => {
                proof {
                    lemma_map_replace(before, i as int, (owned, value));
                }
                entries.set(i, (owned, value));
            },
            None => {
                entries.push((owned, value));
                proof {
                    assert(entries@.drop_last() =~= before);
                    assert forall|a: int, b: int| 0 <= a < b < entries@.len() implies entries@[a].0@
                        != entries@[b].0@ by {
                        if b == before.len() {
                            assert(!named_before(before, before.len() as int, name@));
                            assert(before[a].0@ != name@);
                        } else {
                            assert(before[a].0@ != before[b].0@);
                        }
                    }
                }
            },
        }
        self.entries = entries;
    }

    /// Gives the argument `name` the value that `value` converts to.
    pub fn set<T: ToFluentValue + ?Sized>(&mut self, name: &str, value: &T)
        ensures
            final(self)@ == old(self)@.insert(name@, value.fluent_view()),
    {
        self.insert(name, value.to_fluent_value());
    }

    /// The value of the argument `name`, if it has one.
    pub fn get(&self, name: &str) -> (value: Option<&Value>)
        ensures
            match value {
                Some(v) => self@.dom().contains(name@) && self@[name@] == v@,
                None => !self@.dom().contains(name@),
            },
    {
        proof {
            use_type_invariant(self);
            lemma_map_domain(self.entries@);
        }
        let owned = String::from_str(name);
        match self.position(&owned) {
            Some(i) => {
                proof {
                    lemma_map_value(self.entries@, i as int);
                }
                Some(&self.entries[i].1)
            },
            None => None,
        }
    }

    /// The arguments as pairs of name and value, each name once.
    pub fn entries(&self) -> (list: &Vec<(String, Value)>)
        ensures
            entries_map(list@) == self@,
            names_distinct(list@),
    {
        proof {
            use_type_invariant(self);
        }
        &self.entries
    }

    /// The number of arguments.
    pub fn len(&self) -> (n: usize)
        ensures
            n == self@.dom().len(),
            self@.dom().finite(),
    {
        proof {
            use_type_invariant(self);
            lemma_map_len(self.entries@);
        }
        self.entries.len()
    }
}

proof fn lemma_map_len(entries: Seq<(String, Value)>)
    requires
        names_distinct(entries),
    ensures
        entries_map(entries).dom().finite(),
        entries_map(entries).dom().len() == entries.len(),
    decreases entries.len(),
{
    if entries.len() > 0 {
        let front = entries.drop_last();
        assert(names_distinct(front));
        lemma_map_len(front);
        lemma_map_domain(front);
        assert(!named_before(front, front.len() as int, entries.last().0@)) by {
            if named_before(front, front.len() as int, entries.last().0@) {
                let i = choose|i: int|
                    0 <= i < front.len() && #[trigger] front[i].0@ == entries.last().0@;
                assert(entries[i].0@ != entries[entries.len() - 1].0@);
            }
        }
    }
}

} // verus!
