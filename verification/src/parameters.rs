//! Parameters that a client sends when it connects.

use vstd::prelude::*;

verus! {

/// The value of a parameter.
#[derive(Debug)]
pub enum ParameterValue {
    String(String),
    Tuple(Vec<String>),
}

impl ParameterValue {
    /// The text of the value, unless it is a list.
    pub open spec fn text(self) -> Option<Seq<char>> {
        match self {
            ParameterValue::String(value) => Some(value@),
            ParameterValue::Tuple(_) => None,
        }
    }

    /// The text of the value, unless it is a list.
    pub fn as_str(&self) -> (text: Option<&str>)
        ensures
            match text {
                Some(text) => self.text() == Some(text@),
                None => self.text() is None,
            },
    {
        match self {
            ParameterValue::String(value) => Some(value.as_str()),
            ParameterValue::Tuple(_) => None,
        }
    }
}

/// Whether two strings hold the same characters.
pub(crate) fn same_text(a: &str, b: &str) -> (same: bool)
    ensures
        same == (a@ == b@),
{
    a.to_owned() == b.to_owned()
}

/// Named parameters, each name at most once. Names are told apart letter by
/// letter.
#[derive(Debug)]
pub struct Parameters {
    entries: Vec<(String, ParameterValue)>,
}

/// The entry at `index` is the one for `name`.
spec fn names(entries: Seq<(String, ParameterValue)>, index: int, name: Seq<char>) -> bool {
    0 <= index < entries.len() && entries[index].0@ == name
}

/// No two entries have the same name.
spec fn distinct_names(entries: Seq<(String, ParameterValue)>) -> bool {
    forall|i: int, j: int|
        0 <= i < j < entries.len() ==> #[trigger] entries[i].0@ != #[trigger] entries[j].0@
}

/// What the entries say of each name.
spec fn as_map(entries: Seq<(String, ParameterValue)>) -> Map<Seq<char>, ParameterValue> {
    Map::new(
        |name: Seq<char>| exists|i: int| names(entries, i, name),
        |name: Seq<char>| entries[choose|i: int| names(entries, i, name)].1,
    )
}

impl View for Parameters {
    type V = Map<Seq<char>, ParameterValue>;

    closed spec fn view(&self) -> Map<Seq<char>, ParameterValue> {
        as_map(self.entries@)
    }
}

impl Default for Parameters {
    fn default() -> (params: Self)
        ensures
            params@ == Map::<Seq<char>, ParameterValue>::empty(),
    {
        let params = Parameters { entries: Vec::new() };
        assert(params@ =~= Map::<Seq<char>, ParameterValue>::empty());
        params
    }
}

/// The entry for a name gives its value in the map.
proof fn lemma_entry_is_value(entries: Seq<(String, ParameterValue)>, index: int)
    requires
        distinct_names(entries),
        0 <= index < entries.len(),
    ensures
        as_map(entries).contains_key(entries[index].0@),
        as_map(entries)[entries[index].0@] == entries[index].1,
{
    let name = entries[index].0@;
    assert(names(entries, index, name));
    let chosen = choose|i: int| names(entries, i, name);
    assert(names(entries, chosen, name));
    assert(chosen == index) by {
        if chosen < index {
            assert(entries[chosen].0@ != entries[index].0@);
        } else if index < chosen {
            assert(entries[index].0@ != entries[chosen].0@);
        }
    }
}

/// Entries that differ in the one for `name` alone differ as maps in that name
/// alone.
proof fn lemma_insert(
    before: Seq<(String, ParameterValue)>,
    after: Seq<(String, ParameterValue)>,
    index: int,
    name: Seq<char>,
    value: ParameterValue,
)
    requires
        distinct_names(before),
        distinct_names(after),
        0 <= index < after.len(),
        after.len() == before.len() || after.len() == before.len() + 1 && index == before.len(),
        index < before.len() ==> before[index].0@ == name,
        after[index].0@ == name,
        after[index].1 == value,
        forall|i: int| 0 <= i < before.len() && i != index ==> after[i] == before[i],
    ensures
        as_map(after) == as_map(before).insert(name, value),
{
    let expected = as_map(before).insert(name, value);
    lemma_entry_is_value(after, index);
    assert forall|n: Seq<char>| #[trigger] as_map(after).dom().contains(n) implies (
    expected.dom().contains(n) && as_map(after)[n] == expected[n]) by {
        if n != name {
            let i = choose|i: int| names(after, i, n);
            assert(names(before, i, n));
            lemma_entry_is_value(before, i);
            lemma_entry_is_value(after, i);
        }
    }
    assert forall|n: Seq<char>| #[trigger] expected.dom().contains(n) implies as_map(
        after,
    ).dom().contains(n) by {
        if n != name {
            let i = choose|i: int| names(before, i, n);
            assert(names(after, i, n));
        }
    }
    assert(as_map(after) =~= expected);
}

impl Parameters {
    #[verifier::type_invariant]
    spec fn well_formed(self) -> bool {
        distinct_names(self.entries@)
    }

    /// The position of `name` among the entries, or their number.
    fn position(entries: &Vec<(String, ParameterValue)>, name: &str) -> (index: usize)
        ensures
            index <= entries@.len(),
            index < entries@.len() ==> entries@[index as int].0@ == name@,
            index == entries@.len() ==> forall|i: int| !names(entries@, i, name@),
    {
        let mut index: usize = 0;
        while index < entries.len()
            invariant
                index <= entries@.len(),
                forall|i: int| 0 <= i < index ==> (#[trigger] entries@[i]).0@ != name@,
            decreases entries@.len() - index,
        {
            if same_text(entries[index].0.as_str(), name) {
                return index;
            }
            index += 1;
        }
        index
    }

    /// The value of a parameter.
    pub fn get(&self, name: &str) -> (value: Option<&ParameterValue>)
        ensures
            match value {
                Some(value) => self@.contains_key(name@) && *value == self@[name@],
                None => !self@.contains_key(name@),
            },
    {
        proof {
            use_type_invariant(self);
        }
        let index: usize = Parameters::position(&self.entries, name);
        if index < self.entries.len() {
            proof {
                lemma_entry_is_value(self.entries@, index as int);
            }
            Some(&self.entries[index].1)
        } else {
            None
        }
    }

    /// Sets a parameter, in place of the value it had, if any.
    pub fn insert(&mut self, name: &str, value: ParameterValue)
        ensures
            final(self)@ == old(self)@.insert(name@, value),
    {
        proof {
            use_type_invariant(&*self);
        }
        let mut entries: Vec<(String, ParameterValue)> = Vec::new();
        std::mem::swap(&mut entries, &mut self.entries);
        let ghost before = entries@;
        let index: usize = Parameters::position(&entries, name);
        if index < entries.len() {
            entries.set(index, (name.to_owned(), value));
        } else {
            entries.push((name.to_owned(), value));
        }
        proof {
            assert forall|i: int, j: int| 0 <= i < j < entries@.len() implies
                #[trigger] entries@[i].0@ != #[trigger] entries@[j].0@ by {
                if i < before.len() {
                    assert(names(before, i, before[i].0@));
                }
                if j < before.len() {
                    assert(before[i].0@ != before[j].0@);
                } else {
                    assert(!names(before, i, name@));
                }
            }
            lemma_insert(before, entries@, index as int, name@, value);
        }
        self.entries = entries;
    }
}

/// The text of a value is the whole of it; a list has none.
pub proof fn law_text_is_whole(text: String, list: Vec<String>)
    ensures
        ParameterValue::String(text).text() == Some(text@),
        ParameterValue::Tuple(list).text() is None,
{
}

} // verus!
