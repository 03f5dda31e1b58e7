//! Environments: the variables that a container's processes start with.

use vstd::prelude::*;
use vstd::std_specs::cmp::PartialEqSpecImpl;
use crate::decode::{invalid_type, spec_invalid_type, Decode};
use crate::error::{duplicate_key, DecodeError, DecodeErrorView, Expectation};
use crate::record::{accept_entries, spec_accept_entries, Record};
use crate::value::{lemma_table_view, str_eq, Value, ValueView};

verus! {

/// A mapping from the names of environment variables to their values.
///
/// The variables are kept in the order in which they were inserted; a name
/// occurs at most once. Two environments are equal if they map the same
/// names to the same values, in whatever order they were inserted.
#[derive(Debug)]
pub struct Environment {
    entries: Vec<(String, String)>,
}

/// The mapping that the first `n` of `entries` make.
pub open spec fn spec_map_of(entries: Seq<(String, String)>, n: nat) -> Map<Seq<char>, Seq<char>>
    decreases n,
{
    if n == 0 {
        Map::empty()
    } else {
        spec_map_of(entries, (n - 1) as nat).insert(entries[n - 1].0@, entries[n - 1].1@)
    }
}

/// What a mapping holds for a name, if anything.
pub open spec fn spec_get(map: Map<Seq<char>, Seq<char>>, name: Seq<char>) -> Option<Seq<char>> {
    if map.contains_key(name) {
        Some(map[name])
    } else {
        None
    }
}

/// Whether no name occurs twice among the entries.
pub open spec fn spec_names_distinct(entries: Seq<(String, String)>) -> bool {
    forall|i: int, j: int| 0 <= i < j < entries.len() ==> entries[i].0@ != entries[j].0@
}

/// The mapping of a list of entries holds the name of each of them.
proof fn lemma_map_of_holds(entries: Seq<(String, String)>, n: nat, i: int)
    requires
        0 <= i < n,
    ensures
        spec_map_of(entries, n).contains_key(entries[i].0@),
    decreases n,
{
    if i < n - 1 {
        lemma_map_of_holds(entries, (n - 1) as nat, i);
    }
}

/// Where no name occurs twice, the mapping of a list of entries maps the
/// name of each of them to its value.
proof fn lemma_map_of_value(entries: Seq<(String, String)>, n: nat, i: int)
    requires
        0 <= i < n <= entries.len(),
        spec_names_distinct(entries),
    ensures
        spec_map_of(entries, n)[entries[i].0@] == entries[i].1@,
    decreases n,
{
    if i < n - 1 {
        lemma_map_of_value(entries, (n - 1) as nat, i);
    }
}

/// A name that the mapping of a list of entries holds is the name of one of
/// them.
proof fn lemma_map_of_key(entries: Seq<(String, String)>, n: nat, name: Seq<char>) -> (i: int)
    requires
        spec_map_of(entries, n).contains_key(name),
    ensures
        0 <= i < n,
        entries[i].0@ == name,
    decreases n,
{
    if entries[n - 1].0@ == name {
        n - 1
    } else {
        lemma_map_of_key(entries, (n - 1) as nat, name)
    }
}

/// The mapping of a prefix does not depend on what follows the prefix.
proof fn lemma_map_of_push(entries: Seq<(String, String)>, entry: (String, String), n: nat)
    requires
        n <= entries.len(),
    ensures
        spec_map_of(entries.push(entry), n) == spec_map_of(entries, n),
    decreases n,
{
    if n > 0 {
        lemma_map_of_push(entries, entry, (n - 1) as nat);
    }
}

impl View for Environment {
    type V = Map<Seq<char>, Seq<char>>;

    closed spec fn view(&self) -> Map<Seq<char>, Seq<char>> {
        spec_map_of(self.entries@, self.entries@.len())
    }
}

impl Environment {
    #[verifier::type_invariant]
    spec fn names_distinct(self) -> bool {
        spec_names_distinct(self.entries@)
    }

    /// The environment without any variable.
    pub fn new() -> (r: Environment)
        ensures
            r@ == Map::<Seq<char>, Seq<char>>::empty(),
    {
        Environment { entries: Vec::new() }
    }

    /// The value of the variable `name`, if it is set.
    pub fn get(&self, name: &str) -> (r: Option<&String>)
        ensures
            match r {
                Some(value) => spec_get(self@, name@) == Some(value@),
                None => !self@.contains_key(name@),
            },
    {
        let mut i: usize = self.entries.len();
        while i > 0
            invariant
                i <= self.entries.len(),
                spec_get(self@, name@) == spec_get(spec_map_of(self.entries@, i as nat), name@),
            decreases i,
        {
            i -= 1;
            if str_eq(self.entries[i].0.as_str(), name) {
                return Some(&self.entries[i].1);
            }
        }
        None
    }

    /// Whether the variable `name` is set.
    pub fn contains_key(&self, name: &str) -> (r: bool)
        ensures
            r == self@.contains_key(name@),
    {
        self.get(name).is_some()
    }

    /// Sets the variable `name` to `value`, unless it is set already.
    /// Says whether it set the variable.
    pub fn insert(&mut self, name: String, value: String) -> (r: bool)
        ensures
            r == !old(self)@.contains_key(name@),
            final(self)@ == if r {
                old(self)@.insert(name@, value@)
            } else {
                old(self)@
            },
    {
        if self.contains_key(name.as_str()) {
            false
        } else {
            let mut taken = Environment::new();
            core::mem::swap(self, &mut taken);
            proof {
                use_type_invariant(&taken);
            }
            let mut entries = taken.entries;
            proof {
                lemma_map_of_push(entries@, (name, value), entries@.len());
                assert forall|i: int| 0 <= i < entries@.len() implies entries@[i].0@ != name@ by {
                    lemma_map_of_holds(entries@, entries@.len(), i);
                }
            }
            entries.push((name, value));
            *self = Environment { entries };
            true
        }
    }

    /// The variables with their values, in the order in which they were
    /// inserted.
    pub fn entries(&self) -> (r: &Vec<(String, String)>)
        ensures
            spec_map_of(r@, r@.len()) == self@,
            spec_names_distinct(r@),
    {
        proof {
            use_type_invariant(self);
        }
        &self.entries
    }
}

impl PartialEq for Environment {
    /// Whether the two environments map the same names to the same values.
    fn eq(&self, other: &Environment) -> (r: bool) {
        proof {
            use_type_invariant(self);
            use_type_invariant(other);
        }
        let mut i: usize = 0;
        while i < self.entries.len()
            invariant
                i <= self.entries.len(),
                spec_names_distinct(self.entries@),
                forall|j: int|
                    0 <= j < i ==> spec_get(other@, (#[trigger] self.entries@[j]).0@) == Some(
                        self.entries@[j].1@,
                    ),
            decreases self.entries.len() - i,
        {
            proof {
                lemma_map_of_holds(self.entries@, self.entries@.len(), i as int);
                lemma_map_of_value(self.entries@, self.entries@.len(), i as int);
            }
            match other.get(self.entries[i].0.as_str()) {
                None => {
                    return false;
                },
                Some(value) => {
                    if !str_eq(value.as_str(), self.entries[i].1.as_str()) {
                        return false;
                    }
                },
            }
            i += 1;
        }
        let mut k: usize = 0;
        while k < other.entries.len()
            invariant
                k <= other.entries.len(),
                forall|j: int|
                    0 <= j < k ==> self@.contains_key((#[trigger] other.entries@[j]).0@),
            decreases other.entries.len() - k,
        {
            proof {
                lemma_map_of_holds(other.entries@, other.entries@.len(), k as int);
            }
            if !self.contains_key(other.entries[k].0.as_str()) {
                return false;
            }
            k += 1;
        }
        proof {
            assert forall|name: Seq<char>| #[trigger]
                self@.contains_key(name) implies other@.contains_key(name) && other@[name]
                == self@[name] by {
                let at = lemma_map_of_key(self.entries@, self.entries@.len(), name);
                lemma_map_of_value(self.entries@, self.entries@.len(), at);
                assert(spec_get(other@, self.entries@[at].0@) == Some(self.entries@[at].1@));
            }
            assert forall|name: Seq<char>| #[trigger]
                other@.contains_key(name) implies self@.contains_key(name) by {
                let at = lemma_map_of_key(other.entries@, other.entries@.len(), name);
                assert(self@.contains_key(other.entries@[at].0@));
            }
            assert forall|name: Seq<char>| self@.dom().contains(name) == other@.dom().contains(
                name,
            ) by {
                if self@.contains_key(name) {
                    assert(other@.contains_key(name));
                }
                if other@.contains_key(name) {
                    assert(self@.contains_key(name));
                }
            }
            assert(self@.dom() =~= other@.dom());
            assert forall|name: Seq<char>| #[trigger] self@.dom().contains(name) implies self@[name]
                == other@[name] by {
                assert(self@.contains_key(name));
            }
            assert(self@ =~= other@);
        }
        true
    }
}

impl Eq for Environment {

}

impl PartialEqSpecImpl for Environment {
    open spec fn obeys_eq_spec() -> bool {
        true
    }

    open spec fn eq_spec(&self, other: &Environment) -> bool {
        self@ == other@
    }
}

impl Record for Environment {
    /// An environment accepts any name once, with a string for its value.
    open spec fn spec_accept(
        state: Map<Seq<char>, Seq<char>>,
        key: Seq<char>,
        value: ValueView,
    ) -> Result<Map<Seq<char>, Seq<char>>, DecodeErrorView> {
        if state.contains_key(key) {
            Err(DecodeErrorView::DuplicateKey { field: key })
        } else {
            match String::spec_decode(value) {
                Err(e) => Err(e),
                Ok(text) => Ok(state.insert(key, text)),
            }
        }
    }

    fn accept(&mut self, key: &str, value: &Value) -> (r: Result<(), DecodeError>) {
        if self.contains_key(key) {
            return Err(duplicate_key(key));
        }
        match String::decode(value) {
            Err(e) => Err(e),
            Ok(text) => {
                self.insert(key.to_owned(), text);
                Ok(())
            },
        }
    }
}

impl Decode for Environment {
    /// An environment is a table of strings.
    open spec fn spec_decode(value: ValueView) -> Result<
        Map<Seq<char>, Seq<char>>,
        DecodeErrorView,
    > {
        match value {
            ValueView::Table(entries) => spec_accept_entries::<Environment>(
                Map::empty(),
                entries,
                entries.len(),
            ),
            _ => Err(spec_invalid_type(value, Expectation::Table)),
        }
    }

    fn decode(value: &Value) -> (r: Result<Environment, DecodeError>) {
        match value {
            Value::Table(entries) => {
                proof {
                    lemma_table_view(*value);
                }
                accept_entries(Environment::new(), entries)
            },
            _ => Err(invalid_type(value, Expectation::Table)),
        }
    }
}

} // verus!
