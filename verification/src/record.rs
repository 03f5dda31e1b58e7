//! Decoding of keyed records: entries are accepted one by one, in document
//! order, into the record under construction, and the first error ends it.

use vstd::prelude::*;
use crate::error::{result_view, DecodeError, DecodeErrorView};
use crate::value::{Value, ValueView};

verus! {

/// The model of one entry of a table: its key and the model of its value.
pub type EntryView = (Seq<char>, ValueView);

/// Whether a step that changed a record in place did what `expected` says:
/// on success the record is now `after`, on failure the error is the one
/// expected.
pub open spec fn agrees<V>(
    r: Result<(), DecodeError>,
    expected: Result<V, DecodeErrorView>,
    after: V,
) -> bool {
    match r {
        Ok(()) => expected == Ok::<V, DecodeErrorView>(after),
        Err(e) => expected == Err::<V, DecodeErrorView>(e@),
    }
}

/// A record under construction, which takes the entries of a table one at a
/// time.
///
/// `spec_accept` says, over the models, what accepting one entry does to the
/// record; `accept` does it. An entry that is refused leaves the record as
/// it was.
pub trait Record: Sized + View {
    spec fn spec_accept(state: Self::V, key: Seq<char>, value: ValueView) -> Result<
        Self::V,
        DecodeErrorView,
    >;

    fn accept(&mut self, key: &str, value: &Value) -> (r: Result<(), DecodeError>)
        ensures
            agrees(r, Self::spec_accept(old(self)@, key@, value@), final(self)@),
            r is Err ==> final(self)@ == old(self)@,
    ;
}

/// The record after the first `n` entries have been accepted in order, or
/// the error of the first entry that was refused.
pub open spec fn spec_accept_entries<R: Record>(
    start: R::V,
    entries: Seq<EntryView>,
    n: nat,
) -> Result<R::V, DecodeErrorView>
    decreases n,
{
    if n == 0 {
        Ok(start)
    } else {
        match spec_accept_entries::<R>(start, entries, (n - 1) as nat) {
            Err(e) => Err(e),
            Ok(state) => R::spec_accept(state, entries[n - 1].0, entries[n - 1].1),
        }
    }
}

/// Once an entry has been refused, the entries after it change nothing.
pub proof fn lemma_accept_entries_error_stays<R: Record>(
    start: R::V,
    entries: Seq<EntryView>,
    n: nat,
    m: nat,
)
    requires
        n <= m,
        spec_accept_entries::<R>(start, entries, n) is Err,
    ensures
        spec_accept_entries::<R>(start, entries, m) == spec_accept_entries::<R>(start, entries, n),
    decreases m,
{
    if n < m {
        lemma_accept_entries_error_stays::<R>(start, entries, n, (m - 1) as nat);
    }
}

/// If the whole table was accepted, so was every prefix of it.
pub proof fn lemma_accept_entries_prefix_ok<R: Record>(
    start: R::V,
    entries: Seq<EntryView>,
    n: nat,
    m: nat,
)
    requires
        n <= m,
        spec_accept_entries::<R>(start, entries, m) is Ok,
    ensures
        spec_accept_entries::<R>(start, entries, n) is Ok,
    decreases m,
{
    if n < m {
        lemma_accept_entries_prefix_ok::<R>(start, entries, n, (m - 1) as nat);
    }
}

/// The models of the entries of a table, in document order.
pub open spec fn entries_view(entries: Seq<(String, Value)>) -> Seq<EntryView> {
    Seq::new(entries.len(), |i: int| (entries[i].0@, entries[i].1@))
}

/// Accepts every entry of a table into `record`, in document order.
pub fn accept_entries<R: Record>(start: R, entries: &Vec<(String, Value)>) -> (r: Result<
    R,
    DecodeError,
>)
    ensures
        result_view(r) == spec_accept_entries::<R>(
            start@,
            entries_view(entries@),
            entries@.len(),
        ),
{
    let ghost models = entries_view(entries@);
    let mut record = start;
    let mut i: usize = 0;
    while i < entries.len()
        invariant
            i <= entries.len(),
            models == entries_view(entries@),
            spec_accept_entries::<R>(start@, models, i as nat) == Ok::<R::V, DecodeErrorView>(
                record@,
            ),
        decreases entries.len() - i,
    {
        let entry = &entries[i];
        match record.accept(entry.0.as_str(), &entry.1) {
            Ok(()) => {},
            Err(e) => {
                proof {
                    assert(models[i as int] == (entry.0@, entry.1@));
                    assert(spec_accept_entries::<R>(start@, models, (i + 1) as nat) == Err::<
                        R::V,
                        DecodeErrorView,
                    >(e@));
                    lemma_accept_entries_error_stays::<R>(
                        start@,
                        models,
                        (i + 1) as nat,
                        entries@.len(),
                    );
                }
                return Err(e);
            },
        }
        assert(models[i as int] == (entry.0@, entry.1@));
        i += 1;
    }
    Ok(record)
}

/// The value of the first entry at or after index `from` whose key is
/// `key`, if there is one.
pub open spec fn spec_lookup_from(entries: Seq<EntryView>, key: Seq<char>, from: nat) -> Option<
    ValueView,
>
    decreases entries.len() - from,
{
    if from >= entries.len() {
        None
    } else if entries[from as int].0 == key {
        Some(entries[from as int].1)
    } else {
        spec_lookup_from(entries, key, from + 1)
    }
}

/// The value of the first entry whose key is `key`, if there is one.
pub open spec fn spec_lookup(entries: Seq<EntryView>, key: Seq<char>) -> Option<ValueView> {
    spec_lookup_from(entries, key, 0)
}

/// An entry whose key no earlier entry has is the one that a lookup of its
/// key finds.
pub proof fn lemma_lookup_first(entries: Seq<EntryView>, key: Seq<char>, at: nat, from: nat)
    requires
        from <= at < entries.len(),
        entries[at as int].0 == key,
        forall|j: int| 0 <= j < at ==> (#[trigger] entries[j]).0 != key,
    ensures
        spec_lookup_from(entries, key, from) == Some(entries[at as int].1),
    decreases at - from,
{
    if from < at {
        lemma_lookup_first(entries, key, at, from + 1);
    }
}

/// Finds the value of the first entry whose key is `key`.
pub fn lookup<'a>(entries: &'a Vec<(String, Value)>, key: &str) -> (r: Option<&'a Value>)
    ensures
        match r {
            Some(value) => spec_lookup(entries_view(entries@), key@) == Some(value@),
            None => spec_lookup(entries_view(entries@), key@) is None,
        },
{
    let ghost models = entries_view(entries@);
    let mut i: usize = 0;
    while i < entries.len()
        invariant
            i <= entries.len(),
            models == entries_view(entries@),
            spec_lookup(models, key@) == spec_lookup_from(models, key@, i as nat),
        decreases entries.len() - i,
    {
        let entry = &entries[i];
        assert(models[i as int] == (entry.0@, entry.1@));
        if crate::value::str_eq(entry.0.as_str(), key) {
            return Some(&entry.1);
        }
        i += 1;
    }
    None
}

} // verus!
