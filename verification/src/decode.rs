//! Decoding of single values: scalars, and arrays of anything decodable.

use vstd::prelude::*;
use crate::error::{result_view, DecodeError, DecodeErrorView, Expectation};
use crate::value::{lemma_array_view, Value, ValueView};

verus! {

/// A type that one input value can be decoded into.
///
/// `spec_decode` says, over the models, what decoding returns; `decode`
/// computes it.
pub trait Decode: Sized + View {
    spec fn spec_decode(value: ValueView) -> Result<Self::V, DecodeErrorView>;

    fn decode(value: &Value) -> (r: Result<Self, DecodeError>)
        ensures
            result_view(r) == Self::spec_decode(value@),
    ;
}

/// The error for a value of the wrong shape.
pub open spec fn spec_invalid_type(value: ValueView, expected: Expectation) -> DecodeErrorView {
    DecodeErrorView::InvalidType { found: value.kind(), wanted: expected }
}

/// The error for a value of the wrong shape.
pub fn invalid_type(value: &Value, expected: Expectation) -> (e: DecodeError)
    ensures
        e@ == spec_invalid_type(value@, expected),
{
    DecodeError::InvalidType { found: value.kind(), wanted: expected }
}

impl Decode for String {
    open spec fn spec_decode(value: ValueView) -> Result<Seq<char>, DecodeErrorView> {
        match value {
            ValueView::String(s) => Ok(s),
            _ => Err(spec_invalid_type(value, Expectation::String)),
        }
    }

    fn decode(value: &Value) -> (r: Result<String, DecodeError>) {
        match value {
            Value::String(s) => Ok(s.clone()),
            _ => Err(invalid_type(value, Expectation::String)),
        }
    }
}

impl Decode for bool {
    open spec fn spec_decode(value: ValueView) -> Result<bool, DecodeErrorView> {
        match value {
            ValueView::Boolean(b) => Ok(b),
            _ => Err(spec_invalid_type(value, Expectation::Boolean)),
        }
    }

    fn decode(value: &Value) -> (r: Result<bool, DecodeError>) {
        match value {
            Value::Boolean(b) => Ok(*b),
            _ => Err(invalid_type(value, Expectation::Boolean)),
        }
    }
}

impl Decode for u32 {
    open spec fn spec_decode(value: ValueView) -> Result<u32, DecodeErrorView> {
        match value {
            ValueView::Integer(i) => if 0 <= i <= u32::MAX {
                Ok(i as u32)
            } else {
                Err(DecodeErrorView::IntegerOutOfRange)
            },
            _ => Err(spec_invalid_type(value, Expectation::UnsignedInteger)),
        }
    }

    fn decode(value: &Value) -> (r: Result<u32, DecodeError>) {
        match value {
            Value::Integer(i) => if 0 <= *i && *i <= 0xffff_ffff {
                Ok(*i as u32)
            } else {
                Err(DecodeError::IntegerOutOfRange)
            },
            _ => Err(invalid_type(value, Expectation::UnsignedInteger)),
        }
    }
}

/// The model of an optional value.
pub open spec fn opt_view<T: View>(value: Option<T>) -> Option<T::V> {
    match value {
        Some(inner) => Some(inner@),
        None => None,
    }
}

/// The models of a sequence of values, in order.
pub open spec fn seq_view<T: View>(items: Seq<T>) -> Seq<T::V> {
    Seq::new(items.len(), |i: int| items[i]@)
}

/// Decoding the first `n` items of an array, left to right: the decoded
/// items in order, or the error of the first item that fails.
pub open spec fn spec_decode_items<T: Decode>(items: Seq<ValueView>, n: nat) -> Result<
    Seq<T::V>,
    DecodeErrorView,
>
    decreases n,
{
    if n == 0 {
        Ok(Seq::empty())
    } else {
        match spec_decode_items::<T>(items, (n - 1) as nat) {
            Err(e) => Err(e),
            Ok(done) => match T::spec_decode(items[n - 1]) {
                Err(e) => Err(e),
                Ok(item) => Ok(done.push(item)),
            },
        }
    }
}

/// Decoding an array: every item in order, stopping at the first error.
pub open spec fn spec_decode_array<T: Decode>(value: ValueView) -> Result<
    Seq<T::V>,
    DecodeErrorView,
> {
    match value {
        ValueView::Array(items) => spec_decode_items::<T>(items, items.len()),
        _ => Err(spec_invalid_type(value, Expectation::Array)),
    }
}

/// Once a prefix of an array has failed, every longer prefix fails with the
/// same error.
pub proof fn lemma_decode_items_error_stays<T: Decode>(items: Seq<ValueView>, n: nat, m: nat)
    requires
        n <= m,
        spec_decode_items::<T>(items, n) is Err,
    ensures
        spec_decode_items::<T>(items, m) == spec_decode_items::<T>(items, n),
    decreases m,
{
    if n < m {
        lemma_decode_items_error_stays::<T>(items, n, (m - 1) as nat);
    }
}

/// An accepted array keeps one decoded item per input item, each the
/// decoding of the item at its place.
pub proof fn lemma_decode_items_ok<T: Decode>(items: Seq<ValueView>, n: nat)
    requires
        spec_decode_items::<T>(items, n) is Ok,
    ensures
        spec_decode_items::<T>(items, n)->Ok_0.len() == n,
        forall|i: int|
            0 <= i < n ==> T::spec_decode(#[trigger] items[i]) == Ok::<T::V, DecodeErrorView>(
                spec_decode_items::<T>(items, n)->Ok_0[i],
            ),
    decreases n,
{
    if n > 0 {
        lemma_decode_items_ok::<T>(items, (n - 1) as nat);
    }
}

/// Decodes an array, item by item.
pub fn decode_array<T: Decode>(value: &Value) -> (r: Result<Vec<T>, DecodeError>)
    ensures
        match r {
            Ok(decoded) => spec_decode_array::<T>(value@) == Ok::<Seq<T::V>, DecodeErrorView>(
                seq_view(decoded@),
            ),
            Err(e) => spec_decode_array::<T>(value@) == Err::<Seq<T::V>, DecodeErrorView>(e@),
        },
{
    match value {
        Value::Array(items) => {
            proof {
                lemma_array_view(*value);
            }
            let ghost models = value@->Array_0;
            let mut decoded: Vec<T> = Vec::new();
            let mut i: usize = 0;
            assert(seq_view(decoded@) =~= Seq::<T::V>::empty());
            while i < items.len()
                invariant
                    i <= items.len(),
                    models.len() == items.len(),
                    value@ == ValueView::Array(models),
                    forall|j: int| 0 <= j < items.len() ==> models[j] == items@[j]@,
                    spec_decode_items::<T>(models, i as nat) == Ok::<Seq<T::V>, DecodeErrorView>(
                        seq_view(decoded@),
                    ),
                decreases items.len() - i,
            {
                match T::decode(&items[i]) {
                    Ok(item) => {
                        let ghost before = seq_view(decoded@);
                        decoded.push(item);
                        assert(models[i as int] == items@[i as int]@);
                        assert(seq_view(decoded@) =~= before.push(item@));
                    },
                    Err(e) => {
                        proof {
                            assert(models[i as int] == items@[i as int]@);
                            assert(spec_decode_items::<T>(models, (i + 1) as nat) == Err::<
                                Seq<T::V>,
                                DecodeErrorView,
                            >(e@));
                            lemma_decode_items_error_stays::<T>(
                                models,
                                (i + 1) as nat,
                                items.len() as nat,
                            );
                            assert(value@ == ValueView::Array(models));
                            assert(spec_decode_array::<T>(value@) == spec_decode_items::<T>(
                                models,
                                models.len(),
                            ));
                        }
                        return Err(e);
                    },
                }
                i += 1;
            }
            Ok(decoded)
        },
        _ => Err(invalid_type(value, Expectation::Array)),
    }
}

} // verus!
