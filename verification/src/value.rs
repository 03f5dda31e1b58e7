//! The tree of configuration values that declarations are decoded from.
//!
//! A host format (TOML, JSON, ...) is loaded into this tree by the caller.
//! Tables keep their entries in document order, because the order in which
//! the fields of a declaration appear is significant.

use vstd::prelude::*;
use vstd::string::StringSliceAdditionalSpecFns;

verus! {

/// One node of the input tree.
#[derive(Debug, PartialEq, Eq)]
pub enum Value {
    String(String),
    Integer(i64),
    Boolean(bool),
    Array(Vec<Value>),
    Table(Vec<(String, Value)>),
}

/// The mathematical model of a [`Value`].
pub enum ValueView {
    String(Seq<char>),
    Integer(int),
    Boolean(bool),
    Array(Seq<ValueView>),
    Table(Seq<(Seq<char>, ValueView)>),
}

/// The shape of a value, as named in type errors.
#[derive(Debug, Clone, Copy, PartialEq, Eq, Structural)]
pub enum ValueKind {
    String,
    Integer,
    Boolean,
    Array,
    Table,
}

/// The model of a value, by recursion over the tree.
pub open spec fn value_view(value: Value) -> ValueView
    decreases value,
{
    match value {
        Value::String(s) => ValueView::String(s@),
        Value::Integer(i) => ValueView::Integer(i as int),
        Value::Boolean(b) => ValueView::Boolean(b),
        Value::Array(items) => ValueView::Array(
            Seq::new(
                items@.len(),
                |i: int|
                    if 0 <= i < items@.len() {
                        value_view(items@[i])
                    } else {
                        arbitrary()
                    },
            ),
        ),
        Value::Table(entries) => ValueView::Table(
            Seq::new(
                entries@.len(),
                |i: int|
                    if 0 <= i < entries@.len() {
                        (entries@[i].0@, value_view(entries@[i].1))
                    } else {
                        arbitrary()
                    },
            ),
        ),
    }
}

impl View for Value {
    type V = ValueView;

    open spec fn view(&self) -> ValueView {
        value_view(*self)
    }
}

impl ValueView {
    pub open spec fn kind(self) -> ValueKind {
        match self {
            ValueView::String(_) => ValueKind::String,
            ValueView::Integer(_) => ValueKind::Integer,
            ValueView::Boolean(_) => ValueKind::Boolean,
            ValueView::Array(_) => ValueKind::Array,
            ValueView::Table(_) => ValueKind::Table,
        }
    }
}

/// The model of the items of an array.
pub open spec fn items_view(items: Seq<Value>) -> Seq<ValueView> {
    Seq::new(items.len(), |i: int| items[i]@)
}

impl Value {
    /// The shape of this value.
    pub fn kind(&self) -> (r: ValueKind)
        ensures
            r == self@.kind(),
    {
        match self {
            Value::String(_) => ValueKind::String,
            Value::Integer(_) => ValueKind::Integer,
            Value::Boolean(_) => ValueKind::Boolean,
            Value::Array(_) => ValueKind::Array,
            Value::Table(_) => ValueKind::Table,
        }
    }
}

/// An array value is modelled by the models of its items, in order.
pub proof fn lemma_array_view(value: Value)
    requires
        value is Array,
    ensures
        value@ == ValueView::Array(items_view(value->Array_0@)),
{
    assert(value@->Array_0 =~= items_view(value->Array_0@));
}

/// A table value is modelled by its keys and the models of its values, in
/// document order.
pub proof fn lemma_table_view(value: Value)
    requires
        value is Table,
    ensures
        value@ == ValueView::Table(crate::record::entries_view(value->Table_0@)),
{
    assert(value@->Table_0 =~= crate::record::entries_view(value->Table_0@));
}

/// Whether two strings hold the same text. They do exactly if they hold
/// the same bytes, since a text can be read back from its bytes.
pub(crate) fn str_eq(a: &str, b: &str) -> (r: bool)
    ensures
        r == (a@ == b@),
{
    let left = a.as_bytes();
    let right = b.as_bytes();
    proof {
        vstd::utf8::encode_utf8_decode_utf8(a@);
        vstd::utf8::encode_utf8_decode_utf8(b@);
    }
    if left.len() != right.len() {
        return false;
    }
    let mut i: usize = 0;
    while i < left.len()
        invariant
            i <= left.len(),
            left@.len() == right@.len(),
            left@ == a.spec_bytes(),
            right@ == b.spec_bytes(),
            forall|j: int| 0 <= j < i ==> left@[j] == right@[j],
        decreases left.len() - i,
    {
        if left[i] != right[i] {
            return false;
        }
        i += 1;
    }
    assert(left@ =~= right@);
    true
}

} // verus!
