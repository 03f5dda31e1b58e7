//! The errors that decoding a declaration can end in.

use vstd::prelude::*;
use crate::value::ValueKind;

verus! {

/// A closed set of names: the fields a record accepts, or the variants a tag
/// may take. Errors carry it so that their message can list the names.
#[derive(Debug, Clone, Copy, PartialEq, Eq, Structural)]
pub enum NameSet {
    DirectiveFields,
    ContainerFields,
    NamedContainerFields,
    NetworkModes,
    MountTypes,
    SimpleMountFields,
    BindMountFields,
    DevicesMountFields,
    Devices,
    ImageFields,
    ImageUses,
    LayerTypes,
    TarLayerFields,
    GlobLayerFields,
    PathsLayerFields,
    StubsLayerFields,
    SymlinksLayerFields,
    SharedLibraryDependenciesLayerFields,
    SymlinkFields,
}

/// What a field's value was expected to be, as named in type errors.
#[derive(Debug, Clone, Copy, PartialEq, Eq, Structural)]
pub enum Expectation {
    String,
    Boolean,
    UnsignedInteger,
    Array,
    Table,
    StringOrTable,
}

/// One of the three fields a container can take from its image.
#[derive(Debug, Clone, Copy, PartialEq, Eq, Structural)]
pub enum ImageUse {
    Layers,
    Environment,
    WorkingDirectory,
}

/// One of the three fields that come in a replacing and an appending form.
#[derive(Debug, Clone, Copy, PartialEq, Eq, Structural)]
pub enum MergedField {
    Mounts,
    Layers,
    Environment,
}

/// Why a declaration was rejected.
#[derive(Debug, PartialEq, Eq)]
pub enum DecodeError {
    /// A key that the record does not accept.
    UnknownField { field: String, expected: NameSet },
    /// A key that the record holds twice.
    DuplicateKey { field: String },
    /// A field that the record requires and does not hold.
    MissingField { field: String },
    /// A layer that names none of the layer types.
    MissingLayerType,
    /// A tag outside its closed set.
    UnknownVariant { variant: String, expected: NameSet },
    /// A value of the wrong shape.
    InvalidType { found: ValueKind, wanted: Expectation },
    /// An integer that is negative or does not fit in 32 bits.
    IntegerOutOfRange,
    /// A mount point of `/`.
    RootPath,
    /// A devices mount that names no device.
    EmptyDeviceSet,
    /// A replacing field that comes after its appending sibling.
    SetAfterAdded { merged: MergedField },
    /// A field set explicitly after an image that supplies it.
    SetAfterImage { supplied: ImageUse },
    /// An image that supplies a field which was already set explicitly.
    ImageAfterSet { supplied: ImageUse },
    /// An image that supplies a field whose appending sibling came first.
    ImageAfterAdded { supplied: ImageUse },
    /// The filter parser rejected the filter; its message is kept as it is.
    Filter { message: String },
}

/// The mathematical model of a [`DecodeError`].
pub enum DecodeErrorView {
    UnknownField { field: Seq<char>, expected: NameSet },
    DuplicateKey { field: Seq<char> },
    MissingField { field: Seq<char> },
    MissingLayerType,
    UnknownVariant { variant: Seq<char>, expected: NameSet },
    InvalidType { found: ValueKind, wanted: Expectation },
    IntegerOutOfRange,
    RootPath,
    EmptyDeviceSet,
    SetAfterAdded { merged: MergedField },
    SetAfterImage { supplied: ImageUse },
    ImageAfterSet { supplied: ImageUse },
    ImageAfterAdded { supplied: ImageUse },
    Filter { message: Seq<char> },
}

impl View for DecodeError {
    type V = DecodeErrorView;

    open spec fn view(&self) -> DecodeErrorView {
        match self {
            DecodeError::UnknownField { field, expected } => DecodeErrorView::UnknownField {
                field: field@,
                expected: *expected,
            },
            DecodeError::DuplicateKey { field } => DecodeErrorView::DuplicateKey { field: field@ },
            DecodeError::MissingField { field } => DecodeErrorView::MissingField { field: field@ },
            DecodeError::MissingLayerType => DecodeErrorView::MissingLayerType,
            DecodeError::UnknownVariant { variant, expected } => DecodeErrorView::UnknownVariant {
                variant: variant@,
                expected: *expected,
            },
            DecodeError::InvalidType { found, wanted } => DecodeErrorView::InvalidType {
                found: *found,
                wanted: *wanted,
            },
            DecodeError::IntegerOutOfRange => DecodeErrorView::IntegerOutOfRange,
            DecodeError::RootPath => DecodeErrorView::RootPath,
            DecodeError::EmptyDeviceSet => DecodeErrorView::EmptyDeviceSet,
            DecodeError::SetAfterAdded { merged } => DecodeErrorView::SetAfterAdded { merged: *merged },
            DecodeError::SetAfterImage { supplied } => DecodeErrorView::SetAfterImage { supplied: *supplied },
            DecodeError::ImageAfterSet { supplied } => DecodeErrorView::ImageAfterSet { supplied: *supplied },
            DecodeError::ImageAfterAdded { supplied } => DecodeErrorView::ImageAfterAdded {
                supplied: *supplied,
            },
            DecodeError::Filter { message } => DecodeErrorView::Filter { message: message@ },
        }
    }
}

/// The model of a decoding result: the model of the value, or of the error.
pub open spec fn result_view<T: View>(r: Result<T, DecodeError>) -> Result<T::V, DecodeErrorView> {
    match r {
        Ok(value) => Ok(value@),
        Err(error) => Err(error@),
    }
}

/// The error for a key that a record holds twice.
pub fn duplicate_key(key: &str) -> (e: DecodeError)
    ensures
        e@ == (DecodeErrorView::DuplicateKey { field: key@ }),
{
    DecodeError::DuplicateKey { field: key.to_owned() }
}

/// The error for a key that a record does not accept.
pub fn unknown_field(key: &str, expected: NameSet) -> (e: DecodeError)
    ensures
        e@ == (DecodeErrorView::UnknownField { field: key@, expected }),
{
    DecodeError::UnknownField { field: key.to_owned(), expected }
}

/// The error for a tag outside its closed set.
pub fn unknown_variant(tag: &str, expected: NameSet) -> (e: DecodeError)
    ensures
        e@ == (DecodeErrorView::UnknownVariant { variant: tag@, expected }),
{
    DecodeError::UnknownVariant { variant: tag.to_owned(), expected }
}

/// The error for a required field that a record does not hold.
pub fn missing_field(name: &str) -> (e: DecodeError)
    ensures
        e@ == (DecodeErrorView::MissingField { field: name@ }),
{
    DecodeError::MissingField { field: name.to_owned() }
}

} // verus!
