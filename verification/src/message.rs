//! The text of the errors, as a user reads it.

use vstd::prelude::*;
use vstd::string::StringExecFns;
use crate::error::{DecodeError, DecodeErrorView, Expectation, ImageUse, MergedField, NameSet};
use crate::value::ValueKind;

verus! {

/// The texts of a list of string slices, in order.
pub open spec fn texts(names: Seq<&'static str>) -> Seq<Seq<char>> {
    Seq::new(names.len(), |i: int| names[i]@)
}

impl NameSet {
    /// The names in the set, in the order in which messages list them.
    pub open spec fn spec_names(self) -> Seq<Seq<char>> {
        match self {
            NameSet::DirectiveFields => seq!["filter"@, "include_shared_libraries"@, "timeout"@, "ignore"@, "network"@, "enable_writable_file_system"@, "user"@, "group"@, "mounts"@, "added_mounts"@, "image"@, "working_directory"@, "layers"@, "added_layers"@, "environment"@, "added_environment"@],
            NameSet::ContainerFields => seq!["network"@, "enable_writable_file_system"@, "user"@, "group"@, "mounts"@, "added_mounts"@, "image"@, "working_directory"@, "layers"@, "added_layers"@, "environment"@, "added_environment"@],
            NameSet::NamedContainerFields => seq!["name"@, "network"@, "enable_writable_file_system"@, "user"@, "group"@, "mounts"@, "added_mounts"@, "image"@, "working_directory"@, "layers"@, "added_layers"@, "environment"@, "added_environment"@],
            NameSet::NetworkModes => seq!["disabled"@, "loopback"@, "local"@],
            NameSet::MountTypes => seq!["proc"@, "tmp"@, "sys"@, "bind"@, "devices"@],
            NameSet::SimpleMountFields => seq!["mount_point"@],
            NameSet::BindMountFields => seq!["mount_point"@, "local_path"@, "read_only"@],
            NameSet::DevicesMountFields => seq!["devices"@],
            NameSet::Devices => seq!["null"@, "zero"@, "full"@, "random"@, "urandom"@, "tty"@],
            NameSet::ImageFields => seq!["name"@, "use"@],
            NameSet::ImageUses => seq!["layers"@, "environment"@, "working_directory"@],
            NameSet::LayerTypes => seq!["tar"@, "glob"@, "paths"@, "stubs"@, "symlinks"@, "shared-library-dependencies"@],
            NameSet::TarLayerFields => seq!["tar"@],
            NameSet::GlobLayerFields => seq!["glob"@, "strip_prefix"@, "prepend_prefix"@, "canonicalize"@],
            NameSet::PathsLayerFields => seq!["paths"@, "strip_prefix"@, "prepend_prefix"@, "canonicalize"@],
            NameSet::StubsLayerFields => seq!["stubs"@],
            NameSet::SymlinksLayerFields => seq!["symlinks"@],
            NameSet::SharedLibraryDependenciesLayerFields => seq!["shared-library-dependencies"@, "strip_prefix"@, "prepend_prefix"@, "canonicalize"@],
            NameSet::SymlinkFields => seq!["link"@, "target"@],
        }
    }

    /// The names in the set, in the order in which messages list them.
    pub fn names(self) -> (r: Vec<&'static str>)
        ensures
            texts(r@) == self.spec_names(),
    {
        let r = match self {
            NameSet::DirectiveFields => vec!["filter", "include_shared_libraries", "timeout", "ignore", "network", "enable_writable_file_system", "user", "group", "mounts", "added_mounts", "image", "working_directory", "layers", "added_layers", "environment", "added_environment"],
            NameSet::ContainerFields => vec!["network", "enable_writable_file_system", "user", "group", "mounts", "added_mounts", "image", "working_directory", "layers", "added_layers", "environment", "added_environment"],
            NameSet::NamedContainerFields => vec!["name", "network", "enable_writable_file_system", "user", "group", "mounts", "added_mounts", "image", "working_directory", "layers", "added_layers", "environment", "added_environment"],
            NameSet::NetworkModes => vec!["disabled", "loopback", "local"],
            NameSet::MountTypes => vec!["proc", "tmp", "sys", "bind", "devices"],
            NameSet::SimpleMountFields => vec!["mount_point"],
            NameSet::BindMountFields => vec!["mount_point", "local_path", "read_only"],
            NameSet::DevicesMountFields => vec!["devices"],
            NameSet::Devices => vec!["null", "zero", "full", "random", "urandom", "tty"],
            NameSet::ImageFields => vec!["name", "use"],
            NameSet::ImageUses => vec!["layers", "environment", "working_directory"],
            NameSet::LayerTypes => vec!["tar", "glob", "paths", "stubs", "symlinks", "shared-library-dependencies"],
            NameSet::TarLayerFields => vec!["tar"],
            NameSet::GlobLayerFields => vec!["glob", "strip_prefix", "prepend_prefix", "canonicalize"],
            NameSet::PathsLayerFields => vec!["paths", "strip_prefix", "prepend_prefix", "canonicalize"],
            NameSet::StubsLayerFields => vec!["stubs"],
            NameSet::SymlinksLayerFields => vec!["symlinks"],
            NameSet::SharedLibraryDependenciesLayerFields => vec!["shared-library-dependencies", "strip_prefix", "prepend_prefix", "canonicalize"],
            NameSet::SymlinkFields => vec!["link", "target"],
        };
        assert(texts(r@) =~= self.spec_names());
        r
    }
}

impl ValueKind {
    /// How messages call a value of this shape.
    pub open spec fn spec_name(self) -> Seq<char> {
        match self {
            ValueKind::String => "string"@,
            ValueKind::Integer => "integer"@,
            ValueKind::Boolean => "boolean"@,
            ValueKind::Array => "array"@,
            ValueKind::Table => "table"@,
        }
    }

    /// How messages call a value of this shape.
    pub fn name(self) -> (r: &'static str)
        ensures
            r@ == self.spec_name(),
    {
        match self {
            ValueKind::String => "string",
            ValueKind::Integer => "integer",
            ValueKind::Boolean => "boolean",
            ValueKind::Array => "array",
            ValueKind::Table => "table",
        }
    }
}

impl Expectation {
    /// How messages call what was expected.
    pub open spec fn spec_name(self) -> Seq<char> {
        match self {
            Expectation::String => "a string"@,
            Expectation::Boolean => "a boolean"@,
            Expectation::UnsignedInteger => "an unsigned 32-bit integer"@,
            Expectation::Array => "an array"@,
            Expectation::Table => "a table"@,
            Expectation::StringOrTable => "a string or a table"@,
        }
    }

    /// How messages call what was expected.
    pub fn name(self) -> (r: &'static str)
        ensures
            r@ == self.spec_name(),
    {
        match self {
            Expectation::String => "a string",
            Expectation::Boolean => "a boolean",
            Expectation::UnsignedInteger => "an unsigned 32-bit integer",
            Expectation::Array => "an array",
            Expectation::Table => "a table",
            Expectation::StringOrTable => "a string or a table",
        }
    }
}

impl ImageUse {
    /// The key of the field, which is also its name in a `use` list.
    pub open spec fn spec_name(self) -> Seq<char> {
        match self {
            ImageUse::Layers => "layers"@,
            ImageUse::Environment => "environment"@,
            ImageUse::WorkingDirectory => "working_directory"@,
        }
    }

    /// The key of the field, which is also its name in a `use` list.
    pub fn name(self) -> (r: &'static str)
        ensures
            r@ == self.spec_name(),
    {
        match self {
            ImageUse::Layers => "layers",
            ImageUse::Environment => "environment",
            ImageUse::WorkingDirectory => "working_directory",
        }
    }

    /// The key of the field's appending sibling. The working directory has
    /// none; the key is formed for it all the same.
    pub open spec fn spec_added_name(self) -> Seq<char> {
        match self {
            ImageUse::Layers => "added_layers"@,
            ImageUse::Environment => "added_environment"@,
            ImageUse::WorkingDirectory => "added_working_directory"@,
        }
    }

    /// The key of the field's appending sibling.
    pub fn added_name(self) -> (r: &'static str)
        ensures
            r@ == self.spec_added_name(),
    {
        match self {
            ImageUse::Layers => "added_layers",
            ImageUse::Environment => "added_environment",
            ImageUse::WorkingDirectory => "added_working_directory",
        }
    }
}

impl MergedField {
    /// The key of the replacing form of the field.
    pub open spec fn spec_name(self) -> Seq<char> {
        match self {
            MergedField::Mounts => "mounts"@,
            MergedField::Layers => "layers"@,
            MergedField::Environment => "environment"@,
        }
    }

    /// The key of the replacing form of the field.
    pub fn name(self) -> (r: &'static str)
        ensures
            r@ == self.spec_name(),
    {
        match self {
            MergedField::Mounts => "mounts",
            MergedField::Layers => "layers",
            MergedField::Environment => "environment",
        }
    }

    /// The key of the appending form of the field.
    pub open spec fn spec_added_name(self) -> Seq<char> {
        match self {
            MergedField::Mounts => "added_mounts"@,
            MergedField::Layers => "added_layers"@,
            MergedField::Environment => "added_environment"@,
        }
    }

    /// The key of the appending form of the field.
    pub fn added_name(self) -> (r: &'static str)
        ensures
            r@ == self.spec_added_name(),
    {
        match self {
            MergedField::Mounts => "added_mounts",
            MergedField::Layers => "added_layers",
            MergedField::Environment => "added_environment",
        }
    }
}

/// A name between backticks.
pub open spec fn spec_quoted(name: Seq<char>) -> Seq<char> {
    "`"@ + name + "`"@
}

/// The first `n` names, each between backticks, with `, ` between them.
pub open spec fn spec_listed(names: Seq<Seq<char>>, n: nat) -> Seq<char>
    decreases n,
{
    if n == 0 {
        Seq::empty()
    } else if n == 1 {
        spec_quoted(names[0])
    } else {
        spec_listed(names, (n - 1) as nat) + ", "@ + spec_quoted(names[n - 1])
    }
}

/// How a message says which names were expected: the name alone where
/// there is one, `a` or `b` where there are two, and a list after `one of`
/// where there are more.
pub open spec fn spec_expected(names: Seq<Seq<char>>) -> Seq<char> {
    if names.len() == 0 {
        "nothing"@
    } else if names.len() == 1 {
        spec_quoted(names[0])
    } else if names.len() == 2 {
        spec_quoted(names[0]) + " or "@ + spec_quoted(names[1])
    } else {
        "one of "@ + spec_listed(names, names.len())
    }
}

/// Appends `name` between backticks to `out`.
fn push_quoted(out: &mut String, name: &str)
    ensures
        final(out)@ == old(out)@ + spec_quoted(name@),
{
    let ghost before = out@;
    out.append("`");
    out.append(name);
    out.append("`");
    assert(out@ =~= before + spec_quoted(name@));
}

/// Appends to `out` how a message says which names were expected.
fn push_expected(out: &mut String, names: &Vec<&'static str>)
    ensures
        final(out)@ == old(out)@ + spec_expected(texts(names@)),
{
    let ghost before = out@;
    let ghost all = texts(names@);
    if names.len() == 0 {
        out.append("nothing");
    } else if names.len() == 1 {
        push_quoted(out, names[0]);
    } else if names.len() == 2 {
        push_quoted(out, names[0]);
        out.append(" or ");
        push_quoted(out, names[1]);
        assert(out@ =~= before + spec_expected(all));
    } else {
        out.append("one of ");
        push_quoted(out, names[0]);
        let mut i: usize = 1;
        while i < names.len()
            invariant
                1 <= i <= names.len(),
                all == texts(names@),
                out@ == before + "one of "@ + spec_listed(all, i as nat),
            decreases names.len() - i,
        {
            let ghost listed = out@;
            out.append(", ");
            push_quoted(out, names[i]);
            assert(out@ =~= before + "one of "@ + spec_listed(all, (i + 1) as nat)) by {
                assert(all[i as int] == names@[i as int]@);
                assert(spec_listed(all, (i + 1) as nat) == spec_listed(all, i as nat) + ", "@
                    + spec_quoted(all[i as int]));
            }
            i += 1;
        }
        assert(out@ =~= before + spec_expected(all));
    }
}

impl DecodeErrorView {
    /// The message of the error: what is wrong, with the names of the
    /// fields concerned between backticks, and what was expected instead
    /// where that can be said.
    pub open spec fn message(self) -> Seq<char> {
        match self {
            DecodeErrorView::UnknownField { field, expected } => "unknown field "@ + spec_quoted(
                field,
            ) + ", expected "@ + spec_expected(expected.spec_names()),
            DecodeErrorView::DuplicateKey { field } => "duplicate key "@ + spec_quoted(field),
            DecodeErrorView::MissingField { field } => "missing field "@ + spec_quoted(field),
            DecodeErrorView::MissingLayerType => "missing layer type, expected "@ + spec_expected(
                NameSet::LayerTypes.spec_names(),
            ),
            DecodeErrorView::UnknownVariant { variant, expected } => "unknown variant "@
                + spec_quoted(variant) + ", expected "@ + spec_expected(expected.spec_names()),
            DecodeErrorView::InvalidType { found, wanted } => "invalid type: "@ + found.spec_name()
                + ", expected "@ + wanted.spec_name(),
            DecodeErrorView::IntegerOutOfRange => "invalid value: integer out of range, expected an unsigned 32-bit integer"@,
            DecodeErrorView::RootPath => "a path of \"/\" not allowed"@,
            DecodeErrorView::EmptyDeviceSet => "invalid length 0, expected at least one device"@,
            DecodeErrorView::SetAfterAdded { merged } => "field "@ + spec_quoted(merged.spec_name())
                + " cannot be set after "@ + spec_quoted(merged.spec_added_name()),
            DecodeErrorView::SetAfterImage { supplied } => "field "@ + spec_quoted(
                supplied.spec_name(),
            ) + " cannot be set after `image` field that uses "@ + spec_quoted(
                supplied.spec_name(),
            ),
            DecodeErrorView::ImageAfterSet { supplied } => "field `image` cannot use "@
                + spec_quoted(supplied.spec_name()) + " if field "@ + spec_quoted(
                supplied.spec_name(),
            ) + " is also set"@,
            DecodeErrorView::ImageAfterAdded { supplied } => "field `image` that uses "@
                + spec_quoted(supplied.spec_name()) + " cannot be set after "@ + spec_quoted(
                supplied.spec_added_name(),
            ),
            DecodeErrorView::Filter { message } => message,
        }
    }
}

impl DecodeError {
    /// The message of the error, for the user to read.
    pub fn message(&self) -> (r: String)
        ensures
            r@ == self@.message(),
    {
        match self {
            DecodeError::UnknownField { field, expected } => {
                let mut out = String::from_str("unknown field ");
                push_quoted(&mut out, field.as_str());
                out.append(", expected ");
                push_expected(&mut out, &expected.names());
                out
            },
            DecodeError::DuplicateKey { field } => {
                let mut out = String::from_str("duplicate key ");
                push_quoted(&mut out, field.as_str());
                out
            },
            DecodeError::MissingField { field } => {
                let mut out = String::from_str("missing field ");
                push_quoted(&mut out, field.as_str());
                out
            },
            DecodeError::MissingLayerType => {
                let mut out = String::from_str("missing layer type, expected ");
                push_expected(&mut out, &NameSet::LayerTypes.names());
                out
            },
            DecodeError::UnknownVariant { variant, expected } => {
                let mut out = String::from_str("unknown variant ");
                push_quoted(&mut out, variant.as_str());
                out.append(", expected ");
                push_expected(&mut out, &expected.names());
                out
            },
            DecodeError::InvalidType { found, wanted } => {
                let mut out = String::from_str("invalid type: ");
                out.append(found.name());
                out.append(", expected ");
                out.append(wanted.name());
                out
            },
            DecodeError::IntegerOutOfRange => String::from_str(
                "invalid value: integer out of range, expected an unsigned 32-bit integer",
            ),
            DecodeError::RootPath => String::from_str("a path of \"/\" not allowed"),
            DecodeError::EmptyDeviceSet => String::from_str(
                "invalid length 0, expected at least one device",
            ),
            DecodeError::SetAfterAdded { merged } => {
                let mut out = String::from_str("field ");
                push_quoted(&mut out, merged.name());
                out.append(" cannot be set after ");
                push_quoted(&mut out, merged.added_name());
                out
            },
            DecodeError::SetAfterImage { supplied } => {
                let mut out = String::from_str("field ");
                push_quoted(&mut out, supplied.name());
                out.append(" cannot be set after `image` field that uses ");
                push_quoted(&mut out, supplied.name());
                out
            },
            DecodeError::ImageAfterSet { supplied } => {
                let mut out = String::from_str("field `image` cannot use ");
                push_quoted(&mut out, supplied.name());
                out.append(" if field ");
                push_quoted(&mut out, supplied.name());
                out.append(" is also set");
                out
            },
            DecodeError::ImageAfterAdded { supplied } => {
                let mut out = String::from_str("field `image` that uses ");
                push_quoted(&mut out, supplied.name());
                out.append(" cannot be set after ");
                push_quoted(&mut out, supplied.added_name());
                out
            },
            DecodeError::Filter { message } => message.clone(),
        }
    }
}

} // verus!
