//! Layers: the pieces that a container's filesystem is stacked from.

use vstd::prelude::*;
use crate::decode::{decode_array, invalid_type, opt_view, seq_view, spec_decode_array, spec_invalid_type, Decode};
use crate::error::{
    duplicate_key, missing_field, result_view, unknown_field, DecodeError, DecodeErrorView,
    Expectation, NameSet,
};
use crate::record::{accept_entries, entries_view, spec_accept_entries, EntryView, Record};
use crate::value::{lemma_table_view, str_eq, Value, ValueView};

verus! {

/// A symbolic link to create: `link` will point at `target`.
#[derive(Debug, PartialEq, Eq)]
pub struct SymlinkSpec {
    pub link: String,
    pub target: String,
}

/// The mathematical model of a [`SymlinkSpec`].
pub struct SymlinkView {
    pub link: Seq<char>,
    pub target: Seq<char>,
}

impl View for SymlinkSpec {
    type V = SymlinkView;

    open spec fn view(&self) -> SymlinkView {
        SymlinkView { link: self.link@, target: self.target@ }
    }
}

/// The fields of a symbolic link, gathered while its table is read.
pub struct SymlinkFields {
    pub link: Option<String>,
    pub target: Option<String>,
}

/// The mathematical model of [`SymlinkFields`].
pub struct SymlinkFieldsView {
    pub link: Option<Seq<char>>,
    pub target: Option<Seq<char>>,
}

impl View for SymlinkFields {
    type V = SymlinkFieldsView;

    open spec fn view(&self) -> SymlinkFieldsView {
        SymlinkFieldsView { link: opt_view(self.link), target: opt_view(self.target) }
    }
}

impl SymlinkFieldsView {
    /// The fields of a symbolic link before any entry is read.
    pub open spec fn start() -> SymlinkFieldsView {
        SymlinkFieldsView { link: None, target: None }
    }

    /// The link that the gathered fields make, or the first field that is
    /// missing.
    pub open spec fn finish(self) -> Result<SymlinkView, DecodeErrorView> {
        match self.link {
            None => Err(DecodeErrorView::MissingField { field: "link"@ }),
            Some(link) => match self.target {
                None => Err(DecodeErrorView::MissingField { field: "target"@ }),
                Some(target) => Ok(SymlinkView { link, target }),
            },
        }
    }
}

impl SymlinkFields {
    /// The fields of a symbolic link before any entry is read.
    pub fn new() -> (r: SymlinkFields)
        ensures
            r@ == SymlinkFieldsView::start(),
    {
        SymlinkFields { link: None, target: None }
    }

    /// Makes the link out of the gathered fields.
    pub fn finish(self) -> (r: Result<SymlinkSpec, DecodeError>)
        ensures
            result_view(r) == self@.finish(),
    {
        match self.link {
            None => Err(missing_field("link")),
            Some(link) => match self.target {
                None => Err(missing_field("target")),
                Some(target) => Ok(SymlinkSpec { link, target }),
            },
        }
    }
}

impl Record for SymlinkFields {
    /// A symbolic link accepts `link` and `target`, once each.
    open spec fn spec_accept(state: SymlinkFieldsView, key: Seq<char>, value: ValueView) -> Result<
        SymlinkFieldsView,
        DecodeErrorView,
    > {
        if key == "link"@ {
            if state.link is Some {
                Err(DecodeErrorView::DuplicateKey { field: key })
            } else {
                match String::spec_decode(value) {
                    Err(e) => Err(e),
                    Ok(path) => Ok(SymlinkFieldsView { link: Some(path), ..state }),
                }
            }
        } else if key == "target"@ {
            if state.target is Some {
                Err(DecodeErrorView::DuplicateKey { field: key })
            } else {
                match String::spec_decode(value) {
                    Err(e) => Err(e),
                    Ok(path) => Ok(SymlinkFieldsView { target: Some(path), ..state }),
                }
            }
        } else {
            Err(DecodeErrorView::UnknownField { field: key, expected: NameSet::SymlinkFields })
        }
    }

    fn accept(&mut self, key: &str, value: &Value) -> (r: Result<(), DecodeError>) {
        if str_eq(key, "link") {
            if self.link.is_some() {
                return Err(duplicate_key(key));
            }
            match String::decode(value) {
                Err(e) => Err(e),
                Ok(path) => {
                    self.link = Some(path);
                    Ok(())
                },
            }
        } else if str_eq(key, "target") {
            if self.target.is_some() {
                return Err(duplicate_key(key));
            }
            match String::decode(value) {
                Err(e) => Err(e),
                Ok(path) => {
                    self.target = Some(path);
                    Ok(())
                },
            }
        } else {
            Err(unknown_field(key, NameSet::SymlinkFields))
        }
    }
}

impl Decode for SymlinkSpec {
    /// A symbolic link is a table that holds `link` and `target`.
    open spec fn spec_decode(value: ValueView) -> Result<SymlinkView, DecodeErrorView> {
        match value {
            ValueView::Table(entries) => match spec_accept_entries::<SymlinkFields>(
                SymlinkFieldsView::start(),
                entries,
                entries.len(),
            ) {
                Err(e) => Err(e),
                Ok(fields) => fields.finish(),
            },
            _ => Err(spec_invalid_type(value, Expectation::Table)),
        }
    }

    fn decode(value: &Value) -> (r: Result<SymlinkSpec, DecodeError>) {
        match value {
            Value::Table(entries) => {
                proof {
                    lemma_table_view(*value);
                }
                match accept_entries(SymlinkFields::new(), entries) {
                    Err(e) => Err(e),
                    Ok(fields) => fields.finish(),
                }
            },
            _ => Err(invalid_type(value, Expectation::Table)),
        }
    }
}

/// How the paths of a layer are altered before they enter the container.
#[derive(Debug, PartialEq, Eq)]
pub struct PrefixOptions {
    pub strip_prefix: Option<String>,
    pub prepend_prefix: Option<String>,
    pub canonicalize: bool,
}

/// The mathematical model of [`PrefixOptions`].
pub struct PrefixOptionsView {
    pub strip_prefix: Option<Seq<char>>,
    pub prepend_prefix: Option<Seq<char>>,
    pub canonicalize: bool,
}

impl View for PrefixOptions {
    type V = PrefixOptionsView;

    open spec fn view(&self) -> PrefixOptionsView {
        PrefixOptionsView {
            strip_prefix: opt_view(self.strip_prefix),
            prepend_prefix: opt_view(self.prepend_prefix),
            canonicalize: self.canonicalize,
        }
    }
}

impl PrefixOptionsView {
    /// The options that alter nothing.
    pub open spec fn none() -> PrefixOptionsView {
        PrefixOptionsView { strip_prefix: None, prepend_prefix: None, canonicalize: false }
    }
}

impl PrefixOptions {
    /// The options that alter nothing.
    pub fn none() -> (r: PrefixOptions)
        ensures
            r@ == PrefixOptionsView::none(),
    {
        PrefixOptions { strip_prefix: None, prepend_prefix: None, canonicalize: false }
    }
}

/// One layer of a container's filesystem.
#[derive(Debug, PartialEq, Eq)]
pub enum LayerSpec {
    Tar { path: String },
    Glob { glob: String, prefix_options: PrefixOptions },
    Paths { paths: Vec<String>, prefix_options: PrefixOptions },
    Stubs { stubs: Vec<String> },
    Symlinks { symlinks: Vec<SymlinkSpec> },
    SharedLibraryDependencies { binary_paths: Vec<String>, prefix_options: PrefixOptions },
}

/// The mathematical model of a [`LayerSpec`].
pub enum LayerView {
    Tar { path: Seq<char> },
    Glob { glob: Seq<char>, prefix_options: PrefixOptionsView },
    Paths { paths: Seq<Seq<char>>, prefix_options: PrefixOptionsView },
    Stubs { stubs: Seq<Seq<char>> },
    Symlinks { symlinks: Seq<SymlinkView> },
    SharedLibraryDependencies { binary_paths: Seq<Seq<char>>, prefix_options: PrefixOptionsView },
}

impl View for LayerSpec {
    type V = LayerView;

    open spec fn view(&self) -> LayerView {
        match self {
            LayerSpec::Tar { path } => LayerView::Tar { path: path@ },
            LayerSpec::Glob { glob, prefix_options } => LayerView::Glob {
                glob: glob@,
                prefix_options: prefix_options@,
            },
            LayerSpec::Paths { paths, prefix_options } => LayerView::Paths {
                paths: seq_view(paths@),
                prefix_options: prefix_options@,
            },
            LayerSpec::Stubs { stubs } => LayerView::Stubs { stubs: seq_view(stubs@) },
            LayerSpec::Symlinks { symlinks } => LayerView::Symlinks {
                symlinks: seq_view(symlinks@),
            },
            LayerSpec::SharedLibraryDependencies {
                binary_paths,
                prefix_options,
            } => LayerView::SharedLibraryDependencies {
                binary_paths: seq_view(binary_paths@),
                prefix_options: prefix_options@,
            },
        }
    }
}

impl LayerView {
    /// The same layer with its paths altered as `options` says. A layer
    /// whose kind takes no such options stays as it is.
    pub open spec fn with_prefix_options(self, options: PrefixOptionsView) -> LayerView {
        match self {
            LayerView::Glob { glob, .. } => LayerView::Glob { glob, prefix_options: options },
            LayerView::Paths { paths, .. } => LayerView::Paths { paths, prefix_options: options },
            LayerView::SharedLibraryDependencies {
                binary_paths,
                ..
            } => LayerView::SharedLibraryDependencies { binary_paths, prefix_options: options },
            other => other,
        }
    }
}

impl LayerSpec {
    /// The same layer with its paths altered as `options` says. A layer
    /// whose kind takes no such options stays as it is.
    pub fn with_prefix_options(self, options: PrefixOptions) -> (r: LayerSpec)
        ensures
            r@ == self@.with_prefix_options(options@),
    {
        match self {
            LayerSpec::Glob { glob, prefix_options: _ } => LayerSpec::Glob {
                glob,
                prefix_options: options,
            },
            LayerSpec::Paths { paths, prefix_options: _ } => LayerSpec::Paths {
                paths,
                prefix_options: options,
            },
            LayerSpec::SharedLibraryDependencies {
                binary_paths,
                prefix_options: _,
            } => LayerSpec::SharedLibraryDependencies { binary_paths, prefix_options: options },
            other => other,
        }
    }
}

/// The kinds of layer. Each is named by the key that holds its content.
#[derive(Debug, Clone, Copy, PartialEq, Eq, Structural)]
pub enum LayerType {
    Tar,
    Glob,
    Paths,
    Stubs,
    Symlinks,
    SharedLibraryDependencies,
}

impl LayerType {
    /// The kind of layer that a key names, if it names one.
    pub open spec fn spec_from_name(name: Seq<char>) -> Option<LayerType> {
        if name == "tar"@ {
            Some(LayerType::Tar)
        } else if name == "glob"@ {
            Some(LayerType::Glob)
        } else if name == "paths"@ {
            Some(LayerType::Paths)
        } else if name == "stubs"@ {
            Some(LayerType::Stubs)
        } else if name == "symlinks"@ {
            Some(LayerType::Symlinks)
        } else if name == "shared-library-dependencies"@ {
            Some(LayerType::SharedLibraryDependencies)
        } else {
            None
        }
    }

    /// The kind of layer that a key names, if it names one.
    pub fn from_name(name: &str) -> (r: Option<LayerType>)
        ensures
            r == LayerType::spec_from_name(name@),
    {
        if str_eq(name, "tar") {
            Some(LayerType::Tar)
        } else if str_eq(name, "glob") {
            Some(LayerType::Glob)
        } else if str_eq(name, "paths") {
            Some(LayerType::Paths)
        } else if str_eq(name, "stubs") {
            Some(LayerType::Stubs)
        } else if str_eq(name, "symlinks") {
            Some(LayerType::Symlinks)
        } else if str_eq(name, "shared-library-dependencies") {
            Some(LayerType::SharedLibraryDependencies)
        } else {
            None
        }
    }

    /// Whether a layer of this kind takes the options that alter paths.
    pub open spec fn spec_takes_prefix_options(self) -> bool {
        self == LayerType::Glob || self == LayerType::Paths || self
            == LayerType::SharedLibraryDependencies
    }

    /// Whether a layer of this kind takes the options that alter paths.
    pub fn takes_prefix_options(self) -> (r: bool)
        ensures
            r == self.spec_takes_prefix_options(),
    {
        match self {
            LayerType::Glob => true,
            LayerType::Paths => true,
            LayerType::SharedLibraryDependencies => true,
            _ => false,
        }
    }

    /// The fields that a layer of this kind accepts.
    pub open spec fn spec_fields(self) -> NameSet {
        match self {
            LayerType::Tar => NameSet::TarLayerFields,
            LayerType::Glob => NameSet::GlobLayerFields,
            LayerType::Paths => NameSet::PathsLayerFields,
            LayerType::Stubs => NameSet::StubsLayerFields,
            LayerType::Symlinks => NameSet::SymlinksLayerFields,
            LayerType::SharedLibraryDependencies => NameSet::SharedLibraryDependenciesLayerFields,
        }
    }

    /// The fields that a layer of this kind accepts.
    pub fn fields(self) -> (r: NameSet)
        ensures
            r == self.spec_fields(),
    {
        match self {
            LayerType::Tar => NameSet::TarLayerFields,
            LayerType::Glob => NameSet::GlobLayerFields,
            LayerType::Paths => NameSet::PathsLayerFields,
            LayerType::Stubs => NameSet::StubsLayerFields,
            LayerType::Symlinks => NameSet::SymlinksLayerFields,
            LayerType::SharedLibraryDependencies => NameSet::SharedLibraryDependenciesLayerFields,
        }
    }

    /// The layer of this kind whose content is `value`, with no paths
    /// altered.
    pub open spec fn spec_content(self, value: ValueView) -> Result<LayerView, DecodeErrorView> {
        match self {
            LayerType::Tar => match String::spec_decode(value) {
                Err(e) => Err(e),
                Ok(path) => Ok(LayerView::Tar { path }),
            },
            LayerType::Glob => match String::spec_decode(value) {
                Err(e) => Err(e),
                Ok(glob) => Ok(LayerView::Glob { glob, prefix_options: PrefixOptionsView::none() }),
            },
            LayerType::Paths => match spec_decode_array::<String>(value) {
                Err(e) => Err(e),
                Ok(paths) => Ok(
                    LayerView::Paths { paths, prefix_options: PrefixOptionsView::none() },
                ),
            },
            LayerType::Stubs => match spec_decode_array::<String>(value) {
                Err(e) => Err(e),
                Ok(stubs) => Ok(LayerView::Stubs { stubs }),
            },
            LayerType::Symlinks => match spec_decode_array::<SymlinkSpec>(value) {
                Err(e) => Err(e),
                Ok(symlinks) => Ok(LayerView::Symlinks { symlinks }),
            },
            LayerType::SharedLibraryDependencies => match spec_decode_array::<String>(value) {
                Err(e) => Err(e),
                Ok(binary_paths) => Ok(
                    LayerView::SharedLibraryDependencies {
                        binary_paths,
                        prefix_options: PrefixOptionsView::none(),
                    },
                ),
            },
        }
    }

    /// Decodes the content of a layer of this kind.
    pub fn content(self, value: &Value) -> (r: Result<LayerSpec, DecodeError>)
        ensures
            result_view(r) == self.spec_content(value@),
    {
        match self {
            LayerType::Tar => match String::decode(value) {
                Err(e) => Err(e),
                Ok(path) => Ok(LayerSpec::Tar { path }),
            },
            LayerType::Glob => match String::decode(value) {
                Err(e) => Err(e),
                Ok(glob) => Ok(LayerSpec::Glob { glob, prefix_options: PrefixOptions::none() }),
            },
            LayerType::Paths => match decode_array::<String>(value) {
                Err(e) => Err(e),
                Ok(paths) => Ok(LayerSpec::Paths { paths, prefix_options: PrefixOptions::none() }),
            },
            LayerType::Stubs => match decode_array::<String>(value) {
                Err(e) => Err(e),
                Ok(stubs) => Ok(LayerSpec::Stubs { stubs }),
            },
            LayerType::Symlinks => match decode_array::<SymlinkSpec>(value) {
                Err(e) => Err(e),
                Ok(symlinks) => Ok(LayerSpec::Symlinks { symlinks }),
            },
            LayerType::SharedLibraryDependencies => match decode_array::<String>(value) {
                Err(e) => Err(e),
                Ok(binary_paths) => Ok(
                    LayerSpec::SharedLibraryDependencies {
                        binary_paths,
                        prefix_options: PrefixOptions::none(),
                    },
                ),
            },
        }
    }
}

/// The fields of a layer, gathered while its table is read.
pub struct LayerFields {
    pub kind: LayerType,
    pub content: Option<LayerSpec>,
    pub strip_prefix: Option<String>,
    pub prepend_prefix: Option<String>,
    pub canonicalize: Option<bool>,
}

/// The mathematical model of [`LayerFields`].
pub struct LayerFieldsView {
    pub kind: LayerType,
    pub content: Option<LayerView>,
    pub strip_prefix: Option<Seq<char>>,
    pub prepend_prefix: Option<Seq<char>>,
    pub canonicalize: Option<bool>,
}

impl View for LayerFields {
    type V = LayerFieldsView;

    open spec fn view(&self) -> LayerFieldsView {
        LayerFieldsView {
            kind: self.kind,
            content: opt_view(self.content),
            strip_prefix: opt_view(self.strip_prefix),
            prepend_prefix: opt_view(self.prepend_prefix),
            canonicalize: self.canonicalize,
        }
    }
}

impl LayerFieldsView {
    /// The fields of a layer of the given kind before any entry is read.
    pub open spec fn start(kind: LayerType) -> LayerFieldsView {
        LayerFieldsView {
            kind,
            content: None,
            strip_prefix: None,
            prepend_prefix: None,
            canonicalize: None,
        }
    }

    /// The options that the gathered fields make.
    pub open spec fn prefix_options(self) -> PrefixOptionsView {
        PrefixOptionsView {
            strip_prefix: self.strip_prefix,
            prepend_prefix: self.prepend_prefix,
            canonicalize: match self.canonicalize {
                Some(flag) => flag,
                None => false,
            },
        }
    }

    /// The layer that the gathered fields make.
    pub open spec fn finish(self) -> Result<LayerView, DecodeErrorView> {
        match self.content {
            None => Err(DecodeErrorView::MissingLayerType),
            Some(layer) => Ok(layer.with_prefix_options(self.prefix_options())),
        }
    }
}

impl LayerFields {
    /// The fields of a layer of the given kind before any entry is read.
    pub fn new(kind: LayerType) -> (r: LayerFields)
        ensures
            r@ == LayerFieldsView::start(kind),
    {
        LayerFields {
            kind,
            content: None,
            strip_prefix: None,
            prepend_prefix: None,
            canonicalize: None,
        }
    }

    /// Makes the layer out of the gathered fields.
    pub fn finish(self) -> (r: Result<LayerSpec, DecodeError>)
        ensures
            result_view(r) == self@.finish(),
    {
        match self.content {
            None => Err(DecodeError::MissingLayerType),
            Some(layer) => {
                let options = PrefixOptions {
                    strip_prefix: self.strip_prefix,
                    prepend_prefix: self.prepend_prefix,
                    canonicalize: match self.canonicalize {
                        Some(flag) => flag,
                        None => false,
                    },
                };
                Ok(layer.with_prefix_options(options))
            },
        }
    }
}

impl Record for LayerFields {
    /// A layer accepts the key that names its kind and, where its kind
    /// alters paths, `strip_prefix`, `prepend_prefix` and `canonicalize`:
    /// once each. Any other key is unknown to it, the name of another kind
    /// too.
    open spec fn spec_accept(state: LayerFieldsView, key: Seq<char>, value: ValueView) -> Result<
        LayerFieldsView,
        DecodeErrorView,
    > {
        if LayerType::spec_from_name(key) == Some(state.kind) {
            if state.content is Some {
                Err(DecodeErrorView::DuplicateKey { field: key })
            } else {
                match state.kind.spec_content(value) {
                    Err(e) => Err(e),
                    Ok(layer) => Ok(LayerFieldsView { content: Some(layer), ..state }),
                }
            }
        } else if key == "strip_prefix"@ && state.kind.spec_takes_prefix_options() {
            if state.strip_prefix is Some {
                Err(DecodeErrorView::DuplicateKey { field: key })
            } else {
                match String::spec_decode(value) {
                    Err(e) => Err(e),
                    Ok(prefix) => Ok(LayerFieldsView { strip_prefix: Some(prefix), ..state }),
                }
            }
        } else if key == "prepend_prefix"@ && state.kind.spec_takes_prefix_options() {
            if state.prepend_prefix is Some {
                Err(DecodeErrorView::DuplicateKey { field: key })
            } else {
                match String::spec_decode(value) {
                    Err(e) => Err(e),
                    Ok(prefix) => Ok(LayerFieldsView { prepend_prefix: Some(prefix), ..state }),
                }
            }
        } else if key == "canonicalize"@ && state.kind.spec_takes_prefix_options() {
            if state.canonicalize is Some {
                Err(DecodeErrorView::DuplicateKey { field: key })
            } else {
                match bool::spec_decode(value) {
                    Err(e) => Err(e),
                    Ok(flag) => Ok(LayerFieldsView { canonicalize: Some(flag), ..state }),
                }
            }
        } else {
            Err(DecodeErrorView::UnknownField { field: key, expected: state.kind.spec_fields() })
        }
    }

    fn accept(&mut self, key: &str, value: &Value) -> (r: Result<(), DecodeError>) {
        let named = LayerType::from_name(key);
        if named.is_some() && named.unwrap() == self.kind {
            if self.content.is_some() {
                return Err(duplicate_key(key));
            }
            match self.kind.content(value) {
                Err(e) => Err(e),
                Ok(layer) => {
                    self.content = Some(layer);
                    Ok(())
                },
            }
        } else if str_eq(key, "strip_prefix") && self.kind.takes_prefix_options() {
            if self.strip_prefix.is_some() {
                return Err(duplicate_key(key));
            }
            match String::decode(value) {
                Err(e) => Err(e),
                Ok(prefix) => {
                    self.strip_prefix = Some(prefix);
                    Ok(())
                },
            }
        } else if str_eq(key, "prepend_prefix") && self.kind.takes_prefix_options() {
            if self.prepend_prefix.is_some() {
                return Err(duplicate_key(key));
            }
            match String::decode(value) {
                Err(e) => Err(e),
                Ok(prefix) => {
                    self.prepend_prefix = Some(prefix);
                    Ok(())
                },
            }
        } else if str_eq(key, "canonicalize") && self.kind.takes_prefix_options() {
            if self.canonicalize.is_some() {
                return Err(duplicate_key(key));
            }
            match bool::decode(value) {
                Err(e) => Err(e),
                Ok(flag) => {
                    self.canonicalize = Some(flag);
                    Ok(())
                },
            }
        } else {
            Err(unknown_field(key, self.kind.fields()))
        }
    }
}

/// The kind of layer that a table declares: the one named by the first of
/// its keys, at or after index `from`, that names a kind.
pub open spec fn spec_layer_type_from(entries: Seq<EntryView>, from: nat) -> Option<LayerType>
    decreases entries.len() - from,
{
    if from >= entries.len() {
        None
    } else {
        match LayerType::spec_from_name(entries[from as int].0) {
            Some(kind) => Some(kind),
            None => spec_layer_type_from(entries, from + 1),
        }
    }
}

/// The kind of layer that a table declares.
pub fn layer_type(entries: &Vec<(String, Value)>) -> (r: Option<LayerType>)
    ensures
        r == spec_layer_type_from(entries_view(entries@), 0),
{
    let ghost models = entries_view(entries@);
    let mut i: usize = 0;
    while i < entries.len()
        invariant
            i <= entries.len(),
            models == entries_view(entries@),
            spec_layer_type_from(models, 0) == spec_layer_type_from(models, i as nat),
        decreases entries.len() - i,
    {
        assert(models[i as int].0 == entries@[i as int].0@);
        match LayerType::from_name(entries[i].0.as_str()) {
            Some(kind) => {
                return Some(kind);
            },
            None => {},
        }
        i += 1;
    }
    None
}

impl Decode for LayerSpec {
    /// A layer is a table. The first key that names a kind of layer says
    /// which fields the table may hold; the entries are then read in order.
    open spec fn spec_decode(value: ValueView) -> Result<LayerView, DecodeErrorView> {
        match value {
            ValueView::Table(entries) => match spec_layer_type_from(entries, 0) {
                None => Err(DecodeErrorView::MissingLayerType),
                Some(kind) => match spec_accept_entries::<LayerFields>(
                    LayerFieldsView::start(kind),
                    entries,
                    entries.len(),
                ) {
                    Err(e) => Err(e),
                    Ok(fields) => fields.finish(),
                },
            },
            _ => Err(spec_invalid_type(value, Expectation::Table)),
        }
    }

    fn decode(value: &Value) -> (r: Result<LayerSpec, DecodeError>) {
        match value {
            Value::Table(entries) => {
                proof {
                    lemma_table_view(*value);
                }
                match layer_type(entries) {
                    None => Err(DecodeError::MissingLayerType),
                    Some(kind) => match accept_entries(LayerFields::new(kind), entries) {
                        Err(e) => Err(e),
                        Ok(fields) => fields.finish(),
                    },
                }
            },
            _ => Err(invalid_type(value, Expectation::Table)),
        }
    }
}

} // verus!
