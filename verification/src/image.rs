//! References to the image that a container is based on.

use vstd::prelude::*;
use crate::decode::{
    decode_array, invalid_type, opt_view, seq_view, spec_decode_array, spec_decode_items,
    spec_invalid_type, Decode,
};
use crate::error::{
    duplicate_key, missing_field, result_view, unknown_field, unknown_variant, DecodeError,
    DecodeErrorView, Expectation, ImageUse, NameSet,
};
use crate::record::{accept_entries, spec_accept_entries, Record};
use crate::value::{lemma_table_view, str_eq, Value, ValueView};

verus! {

impl View for ImageUse {
    type V = ImageUse;

    open spec fn view(&self) -> ImageUse {
        *self
    }
}

impl ImageUse {
    /// The field that a name in a `use` list stands for.
    pub open spec fn spec_from_name(name: Seq<char>) -> Option<ImageUse> {
        if name == "layers"@ {
            Some(ImageUse::Layers)
        } else if name == "environment"@ {
            Some(ImageUse::Environment)
        } else if name == "working_directory"@ {
            Some(ImageUse::WorkingDirectory)
        } else {
            None
        }
    }

    /// The field that a name in a `use` list stands for.
    pub fn from_name(name: &str) -> (r: Option<ImageUse>)
        ensures
            r == ImageUse::spec_from_name(name@),
    {
        if str_eq(name, "layers") {
            Some(ImageUse::Layers)
        } else if str_eq(name, "environment") {
            Some(ImageUse::Environment)
        } else if str_eq(name, "working_directory") {
            Some(ImageUse::WorkingDirectory)
        } else {
            None
        }
    }
}

impl Decode for ImageUse {
    open spec fn spec_decode(value: ValueView) -> Result<ImageUse, DecodeErrorView> {
        match String::spec_decode(value) {
            Err(e) => Err(e),
            Ok(name) => match ImageUse::spec_from_name(name) {
                Some(field) => Ok(field),
                None => Err(
                    DecodeErrorView::UnknownVariant { variant: name, expected: NameSet::ImageUses },
                ),
            },
        }
    }

    fn decode(value: &Value) -> (r: Result<ImageUse, DecodeError>) {
        match value {
            Value::String(name) => match ImageUse::from_name(name.as_str()) {
                Some(field) => Ok(field),
                None => Err(unknown_variant(name.as_str(), NameSet::ImageUses)),
            },
            _ => Err(invalid_type(value, Expectation::String)),
        }
    }
}

/// The set of fields that a container takes from its image.
#[derive(Debug, Clone, Copy, PartialEq, Eq, Structural)]
pub struct ImageUseSet {
    pub layers: bool,
    pub environment: bool,
    pub working_directory: bool,
}

impl View for ImageUseSet {
    type V = ImageUseSet;

    open spec fn view(&self) -> ImageUseSet {
        *self
    }
}

impl ImageUseSet {
    /// The set without any field.
    pub open spec fn spec_empty() -> ImageUseSet {
        ImageUseSet { layers: false, environment: false, working_directory: false }
    }

    /// What an image supplies when nothing is said: layers and environment.
    pub open spec fn spec_default() -> ImageUseSet {
        ImageUseSet { layers: true, environment: true, working_directory: false }
    }

    /// Whether `field` is in the set.
    pub open spec fn spec_contains(self, field: ImageUse) -> bool {
        match field {
            ImageUse::Layers => self.layers,
            ImageUse::Environment => self.environment,
            ImageUse::WorkingDirectory => self.working_directory,
        }
    }

    /// The set with `field` added.
    pub open spec fn spec_insert(self, field: ImageUse) -> ImageUseSet {
        match field {
            ImageUse::Layers => ImageUseSet { layers: true, ..self },
            ImageUse::Environment => ImageUseSet { environment: true, ..self },
            ImageUse::WorkingDirectory => ImageUseSet { working_directory: true, ..self },
        }
    }

    /// The set of the first `n` of `fields`.
    pub open spec fn spec_of(fields: Seq<ImageUse>, n: nat) -> ImageUseSet
        decreases n,
    {
        if n == 0 {
            ImageUseSet::spec_empty()
        } else {
            ImageUseSet::spec_of(fields, (n - 1) as nat).spec_insert(fields[n - 1])
        }
    }

    /// The set without any field.
    pub fn empty() -> (r: ImageUseSet)
        ensures
            r == ImageUseSet::spec_empty(),
    {
        ImageUseSet { layers: false, environment: false, working_directory: false }
    }

    /// What an image supplies when nothing is said: layers and environment.
    pub fn default_uses() -> (r: ImageUseSet)
        ensures
            r == ImageUseSet::spec_default(),
    {
        ImageUseSet { layers: true, environment: true, working_directory: false }
    }

    /// Whether `field` is in the set.
    pub fn contains(&self, field: ImageUse) -> (r: bool)
        ensures
            r == self.spec_contains(field),
    {
        match field {
            ImageUse::Layers => self.layers,
            ImageUse::Environment => self.environment,
            ImageUse::WorkingDirectory => self.working_directory,
        }
    }

    /// The set with `field` added.
    pub fn insert(self, field: ImageUse) -> (r: ImageUseSet)
        ensures
            r == self.spec_insert(field),
    {
        let mut set = self;
        match field {
            ImageUse::Layers => {
                set.layers = true;
            },
            ImageUse::Environment => {
                set.environment = true;
            },
            ImageUse::WorkingDirectory => {
                set.working_directory = true;
            },
        }
        set
    }

    /// The set of the given fields.
    pub fn of(fields: &Vec<ImageUse>) -> (r: ImageUseSet)
        ensures
            r == ImageUseSet::spec_of(fields@, fields@.len()),
    {
        let mut set = ImageUseSet::empty();
        let mut i: usize = 0;
        while i < fields.len()
            invariant
                i <= fields.len(),
                set == ImageUseSet::spec_of(fields@, i as nat),
            decreases fields.len() - i,
        {
            set = set.insert(fields[i]);
            i += 1;
        }
        set
    }
}

impl Decode for ImageUseSet {
    /// An array of the names of fields.
    open spec fn spec_decode(value: ValueView) -> Result<ImageUseSet, DecodeErrorView> {
        match spec_decode_array::<ImageUse>(value) {
            Err(e) => Err(e),
            Ok(fields) => Ok(ImageUseSet::spec_of(fields, fields.len())),
        }
    }

    fn decode(value: &Value) -> (r: Result<ImageUseSet, DecodeError>) {
        match decode_array::<ImageUse>(value) {
            Err(e) => Err(e),
            Ok(fields) => {
                assert(seq_view(fields@) =~= fields@);
                Ok(ImageUseSet::of(&fields))
            },
        }
    }
}

/// A reference to an image: its name, and what the container takes from it.
#[derive(Debug, PartialEq, Eq)]
pub struct ImageReference {
    pub name: String,
    pub uses: ImageUseSet,
}

/// The mathematical model of an [`ImageReference`].
pub struct ImageReferenceView {
    pub name: Seq<char>,
    pub uses: ImageUseSet,
}

impl View for ImageReference {
    type V = ImageReferenceView;

    open spec fn view(&self) -> ImageReferenceView {
        ImageReferenceView { name: self.name@, uses: self.uses }
    }
}

/// The fields of an image reference, gathered while its table is read.
pub struct ImageFields {
    pub name: Option<String>,
    pub uses: Option<ImageUseSet>,
}

/// The mathematical model of [`ImageFields`].
pub struct ImageFieldsView {
    pub name: Option<Seq<char>>,
    pub uses: Option<ImageUseSet>,
}

impl View for ImageFields {
    type V = ImageFieldsView;

    open spec fn view(&self) -> ImageFieldsView {
        ImageFieldsView { name: opt_view(self.name), uses: self.uses }
    }
}

impl ImageFieldsView {
    /// The fields of an image reference before any entry is read.
    pub open spec fn start() -> ImageFieldsView {
        ImageFieldsView { name: None, uses: None }
    }

    /// The reference that the gathered fields make. A reference without
    /// `use` takes layers and environment.
    pub open spec fn finish(self) -> Result<ImageReferenceView, DecodeErrorView> {
        match self.name {
            None => Err(DecodeErrorView::MissingField { field: "name"@ }),
            Some(name) => Ok(
                ImageReferenceView {
                    name,
                    uses: match self.uses {
                        Some(uses) => uses,
                        None => ImageUseSet::spec_default(),
                    },
                },
            ),
        }
    }
}

impl ImageFields {
    /// The fields of an image reference before any entry is read.
    pub fn new() -> (r: ImageFields)
        ensures
            r@ == ImageFieldsView::start(),
    {
        ImageFields { name: None, uses: None }
    }

    /// Makes the reference out of the gathered fields.
    pub fn finish(self) -> (r: Result<ImageReference, DecodeError>)
        ensures
            result_view(r) == self@.finish(),
    {
        match self.name {
            None => Err(missing_field("name")),
            Some(name) => Ok(
                ImageReference {
                    name,
                    uses: match self.uses {
                        Some(uses) => uses,
                        None => ImageUseSet::default_uses(),
                    },
                },
            ),
        }
    }
}

impl Record for ImageFields {
    /// An image reference accepts `name` and `use`, once each.
    open spec fn spec_accept(state: ImageFieldsView, key: Seq<char>, value: ValueView) -> Result<
        ImageFieldsView,
        DecodeErrorView,
    > {
        if key == "name"@ {
            if state.name is Some {
                Err(DecodeErrorView::DuplicateKey { field: key })
            } else {
                match String::spec_decode(value) {
                    Err(e) => Err(e),
                    Ok(name) => Ok(ImageFieldsView { name: Some(name), ..state }),
                }
            }
        } else if key == "use"@ {
            if state.uses is Some {
                Err(DecodeErrorView::DuplicateKey { field: key })
            } else {
                match ImageUseSet::spec_decode(value) {
                    Err(e) => Err(e),
                    Ok(uses) => Ok(ImageFieldsView { uses: Some(uses), ..state }),
                }
            }
        } else {
            Err(DecodeErrorView::UnknownField { field: key, expected: NameSet::ImageFields })
        }
    }

    fn accept(&mut self, key: &str, value: &Value) -> (r: Result<(), DecodeError>) {
        if str_eq(key, "name") {
            if self.name.is_some() {
                return Err(duplicate_key(key));
            }
            match String::decode(value) {
                Err(e) => Err(e),
                Ok(name) => {
                    self.name = Some(name);
                    Ok(())
                },
            }
        } else if str_eq(key, "use") {
            if self.uses.is_some() {
                return Err(duplicate_key(key));
            }
            match ImageUseSet::decode(value) {
                Err(e) => Err(e),
                Ok(uses) => {
                    self.uses = Some(uses);
                    Ok(())
                },
            }
        } else {
            Err(unknown_field(key, NameSet::ImageFields))
        }
    }
}

impl Decode for ImageReference {
    /// An image reference is the bare name of the image, which takes layers
    /// and environment from it, or a table that holds `name` and may hold
    /// `use`.
    open spec fn spec_decode(value: ValueView) -> Result<ImageReferenceView, DecodeErrorView> {
        match value {
            ValueView::String(name) => Ok(
                ImageReferenceView { name, uses: ImageUseSet::spec_default() },
            ),
            ValueView::Table(entries) => match spec_accept_entries::<ImageFields>(
                ImageFieldsView::start(),
                entries,
                entries.len(),
            ) {
                Err(e) => Err(e),
                Ok(fields) => fields.finish(),
            },
            _ => Err(spec_invalid_type(value, Expectation::StringOrTable)),
        }
    }

    fn decode(value: &Value) -> (r: Result<ImageReference, DecodeError>) {
        match value {
            Value::String(name) => Ok(
                ImageReference { name: name.clone(), uses: ImageUseSet::default_uses() },
            ),
            Value::Table(entries) => {
                proof {
                    lemma_table_view(*value);
                }
                match accept_entries(ImageFields::new(), entries) {
                    Err(e) => Err(e),
                    Ok(fields) => fields.finish(),
                }
            },
            _ => Err(invalid_type(value, Expectation::StringOrTable)),
        }
    }
}

/// The bare name of an image and the table that names the same image and
/// takes layers and environment from it decode to the same reference.
pub proof fn lemma_image_name_alone(name: Seq<char>)
    ensures
        ImageReference::spec_decode(ValueView::String(name)) == ImageReference::spec_decode(
            ValueView::Table(
                seq![
                    ("name"@, ValueView::String(name)),
                    (
                        "use"@,
                        ValueView::Array(
                            seq![ValueView::String("layers"@), ValueView::String("environment"@)],
                        ),
                    ),
                ],
            ),
        ),
{
    reveal_strlit("name");
    reveal_strlit("use");
    reveal_strlit("layers");
    reveal_strlit("environment");
    reveal_strlit("working_directory");
    let uses = seq![ValueView::String("layers"@), ValueView::String("environment"@)];
    let entries = seq![("name"@, ValueView::String(name)), ("use"@, ValueView::Array(uses))];
    assert("name"@ != "use"@) by {
        assert("name"@.len() == 4 && "use"@.len() == 3);
    }
    assert("layers"@ != "environment"@) by {
        assert("layers"@.len() == 6 && "environment"@.len() == 11);
    }
    reveal_with_fuel(crate::decode::spec_decode_items, 3);
    reveal_with_fuel(ImageUseSet::spec_of, 3);
    reveal_with_fuel(spec_accept_entries, 3);
    assert(ImageUse::spec_decode(uses[0]) == Ok::<ImageUse, DecodeErrorView>(ImageUse::Layers));
    assert(ImageUse::spec_decode(uses[1]) == Ok::<ImageUse, DecodeErrorView>(
        ImageUse::Environment,
    ));
    let fields = seq![ImageUse::Layers, ImageUse::Environment];
    assert(spec_decode_array::<ImageUse>(ValueView::Array(uses)) == Ok::<
        Seq<ImageUse>,
        DecodeErrorView,
    >(fields)) by {
        assert(spec_decode_items::<ImageUse>(uses, 2)->Ok_0 =~= fields);
    }
    assert(ImageUseSet::spec_of(fields, 2) == ImageUseSet::spec_default());
}

} // verus!
