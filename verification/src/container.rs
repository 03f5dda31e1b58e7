//! Container specifications, and the builder that assembles one field by
//! field while it enforces the rules on the order of the fields.

use vstd::prelude::*;
use crate::decode::{
    decode_array, invalid_type, opt_view, seq_view, spec_decode_array, spec_invalid_type, Decode,
};
use crate::environment::Environment;
use crate::error::{
    duplicate_key, missing_field, result_view, unknown_field, unknown_variant, DecodeError,
    DecodeErrorView, Expectation, ImageUse, MergedField, NameSet,
};
use crate::image::{ImageReference, ImageReferenceView};
use crate::layer::{LayerSpec, LayerView};
use crate::mount::{Mount, MountView};
use crate::record::{accept_entries, agrees, spec_accept_entries, Record};
use crate::value::{lemma_table_view, str_eq, Value, ValueView};

verus! {

/// How much of the network a container can reach.
#[derive(Debug, Clone, Copy, PartialEq, Eq, Structural)]
pub enum NetworkMode {
    Disabled,
    Loopback,
    Local,
}

impl View for NetworkMode {
    type V = NetworkMode;

    open spec fn view(&self) -> NetworkMode {
        *self
    }
}

impl NetworkMode {
    /// The mode that a name stands for.
    pub open spec fn spec_from_name(name: Seq<char>) -> Option<NetworkMode> {
        if name == "disabled"@ {
            Some(NetworkMode::Disabled)
        } else if name == "loopback"@ {
            Some(NetworkMode::Loopback)
        } else if name == "local"@ {
            Some(NetworkMode::Local)
        } else {
            None
        }
    }

    /// The mode that a name stands for.
    pub fn from_name(name: &str) -> (r: Option<NetworkMode>)
        ensures
            r == NetworkMode::spec_from_name(name@),
    {
        if str_eq(name, "disabled") {
            Some(NetworkMode::Disabled)
        } else if str_eq(name, "loopback") {
            Some(NetworkMode::Loopback)
        } else if str_eq(name, "local") {
            Some(NetworkMode::Local)
        } else {
            None
        }
    }
}

impl Decode for NetworkMode {
    open spec fn spec_decode(value: ValueView) -> Result<NetworkMode, DecodeErrorView> {
        match String::spec_decode(value) {
            Err(e) => Err(e),
            Ok(name) => match NetworkMode::spec_from_name(name) {
                Some(mode) => Ok(mode),
                None => Err(
                    DecodeErrorView::UnknownVariant {
                        variant: name,
                        expected: NameSet::NetworkModes,
                    },
                ),
            },
        }
    }

    fn decode(value: &Value) -> (r: Result<NetworkMode, DecodeError>) {
        match value {
            Value::String(name) => match NetworkMode::from_name(name.as_str()) {
                Some(mode) => Ok(mode),
                None => Err(unknown_variant(name.as_str(), NameSet::NetworkModes)),
            },
            _ => Err(invalid_type(value, Expectation::String)),
        }
    }
}

/// The identifier of a user.
#[derive(Debug, Clone, Copy, PartialEq, Eq, Structural)]
pub struct UserId(pub u32);

impl View for UserId {
    type V = UserId;

    open spec fn view(&self) -> UserId {
        *self
    }
}

impl UserId {
    /// The user with the number `id`.
    pub fn new(id: u32) -> (r: UserId)
        ensures
            r == UserId(id),
    {
        UserId(id)
    }

    /// The number of the user.
    pub fn as_u32(self) -> (r: u32)
        ensures
            r == self.0,
    {
        self.0
    }
}

impl Decode for UserId {
    open spec fn spec_decode(value: ValueView) -> Result<UserId, DecodeErrorView> {
        match u32::spec_decode(value) {
            Err(e) => Err(e),
            Ok(id) => Ok(UserId(id)),
        }
    }

    fn decode(value: &Value) -> (r: Result<UserId, DecodeError>) {
        match u32::decode(value) {
            Err(e) => Err(e),
            Ok(id) => Ok(UserId(id)),
        }
    }
}

/// The identifier of a group.
#[derive(Debug, Clone, Copy, PartialEq, Eq, Structural)]
pub struct GroupId(pub u32);

impl View for GroupId {
    type V = GroupId;

    open spec fn view(&self) -> GroupId {
        *self
    }
}

impl GroupId {
    /// The group with the number `id`.
    pub fn new(id: u32) -> (r: GroupId)
        ensures
            r == GroupId(id),
    {
        GroupId(id)
    }

    /// The number of the group.
    pub fn as_u32(self) -> (r: u32)
        ensures
            r == self.0,
    {
        self.0
    }
}

impl Decode for GroupId {
    open spec fn spec_decode(value: ValueView) -> Result<GroupId, DecodeErrorView> {
        match u32::spec_decode(value) {
            Err(e) => Err(e),
            Ok(id) => Ok(GroupId(id)),
        }
    }

    fn decode(value: &Value) -> (r: Result<GroupId, DecodeError>) {
        match u32::decode(value) {
            Err(e) => Err(e),
            Ok(id) => Ok(GroupId(id)),
        }
    }
}

/// A value that the declaration gives itself, or leaves to the image.
#[derive(Debug, PartialEq, Eq)]
pub enum PossiblyImage<T> {
    /// Whoever runs the container takes the value from the image.
    FromImage,
    /// The declaration gives the value.
    Explicit(T),
}

/// The model of a field that may come from the image.
pub open spec fn possibly_view<T: View>(field: Option<PossiblyImage<T>>) -> Option<
    PossiblyImage<T::V>,
> {
    match field {
        None => None,
        Some(PossiblyImage::FromImage) => Some(PossiblyImage::FromImage),
        Some(PossiblyImage::Explicit(value)) => Some(PossiblyImage::Explicit(value@)),
    }
}

/// The model of a list that may come from the image.
pub open spec fn possibly_seq_view<T: View>(field: Option<PossiblyImage<Vec<T>>>) -> Option<
    PossiblyImage<Seq<T::V>>,
> {
    match field {
        None => None,
        Some(PossiblyImage::FromImage) => Some(PossiblyImage::FromImage),
        Some(PossiblyImage::Explicit(items)) => Some(PossiblyImage::Explicit(seq_view(items@))),
    }
}

/// The model of an optional list.
pub open spec fn opt_seq_view<T: View>(field: Option<Vec<T>>) -> Option<Seq<T::V>> {
    match field {
        None => None,
        Some(items) => Some(seq_view(items@)),
    }
}

/// The fields of a container specification.
#[derive(Debug, Clone, Copy, PartialEq, Eq, Structural)]
pub enum ContainerField {
    Network,
    EnableWritableFileSystem,
    User,
    Group,
    Mounts,
    AddedMounts,
    Image,
    WorkingDirectory,
    Layers,
    AddedLayers,
    Environment,
    AddedEnvironment,
}

impl ContainerField {
    /// The key under which the field stands in a declaration.
    pub open spec fn spec_name(self) -> Seq<char> {
        match self {
            ContainerField::Network => "network"@,
            ContainerField::EnableWritableFileSystem => "enable_writable_file_system"@,
            ContainerField::User => "user"@,
            ContainerField::Group => "group"@,
            ContainerField::Mounts => "mounts"@,
            ContainerField::AddedMounts => "added_mounts"@,
            ContainerField::Image => "image"@,
            ContainerField::WorkingDirectory => "working_directory"@,
            ContainerField::Layers => "layers"@,
            ContainerField::AddedLayers => "added_layers"@,
            ContainerField::Environment => "environment"@,
            ContainerField::AddedEnvironment => "added_environment"@,
        }
    }

    /// The key under which the field stands in a declaration.
    pub fn name(self) -> (r: &'static str)
        ensures
            r@ == self.spec_name(),
    {
        match self {
            ContainerField::Network => "network",
            ContainerField::EnableWritableFileSystem => "enable_writable_file_system",
            ContainerField::User => "user",
            ContainerField::Group => "group",
            ContainerField::Mounts => "mounts",
            ContainerField::AddedMounts => "added_mounts",
            ContainerField::Image => "image",
            ContainerField::WorkingDirectory => "working_directory",
            ContainerField::Layers => "layers",
            ContainerField::AddedLayers => "added_layers",
            ContainerField::Environment => "environment",
            ContainerField::AddedEnvironment => "added_environment",
        }
    }

    /// The field that a key stands for, if it stands for one.
    pub open spec fn spec_from_name(name: Seq<char>) -> Option<ContainerField> {
        if name == "network"@ {
            Some(ContainerField::Network)
        } else if name == "enable_writable_file_system"@ {
            Some(ContainerField::EnableWritableFileSystem)
        } else if name == "user"@ {
            Some(ContainerField::User)
        } else if name == "group"@ {
            Some(ContainerField::Group)
        } else if name == "mounts"@ {
            Some(ContainerField::Mounts)
        } else if name == "added_mounts"@ {
            Some(ContainerField::AddedMounts)
        } else if name == "image"@ {
            Some(ContainerField::Image)
        } else if name == "working_directory"@ {
            Some(ContainerField::WorkingDirectory)
        } else if name == "layers"@ {
            Some(ContainerField::Layers)
        } else if name == "added_layers"@ {
            Some(ContainerField::AddedLayers)
        } else if name == "environment"@ {
            Some(ContainerField::Environment)
        } else if name == "added_environment"@ {
            Some(ContainerField::AddedEnvironment)
        } else {
            None
        }
    }

    /// The field that a key stands for, if it stands for one.
    pub fn from_name(name: &str) -> (r: Option<ContainerField>)
        ensures
            r == ContainerField::spec_from_name(name@),
    {
        if str_eq(name, "network") {
            Some(ContainerField::Network)
        } else if str_eq(name, "enable_writable_file_system") {
            Some(ContainerField::EnableWritableFileSystem)
        } else if str_eq(name, "user") {
            Some(ContainerField::User)
        } else if str_eq(name, "group") {
            Some(ContainerField::Group)
        } else if str_eq(name, "mounts") {
            Some(ContainerField::Mounts)
        } else if str_eq(name, "added_mounts") {
            Some(ContainerField::AddedMounts)
        } else if str_eq(name, "image") {
            Some(ContainerField::Image)
        } else if str_eq(name, "working_directory") {
            Some(ContainerField::WorkingDirectory)
        } else if str_eq(name, "layers") {
            Some(ContainerField::Layers)
        } else if str_eq(name, "added_layers") {
            Some(ContainerField::AddedLayers)
        } else if str_eq(name, "environment") {
            Some(ContainerField::Environment)
        } else if str_eq(name, "added_environment") {
            Some(ContainerField::AddedEnvironment)
        } else {
            None
        }
    }
}

/// A finished container specification.
#[derive(Debug, PartialEq, Eq)]
pub struct TestContainer {
    pub network: Option<NetworkMode>,
    pub enable_writable_file_system: Option<bool>,
    pub user: Option<UserId>,
    pub group: Option<GroupId>,
    /// The mounts that replace those of whatever this container is based on.
    pub mounts: Option<Vec<Mount>>,
    /// The mounts that come after those of whatever this container is based
    /// on.
    pub added_mounts: Vec<Mount>,
    /// The name of the image that the container is based on.
    pub image: Option<String>,
    pub working_directory: Option<PossiblyImage<String>>,
    pub layers: Option<PossiblyImage<Vec<LayerSpec>>>,
    pub added_layers: Vec<LayerSpec>,
    pub environment: Option<PossiblyImage<Environment>>,
    pub added_environment: Environment,
}

/// The mathematical model of a [`TestContainer`].
pub struct TestContainerView {
    pub network: Option<NetworkMode>,
    pub enable_writable_file_system: Option<bool>,
    pub user: Option<UserId>,
    pub group: Option<GroupId>,
    pub mounts: Option<Seq<MountView>>,
    pub added_mounts: Seq<MountView>,
    pub image: Option<Seq<char>>,
    pub working_directory: Option<PossiblyImage<Seq<char>>>,
    pub layers: Option<PossiblyImage<Seq<LayerView>>>,
    pub added_layers: Seq<LayerView>,
    pub environment: Option<PossiblyImage<Map<Seq<char>, Seq<char>>>>,
    pub added_environment: Map<Seq<char>, Seq<char>>,
}

impl View for TestContainer {
    type V = TestContainerView;

    open spec fn view(&self) -> TestContainerView {
        TestContainerView {
            network: self.network,
            enable_writable_file_system: self.enable_writable_file_system,
            user: self.user,
            group: self.group,
            mounts: opt_seq_view(self.mounts),
            added_mounts: seq_view(self.added_mounts@),
            image: opt_view(self.image),
            working_directory: possibly_view(self.working_directory),
            layers: possibly_seq_view(self.layers),
            added_layers: seq_view(self.added_layers@),
            environment: possibly_view(self.environment),
            added_environment: self.added_environment@,
        }
    }
}

impl TestContainerView {
    /// The container specification in which nothing is set.
    pub open spec fn spec_default() -> TestContainerView {
        TestContainerView {
            network: None,
            enable_writable_file_system: None,
            user: None,
            group: None,
            mounts: None,
            added_mounts: Seq::empty(),
            image: None,
            working_directory: None,
            layers: None,
            added_layers: Seq::empty(),
            environment: None,
            added_environment: Map::empty(),
        }
    }
}

impl Default for TestContainer {
    /// The container specification in which nothing is set.
    fn default() -> (r: TestContainer)
        ensures
            r@ == TestContainerView::spec_default(),
    {
        let r = TestContainer {
            network: None,
            enable_writable_file_system: None,
            user: None,
            group: None,
            mounts: None,
            added_mounts: Vec::new(),
            image: None,
            working_directory: None,
            layers: None,
            added_layers: Vec::new(),
            environment: None,
            added_environment: Environment::new(),
        };
        assert(r@.added_mounts =~= Seq::empty());
        assert(r@.added_layers =~= Seq::empty());
        r
    }
}

/// A container specification under construction.
///
/// Every field starts unset and is set at most once. A field that an image
/// supplies counts as set, as [`PossiblyImage::FromImage`]: so the three
/// fields that an image can supply say by themselves where their value comes
/// from.
pub struct TestContainerVisitor {
    pub network: Option<NetworkMode>,
    pub enable_writable_file_system: Option<bool>,
    pub user: Option<UserId>,
    pub group: Option<GroupId>,
    pub mounts: Option<Vec<Mount>>,
    pub added_mounts: Option<Vec<Mount>>,
    pub image: Option<String>,
    pub working_directory: Option<PossiblyImage<String>>,
    pub layers: Option<PossiblyImage<Vec<LayerSpec>>>,
    pub added_layers: Option<Vec<LayerSpec>>,
    pub environment: Option<PossiblyImage<Environment>>,
    pub added_environment: Option<Environment>,
}

/// The mathematical model of a [`TestContainerVisitor`].
pub struct TestContainerVisitorView {
    pub network: Option<NetworkMode>,
    pub enable_writable_file_system: Option<bool>,
    pub user: Option<UserId>,
    pub group: Option<GroupId>,
    pub mounts: Option<Seq<MountView>>,
    pub added_mounts: Option<Seq<MountView>>,
    pub image: Option<Seq<char>>,
    pub working_directory: Option<PossiblyImage<Seq<char>>>,
    pub layers: Option<PossiblyImage<Seq<LayerView>>>,
    pub added_layers: Option<Seq<LayerView>>,
    pub environment: Option<PossiblyImage<Map<Seq<char>, Seq<char>>>>,
    pub added_environment: Option<Map<Seq<char>, Seq<char>>>,
}

impl View for TestContainerVisitor {
    type V = TestContainerVisitorView;

    open spec fn view(&self) -> TestContainerVisitorView {
        TestContainerVisitorView {
            network: self.network,
            enable_writable_file_system: self.enable_writable_file_system,
            user: self.user,
            group: self.group,
            mounts: opt_seq_view(self.mounts),
            added_mounts: opt_seq_view(self.added_mounts),
            image: opt_view(self.image),
            working_directory: possibly_view(self.working_directory),
            layers: possibly_seq_view(self.layers),
            added_layers: opt_seq_view(self.added_layers),
            environment: possibly_view(self.environment),
            added_environment: opt_view(self.added_environment),
        }
    }
}

/// Where the value of a field that an image can supply comes from.
#[derive(Debug, Clone, Copy, PartialEq, Eq, Structural)]
pub enum Provenance {
    /// The field has not been set.
    Unset,
    /// The declaration gave the value.
    Explicit,
    /// The image supplies the value.
    FromImage,
}

/// Where the value of a field comes from.
pub open spec fn spec_provenance<T>(field: Option<PossiblyImage<T>>) -> Provenance {
    match field {
        None => Provenance::Unset,
        Some(PossiblyImage::FromImage) => Provenance::FromImage,
        Some(PossiblyImage::Explicit(_)) => Provenance::Explicit,
    }
}

/// Where the value of a field comes from.
pub fn provenance<T>(field: &Option<PossiblyImage<T>>) -> (r: Provenance)
    ensures
        r == spec_provenance(*field),
{
    match field {
        None => Provenance::Unset,
        Some(PossiblyImage::FromImage) => Provenance::FromImage,
        Some(PossiblyImage::Explicit(_)) => Provenance::Explicit,
    }
}

impl TestContainerVisitorView {
    /// The builder in which nothing is set.
    pub open spec fn start() -> TestContainerVisitorView {
        TestContainerVisitorView {
            network: None,
            enable_writable_file_system: None,
            user: None,
            group: None,
            mounts: None,
            added_mounts: None,
            image: None,
            working_directory: None,
            layers: None,
            added_layers: None,
            environment: None,
            added_environment: None,
        }
    }

    /// The ledger: where the value of the field that `field` names comes
    /// from.
    pub open spec fn provenance(self, field: ImageUse) -> Provenance {
        match field {
            ImageUse::Layers => spec_provenance(self.layers),
            ImageUse::Environment => spec_provenance(self.environment),
            ImageUse::WorkingDirectory => spec_provenance(self.working_directory),
        }
    }

    /// Whether the appending sibling of a field that an image can supply
    /// has been given. The working directory has no such sibling.
    pub open spec fn added_given(self, field: ImageUse) -> bool {
        match field {
            ImageUse::Layers => self.added_layers is Some,
            ImageUse::Environment => self.added_environment is Some,
            ImageUse::WorkingDirectory => false,
        }
    }

    /// The builder after the image has supplied `field`.
    pub open spec fn supplied(self, field: ImageUse) -> TestContainerVisitorView {
        match field {
            ImageUse::Layers => TestContainerVisitorView {
                layers: Some(PossiblyImage::FromImage),
                ..self
            },
            ImageUse::Environment => TestContainerVisitorView {
                environment: Some(PossiblyImage::FromImage),
                ..self
            },
            ImageUse::WorkingDirectory => TestContainerVisitorView {
                working_directory: Some(PossiblyImage::FromImage),
                ..self
            },
        }
    }

    /// What stands in the way of letting the image supply `field`, if that
    /// is `wanted`: the image cannot supply a field that is set already, nor
    /// one whose appending sibling has been given.
    pub open spec fn supply_obstacle(self, field: ImageUse, wanted: bool) -> Option<
        DecodeErrorView,
    > {
        if !wanted {
            None
        } else if self.provenance(field) != Provenance::Unset {
            Some(DecodeErrorView::ImageAfterSet { supplied: field })
        } else if self.added_given(field) {
            Some(DecodeErrorView::ImageAfterAdded { supplied: field })
        } else {
            None
        }
    }

    /// Lets the image supply `field` if `wanted`, unless something stands
    /// in the way.
    pub open spec fn supply(self, field: ImageUse, wanted: bool) -> Result<
        TestContainerVisitorView,
        DecodeErrorView,
    > {
        match self.supply_obstacle(field, wanted) {
            Some(e) => Err(e),
            None => if wanted {
                Ok(self.supplied(field))
            } else {
                Ok(self)
            },
        }
    }

    /// Bases the container on `image`: its name is kept, and each field
    /// that the reference uses is left to the image; layers first, then
    /// environment, then working directory.
    pub open spec fn use_image(self, image: ImageReferenceView) -> Result<
        TestContainerVisitorView,
        DecodeErrorView,
    > {
        let named = TestContainerVisitorView { image: Some(image.name), ..self };
        match named.supply(ImageUse::Layers, image.uses.layers) {
            Err(e) => Err(e),
            Ok(with_layers) => match with_layers.supply(
                ImageUse::Environment,
                image.uses.environment,
            ) {
                Err(e) => Err(e),
                Ok(with_environment) => with_environment.supply(
                    ImageUse::WorkingDirectory,
                    image.uses.working_directory,
                ),
            },
        }
    }

    /// What stands in the way of setting explicitly a field that an image
    /// can supply: the image supplies it, it is set already, or its
    /// appending sibling has been given.
    pub open spec fn explicit_obstacle(self, field: ImageUse, key: Seq<char>) -> Option<
        DecodeErrorView,
    > {
        match self.provenance(field) {
            Provenance::FromImage => Some(DecodeErrorView::SetAfterImage { supplied: field }),
            Provenance::Explicit => Some(DecodeErrorView::DuplicateKey { field: key }),
            Provenance::Unset => match field {
                ImageUse::Layers => if self.added_layers is Some {
                    Some(DecodeErrorView::SetAfterAdded { merged: MergedField::Layers })
                } else {
                    None
                },
                ImageUse::Environment => if self.added_environment is Some {
                    Some(DecodeErrorView::SetAfterAdded { merged: MergedField::Environment })
                } else {
                    None
                },
                ImageUse::WorkingDirectory => None,
            },
        }
    }

    /// The finished container specification: what was not appended to is
    /// empty.
    pub open spec fn finalize(self) -> TestContainerView {
        TestContainerView {
            network: self.network,
            enable_writable_file_system: self.enable_writable_file_system,
            user: self.user,
            group: self.group,
            mounts: self.mounts,
            added_mounts: match self.added_mounts {
                Some(mounts) => mounts,
                None => Seq::empty(),
            },
            image: self.image,
            working_directory: self.working_directory,
            layers: self.layers,
            added_layers: match self.added_layers {
                Some(layers) => layers,
                None => Seq::empty(),
            },
            environment: self.environment,
            added_environment: match self.added_environment {
                Some(environment) => environment,
                None => Map::empty(),
            },
        }
    }
}

/// What setting the field `ident` to `value` does to the builder.
///
/// A field that is set already is a duplicate. `mounts`, `layers` and
/// `environment` cannot follow their appending sibling. `layers`,
/// `environment` and `working_directory` cannot be set where the image
/// supplies them, and an image cannot supply them where they are set or,
/// for the first two, where their appending sibling has been given. These
/// are tested before the value is looked at; only for `image` the value is
/// decoded first, because it says what the image supplies.
pub open spec fn spec_fill_entry(
    state: TestContainerVisitorView,
    ident: ContainerField,
    value: ValueView,
) -> Result<TestContainerVisitorView, DecodeErrorView> {
    let duplicate = Err::<TestContainerVisitorView, DecodeErrorView>(
        DecodeErrorView::DuplicateKey { field: ident.spec_name() },
    );
    match ident {
        ContainerField::Network => if state.network is Some {
            duplicate
        } else {
            match NetworkMode::spec_decode(value) {
                Err(e) => Err(e),
                Ok(mode) => Ok(TestContainerVisitorView { network: Some(mode), ..state }),
            }
        },
        ContainerField::EnableWritableFileSystem => if state.enable_writable_file_system is Some {
            duplicate
        } else {
            match bool::spec_decode(value) {
                Err(e) => Err(e),
                Ok(flag) => Ok(
                    TestContainerVisitorView { enable_writable_file_system: Some(flag), ..state },
                ),
            }
        },
        ContainerField::User => if state.user is Some {
            duplicate
        } else {
            match UserId::spec_decode(value) {
                Err(e) => Err(e),
                Ok(id) => Ok(TestContainerVisitorView { user: Some(id), ..state }),
            }
        },
        ContainerField::Group => if state.group is Some {
            duplicate
        } else {
            match GroupId::spec_decode(value) {
                Err(e) => Err(e),
                Ok(id) => Ok(TestContainerVisitorView { group: Some(id), ..state }),
            }
        },
        ContainerField::Mounts => if state.mounts is Some {
            duplicate
        } else if state.added_mounts is Some {
            Err(DecodeErrorView::SetAfterAdded { merged: MergedField::Mounts })
        } else {
            match spec_decode_array::<Mount>(value) {
                Err(e) => Err(e),
                Ok(mounts) => Ok(TestContainerVisitorView { mounts: Some(mounts), ..state }),
            }
        },
        ContainerField::AddedMounts => if state.added_mounts is Some {
            duplicate
        } else {
            match spec_decode_array::<Mount>(value) {
                Err(e) => Err(e),
                Ok(mounts) => Ok(TestContainerVisitorView { added_mounts: Some(mounts), ..state }),
            }
        },
        ContainerField::Image => if state.image is Some {
            duplicate
        } else {
            match ImageReference::spec_decode(value) {
                Err(e) => Err(e),
                Ok(image) => state.use_image(image),
            }
        },
        ContainerField::WorkingDirectory => match state.explicit_obstacle(
            ImageUse::WorkingDirectory,
            ident.spec_name(),
        ) {
            Some(e) => Err(e),
            None => match String::spec_decode(value) {
                Err(e) => Err(e),
                Ok(path) => Ok(
                    TestContainerVisitorView {
                        working_directory: Some(PossiblyImage::Explicit(path)),
                        ..state
                    },
                ),
            },
        },
        ContainerField::Layers => match state.explicit_obstacle(
            ImageUse::Layers,
            ident.spec_name(),
        ) {
            Some(e) => Err(e),
            None => match spec_decode_array::<LayerSpec>(value) {
                Err(e) => Err(e),
                Ok(layers) => Ok(
                    TestContainerVisitorView {
                        layers: Some(PossiblyImage::Explicit(layers)),
                        ..state
                    },
                ),
            },
        },
        ContainerField::AddedLayers => if state.added_layers is Some {
            duplicate
        } else {
            match spec_decode_array::<LayerSpec>(value) {
                Err(e) => Err(e),
                Ok(layers) => Ok(TestContainerVisitorView { added_layers: Some(layers), ..state }),
            }
        },
        ContainerField::Environment => match state.explicit_obstacle(
            ImageUse::Environment,
            ident.spec_name(),
        ) {
            Some(e) => Err(e),
            None => match Environment::spec_decode(value) {
                Err(e) => Err(e),
                Ok(environment) => Ok(
                    TestContainerVisitorView {
                        environment: Some(PossiblyImage::Explicit(environment)),
                        ..state
                    },
                ),
            },
        },
        ContainerField::AddedEnvironment => if state.added_environment is Some {
            duplicate
        } else {
            match Environment::spec_decode(value) {
                Err(e) => Err(e),
                Ok(environment) => Ok(
                    TestContainerVisitorView { added_environment: Some(environment), ..state },
                ),
            }
        },
    }
}

impl TestContainerVisitor {
    /// The builder in which nothing is set.
    pub fn new() -> (r: TestContainerVisitor)
        ensures
            r@ == TestContainerVisitorView::start(),
    {
        TestContainerVisitor {
            network: None,
            enable_writable_file_system: None,
            user: None,
            group: None,
            mounts: None,
            added_mounts: None,
            image: None,
            working_directory: None,
            layers: None,
            added_layers: None,
            environment: None,
            added_environment: None,
        }
    }

    /// The ledger: where the value of the field that `field` names comes
    /// from.
    pub fn provenance(&self, field: ImageUse) -> (r: Provenance)
        ensures
            r == self@.provenance(field),
    {
        match field {
            ImageUse::Layers => provenance(&self.layers),
            ImageUse::Environment => provenance(&self.environment),
            ImageUse::WorkingDirectory => provenance(&self.working_directory),
        }
    }

    /// What stands in the way of letting the image supply `field`, if that
    /// is `wanted`.
    fn supply_obstacle(&self, field: ImageUse, wanted: bool) -> (r: Option<DecodeError>)
        ensures
            opt_view(r) == self@.supply_obstacle(field, wanted),
    {
        if !wanted {
            return None;
        }
        if self.provenance(field) != Provenance::Unset {
            return Some(DecodeError::ImageAfterSet { supplied: field });
        }
        let added_given = match field {
            ImageUse::Layers => self.added_layers.is_some(),
            ImageUse::Environment => self.added_environment.is_some(),
            ImageUse::WorkingDirectory => false,
        };
        if added_given {
            Some(DecodeError::ImageAfterAdded { supplied: field })
        } else {
            None
        }
    }

    /// Bases the container on `image`. Whatever stands in the way is found
    /// before anything is set: an image that is refused leaves the builder
    /// as it was.
    fn use_image(&mut self, image: ImageReference) -> (r: Result<(), DecodeError>)
        ensures
            agrees(r, old(self)@.use_image(image@), final(self)@),
            r is Err ==> *final(self) == *old(self),
    {
        let uses = image.uses;
        match self.supply_obstacle(ImageUse::Layers, uses.layers) {
            Some(e) => {
                return Err(e);
            },
            None => {},
        }
        match self.supply_obstacle(ImageUse::Environment, uses.environment) {
            Some(e) => {
                return Err(e);
            },
            None => {},
        }
        match self.supply_obstacle(ImageUse::WorkingDirectory, uses.working_directory) {
            Some(e) => {
                return Err(e);
            },
            None => {},
        }
        self.image = Some(image.name);
        if uses.layers {
            self.layers = Some(PossiblyImage::FromImage);
        }
        if uses.environment {
            self.environment = Some(PossiblyImage::FromImage);
        }
        if uses.working_directory {
            self.working_directory = Some(PossiblyImage::FromImage);
        }
        Ok(())
    }

    /// What stands in the way of setting `field` explicitly under `key`.
    fn explicit_obstacle(&self, field: ImageUse, key: &str) -> (r: Option<DecodeError>)
        ensures
            opt_view(r) == self@.explicit_obstacle(field, key@),
    {
        match self.provenance(field) {
            Provenance::FromImage => Some(DecodeError::SetAfterImage { supplied: field }),
            Provenance::Explicit => Some(duplicate_key(key)),
            Provenance::Unset => match field {
                ImageUse::Layers => if self.added_layers.is_some() {
                    Some(DecodeError::SetAfterAdded { merged: MergedField::Layers })
                } else {
                    None
                },
                ImageUse::Environment => if self.added_environment.is_some() {
                    Some(DecodeError::SetAfterAdded { merged: MergedField::Environment })
                } else {
                    None
                },
                ImageUse::WorkingDirectory => None,
            },
        }
    }

    /// Sets the field `ident` to what `value` decodes to, if the rules on
    /// the order of the fields allow it. A field that is refused leaves the
    /// builder as it was.
    pub fn fill_entry(&mut self, ident: ContainerField, value: &Value) -> (r: Result<
        (),
        DecodeError,
    >)
        ensures
            agrees(r, spec_fill_entry(old(self)@, ident, value@), final(self)@),
            r is Err ==> *final(self) == *old(self),
    {
        match ident {
            ContainerField::Network => {
                if self.network.is_some() {
                    return Err(duplicate_key(ident.name()));
                }
                match NetworkMode::decode(value) {
                    Err(e) => Err(e),
                    Ok(mode) => {
                        self.network = Some(mode);
                        Ok(())
                    },
                }
            },
            ContainerField::EnableWritableFileSystem => {
                if self.enable_writable_file_system.is_some() {
                    return Err(duplicate_key(ident.name()));
                }
                match bool::decode(value) {
                    Err(e) => Err(e),
                    Ok(flag) => {
                        self.enable_writable_file_system = Some(flag);
                        Ok(())
                    },
                }
            },
            ContainerField::User => {
                if self.user.is_some() {
                    return Err(duplicate_key(ident.name()));
                }
                match UserId::decode(value) {
                    Err(e) => Err(e),
                    Ok(id) => {
                        self.user = Some(id);
                        Ok(())
                    },
                }
            },
            ContainerField::Group => {
                if self.group.is_some() {
                    return Err(duplicate_key(ident.name()));
                }
                match GroupId::decode(value) {
                    Err(e) => Err(e),
                    Ok(id) => {
                        self.group = Some(id);
                        Ok(())
                    },
                }
            },
            ContainerField::Mounts => {
                if self.mounts.is_some() {
                    return Err(duplicate_key(ident.name()));
                }
                if self.added_mounts.is_some() {
                    return Err(DecodeError::SetAfterAdded { merged: MergedField::Mounts });
                }
                match decode_array::<Mount>(value) {
                    Err(e) => Err(e),
                    Ok(mounts) => {
                        self.mounts = Some(mounts);
                        Ok(())
                    },
                }
            },
            ContainerField::AddedMounts => {
                if self.added_mounts.is_some() {
                    return Err(duplicate_key(ident.name()));
                }
                match decode_array::<Mount>(value) {
                    Err(e) => Err(e),
                    Ok(mounts) => {
                        self.added_mounts = Some(mounts);
                        Ok(())
                    },
                }
            },
            ContainerField::Image => {
                if self.image.is_some() {
                    return Err(duplicate_key(ident.name()));
                }
                match ImageReference::decode(value) {
                    Err(e) => Err(e),
                    Ok(image) => self.use_image(image),
                }
            },
            ContainerField::WorkingDirectory => {
                match self.explicit_obstacle(ImageUse::WorkingDirectory, ident.name()) {
                    Some(e) => {
                        return Err(e);
                    },
                    None => {},
                }
                match String::decode(value) {
                    Err(e) => Err(e),
                    Ok(path) => {
                        self.working_directory = Some(PossiblyImage::Explicit(path));
                        Ok(())
                    },
                }
            },
            ContainerField::Layers => {
                match self.explicit_obstacle(ImageUse::Layers, ident.name()) {
                    Some(e) => {
                        return Err(e);
                    },
                    None => {},
                }
                match decode_array::<LayerSpec>(value) {
                    Err(e) => Err(e),
                    Ok(layers) => {
                        self.layers = Some(PossiblyImage::Explicit(layers));
                        Ok(())
                    },
                }
            },
            ContainerField::AddedLayers => {
                if self.added_layers.is_some() {
                    return Err(duplicate_key(ident.name()));
                }
                match decode_array::<LayerSpec>(value) {
                    Err(e) => Err(e),
                    Ok(layers) => {
                        self.added_layers = Some(layers);
                        Ok(())
                    },
                }
            },
            ContainerField::Environment => {
                match self.explicit_obstacle(ImageUse::Environment, ident.name()) {
                    Some(e) => {
                        return Err(e);
                    },
                    None => {},
                }
                match Environment::decode(value) {
                    Err(e) => Err(e),
                    Ok(environment) => {
                        self.environment = Some(PossiblyImage::Explicit(environment));
                        Ok(())
                    },
                }
            },
            ContainerField::AddedEnvironment => {
                if self.added_environment.is_some() {
                    return Err(duplicate_key(ident.name()));
                }
                match Environment::decode(value) {
                    Err(e) => Err(e),
                    Ok(environment) => {
                        self.added_environment = Some(environment);
                        Ok(())
                    },
                }
            },
        }
    }

    /// Sets the field that stands under `name` in a declaration to what
    /// `value` decodes to. A field that is refused leaves the builder as it
    /// was.
    pub fn accept_field(&mut self, name: &str, value: &Value) -> (r: Result<(), DecodeError>)
        ensures
            agrees(r, spec_accept_field(old(self)@, name@, value@), final(self)@),
            r is Err ==> *final(self) == *old(self),
    {
        match ContainerField::from_name(name) {
            None => Err(unknown_field(name, NameSet::ContainerFields)),
            Some(ident) => self.fill_entry(ident, value),
        }
    }

    /// The finished container specification.
    pub fn finalize(self) -> (r: TestContainer)
        ensures
            r@ == self@.finalize(),
    {
        let r = TestContainer {
            network: self.network,
            enable_writable_file_system: self.enable_writable_file_system,
            user: self.user,
            group: self.group,
            mounts: self.mounts,
            added_mounts: match self.added_mounts {
                Some(mounts) => mounts,
                None => Vec::new(),
            },
            image: self.image,
            working_directory: self.working_directory,
            layers: self.layers,
            added_layers: match self.added_layers {
                Some(layers) => layers,
                None => Vec::new(),
            },
            environment: self.environment,
            added_environment: match self.added_environment {
                Some(environment) => environment,
                None => Environment::new(),
            },
        };
        assert(r@.added_mounts =~= self@.finalize().added_mounts);
        assert(r@.added_layers =~= self@.finalize().added_layers);
        r
    }
}

/// What setting the field that stands under `name` does to the builder: a
/// name that is no field of a container is refused, any other is handled as
/// [`spec_fill_entry`] says.
pub open spec fn spec_accept_field(
    state: TestContainerVisitorView,
    name: Seq<char>,
    value: ValueView,
) -> Result<TestContainerVisitorView, DecodeErrorView> {
    match ContainerField::spec_from_name(name) {
        None => Err(DecodeErrorView::UnknownField { field: name, expected: NameSet::ContainerFields }),
        Some(ident) => spec_fill_entry(state, ident, value),
    }
}

impl Record for TestContainerVisitor {
    open spec fn spec_accept(
        state: TestContainerVisitorView,
        key: Seq<char>,
        value: ValueView,
    ) -> Result<TestContainerVisitorView, DecodeErrorView> {
        spec_accept_field(state, key, value)
    }

    fn accept(&mut self, key: &str, value: &Value) -> (r: Result<(), DecodeError>) {
        self.accept_field(key, value)
    }
}

impl Decode for TestContainer {
    /// A container specification is a table of container fields, which are
    /// set in document order.
    open spec fn spec_decode(value: ValueView) -> Result<TestContainerView, DecodeErrorView> {
        match value {
            ValueView::Table(entries) => match spec_accept_entries::<TestContainerVisitor>(
                TestContainerVisitorView::start(),
                entries,
                entries.len(),
            ) {
                Err(e) => Err(e),
                Ok(state) => Ok(state.finalize()),
            },
            _ => Err(spec_invalid_type(value, Expectation::Table)),
        }
    }

    fn decode(value: &Value) -> (r: Result<TestContainer, DecodeError>) {
        match value {
            Value::Table(entries) => {
                proof {
                    lemma_table_view(*value);
                }
                match accept_entries(TestContainerVisitor::new(), entries) {
                    Err(e) => Err(e),
                    Ok(state) => Ok(state.finalize()),
                }
            },
            _ => Err(invalid_type(value, Expectation::Table)),
        }
    }
}

/// A container specification with a name, by which declarations can refer
/// to it.
#[derive(Debug, PartialEq, Eq)]
pub struct NamedTestContainer {
    pub name: String,
    pub container: TestContainer,
}

/// The mathematical model of a [`NamedTestContainer`].
pub struct NamedTestContainerView {
    pub name: Seq<char>,
    pub container: TestContainerView,
}

impl View for NamedTestContainer {
    type V = NamedTestContainerView;

    open spec fn view(&self) -> NamedTestContainerView {
        NamedTestContainerView { name: self.name@, container: self.container@ }
    }
}

/// A named container specification under construction.
pub struct NamedTestContainerVisitor {
    pub name: Option<String>,
    pub container_visitor: TestContainerVisitor,
}

/// The mathematical model of a [`NamedTestContainerVisitor`].
pub struct NamedTestContainerVisitorView {
    pub name: Option<Seq<char>>,
    pub container_visitor: TestContainerVisitorView,
}

impl View for NamedTestContainerVisitor {
    type V = NamedTestContainerVisitorView;

    open spec fn view(&self) -> NamedTestContainerVisitorView {
        NamedTestContainerVisitorView {
            name: opt_view(self.name),
            container_visitor: self.container_visitor@,
        }
    }
}

impl NamedTestContainerVisitorView {
    /// The builder in which nothing is set.
    pub open spec fn start() -> NamedTestContainerVisitorView {
        NamedTestContainerVisitorView {
            name: None,
            container_visitor: TestContainerVisitorView::start(),
        }
    }

    /// The finished named container, which must have its name.
    pub open spec fn finalize(self) -> Result<NamedTestContainerView, DecodeErrorView> {
        match self.name {
            None => Err(DecodeErrorView::MissingField { field: "name"@ }),
            Some(name) => Ok(
                NamedTestContainerView { name, container: self.container_visitor.finalize() },
            ),
        }
    }
}

impl NamedTestContainerVisitor {
    /// The builder in which nothing is set.
    pub fn new() -> (r: NamedTestContainerVisitor)
        ensures
            r@ == NamedTestContainerVisitorView::start(),
    {
        NamedTestContainerVisitor { name: None, container_visitor: TestContainerVisitor::new() }
    }

    /// The finished named container.
    pub fn finalize(self) -> (r: Result<NamedTestContainer, DecodeError>)
        ensures
            result_view(r) == self@.finalize(),
    {
        match self.name {
            None => Err(missing_field("name")),
            Some(name) => Ok(
                NamedTestContainer { name, container: self.container_visitor.finalize() },
            ),
        }
    }
}

impl Record for NamedTestContainerVisitor {
    /// A named container accepts `name` once, and the fields of a
    /// container.
    open spec fn spec_accept(
        state: NamedTestContainerVisitorView,
        key: Seq<char>,
        value: ValueView,
    ) -> Result<NamedTestContainerVisitorView, DecodeErrorView> {
        if key == "name"@ {
            if state.name is Some {
                Err(DecodeErrorView::DuplicateKey { field: key })
            } else {
                match String::spec_decode(value) {
                    Err(e) => Err(e),
                    Ok(name) => Ok(NamedTestContainerVisitorView { name: Some(name), ..state }),
                }
            }
        } else {
            match ContainerField::spec_from_name(key) {
                None => Err(
                    DecodeErrorView::UnknownField {
                        field: key,
                        expected: NameSet::NamedContainerFields,
                    },
                ),
                Some(ident) => match spec_fill_entry(state.container_visitor, ident, value) {
                    Err(e) => Err(e),
                    Ok(container_visitor) => Ok(
                        NamedTestContainerVisitorView { container_visitor, ..state },
                    ),
                },
            }
        }
    }

    fn accept(&mut self, key: &str, value: &Value) -> (r: Result<(), DecodeError>) {
        if str_eq(key, "name") {
            if self.name.is_some() {
                return Err(duplicate_key(key));
            }
            match String::decode(value) {
                Err(e) => Err(e),
                Ok(name) => {
                    self.name = Some(name);
                    Ok(())
                },
            }
        } else {
            match ContainerField::from_name(key) {
                None => Err(unknown_field(key, NameSet::NamedContainerFields)),
                Some(ident) => self.container_visitor.fill_entry(ident, value),
            }
        }
    }
}

impl Decode for NamedTestContainer {
    /// A named container is a table that holds `name` and the fields of a
    /// container, which are set in document order.
    open spec fn spec_decode(value: ValueView) -> Result<NamedTestContainerView, DecodeErrorView> {
        match value {
            ValueView::Table(entries) => match spec_accept_entries::<NamedTestContainerVisitor>(
                NamedTestContainerVisitorView::start(),
                entries,
                entries.len(),
            ) {
                Err(e) => Err(e),
                Ok(state) => state.finalize(),
            },
            _ => Err(spec_invalid_type(value, Expectation::Table)),
        }
    }

    fn decode(value: &Value) -> (r: Result<NamedTestContainer, DecodeError>) {
        match value {
            Value::Table(entries) => {
                proof {
                    lemma_table_view(*value);
                }
                match accept_entries(NamedTestContainerVisitor::new(), entries) {
                    Err(e) => Err(e),
                    Ok(state) => state.finalize(),
                }
            },
            _ => Err(invalid_type(value, Expectation::Table)),
        }
    }
}

} // verus!
