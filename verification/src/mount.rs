//! Mounts: the filesystems mounted inside a container at run time.

use vstd::prelude::*;
use crate::decode::{decode_array, invalid_type, opt_view, spec_decode_array, spec_invalid_type, Decode};
use crate::error::{
    duplicate_key, missing_field, result_view, unknown_field, unknown_variant, DecodeError,
    DecodeErrorView, Expectation, NameSet,
};
use crate::record::{accept_entries, lookup, spec_accept_entries, spec_lookup, EntryView, Record};
use crate::value::{lemma_table_view, str_eq, Value, ValueView};

verus! {

/// A path that is not the root directory `/`.
#[derive(Debug, PartialEq, Eq)]
pub struct NonRootPath {
    path: String,
}

impl View for NonRootPath {
    type V = Seq<char>;

    closed spec fn view(&self) -> Seq<char> {
        self.path@
    }
}

impl NonRootPath {
    #[verifier::type_invariant]
    spec fn not_root(self) -> bool {
        self.path@ != "/"@
    }

    /// Makes a path, unless it is `/`.
    pub fn new(path: String) -> (r: Result<NonRootPath, DecodeError>)
        ensures
            result_view(r) == spec_non_root(path@),
    {
        if str_eq(path.as_str(), "/") {
            Err(DecodeError::RootPath)
        } else {
            Ok(NonRootPath { path })
        }
    }

    /// The path as text.
    pub fn as_str(&self) -> (r: &str)
        ensures
            r@ == self@,
            r@ != "/"@,
    {
        proof {
            use_type_invariant(self);
        }
        self.path.as_str()
    }
}

/// A path as the model of a [`NonRootPath`], or the error for `/`.
pub open spec fn spec_non_root(path: Seq<char>) -> Result<Seq<char>, DecodeErrorView> {
    if path == "/"@ {
        Err(DecodeErrorView::RootPath)
    } else {
        Ok(path)
    }
}

impl Decode for NonRootPath {
    open spec fn spec_decode(value: ValueView) -> Result<Seq<char>, DecodeErrorView> {
        match String::spec_decode(value) {
            Err(e) => Err(e),
            Ok(path) => spec_non_root(path),
        }
    }

    fn decode(value: &Value) -> (r: Result<NonRootPath, DecodeError>) {
        match String::decode(value) {
            Err(e) => Err(e),
            Ok(path) => NonRootPath::new(path),
        }
    }
}

/// A device node that a devices mount can provide.
#[derive(Debug, Clone, Copy, PartialEq, Eq, Structural)]
pub enum Device {
    Null,
    Zero,
    Full,
    Random,
    Urandom,
    Tty,
}

impl View for Device {
    type V = Device;

    open spec fn view(&self) -> Device {
        *self
    }
}

impl Device {
    /// The device that a name stands for.
    pub open spec fn spec_from_name(name: Seq<char>) -> Option<Device> {
        if name == "null"@ {
            Some(Device::Null)
        } else if name == "zero"@ {
            Some(Device::Zero)
        } else if name == "full"@ {
            Some(Device::Full)
        } else if name == "random"@ {
            Some(Device::Random)
        } else if name == "urandom"@ {
            Some(Device::Urandom)
        } else if name == "tty"@ {
            Some(Device::Tty)
        } else {
            None
        }
    }

    /// The device that a name stands for.
    pub fn from_name(name: &str) -> (r: Option<Device>)
        ensures
            r == Device::spec_from_name(name@),
    {
        if str_eq(name, "null") {
            Some(Device::Null)
        } else if str_eq(name, "zero") {
            Some(Device::Zero)
        } else if str_eq(name, "full") {
            Some(Device::Full)
        } else if str_eq(name, "random") {
            Some(Device::Random)
        } else if str_eq(name, "urandom") {
            Some(Device::Urandom)
        } else if str_eq(name, "tty") {
            Some(Device::Tty)
        } else {
            None
        }
    }
}

impl Decode for Device {
    open spec fn spec_decode(value: ValueView) -> Result<Device, DecodeErrorView> {
        match String::spec_decode(value) {
            Err(e) => Err(e),
            Ok(name) => match Device::spec_from_name(name) {
                Some(device) => Ok(device),
                None => Err(DecodeErrorView::UnknownVariant { variant: name, expected: NameSet::Devices }),
            },
        }
    }

    fn decode(value: &Value) -> (r: Result<Device, DecodeError>) {
        match value {
            Value::String(name) => match Device::from_name(name.as_str()) {
                Some(device) => Ok(device),
                None => Err(unknown_variant(name.as_str(), NameSet::Devices)),
            },
            _ => Err(invalid_type(value, Expectation::String)),
        }
    }
}

/// A set of devices.
#[derive(Debug, Clone, Copy, PartialEq, Eq, Structural)]
pub struct DeviceSet {
    pub null: bool,
    pub zero: bool,
    pub full: bool,
    pub random: bool,
    pub urandom: bool,
    pub tty: bool,
}

impl View for DeviceSet {
    type V = DeviceSet;

    open spec fn view(&self) -> DeviceSet {
        *self
    }
}

impl DeviceSet {
    /// The set without any device.
    pub open spec fn spec_empty() -> DeviceSet {
        DeviceSet { null: false, zero: false, full: false, random: false, urandom: false, tty: false }
    }

    /// Whether `device` is in the set.
    pub open spec fn spec_contains(self, device: Device) -> bool {
        match device {
            Device::Null => self.null,
            Device::Zero => self.zero,
            Device::Full => self.full,
            Device::Random => self.random,
            Device::Urandom => self.urandom,
            Device::Tty => self.tty,
        }
    }

    /// The set with `device` added.
    pub open spec fn spec_insert(self, device: Device) -> DeviceSet {
        match device {
            Device::Null => DeviceSet { null: true, ..self },
            Device::Zero => DeviceSet { zero: true, ..self },
            Device::Full => DeviceSet { full: true, ..self },
            Device::Random => DeviceSet { random: true, ..self },
            Device::Urandom => DeviceSet { urandom: true, ..self },
            Device::Tty => DeviceSet { tty: true, ..self },
        }
    }

    /// The set of the first `n` of `devices`.
    pub open spec fn spec_of(devices: Seq<Device>, n: nat) -> DeviceSet
        decreases n,
    {
        if n == 0 {
            DeviceSet::spec_empty()
        } else {
            DeviceSet::spec_of(devices, (n - 1) as nat).spec_insert(devices[n - 1])
        }
    }

    /// The set without any device.
    pub fn empty() -> (r: DeviceSet)
        ensures
            r == DeviceSet::spec_empty(),
    {
        DeviceSet { null: false, zero: false, full: false, random: false, urandom: false, tty: false }
    }

    /// Whether `device` is in the set.
    pub fn contains(&self, device: Device) -> (r: bool)
        ensures
            r == self.spec_contains(device),
    {
        match device {
            Device::Null => self.null,
            Device::Zero => self.zero,
            Device::Full => self.full,
            Device::Random => self.random,
            Device::Urandom => self.urandom,
            Device::Tty => self.tty,
        }
    }

    /// The set with `device` added.
    pub fn insert(self, device: Device) -> (r: DeviceSet)
        ensures
            r == self.spec_insert(device),
    {
        let mut set = self;
        match device {
            Device::Null => {
                set.null = true;
            },
            Device::Zero => {
                set.zero = true;
            },
            Device::Full => {
                set.full = true;
            },
            Device::Random => {
                set.random = true;
            },
            Device::Urandom => {
                set.urandom = true;
            },
            Device::Tty => {
                set.tty = true;
            },
        }
        set
    }

    /// The set of the given devices.
    pub fn of(devices: &Vec<Device>) -> (r: DeviceSet)
        ensures
            r == DeviceSet::spec_of(devices@, devices@.len()),
    {
        let mut set = DeviceSet::empty();
        let mut i: usize = 0;
        while i < devices.len()
            invariant
                i <= devices.len(),
                set == DeviceSet::spec_of(devices@, i as nat),
            decreases devices.len() - i,
        {
            set = set.insert(devices[i]);
            i += 1;
        }
        set
    }
}

/// A device is in the set of a list exactly if it occurs in the list.
pub proof fn lemma_device_set_of(devices: Seq<Device>, n: nat, device: Device)
    requires
        n <= devices.len(),
    ensures
        DeviceSet::spec_of(devices, n).spec_contains(device) <==> exists|i: int|
            0 <= i < n && devices[i] == device,
    decreases n,
{
    if n > 0 {
        lemma_device_set_of(devices, (n - 1) as nat, device);
        if DeviceSet::spec_of(devices, n).spec_contains(device) {
            if devices[n - 1] != device {
                let i = choose|i: int| 0 <= i < n - 1 && devices[i] == device;
                assert(0 <= i < n && devices[i] == device);
            } else {
                assert(0 <= n - 1 < n && devices[n - 1] == device);
            }
        }
    }
}

impl Decode for DeviceSet {
    /// A non-empty array of device names.
    open spec fn spec_decode(value: ValueView) -> Result<DeviceSet, DecodeErrorView> {
        match spec_decode_array::<Device>(value) {
            Err(e) => Err(e),
            Ok(devices) => if devices.len() == 0 {
                Err(DecodeErrorView::EmptyDeviceSet)
            } else {
                Ok(DeviceSet::spec_of(devices, devices.len()))
            },
        }
    }

    fn decode(value: &Value) -> (r: Result<DeviceSet, DecodeError>) {
        match decode_array::<Device>(value) {
            Err(e) => Err(e),
            Ok(devices) => {
                assert(crate::decode::seq_view(devices@) =~= devices@);
                if devices.len() == 0 {
                    Err(DecodeError::EmptyDeviceSet)
                } else {
                    Ok(DeviceSet::of(&devices))
                }
            },
        }
    }
}

/// The kinds of mount.
#[derive(Debug, Clone, Copy, PartialEq, Eq, Structural)]
pub enum MountType {
    Proc,
    Tmp,
    Sys,
    Bind,
    Devices,
}

impl MountType {
    /// The kind of mount that a `type` tag stands for.
    pub open spec fn spec_from_name(name: Seq<char>) -> Option<MountType> {
        if name == "proc"@ {
            Some(MountType::Proc)
        } else if name == "tmp"@ {
            Some(MountType::Tmp)
        } else if name == "sys"@ {
            Some(MountType::Sys)
        } else if name == "bind"@ {
            Some(MountType::Bind)
        } else if name == "devices"@ {
            Some(MountType::Devices)
        } else {
            None
        }
    }

    /// The kind of mount that a `type` tag stands for.
    pub fn from_name(name: &str) -> (r: Option<MountType>)
        ensures
            r == MountType::spec_from_name(name@),
    {
        if str_eq(name, "proc") {
            Some(MountType::Proc)
        } else if str_eq(name, "tmp") {
            Some(MountType::Tmp)
        } else if str_eq(name, "sys") {
            Some(MountType::Sys)
        } else if str_eq(name, "bind") {
            Some(MountType::Bind)
        } else if str_eq(name, "devices") {
            Some(MountType::Devices)
        } else {
            None
        }
    }

    /// The fields that a mount of this kind accepts beside its `type`.
    pub open spec fn spec_fields(self) -> NameSet {
        match self {
            MountType::Bind => NameSet::BindMountFields,
            MountType::Devices => NameSet::DevicesMountFields,
            _ => NameSet::SimpleMountFields,
        }
    }

    /// The fields that a mount of this kind accepts beside its `type`.
    pub fn fields(self) -> (r: NameSet)
        ensures
            r == self.spec_fields(),
    {
        match self {
            MountType::Bind => NameSet::BindMountFields,
            MountType::Devices => NameSet::DevicesMountFields,
            _ => NameSet::SimpleMountFields,
        }
    }
}

/// A filesystem to mount inside the container.
#[derive(Debug, PartialEq, Eq)]
pub enum Mount {
    Proc { mount_point: NonRootPath },
    Tmp { mount_point: NonRootPath },
    Sys { mount_point: NonRootPath },
    Bind { mount_point: NonRootPath, local_path: String, read_only: bool },
    Devices { devices: DeviceSet },
}

/// The mathematical model of a [`Mount`].
pub enum MountView {
    Proc { mount_point: Seq<char> },
    Tmp { mount_point: Seq<char> },
    Sys { mount_point: Seq<char> },
    Bind { mount_point: Seq<char>, local_path: Seq<char>, read_only: bool },
    Devices { devices: DeviceSet },
}

impl View for Mount {
    type V = MountView;

    open spec fn view(&self) -> MountView {
        match self {
            Mount::Proc { mount_point } => MountView::Proc { mount_point: mount_point@ },
            Mount::Tmp { mount_point } => MountView::Tmp { mount_point: mount_point@ },
            Mount::Sys { mount_point } => MountView::Sys { mount_point: mount_point@ },
            Mount::Bind { mount_point, local_path, read_only } => MountView::Bind {
                mount_point: mount_point@,
                local_path: local_path@,
                read_only: *read_only,
            },
            Mount::Devices { devices } => MountView::Devices { devices: *devices },
        }
    }
}

impl MountView {
    /// Where the mount goes, for the kinds of mount that go somewhere.
    pub open spec fn mount_point(self) -> Option<Seq<char>> {
        match self {
            MountView::Proc { mount_point } => Some(mount_point),
            MountView::Tmp { mount_point } => Some(mount_point),
            MountView::Sys { mount_point } => Some(mount_point),
            MountView::Bind { mount_point, .. } => Some(mount_point),
            MountView::Devices { .. } => None,
        }
    }

    /// A mount is well formed if it does not go over the root directory and,
    /// where it provides devices, provides at least one.
    pub open spec fn wf(self) -> bool {
        &&& self.mount_point() != Some("/"@)
        &&& self matches MountView::Devices { devices } ==> devices != DeviceSet::spec_empty()
    }
}

/// The fields of a mount, gathered while its table is read.
pub struct MountFields {
    pub kind: MountType,
    pub type_seen: bool,
    pub mount_point: Option<NonRootPath>,
    pub local_path: Option<String>,
    pub read_only: Option<bool>,
    pub devices: Option<DeviceSet>,
}

/// The mathematical model of [`MountFields`].
pub struct MountFieldsView {
    pub kind: MountType,
    pub type_seen: bool,
    pub mount_point: Option<Seq<char>>,
    pub local_path: Option<Seq<char>>,
    pub read_only: Option<bool>,
    pub devices: Option<DeviceSet>,
}

impl View for MountFields {
    type V = MountFieldsView;

    open spec fn view(&self) -> MountFieldsView {
        MountFieldsView {
            kind: self.kind,
            type_seen: self.type_seen,
            mount_point: opt_view(self.mount_point),
            local_path: opt_view(self.local_path),
            read_only: self.read_only,
            devices: self.devices,
        }
    }
}

impl MountFieldsView {
    /// The fields of a mount of the given kind before any entry is read.
    pub open spec fn start(kind: MountType) -> MountFieldsView {
        MountFieldsView {
            kind,
            type_seen: false,
            mount_point: None,
            local_path: None,
            read_only: None,
            devices: None,
        }
    }

    /// The mount that the gathered fields make, or the first required field
    /// that is missing.
    pub open spec fn finish(self) -> Result<MountView, DecodeErrorView> {
        match self.kind {
            MountType::Devices => match self.devices {
                None => Err(DecodeErrorView::MissingField { field: "devices"@ }),
                Some(devices) => Ok(MountView::Devices { devices }),
            },
            kind => match self.mount_point {
                None => Err(DecodeErrorView::MissingField { field: "mount_point"@ }),
                Some(mount_point) => match kind {
                    MountType::Proc => Ok(MountView::Proc { mount_point }),
                    MountType::Tmp => Ok(MountView::Tmp { mount_point }),
                    MountType::Sys => Ok(MountView::Sys { mount_point }),
                    _ => match self.local_path {
                        None => Err(DecodeErrorView::MissingField { field: "local_path"@ }),
                        Some(local_path) => Ok(
                            MountView::Bind {
                                mount_point,
                                local_path,
                                read_only: match self.read_only {
                                    Some(read_only) => read_only,
                                    None => false,
                                },
                            },
                        ),
                    },
                },
            },
        }
    }
}

impl MountFields {
    /// The fields of a mount of the given kind before any entry is read.
    pub fn new(kind: MountType) -> (r: MountFields)
        ensures
            r@ == MountFieldsView::start(kind),
    {
        MountFields {
            kind,
            type_seen: false,
            mount_point: None,
            local_path: None,
            read_only: None,
            devices: None,
        }
    }

    /// Makes the mount out of the gathered fields.
    pub fn finish(self) -> (r: Result<Mount, DecodeError>)
        ensures
            result_view(r) == self@.finish(),
    {
        match self.kind {
            MountType::Devices => match self.devices {
                None => Err(missing_field("devices")),
                Some(devices) => Ok(Mount::Devices { devices }),
            },
            kind => match self.mount_point {
                None => Err(missing_field("mount_point")),
                Some(mount_point) => match kind {
                    MountType::Proc => Ok(Mount::Proc { mount_point }),
                    MountType::Tmp => Ok(Mount::Tmp { mount_point }),
                    MountType::Sys => Ok(Mount::Sys { mount_point }),
                    _ => match self.local_path {
                        None => Err(missing_field("local_path")),
                        Some(local_path) => Ok(
                            Mount::Bind {
                                mount_point,
                                local_path,
                                read_only: match self.read_only {
                                    Some(read_only) => read_only,
                                    None => false,
                                },
                            },
                        ),
                    },
                },
            },
        }
    }
}

impl Record for MountFields {
    /// A mount accepts its `type` once, and the fields of its kind once
    /// each; any other key is unknown to it.
    open spec fn spec_accept(state: MountFieldsView, key: Seq<char>, value: ValueView) -> Result<
        MountFieldsView,
        DecodeErrorView,
    > {
        if key == "type"@ {
            if state.type_seen {
                Err(DecodeErrorView::DuplicateKey { field: key })
            } else {
                Ok(MountFieldsView { type_seen: true, ..state })
            }
        } else if key == "mount_point"@ && state.kind != MountType::Devices {
            if state.mount_point is Some {
                Err(DecodeErrorView::DuplicateKey { field: key })
            } else {
                match NonRootPath::spec_decode(value) {
                    Err(e) => Err(e),
                    Ok(path) => Ok(MountFieldsView { mount_point: Some(path), ..state }),
                }
            }
        } else if key == "local_path"@ && state.kind == MountType::Bind {
            if state.local_path is Some {
                Err(DecodeErrorView::DuplicateKey { field: key })
            } else {
                match String::spec_decode(value) {
                    Err(e) => Err(e),
                    Ok(path) => Ok(MountFieldsView { local_path: Some(path), ..state }),
                }
            }
        } else if key == "read_only"@ && state.kind == MountType::Bind {
            if state.read_only is Some {
                Err(DecodeErrorView::DuplicateKey { field: key })
            } else {
                match bool::spec_decode(value) {
                    Err(e) => Err(e),
                    Ok(flag) => Ok(MountFieldsView { read_only: Some(flag), ..state }),
                }
            }
        } else if key == "devices"@ && state.kind == MountType::Devices {
            if state.devices is Some {
                Err(DecodeErrorView::DuplicateKey { field: key })
            } else {
                match DeviceSet::spec_decode(value) {
                    Err(e) => Err(e),
                    Ok(devices) => Ok(MountFieldsView { devices: Some(devices), ..state }),
                }
            }
        } else {
            Err(DecodeErrorView::UnknownField { field: key, expected: state.kind.spec_fields() })
        }
    }

    fn accept(&mut self, key: &str, value: &Value) -> (r: Result<(), DecodeError>) {
        if str_eq(key, "type") {
            if self.type_seen {
                return Err(duplicate_key(key));
            }
            self.type_seen = true;
            Ok(())
        } else if str_eq(key, "mount_point") && self.kind != MountType::Devices {
            if self.mount_point.is_some() {
                return Err(duplicate_key(key));
            }
            match NonRootPath::decode(value) {
                Err(e) => Err(e),
                Ok(path) => {
                    self.mount_point = Some(path);
                    Ok(())
                },
            }
        } else if str_eq(key, "local_path") && self.kind == MountType::Bind {
            if self.local_path.is_some() {
                return Err(duplicate_key(key));
            }
            match String::decode(value) {
                Err(e) => Err(e),
                Ok(path) => {
                    self.local_path = Some(path);
                    Ok(())
                },
            }
        } else if str_eq(key, "read_only") && self.kind == MountType::Bind {
            if self.read_only.is_some() {
                return Err(duplicate_key(key));
            }
            match bool::decode(value) {
                Err(e) => Err(e),
                Ok(flag) => {
                    self.read_only = Some(flag);
                    Ok(())
                },
            }
        } else if str_eq(key, "devices") && self.kind == MountType::Devices {
            if self.devices.is_some() {
                return Err(duplicate_key(key));
            }
            match DeviceSet::decode(value) {
                Err(e) => Err(e),
                Ok(devices) => {
                    self.devices = Some(devices);
                    Ok(())
                },
            }
        } else {
            Err(unknown_field(key, self.kind.fields()))
        }
    }
}

/// The kind of mount that the `type` entry of a table names.
pub open spec fn spec_mount_type(entries: Seq<EntryView>) -> Result<MountType, DecodeErrorView> {
    match spec_lookup(entries, "type"@) {
        None => Err(DecodeErrorView::MissingField { field: "type"@ }),
        Some(tag) => match String::spec_decode(tag) {
            Err(e) => Err(e),
            Ok(name) => match MountType::spec_from_name(name) {
                None => Err(
                    DecodeErrorView::UnknownVariant { variant: name, expected: NameSet::MountTypes },
                ),
                Some(kind) => Ok(kind),
            },
        },
    }
}

/// The kind of mount that the `type` entry of a table names.
pub fn mount_type(entries: &Vec<(String, Value)>) -> (r: Result<MountType, DecodeError>)
    ensures
        match r {
            Ok(kind) => spec_mount_type(crate::record::entries_view(entries@)) == Ok::<
                MountType,
                DecodeErrorView,
            >(kind),
            Err(e) => spec_mount_type(crate::record::entries_view(entries@)) == Err::<
                MountType,
                DecodeErrorView,
            >(e@),
        },
{
    match lookup(entries, "type") {
        None => Err(missing_field("type")),
        Some(tag) => match tag {
            Value::String(name) => match MountType::from_name(name.as_str()) {
                None => Err(unknown_variant(name.as_str(), NameSet::MountTypes)),
                Some(kind) => Ok(kind),
            },
            _ => Err(invalid_type(tag, Expectation::String)),
        },
    }
}

impl Decode for Mount {
    /// A mount is a table. Its `type` entry, wherever it stands, says which
    /// fields the table may and must hold; the entries are then read in
    /// order.
    open spec fn spec_decode(value: ValueView) -> Result<MountView, DecodeErrorView> {
        match value {
            ValueView::Table(entries) => match spec_mount_type(entries) {
                Err(e) => Err(e),
                Ok(kind) => match spec_accept_entries::<MountFields>(
                    MountFieldsView::start(kind),
                    entries,
                    entries.len(),
                ) {
                    Err(e) => Err(e),
                    Ok(fields) => fields.finish(),
                },
            },
            _ => Err(spec_invalid_type(value, Expectation::Table)),
        }
    }

    fn decode(value: &Value) -> (r: Result<Mount, DecodeError>) {
        match value {
            Value::Table(entries) => {
                proof {
                    lemma_table_view(*value);
                }
                match mount_type(entries) {
                    Err(e) => Err(e),
                    Ok(kind) => match accept_entries(MountFields::new(kind), entries) {
                        Err(e) => Err(e),
                        Ok(fields) => fields.finish(),
                    },
                }
            },
            _ => Err(invalid_type(value, Expectation::Table)),
        }
    }
}

} // verus!
