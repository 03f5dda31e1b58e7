use test_metadata::container::{NamedTestContainer, NetworkMode, TestContainer};
use test_metadata::decode::{decode_array, Decode};
use test_metadata::directive::TestDirective;
use test_metadata::environment::Environment;
use test_metadata::error::{DecodeError, Expectation, ImageUse, MergedField, NameSet};
use test_metadata::image::ImageReference;
use test_metadata::layer::{LayerSpec, LayerType, PrefixOptions, SymlinkSpec};
use test_metadata::mount::{Device, DeviceSet, Mount, MountType};
use test_metadata::value::{Value, ValueKind};

fn grow(value: toml::Value) -> Value {
    match value {
        toml::Value::String(s) => Value::String(s),
        toml::Value::Integer(i) => Value::Integer(i),
        toml::Value::Boolean(b) => Value::Boolean(b),
        toml::Value::Array(items) => Value::Array(items.into_iter().map(grow).collect()),
        toml::Value::Table(table) => {
            Value::Table(table.into_iter().map(|(k, v)| (k, grow(v))).collect())
        }
        other => panic!("no such value in a declaration: {other}"),
    }
}

fn table(text: &str) -> Value {
    grow(toml::Value::Table(toml::from_str(text).unwrap()))
}

fn inline(text: &str) -> Value {
    match table(&format!("it = {text}")) {
        Value::Table(mut entries) => entries.remove(0).1,
        _ => unreachable!(),
    }
}

fn keep(text: &str) -> Result<String, String> {
    Ok(text.to_string())
}

fn directive_error(text: &str) -> DecodeError {
    TestDirective::deserialize(&table(text), &keep).unwrap_err()
}

fn entry(key: &str, value: Value) -> (String, Value) {
    (key.to_string(), value)
}

fn string(s: &str) -> Value {
    Value::String(s.to_string())
}

#[test]
fn kinds_of_values() {
    assert_eq!(string("a").kind(), ValueKind::String);
    assert_eq!(Value::Integer(1).kind(), ValueKind::Integer);
    assert_eq!(Value::Boolean(true).kind(), ValueKind::Boolean);
    assert_eq!(Value::Array(vec![]).kind(), ValueKind::Array);
    assert_eq!(Value::Table(vec![]).kind(), ValueKind::Table);
}

#[test]
fn scalars_are_decoded_or_refused_by_shape() {
    assert_eq!(String::decode(&string("a")), Ok("a".to_string()));
    assert_eq!(bool::decode(&Value::Boolean(true)), Ok(true));
    assert_eq!(u32::decode(&Value::Integer(0)), Ok(0));
    assert_eq!(u32::decode(&Value::Integer(4294967295)), Ok(u32::MAX));
    assert_eq!(u32::decode(&Value::Integer(-1)), Err(DecodeError::IntegerOutOfRange));
    assert_eq!(
        String::decode(&Value::Integer(1)),
        Err(DecodeError::InvalidType { found: ValueKind::Integer, wanted: Expectation::String })
    );
    assert_eq!(
        bool::decode(&string("true")),
        Err(DecodeError::InvalidType { found: ValueKind::String, wanted: Expectation::Boolean })
    );
    assert_eq!(
        u32::decode(&Value::Boolean(false)),
        Err(DecodeError::InvalidType {
            found: ValueKind::Boolean,
            wanted: Expectation::UnsignedInteger
        })
    );
}

#[test]
fn arrays_stop_at_the_first_item_refused() {
    assert_eq!(
        decode_array::<String>(&inline("[\"a\", \"b\"]")),
        Ok(vec!["a".to_string(), "b".to_string()])
    );
    assert_eq!(decode_array::<String>(&inline("[]")), Ok(vec![]));
    assert_eq!(
        decode_array::<u32>(&Value::Array(vec![Value::Integer(1), Value::Integer(-1), string("x")])),
        Err(DecodeError::IntegerOutOfRange)
    );
    assert_eq!(
        decode_array::<String>(&string("a")),
        Err(DecodeError::InvalidType { found: ValueKind::String, wanted: Expectation::Array })
    );
}

#[test]
fn root_must_be_a_table() {
    assert_eq!(
        TestDirective::<String>::deserialize(&Value::Array(vec![]), &keep),
        Err(DecodeError::InvalidType { found: ValueKind::Array, wanted: Expectation::Table })
    );
    assert_eq!(
        TestContainer::decode(&string("x")),
        Err(DecodeError::InvalidType { found: ValueKind::String, wanted: Expectation::Table })
    );
    assert_eq!(
        NamedTestContainer::decode(&Value::Integer(3)),
        Err(DecodeError::InvalidType { found: ValueKind::Integer, wanted: Expectation::Table })
    );
}

#[test]
fn named_container_needs_its_name_and_takes_no_filter() {
    assert_eq!(
        NamedTestContainer::decode(&table("network = \"local\"")),
        Err(DecodeError::MissingField { field: "name".to_string() })
    );
    assert_eq!(
        NamedTestContainer::decode(&table("name = \"a\"\nfilter = \"all\"")),
        Err(DecodeError::UnknownField {
            field: "filter".to_string(),
            expected: NameSet::NamedContainerFields
        })
    );
    let twice = Value::Table(vec![entry("name", string("a")), entry("name", string("b"))]);
    assert_eq!(
        NamedTestContainer::decode(&twice),
        Err(DecodeError::DuplicateKey { field: "name".to_string() })
    );
    let named = NamedTestContainer::decode(&table("network = \"local\"\nname = \"a\"")).unwrap();
    assert_eq!(named.container.network, Some(NetworkMode::Local));
}

#[test]
fn network_modes_are_a_closed_set() {
    assert_eq!(NetworkMode::from_name("disabled"), Some(NetworkMode::Disabled));
    assert_eq!(NetworkMode::from_name("loopback"), Some(NetworkMode::Loopback));
    assert_eq!(NetworkMode::from_name("local"), Some(NetworkMode::Local));
    assert_eq!(NetworkMode::from_name("Local"), None);
    assert_eq!(
        directive_error("network = \"open\""),
        DecodeError::UnknownVariant { variant: "open".to_string(), expected: NameSet::NetworkModes }
    );
}

#[test]
fn mount_types_are_a_closed_set() {
    assert_eq!(MountType::from_name("proc"), Some(MountType::Proc));
    assert_eq!(MountType::from_name("devices"), Some(MountType::Devices));
    assert_eq!(MountType::from_name("devpts"), None);
    assert_eq!(
        Mount::decode(&inline("{ type = \"nfs\", mount_point = \"/a\" }")),
        Err(DecodeError::UnknownVariant { variant: "nfs".to_string(), expected: NameSet::MountTypes })
    );
    assert_eq!(
        Mount::decode(&inline("{ mount_point = \"/a\" }")),
        Err(DecodeError::MissingField { field: "type".to_string() })
    );
    assert_eq!(
        Mount::decode(&inline("{ mount_point = \"/a\", type = 3 }")),
        Err(DecodeError::InvalidType { found: ValueKind::Integer, wanted: Expectation::String })
    );
    assert_eq!(
        Mount::decode(&string("proc")),
        Err(DecodeError::InvalidType { found: ValueKind::String, wanted: Expectation::Table })
    );
}

#[test]
fn mount_type_may_stand_anywhere() {
    assert_eq!(
        Mount::decode(&inline("{ local_path = \"/l\", type = \"bind\", mount_point = \"/m\" }")),
        Mount::decode(&inline("{ type = \"bind\", mount_point = \"/m\", local_path = \"/l\" }")),
    );
    assert_eq!(
        Mount::decode(&inline("{ local_path = \"/l\", type = \"proc\", mount_point = \"/m\" }")),
        Err(DecodeError::UnknownField {
            field: "local_path".to_string(),
            expected: NameSet::SimpleMountFields
        })
    );
}

#[test]
fn mounts_accept_the_fields_of_their_kind_only() {
    assert_eq!(
        Mount::decode(&inline("{ type = \"devices\", mount_point = \"/dev\" }")),
        Err(DecodeError::UnknownField {
            field: "mount_point".to_string(),
            expected: NameSet::DevicesMountFields
        })
    );
    assert_eq!(
        Mount::decode(&inline("{ type = \"bind\", mount_point = \"/m\", devices = [] }")),
        Err(DecodeError::UnknownField {
            field: "devices".to_string(),
            expected: NameSet::BindMountFields
        })
    );
    assert_eq!(
        Mount::decode(&inline("{ type = \"devices\" }")),
        Err(DecodeError::MissingField { field: "devices".to_string() })
    );
    assert_eq!(
        Mount::decode(&inline("{ type = \"bind\", local_path = \"/l\" }")),
        Err(DecodeError::MissingField { field: "mount_point".to_string() })
    );
    let twice = Value::Table(vec![
        entry("type", string("tmp")),
        entry("mount_point", string("/a")),
        entry("mount_point", string("/b")),
    ]);
    assert_eq!(
        Mount::decode(&twice),
        Err(DecodeError::DuplicateKey { field: "mount_point".to_string() })
    );
    let two_types = Value::Table(vec![
        entry("type", string("tmp")),
        entry("type", string("proc")),
        entry("mount_point", string("/a")),
    ]);
    assert_eq!(
        Mount::decode(&two_types),
        Err(DecodeError::DuplicateKey { field: "type".to_string() })
    );
}

#[test]
fn devices_are_a_closed_set_and_not_empty() {
    let all = [
        ("null", Device::Null),
        ("zero", Device::Zero),
        ("full", Device::Full),
        ("random", Device::Random),
        ("urandom", Device::Urandom),
        ("tty", Device::Tty),
    ];
    for (name, device) in all {
        assert_eq!(Device::from_name(name), Some(device));
        let set = DeviceSet::decode(&Value::Array(vec![string(name)])).unwrap();
        assert_eq!(set, DeviceSet::empty().insert(device));
        for (_, other) in all {
            assert_eq!(set.contains(other), other == device);
        }
    }
    assert_eq!(Device::from_name("shm"), None);
    assert_eq!(DeviceSet::decode(&Value::Array(vec![])), Err(DecodeError::EmptyDeviceSet));
    assert_eq!(
        DeviceSet::decode(&inline("[\"tty\", \"null\", \"tty\"]")),
        Ok(DeviceSet::of(&vec![Device::Null, Device::Tty]))
    );
    assert_eq!(
        Mount::decode(&inline("{ type = \"devices\", devices = [\"null\", \"shm\"] }")),
        Err(DecodeError::UnknownVariant { variant: "shm".to_string(), expected: NameSet::Devices })
    );
}

#[test]
fn layers_need_one_kind() {
    assert_eq!(LayerSpec::decode(&inline("{}")), Err(DecodeError::MissingLayerType));
    assert_eq!(
        LayerSpec::decode(&inline("{ strip_prefix = \"a\" }")),
        Err(DecodeError::MissingLayerType)
    );
    assert_eq!(
        LayerSpec::decode(&inline("{ tar = \"a.tar\", glob = \"*\" }")),
        Err(DecodeError::UnknownField { field: "glob".to_string(), expected: NameSet::TarLayerFields })
    );
    assert_eq!(
        LayerSpec::decode(&inline("{ tar = \"a.tar\", strip_prefix = \"a\" }")),
        Err(DecodeError::UnknownField {
            field: "strip_prefix".to_string(),
            expected: NameSet::TarLayerFields
        })
    );
    assert_eq!(
        LayerSpec::decode(&inline("{ stubs = [\"/a\"], canonicalize = true }")),
        Err(DecodeError::UnknownField {
            field: "canonicalize".to_string(),
            expected: NameSet::StubsLayerFields
        })
    );
    assert_eq!(
        LayerSpec::decode(&inline("{ symlinks = [], prepend_prefix = \"/a\" }")),
        Err(DecodeError::UnknownField {
            field: "prepend_prefix".to_string(),
            expected: NameSet::SymlinksLayerFields
        })
    );
    assert_eq!(
        LayerSpec::decode(&inline("{ glob = \"*\", follow = true }")),
        Err(DecodeError::UnknownField {
            field: "follow".to_string(),
            expected: NameSet::GlobLayerFields
        })
    );
    assert_eq!(
        LayerSpec::decode(&Value::Array(vec![])),
        Err(DecodeError::InvalidType { found: ValueKind::Array, wanted: Expectation::Table })
    );
}

#[test]
fn layer_options_may_stand_before_the_kind() {
    assert_eq!(
        LayerSpec::decode(&inline(
            "{ canonicalize = true, strip_prefix = \"/a\", paths = [\"/a/b\"], prepend_prefix = \"/c\" }"
        )),
        Ok(LayerSpec::Paths {
            paths: vec!["/a/b".to_string()],
            prefix_options: PrefixOptions {
                strip_prefix: Some("/a".to_string()),
                prepend_prefix: Some("/c".to_string()),
                canonicalize: true,
            },
        })
    );
    assert_eq!(LayerType::from_name("shared-library-dependencies"), Some(LayerType::SharedLibraryDependencies));
    assert_eq!(LayerType::from_name("shared_library_dependencies"), None);
    assert!(LayerType::Glob.takes_prefix_options());
    assert!(!LayerType::Tar.takes_prefix_options());
}

#[test]
fn symlinks_need_link_and_target() {
    assert_eq!(
        SymlinkSpec::decode(&inline("{ target = \"/t\", link = \"/l\" }")),
        Ok(SymlinkSpec { link: "/l".to_string(), target: "/t".to_string() })
    );
    assert_eq!(
        SymlinkSpec::decode(&inline("{ target = \"/t\" }")),
        Err(DecodeError::MissingField { field: "link".to_string() })
    );
    assert_eq!(
        SymlinkSpec::decode(&inline("{ link = \"/l\" }")),
        Err(DecodeError::MissingField { field: "target".to_string() })
    );
    assert_eq!(
        SymlinkSpec::decode(&inline("{ link = \"/l\", to = \"/t\" }")),
        Err(DecodeError::UnknownField { field: "to".to_string(), expected: NameSet::SymlinkFields })
    );
}

#[test]
fn image_reference_is_a_name_or_a_table() {
    assert_eq!(
        ImageReference::decode(&inline("{ use = [\"layers\"] }")),
        Err(DecodeError::MissingField { field: "name".to_string() })
    );
    assert_eq!(
        ImageReference::decode(&inline("{ name = \"i\", use = [\"mounts\"] }")),
        Err(DecodeError::UnknownVariant { variant: "mounts".to_string(), expected: NameSet::ImageUses })
    );
    assert_eq!(
        ImageReference::decode(&inline("{ name = \"i\", tag = \"latest\" }")),
        Err(DecodeError::UnknownField { field: "tag".to_string(), expected: NameSet::ImageFields })
    );
    assert_eq!(
        ImageReference::decode(&Value::Integer(1)),
        Err(DecodeError::InvalidType {
            found: ValueKind::Integer,
            wanted: Expectation::StringOrTable
        })
    );
    assert_eq!(ImageUse::from_name("working_directory"), Some(ImageUse::WorkingDirectory));
    assert_eq!(ImageUse::from_name("mounts"), None);
}

#[test]
fn environment_is_a_table_of_strings() {
    let decoded = Environment::decode(&inline("{ B = \"b\", A = \"a\" }")).unwrap();
    assert_eq!(decoded.get("A"), Some(&"a".to_string()));
    assert_eq!(decoded.get("B"), Some(&"b".to_string()));
    assert_eq!(decoded.get("C"), None);
    assert!(decoded.contains_key("A"));
    assert!(!decoded.contains_key("a"));
    assert_eq!(
        decoded.entries(),
        &vec![("B".to_string(), "b".to_string()), ("A".to_string(), "a".to_string())]
    );
    assert_eq!(
        Environment::decode(&inline("{ A = 1 }")),
        Err(DecodeError::InvalidType { found: ValueKind::Integer, wanted: Expectation::String })
    );
    let twice = Value::Table(vec![entry("A", string("a")), entry("A", string("b"))]);
    assert_eq!(
        Environment::decode(&twice),
        Err(DecodeError::DuplicateKey { field: "A".to_string() })
    );
}

#[test]
fn environment_insert_keeps_what_is_set() {
    let mut environment = Environment::new();
    assert!(environment.insert("A".to_string(), "a".to_string()));
    assert!(!environment.insert("A".to_string(), "b".to_string()));
    assert_eq!(environment.get("A"), Some(&"a".to_string()));
    assert_eq!(environment.entries().len(), 1);
}

#[test]
fn messages_of_errors() {
    let cases = [
        (
            DecodeError::UnknownField { field: "x".to_string(), expected: NameSet::SimpleMountFields },
            "unknown field `x`, expected `mount_point`",
        ),
        (
            DecodeError::UnknownField { field: "x".to_string(), expected: NameSet::ImageFields },
            "unknown field `x`, expected `name` or `use`",
        ),
        (
            DecodeError::UnknownField { field: "x".to_string(), expected: NameSet::BindMountFields },
            "unknown field `x`, expected one of `mount_point`, `local_path`, `read_only`",
        ),
        (
            DecodeError::UnknownField { field: "x".to_string(), expected: NameSet::DirectiveFields },
            "unknown field `x`, expected one of `filter`, `include_shared_libraries`, `timeout`, \
             `ignore`, `network`, `enable_writable_file_system`, `user`, `group`, `mounts`, \
             `added_mounts`, `image`, `working_directory`, `layers`, `added_layers`, \
             `environment`, `added_environment`",
        ),
        (DecodeError::DuplicateKey { field: "user".to_string() }, "duplicate key `user`"),
        (DecodeError::MissingField { field: "type".to_string() }, "missing field `type`"),
        (
            DecodeError::MissingLayerType,
            "missing layer type, expected one of `tar`, `glob`, `paths`, `stubs`, `symlinks`, \
             `shared-library-dependencies`",
        ),
        (
            DecodeError::UnknownVariant { variant: "open".to_string(), expected: NameSet::NetworkModes },
            "unknown variant `open`, expected one of `disabled`, `loopback`, `local`",
        ),
        (
            DecodeError::InvalidType { found: ValueKind::Table, wanted: Expectation::StringOrTable },
            "invalid type: table, expected a string or a table",
        ),
        (
            DecodeError::InvalidType { found: ValueKind::String, wanted: Expectation::UnsignedInteger },
            "invalid type: string, expected an unsigned 32-bit integer",
        ),
        (
            DecodeError::IntegerOutOfRange,
            "invalid value: integer out of range, expected an unsigned 32-bit integer",
        ),
        (DecodeError::RootPath, "a path of \"/\" not allowed"),
        (DecodeError::EmptyDeviceSet, "invalid length 0, expected at least one device"),
        (
            DecodeError::SetAfterAdded { merged: MergedField::Environment },
            "field `environment` cannot be set after `added_environment`",
        ),
        (
            DecodeError::SetAfterImage { supplied: ImageUse::WorkingDirectory },
            "field `working_directory` cannot be set after `image` field that uses \
             `working_directory`",
        ),
        (
            DecodeError::ImageAfterSet { supplied: ImageUse::Environment },
            "field `image` cannot use `environment` if field `environment` is also set",
        ),
        (
            DecodeError::ImageAfterAdded { supplied: ImageUse::Layers },
            "field `image` that uses `layers` cannot be set after `added_layers`",
        ),
        (DecodeError::Filter { message: "bad filter".to_string() }, "bad filter"),
    ];
    for (error, message) in cases {
        assert_eq!(error.message(), message);
    }
}

#[test]
fn names_of_closed_sets() {
    assert_eq!(NameSet::ContainerFields.names().len(), 12);
    assert_eq!(NameSet::NamedContainerFields.names()[0], "name");
    assert_eq!(NameSet::MountTypes.names(), ["proc", "tmp", "sys", "bind", "devices"]);
    assert_eq!(NameSet::Devices.names(), ["null", "zero", "full", "random", "urandom", "tty"]);
    assert_eq!(NameSet::ImageUses.names(), ["layers", "environment", "working_directory"]);
    assert_eq!(
        NameSet::SharedLibraryDependenciesLayerFields.names(),
        ["shared-library-dependencies", "strip_prefix", "prepend_prefix", "canonicalize"]
    );
    assert_eq!(NameSet::DevicesMountFields.names(), ["devices"]);
    assert_eq!(NameSet::PathsLayerFields.names()[0], "paths");
    assert_eq!(NameSet::SymlinkFields.names(), ["link", "target"]);
}
