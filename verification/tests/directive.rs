use test_metadata::container::{
    GroupId, NamedTestContainer, NetworkMode, PossiblyImage, TestContainer, UserId,
};
use test_metadata::decode::Decode;
use test_metadata::directive::{TestDirective, Timeout};
use test_metadata::environment::Environment;
use test_metadata::error::DecodeError;
use test_metadata::layer::{LayerSpec, PrefixOptions, SymlinkSpec};
use test_metadata::mount::{Device, DeviceSet, Mount, NonRootPath};
use test_metadata::value::Value;

fn to_value(value: toml::Value) -> Value {
    match value {
        toml::Value::String(s) => Value::String(s),
        toml::Value::Integer(i) => Value::Integer(i),
        toml::Value::Boolean(b) => Value::Boolean(b),
        toml::Value::Array(items) => Value::Array(items.into_iter().map(to_value).collect()),
        toml::Value::Table(table) => {
            Value::Table(table.into_iter().map(|(k, v)| (k, to_value(v))).collect())
        }
        other => panic!("no such value in a declaration: {other}"),
    }
}

fn load(file: &str) -> Value {
    to_value(toml::Value::Table(toml::from_str(file).unwrap()))
}

fn parse_filter(text: &str) -> Result<String, String> {
    Ok(text.to_string())
}

fn parse_test_directive(file: &str) -> Result<TestDirective<String>, DecodeError> {
    TestDirective::deserialize(&load(file), &parse_filter)
}

fn parse_test_container(file: &str) -> Result<NamedTestContainer, DecodeError> {
    NamedTestContainer::decode(&load(file))
}

fn assert_decode_error(err: DecodeError, expected: &str) {
    let message = err.message();
    assert!(message.starts_with(expected), "message: {message}");
}

fn directive_error_test(toml: &str, error: &str) {
    assert_decode_error(parse_test_directive(toml).unwrap_err(), error);
}

fn directive_or_container_error_test(toml: &str, error: &str) {
    assert_decode_error(parse_test_directive(toml).unwrap_err(), error);

    let mut toml = toml.to_owned();
    toml += "\nname = \"test\"";
    assert_decode_error(parse_test_container(&toml).unwrap_err(), error);
}

fn directive_parse_test(toml: &str, expected: TestDirective<String>) {
    assert_eq!(parse_test_directive(toml).unwrap(), expected);
}

fn directive_or_container_parse_test(toml: &str, expected: TestDirective<String>) {
    assert_eq!(parse_test_directive(toml).unwrap(), expected);

    let mut toml = toml.to_owned();
    toml += "\nname = \"test\"";
    assert_eq!(
        parse_test_container(&toml).unwrap().container,
        expected.container
    );
}

fn string(s: &str) -> String {
    s.to_string()
}

fn non_root(path: &str) -> NonRootPath {
    NonRootPath::new(path.to_string()).unwrap()
}

fn devices(list: &[Device]) -> DeviceSet {
    DeviceSet::of(&list.to_vec())
}

fn variables(pairs: &[(&str, &str)]) -> Environment {
    let mut environment = Environment::new();
    for (name, value) in pairs {
        assert!(environment.insert(name.to_string(), value.to_string()));
    }
    environment
}

fn no_prefix() -> PrefixOptions {
    PrefixOptions::none()
}

fn tar_layer(path: &str) -> LayerSpec {
    LayerSpec::Tar { path: path.to_string() }
}

fn glob_layer(glob: &str, prefix_options: PrefixOptions) -> LayerSpec {
    LayerSpec::Glob { glob: glob.to_string(), prefix_options }
}

fn paths_layer(paths: &[&str], prefix_options: PrefixOptions) -> LayerSpec {
    LayerSpec::Paths { paths: paths.iter().map(|p| p.to_string()).collect(), prefix_options }
}

fn so_deps_layer(paths: &[&str], prefix_options: PrefixOptions) -> LayerSpec {
    LayerSpec::SharedLibraryDependencies {
        binary_paths: paths.iter().map(|p| p.to_string()).collect(),
        prefix_options,
    }
}

#[test]
fn empty() {
    assert_eq!(parse_test_directive("").unwrap(), TestDirective::default(),);
}

#[test]
fn unknown_field() {
    directive_error_test(
        r#"
            unknown = "foo"
            "#,
        "unknown field `unknown`, expected one of",
    );
}

#[test]
fn duplicate_field() {
    let text = r#"
            filter = "all"
            filter = "any"
            "#;
    // The loader refuses the text before any field is looked at.
    let refused = toml::from_str::<toml::Table>(text).unwrap_err();
    assert!(refused.message().starts_with("duplicate key `filter`"), "message: {refused}");
    // A loader that lets it pass hands over both entries.
    let declaration = Value::Table(vec![
        (string("filter"), Value::String(string("all"))),
        (string("filter"), Value::String(string("any"))),
    ]);
    assert_decode_error(
        TestDirective::<String>::deserialize(&declaration, &parse_filter).unwrap_err(),
        "duplicate key `filter`",
    );
}

#[test]
fn simple_fields() {
    directive_parse_test(
        r#"
            filter = "package.equals(package1) && test.equals(test1)"
            include_shared_libraries = true
            network = "loopback"
            enable_writable_file_system = true
            user = 101
            group = 202
            timeout = 1
            "#,
        TestDirective {
            filter: Some(string("package.equals(package1) && test.equals(test1)")),
            include_shared_libraries: Some(true),
            timeout: Some(Timeout::new(1)),
            container: TestContainer {
                network: Some(NetworkMode::Loopback),
                enable_writable_file_system: Some(true),
                user: Some(UserId::new(101)),
                group: Some(GroupId::new(202)),
                ..Default::default()
            },
            ..Default::default()
        },
    );
}

#[test]
fn zero_timeout() {
    directive_parse_test(
        r#"
            filter = "package.equals(package1) && test.equals(test1)"
            timeout = 0
            "#,
        TestDirective {
            filter: Some(string("package.equals(package1) && test.equals(test1)")),
            timeout: Some(None),
            ..Default::default()
        },
    );
}

#[test]
fn mounts() {
    directive_or_container_parse_test(
        r#"
mounts = [
    { type = "proc", mount_point = "/proc" },
    { type = "bind", mount_point = "/bind", local_path = "/local" },
    { type = "bind", mount_point = "/bind2", local_path = "/local2", read_only = true },
    { type = "devices", devices = ["null", "zero"] },
]
"#,
        TestDirective {
            container: TestContainer {
                mounts: Some(vec![
                    Mount::Proc { mount_point: non_root("/proc") },
                    Mount::Bind {
                        mount_point: non_root("/bind"),
                        local_path: string("/local"),
                        read_only: false,
                    },
                    Mount::Bind {
                        mount_point: non_root("/bind2"),
                        local_path: string("/local2"),
                        read_only: true,
                    },
                    Mount::Devices { devices: devices(&[Device::Null, Device::Zero]) },
                ]),
                ..Default::default()
            },
            ..Default::default()
        },
    );
}

#[test]
fn added_mounts() {
    directive_or_container_parse_test(
        r#"
added_mounts = [
    { type = "proc", mount_point = "/proc" },
    { type = "bind", mount_point = "/bind", local_path = "/local", read_only = true },
    { type = "devices", devices = ["null", "zero"] },
]
"#,
        TestDirective {
            container: TestContainer {
                added_mounts: vec![
                    Mount::Proc { mount_point: non_root("/proc") },
                    Mount::Bind {
                        mount_point: non_root("/bind"),
                        local_path: string("/local"),
                        read_only: true,
                    },
                    Mount::Devices { devices: devices(&[Device::Null, Device::Zero]) },
                ],
                ..Default::default()
            },
            ..Default::default()
        },
    );
}

#[test]
fn mounts_before_added_mounts() {
    directive_or_container_parse_test(
        r#"
mounts = [ { type = "proc", mount_point = "/proc" } ]
added_mounts = [ { type = "tmp", mount_point = "/tmp" } ]
"#,
        TestDirective {
            container: TestContainer {
                mounts: Some(vec![Mount::Proc { mount_point: non_root("/proc") }]),
                added_mounts: vec![Mount::Tmp { mount_point: non_root("/tmp") }],
                ..Default::default()
            },
            ..Default::default()
        },
    );
}

#[test]
fn mounts_after_added_mounts() {
    directive_or_container_error_test(
        r#"
added_mounts = [ { type = "tmp", mount_point = "/tmp" } ]
mounts = [ { type = "proc", mount_point = "/proc" } ]
"#,
        "field `mounts` cannot be set after `added_mounts`",
    );
}

#[test]
fn unknown_field_in_simple_mount() {
    directive_or_container_error_test(
        r#"
mounts = [ { type = "proc", mount_point = "/proc", unknown = "true" } ]
"#,
        "unknown field `unknown`, expected",
    );
}

#[test]
fn unknown_field_in_bind_mount() {
    directive_or_container_error_test(
        r#"
mounts = [ { type = "bind", mount_point = "/bind", local_path = "/a", unknown = "true" } ]
"#,
        "unknown field `unknown`, expected",
    );
}

#[test]
fn missing_field_in_simple_mount() {
    directive_or_container_error_test(
        r#"
                mounts = [ { type = "proc" } ]
            "#,
        "missing field `mount_point`",
    );
}

#[test]
fn missing_field_in_bind_mount() {
    directive_or_container_error_test(
        r#"
mounts = [ { type = "bind", mount_point = "/bind" } ]
"#,
        "missing field `local_path`",
    );
}

#[test]
fn missing_flags_field_in_bind_mount_is_okay() {
    directive_or_container_parse_test(
        r#"
mounts = [ { type = "bind", mount_point = "/bind", local_path = "/a" } ]
"#,
        TestDirective {
            container: TestContainer {
                mounts: Some(vec![Mount::Bind {
                    mount_point: non_root("/bind"),
                    local_path: string("/a"),
                    read_only: false,
                }]),
                ..Default::default()
            },
            ..Default::default()
        },
    );
}

#[test]
fn mount_point_of_root_is_disallowed() {
    let mounts = [
        r#"{ type = "bind", mount_point = "/", local_path = "/a" }"#,
        r#"{ type = "proc", mount_point = "/" }"#,
        r#"{ type = "tmp", mount_point = "/" }"#,
        r#"{ type = "sys", mount_point = "/" }"#,
    ];
    for mount in mounts {
        assert!(parse_test_directive(&format!("mounts = [ {mount} ]"))
            .unwrap_err()
            .message()
            .contains("a path of \"/\" not allowed"));
        assert!(parse_test_container(&format!("mounts = [ {mount} ]"))
            .unwrap_err()
            .message()
            .contains("a path of \"/\" not allowed"));
    }
}

#[test]
fn unknown_devices_type() {
    directive_or_container_error_test(
        r#"
            mounts = [{ type = "devices",  devices = ["unknown"] }]
            "#,
        "unknown variant `unknown`, expected one of",
    );
}

#[test]
fn working_directory() {
    directive_or_container_parse_test(
        r#"
            working_directory = "/foo"
            "#,
        TestDirective {
            container: TestContainer {
                working_directory: Some(PossiblyImage::Explicit(string("/foo"))),
                ..Default::default()
            },
            ..Default::default()
        },
    );
}

#[test]
fn image_with_no_use() {
    directive_or_container_parse_test(
        r#"
            image = { name = "rust" }
            "#,
        TestDirective {
            container: TestContainer {
                image: Some(string("rust")),
                layers: Some(PossiblyImage::FromImage),
                environment: Some(PossiblyImage::FromImage),
                ..Default::default()
            },
            ..Default::default()
        },
    );
}

#[test]
fn image_as_string() {
    directive_or_container_parse_test(
        r#"
            image = "rust"
            "#,
        TestDirective {
            container: TestContainer {
                image: Some(string("rust")),
                layers: Some(PossiblyImage::FromImage),
                environment: Some(PossiblyImage::FromImage),
                ..Default::default()
            },
            ..Default::default()
        },
    );
}

#[test]
fn image_with_working_directory() {
    directive_or_container_parse_test(
        r#"
            image = { name = "rust", use = ["layers", "working_directory"] }
            "#,
        TestDirective {
            container: TestContainer {
                image: Some(string("rust")),
                working_directory: Some(PossiblyImage::FromImage),
                layers: Some(PossiblyImage::FromImage),
                ..Default::default()
            },
            ..Default::default()
        },
    );
}

#[test]
fn working_directory_after_image_without_working_directory() {
    directive_or_container_parse_test(
        r#"
            image = { name = "rust", use = ["layers"] }
            working_directory = "/foo"
            "#,
        TestDirective {
            container: TestContainer {
                image: Some(string("rust")),
                working_directory: Some(PossiblyImage::Explicit(string("/foo"))),
                layers: Some(PossiblyImage::FromImage),
                ..Default::default()
            },
            ..Default::default()
        },
    );
}

#[test]
fn image_without_working_directory_after_working_directory() {
    directive_or_container_parse_test(
        r#"
            working_directory = "/foo"
            image = { name = "rust", use = ["layers"] }
            "#,
        TestDirective {
            container: TestContainer {
                image: Some(string("rust")),
                working_directory: Some(PossiblyImage::Explicit(string("/foo"))),
                layers: Some(PossiblyImage::FromImage),
                ..Default::default()
            },
            ..Default::default()
        },
    );
}

#[test]
fn working_directory_after_image_with_working_directory() {
    directive_or_container_error_test(
        r#"
            image = { name = "rust", use = ["layers", "working_directory"] }
            working_directory = "/foo"
            "#,
        "field `working_directory` cannot be set after `image` field that uses `working_directory`",
    );
}

#[test]
fn image_with_working_directory_after_working_directory() {
    directive_or_container_error_test(
        r#"
            working_directory = "/foo"
            image = { name = "rust", use = ["layers", "working_directory"] }
            "#,
        "field `image` cannot use `working_directory` if field `working_directory` is also set",
    );
}

#[test]
fn layers_tar() {
    directive_or_container_parse_test(
        r#"
            layers = [{ tar = "foo.tar" }]
            "#,
        TestDirective {
            container: TestContainer {
                layers: Some(PossiblyImage::Explicit(vec![tar_layer("foo.tar")])),
                ..Default::default()
            },
            ..Default::default()
        },
    );
}

#[test]
fn layers_glob() {
    directive_or_container_parse_test(
        r#"
            layers = [{ glob = "foo*.bin" }]
            "#,
        TestDirective {
            container: TestContainer {
                layers: Some(PossiblyImage::Explicit(vec![glob_layer("foo*.bin", no_prefix())])),
                ..Default::default()
            },
            ..Default::default()
        },
    );
    directive_or_container_parse_test(
        r#"
            layers = [{ glob = "foo*.bin", strip_prefix = "a" }]
            "#,
        TestDirective {
            container: TestContainer {
                layers: Some(PossiblyImage::Explicit(vec![glob_layer(
                    "foo*.bin",
                    PrefixOptions { strip_prefix: Some(string("a")), ..no_prefix() },
                )])),
                ..Default::default()
            },
            ..Default::default()
        },
    );
    directive_or_container_parse_test(
        r#"
            layers = [{ glob = "foo*.bin", prepend_prefix = "b" }]
            "#,
        TestDirective {
            container: TestContainer {
                layers: Some(PossiblyImage::Explicit(vec![glob_layer(
                    "foo*.bin",
                    PrefixOptions { prepend_prefix: Some(string("b")), ..no_prefix() },
                )])),
                ..Default::default()
            },
            ..Default::default()
        },
    );
    directive_or_container_parse_test(
        r#"
            layers = [{ glob = "foo*.bin", canonicalize = true }]
            "#,
        TestDirective {
            container: TestContainer {
                layers: Some(PossiblyImage::Explicit(vec![glob_layer(
                    "foo*.bin",
                    PrefixOptions { canonicalize: true, ..no_prefix() },
                )])),
                ..Default::default()
            },
            ..Default::default()
        },
    );
}

#[test]
fn layers_paths() {
    directive_or_container_parse_test(
        r#"
            layers = [{ paths = ["foo.bin", "bar.bin"] }]
            "#,
        TestDirective {
            container: TestContainer {
                layers: Some(PossiblyImage::Explicit(vec![paths_layer(
                    &["foo.bin", "bar.bin"],
                    no_prefix(),
                )])),
                ..Default::default()
            },
            ..Default::default()
        },
    );
    directive_or_container_parse_test(
        r#"
            layers = [{ paths = ["foo.bin", "bar.bin"], strip_prefix = "a" }]
            "#,
        TestDirective {
            container: TestContainer {
                layers: Some(PossiblyImage::Explicit(vec![paths_layer(
                    &["foo.bin", "bar.bin"],
                    PrefixOptions { strip_prefix: Some(string("a")), ..no_prefix() },
                )])),
                ..Default::default()
            },
            ..Default::default()
        },
    );
    directive_or_container_parse_test(
        r#"
            layers = [{ paths = ["foo.bin", "bar.bin"], prepend_prefix = "a" }]
            "#,
        TestDirective {
            container: TestContainer {
                layers: Some(PossiblyImage::Explicit(vec![paths_layer(
                    &["foo.bin", "bar.bin"],
                    PrefixOptions { prepend_prefix: Some(string("a")), ..no_prefix() },
                )])),
                ..Default::default()
            },
            ..Default::default()
        },
    );
    directive_or_container_parse_test(
        r#"
            layers = [{ paths = ["foo.bin", "bar.bin"], canonicalize = true }]
            "#,
        TestDirective {
            container: TestContainer {
                layers: Some(PossiblyImage::Explicit(vec![paths_layer(
                    &["foo.bin", "bar.bin"],
                    PrefixOptions { canonicalize: true, ..no_prefix() },
                )])),
                ..Default::default()
            },
            ..Default::default()
        },
    );
}

#[test]
fn layers_stubs() {
    directive_or_container_parse_test(
        r#"
            layers = [{ stubs = ["/foo/bar", "/bin/{baz,qux}/"] }]
            "#,
        TestDirective {
            container: TestContainer {
                layers: Some(PossiblyImage::Explicit(vec![LayerSpec::Stubs {
                    stubs: vec!["/foo/bar".into(), "/bin/{baz,qux}/".into()],
                }])),
                ..Default::default()
            },
            ..Default::default()
        },
    );
}

#[test]
fn layers_symlinks() {
    directive_or_container_parse_test(
        r#"
            layers = [{ symlinks = [{ link = "/hi", target = "/there" }] }]
            "#,
        TestDirective {
            container: TestContainer {
                layers: Some(PossiblyImage::Explicit(vec![LayerSpec::Symlinks {
                    symlinks: vec![SymlinkSpec { link: "/hi".into(), target: "/there".into() }],
                }])),
                ..Default::default()
            },
            ..Default::default()
        },
    );
}

#[test]
fn layers_shared_library_dependencies() {
    directive_or_container_parse_test(
        r#"
            layers = [
                { shared-library-dependencies = ["/bin/bash", "/bin/sh"] }
            ]
            "#,
        TestDirective {
            container: TestContainer {
                layers: Some(PossiblyImage::Explicit(vec![so_deps_layer(
                    &["/bin/bash", "/bin/sh"],
                    no_prefix(),
                )])),
                ..Default::default()
            },
            ..Default::default()
        },
    );
    directive_or_container_parse_test(
        r#"
            layers = [
                { shared-library-dependencies = ["/bin/bash", "/bin/sh"], prepend_prefix = "/usr" }
            ]
            "#,
        TestDirective {
            container: TestContainer {
                layers: Some(PossiblyImage::Explicit(vec![so_deps_layer(
                    &["/bin/bash", "/bin/sh"],
                    PrefixOptions { prepend_prefix: Some(string("/usr")), ..no_prefix() },
                )])),
                ..Default::default()
            },
            ..Default::default()
        },
    );
    directive_or_container_parse_test(
        r#"
            layers = [
                { shared-library-dependencies = ["/bin/bash", "/bin/sh"], canonicalize = true }
            ]
            "#,
        TestDirective {
            container: TestContainer {
                layers: Some(PossiblyImage::Explicit(vec![so_deps_layer(
                    &["/bin/bash", "/bin/sh"],
                    PrefixOptions { canonicalize: true, ..no_prefix() },
                )])),
                ..Default::default()
            },
            ..Default::default()
        },
    );
}

#[test]
fn image_with_layers() {
    directive_or_container_parse_test(
        r#"
            image = { name = "rust", use = ["layers", "working_directory"] }
            "#,
        TestDirective {
            container: TestContainer {
                image: Some(string("rust")),
                working_directory: Some(PossiblyImage::FromImage),
                layers: Some(PossiblyImage::FromImage),
                ..Default::default()
            },
            ..Default::default()
        },
    );
}

#[test]
fn layers_after_image_without_layers() {
    directive_or_container_parse_test(
        r#"
            image = { name = "rust", use = ["working_directory"] }
            layers = [{ tar = "foo.tar" }]
            "#,
        TestDirective {
            container: TestContainer {
                image: Some(string("rust")),
                working_directory: Some(PossiblyImage::FromImage),
                layers: Some(PossiblyImage::Explicit(vec![tar_layer("foo.tar")])),
                ..Default::default()
            },
            ..Default::default()
        },
    );
}

#[test]
fn image_without_layers_after_layers() {
    directive_or_container_parse_test(
        r#"
            layers = [{ tar = "foo.tar" }]
            image = { name = "rust", use = ["working_directory"] }
            "#,
        TestDirective {
            container: TestContainer {
                image: Some(string("rust")),
                working_directory: Some(PossiblyImage::FromImage),
                layers: Some(PossiblyImage::Explicit(vec![tar_layer("foo.tar")])),
                ..Default::default()
            },
            ..Default::default()
        },
    );
}

#[test]
fn layers_after_image_with_layers() {
    directive_or_container_error_test(
        r#"
            image = { name = "rust", use = ["layers", "working_directory"] }
            layers = [{ tar = "foo.tar" }]
            "#,
        "field `layers` cannot be set after `image` field that uses `layers`",
    )
}

#[test]
fn image_with_layers_after_layers() {
    directive_or_container_error_test(
        r#"
            layers = [{ tar = "foo.tar" }]
            image = { name = "rust", use = ["layers", "working_directory"] }
            "#,
        "field `image` cannot use `layers` if field `layers` is also set",
    )
}

#[test]
fn added_layers() {
    directive_or_container_parse_test(
        r#"
            added_layers = [{ tar = "foo.tar" }]
            "#,
        TestDirective {
            container: TestContainer {
                added_layers: vec![tar_layer("foo.tar")],
                ..Default::default()
            },
            ..Default::default()
        },
    );
}

#[test]
fn added_layers_after_layers() {
    directive_or_container_parse_test(
        r#"
            layers = [{ tar = "foo.tar" }]
            added_layers = [{ tar = "bar.tar" }]
            "#,
        TestDirective {
            container: TestContainer {
                layers: Some(PossiblyImage::Explicit(vec![tar_layer("foo.tar")])),
                added_layers: vec![tar_layer("bar.tar")],
                ..Default::default()
            },
            ..Default::default()
        },
    );
}

#[test]
fn added_layers_after_image_with_layers() {
    directive_or_container_parse_test(
        r#"
            image = { name = "rust", use = ["layers"] }
            added_layers = [{ tar = "foo.tar" }]
            "#,
        TestDirective {
            container: TestContainer {
                image: Some(string("rust")),
                layers: Some(PossiblyImage::FromImage),
                added_layers: vec![tar_layer("foo.tar")],
                ..Default::default()
            },
            ..Default::default()
        },
    );
}

#[test]
fn layers_after_added_layers() {
    directive_or_container_error_test(
        r#"
            added_layers = [{ tar = "bar.tar" }]
            layers = [{ tar = "foo.tar" }]
            "#,
        "field `layers` cannot be set after `added_layers`",
    );
}

#[test]
fn image_with_layers_after_added_layers() {
    directive_or_container_error_test(
        r#"
            added_layers = [{ tar = "bar.tar" }]
            image = { name = "rust", use = ["layers"] }
            "#,
        "field `image` that uses `layers` cannot be set after `added_layers`",
    );
}

#[test]
fn environment() {
    directive_or_container_parse_test(
        r#"
            environment = { FOO = "foo" }
            "#,
        TestDirective {
            container: TestContainer {
                environment: Some(PossiblyImage::Explicit(variables(&[("FOO", "foo")]))),
                ..Default::default()
            },
            ..Default::default()
        },
    );
}

#[test]
fn image_with_environment() {
    directive_or_container_parse_test(
        r#"
            image = { name = "rust", use = ["environment", "working_directory"] }
            "#,
        TestDirective {
            container: TestContainer {
                image: Some(string("rust")),
                working_directory: Some(PossiblyImage::FromImage),
                environment: Some(PossiblyImage::FromImage),
                ..Default::default()
            },
            ..Default::default()
        },
    );
}

#[test]
fn environment_after_image_without_environment() {
    directive_or_container_parse_test(
        r#"
            image = { name = "rust", use = ["working_directory"] }
            environment = { FOO = "foo" }
            "#,
        TestDirective {
            container: TestContainer {
                image: Some(string("rust")),
                working_directory: Some(PossiblyImage::FromImage),
                environment: Some(PossiblyImage::Explicit(variables(&[("FOO", "foo")]))),
                ..Default::default()
            },
            ..Default::default()
        },
    );
}

#[test]
fn image_without_environment_after_environment() {
    directive_or_container_parse_test(
        r#"
            environment = { FOO = "foo" }
            image = { name = "rust", use = ["working_directory"] }
            "#,
        TestDirective {
            container: TestContainer {
                image: Some(string("rust")),
                working_directory: Some(PossiblyImage::FromImage),
                environment: Some(PossiblyImage::Explicit(variables(&[("FOO", "foo")]))),
                ..Default::default()
            },
            ..Default::default()
        },
    );
}

#[test]
fn environment_after_image_with_environment() {
    directive_or_container_error_test(
        r#"
            image = { name = "rust", use = ["environment", "working_directory"] }
            environment = { FOO = "foo" }
            "#,
        "field `environment` cannot be set after `image` field that uses `environment`",
    )
}

#[test]
fn image_with_environment_after_environment() {
    directive_or_container_error_test(
        r#"
            environment = { FOO = "foo" }
            image = { name = "rust", use = ["environment", "working_directory"] }
            "#,
        "field `image` cannot use `environment` if field `environment` is also set",
    )
}

#[test]
fn added_environment() {
    directive_or_container_parse_test(
        r#"
            added_environment = { BAR = "bar" }
            "#,
        TestDirective {
            container: TestContainer {
                added_environment: variables(&[("BAR", "bar")]),
                ..Default::default()
            },
            ..Default::default()
        },
    );
}

#[test]
fn added_environment_after_environment() {
    directive_or_container_parse_test(
        r#"
            environment = { FOO = "foo" }
            added_environment = { BAR = "bar" }
            "#,
        TestDirective {
            container: TestContainer {
                environment: Some(PossiblyImage::Explicit(variables(&[("FOO", "foo")]))),
                added_environment: variables(&[("BAR", "bar")]),
                ..Default::default()
            },
            ..Default::default()
        },
    );
}

#[test]
fn added_environment_after_image_with_environment() {
    directive_or_container_parse_test(
        r#"
            image = { name = "rust", use = ["environment"] }
            added_environment = { BAR = "bar" }
            "#,
        TestDirective {
            container: TestContainer {
                image: Some(string("rust")),
                environment: Some(PossiblyImage::FromImage),
                added_environment: variables(&[("BAR", "bar")]),
                ..Default::default()
            },
            ..Default::default()
        },
    );
}

#[test]
fn environment_after_added_environment() {
    directive_or_container_error_test(
        r#"
            added_environment = { BAR = "bar" }
            environment = { FOO = "foo" }
            "#,
        "field `environment` cannot be set after `added_environment`",
    );
}

#[test]
fn image_with_environment_after_added_environment() {
    directive_or_container_error_test(
        r#"
            added_environment = { BAR = "bar" }
            image = { name = "rust", use = ["environment"] }
            "#,
        "field `image` that uses `environment` cannot be set after `added_environment`",
    );
}
