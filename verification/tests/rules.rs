use test_metadata::container::{
    ContainerField, NamedTestContainer, PossiblyImage, Provenance, TestContainer,
    TestContainerVisitor,
};
use test_metadata::decode::Decode;
use test_metadata::environment::Environment;
use test_metadata::directive::{DirectiveField, DirectiveVisitor, TestDirective, Timeout};
use test_metadata::error::{DecodeError, ImageUse, MergedField, NameSet};
use test_metadata::image::{ImageReference, ImageUseSet};
use test_metadata::layer::LayerSpec;
use test_metadata::mount::{Mount, NonRootPath};
use test_metadata::value::Value;

fn tree(value: toml::Value) -> Value {
    match value {
        toml::Value::String(s) => Value::String(s),
        toml::Value::Integer(i) => Value::Integer(i),
        toml::Value::Boolean(b) => Value::Boolean(b),
        toml::Value::Array(items) => Value::Array(items.into_iter().map(tree).collect()),
        toml::Value::Table(table) => {
            Value::Table(table.into_iter().map(|(k, v)| (k, tree(v))).collect())
        }
        other => panic!("no such value in a declaration: {other}"),
    }
}

fn declaration(text: &str) -> Value {
    tree(toml::Value::Table(toml::from_str(text).unwrap()))
}

fn value_of(text: &str) -> Value {
    match declaration(&format!("it = {text}")) {
        Value::Table(mut entries) => entries.remove(0).1,
        _ => unreachable!(),
    }
}

fn verbatim(text: &str) -> Result<String, String> {
    Ok(text.to_string())
}

fn directive(text: &str) -> Result<TestDirective<String>, DecodeError> {
    TestDirective::deserialize(&declaration(text), &verbatim)
}

fn container(text: &str) -> Result<TestContainer, DecodeError> {
    TestContainer::decode(&declaration(text))
}

fn text(s: &str) -> Value {
    Value::String(s.to_string())
}

#[test]
fn mounts_and_added_mounts_keep_document_order() {
    let accepted = directive(
        r#"
mounts = [ { type = "proc", mount_point = "/proc" }, { type = "sys", mount_point = "/sys" } ]
network = "local"
added_mounts = [ { type = "tmp", mount_point = "/tmp" }, { type = "tmp", mount_point = "/var" } ]
"#,
    )
    .unwrap()
    .container;
    let mut all = accepted.mounts.unwrap();
    all.extend(accepted.added_mounts);
    let points: Vec<String> = all
        .iter()
        .map(|mount| match mount {
            Mount::Proc { mount_point } | Mount::Sys { mount_point } | Mount::Tmp { mount_point } => {
                mount_point.as_str().to_string()
            }
            other => panic!("not declared: {other:?}"),
        })
        .collect();
    assert_eq!(points, ["/proc", "/sys", "/tmp", "/var"]);
}

#[test]
fn empty_added_mounts_still_bar_mounts() {
    let refused = directive("added_mounts = []\nmounts = []").unwrap_err();
    assert_eq!(refused, DecodeError::SetAfterAdded { merged: MergedField::Mounts });
}

#[test]
fn image_that_uses_layers_leaves_layers_to_the_image() {
    let accepted = container(
        r#"
network = "disabled"
image = { name = "rust", use = ["layers"] }
added_layers = [{ tar = "a.tar" }]
"#,
    )
    .unwrap();
    assert_eq!(accepted.layers, Some(PossiblyImage::FromImage));
    assert_eq!(accepted.environment, None);
    assert_eq!(accepted.added_layers, vec![LayerSpec::Tar { path: "a.tar".to_string() }]);
}

#[test]
fn no_field_has_two_sources() {
    for field in ["layers", "environment", "working_directory"] {
        let value = match field {
            "layers" => "[]",
            "environment" => "{}",
            _ => "\"/w\"",
        };
        let supplied = match field {
            "layers" => ImageUse::Layers,
            "environment" => ImageUse::Environment,
            _ => ImageUse::WorkingDirectory,
        };
        let image = format!("image = {{ name = \"i\", use = [\"{field}\"] }}");
        let explicit = format!("{field} = {value}");
        assert_eq!(
            container(&format!("{image}\n{explicit}")).unwrap_err(),
            DecodeError::SetAfterImage { supplied }
        );
        assert_eq!(
            container(&format!("{explicit}\n{image}")).unwrap_err(),
            DecodeError::ImageAfterSet { supplied }
        );
    }
}

#[test]
fn image_checks_layers_before_environment_before_working_directory() {
    let refused = container(
        r#"
working_directory = "/w"
environment = {}
layers = []
image = { name = "i", use = ["working_directory", "environment", "layers"] }
"#,
    )
    .unwrap_err();
    assert_eq!(refused, DecodeError::ImageAfterSet { supplied: ImageUse::Layers });
    let refused = container(
        r#"
working_directory = "/w"
added_environment = {}
image = { name = "i", use = ["working_directory", "environment"] }
"#,
    )
    .unwrap_err();
    assert_eq!(refused, DecodeError::ImageAfterAdded { supplied: ImageUse::Environment });
}

#[test]
fn no_mount_goes_over_root() {
    for field in ["mounts", "added_mounts"] {
        for kind in ["proc", "tmp", "sys"] {
            let text = format!("{field} = [ {{ type = \"{kind}\", mount_point = \"/\" }} ]");
            assert_eq!(container(&text).unwrap_err(), DecodeError::RootPath);
        }
    }
    assert_eq!(NonRootPath::new("/".to_string()), Err(DecodeError::RootPath));
    assert_eq!(NonRootPath::new("//".to_string()).unwrap().as_str(), "//");
    assert_eq!(NonRootPath::new(String::new()).unwrap().as_str(), "");
}

#[test]
fn empty_declaration_is_the_default() {
    assert_eq!(directive("").unwrap(), TestDirective::default());
    assert_eq!(container("").unwrap(), TestContainer::default());
    assert_eq!(TestContainerVisitor::new().finalize(), TestContainer::default());
    let named = NamedTestContainer::decode(&declaration("name = \"base\"")).unwrap();
    assert_eq!(named.name, "base");
    assert_eq!(named.container, TestContainer::default());
}

#[test]
fn image_name_alone_is_the_table_with_layers_and_environment() {
    let alone = "network = \"local\"\nimage = \"rust\"\nadded_layers = [{ tar = \"a.tar\" }]";
    let table = "network = \"local\"\nimage = { name = \"rust\", use = [\"layers\", \"environment\"] }\nadded_layers = [{ tar = \"a.tar\" }]";
    assert_eq!(directive(alone).unwrap(), directive(table).unwrap());
    assert_eq!(container(alone).unwrap(), container(table).unwrap());
    assert_eq!(
        ImageReference::decode(&text("rust")).unwrap(),
        ImageReference::decode(&value_of("{ name = \"rust\", use = [\"layers\", \"environment\"] }"))
            .unwrap()
    );
    let refused_alone = "layers = []\nimage = \"rust\"";
    let refused_table = "layers = []\nimage = { name = \"rust\", use = [\"environment\", \"layers\"] }";
    assert_eq!(container(refused_alone).unwrap_err(), container(refused_table).unwrap_err());
}

#[test]
fn image_use_is_a_set() {
    let once = ImageReference::decode(&value_of("{ name = \"i\", use = [\"layers\"] }")).unwrap();
    let twice =
        ImageReference::decode(&value_of("{ use = [\"layers\", \"layers\"], name = \"i\" }")).unwrap();
    assert_eq!(once, twice);
    assert_eq!(
        once.uses,
        ImageUseSet { layers: true, environment: false, working_directory: false }
    );
    let none = ImageReference::decode(&value_of("{ name = \"i\", use = [] }")).unwrap();
    assert_eq!(none.uses, ImageUseSet::empty());
    assert!(ImageUseSet::default_uses().contains(ImageUse::Environment));
    assert!(!ImageUseSet::default_uses().contains(ImageUse::WorkingDirectory));
}

#[test]
fn timeout_of_zero_is_no_limit() {
    assert_eq!(directive("timeout = 0").unwrap().timeout, Some(None));
    assert_eq!(directive("timeout = 5").unwrap().timeout, Some(Timeout::new(5)));
    assert_eq!(directive("timeout = 5").unwrap().timeout.unwrap().unwrap().as_u32(), 5);
    assert_eq!(directive("ignore = true").unwrap().timeout, None);
    assert_eq!(
        directive("timeout = 4294967295").unwrap().timeout.unwrap().unwrap().as_u32(),
        u32::MAX
    );
    assert_eq!(Timeout::new(0), None);
}

#[test]
fn timeout_must_fit_in_32_bits() {
    assert_eq!(directive("timeout = -1").unwrap_err(), DecodeError::IntegerOutOfRange);
    assert_eq!(directive("timeout = 4294967296").unwrap_err(), DecodeError::IntegerOutOfRange);
    assert_eq!(directive("user = -7").unwrap_err(), DecodeError::IntegerOutOfRange);
}

#[test]
fn builder_refuses_a_field_twice() {
    let mut builder = TestContainerVisitor::new();
    assert_eq!(builder.accept_field("added_layers", &Value::Array(vec![])), Ok(()));
    assert_eq!(
        builder.accept_field("added_layers", &Value::Array(vec![])),
        Err(DecodeError::DuplicateKey { field: "added_layers".to_string() })
    );
    let mut builder = TestContainerVisitor::new();
    assert_eq!(builder.fill_entry(ContainerField::Layers, &Value::Array(vec![])), Ok(()));
    assert_eq!(
        builder.fill_entry(ContainerField::Layers, &Value::Array(vec![])),
        Err(DecodeError::DuplicateKey { field: "layers".to_string() })
    );
    let mut builder = TestContainerVisitor::new();
    assert_eq!(builder.fill_entry(ContainerField::Image, &text("a")), Ok(()));
    assert_eq!(
        builder.fill_entry(ContainerField::Image, &text("b")),
        Err(DecodeError::DuplicateKey { field: "image".to_string() })
    );
}

#[test]
fn builder_keeps_the_ledger() {
    let mut builder = TestContainerVisitor::new();
    assert_eq!(builder.provenance(ImageUse::Layers), Provenance::Unset);
    builder.accept_field("working_directory", &text("/w")).unwrap();
    builder.accept_field("image", &text("rust")).unwrap();
    assert_eq!(builder.provenance(ImageUse::WorkingDirectory), Provenance::Explicit);
    assert_eq!(builder.provenance(ImageUse::Layers), Provenance::FromImage);
    assert_eq!(builder.provenance(ImageUse::Environment), Provenance::FromImage);
    let finished = builder.finalize();
    assert_eq!(finished.image, Some("rust".to_string()));
    assert_eq!(finished.working_directory, Some(PossiblyImage::Explicit("/w".to_string())));
}

#[test]
fn builder_refuses_a_key_that_is_no_container_field() {
    let mut builder = TestContainerVisitor::new();
    assert_eq!(
        builder.accept_field("filter", &text("all")),
        Err(DecodeError::UnknownField {
            field: "filter".to_string(),
            expected: NameSet::ContainerFields
        })
    );
}

#[test]
fn every_field_is_found_under_its_key() {
    let fields = [
        DirectiveField::Filter,
        DirectiveField::IncludeSharedLibraries,
        DirectiveField::Timeout,
        DirectiveField::Ignore,
        DirectiveField::Network,
        DirectiveField::EnableWritableFileSystem,
        DirectiveField::User,
        DirectiveField::Group,
        DirectiveField::Mounts,
        DirectiveField::AddedMounts,
        DirectiveField::Image,
        DirectiveField::WorkingDirectory,
        DirectiveField::Layers,
        DirectiveField::AddedLayers,
        DirectiveField::Environment,
        DirectiveField::AddedEnvironment,
    ];
    let names = NameSet::DirectiveFields.names();
    assert_eq!(names.len(), fields.len());
    for (field, name) in fields.iter().zip(names) {
        assert_eq!(field.name(), name);
        assert_eq!(DirectiveField::from_name(name), Some(*field));
        match field.into_container_field() {
            Some(inner) => {
                assert_eq!(inner.name(), name);
                assert_eq!(ContainerField::from_name(name), Some(inner));
                assert_eq!(DirectiveField::from_container_field(inner), *field);
            }
            None => assert_eq!(ContainerField::from_name(name), None),
        }
    }
    assert_eq!(DirectiveField::Filter.into_container_field(), None);
    assert_eq!(DirectiveField::Mounts.into_container_field(), Some(ContainerField::Mounts));
    assert_eq!(DirectiveField::from_name("name"), None);
}

#[test]
fn filter_is_parsed_once_and_its_refusal_kept() {
    let refuse = |text: &str| -> Result<u32, String> { Err(format!("no filter: {text}")) };
    let refused =
        TestDirective::deserialize(&declaration("filter = \"any\"\nuser = \"x\""), &refuse);
    assert_eq!(refused, Err(DecodeError::Filter { message: "no filter: any".to_string() }));
    assert_eq!(refused.unwrap_err().message(), "no filter: any");
    let earlier = TestDirective::deserialize(&declaration("user = \"x\"\nfilter = \"any\""), &refuse);
    assert!(matches!(earlier, Err(DecodeError::InvalidType { .. })));
    let length = |text: &str| -> Result<usize, String> { Ok(text.len()) };
    let parsed = TestDirective::deserialize(&declaration("filter = \"four\""), &length).unwrap();
    assert_eq!(parsed.filter, Some(4));
    let none = TestDirective::deserialize(&declaration("ignore = false"), &refuse).unwrap();
    assert_eq!(none.filter, None);
    assert_eq!(none.ignore, Some(false));
}

fn variables(text: &str) -> Environment {
    Environment::decode(&value_of(text)).unwrap()
}

#[test]
fn environments_are_equal_whatever_the_order() {
    let one = variables("{ A = \"a\", B = \"b\" }");
    assert_eq!(one, variables("{ B = \"b\", A = \"a\" }"));
    assert_eq!(
        container("environment = { A = \"a\", B = \"b\" }").unwrap(),
        container("environment = { B = \"b\", A = \"a\" }").unwrap()
    );
    let less = variables("{ A = \"a\" }");
    assert_ne!(one, less);
    assert_ne!(less, one);
    assert_ne!(one, variables("{ A = \"a\", B = \"c\" }"));
    assert_ne!(one, variables("{ A = \"a\", C = \"b\" }"));
    assert_eq!(Environment::new(), Environment::new());
}

#[test]
fn a_refused_field_leaves_the_builder_as_it_was() {
    let mut builder = TestContainerVisitor::new();
    builder.accept_field("layers", &Value::Array(vec![])).unwrap();
    builder.accept_field("user", &Value::Integer(7)).unwrap();
    assert_eq!(
        builder.accept_field("image", &text("rust")),
        Err(DecodeError::ImageAfterSet { supplied: ImageUse::Layers })
    );
    assert!(builder.accept_field("user", &Value::Integer(-1)).is_err());
    assert!(builder.accept_field("network", &text("open")).is_err());
    assert!(builder.accept_field("unknown", &text("x")).is_err());
    let finished = builder.finalize();
    let mut expected = TestContainerVisitor::new();
    expected.accept_field("layers", &Value::Array(vec![])).unwrap();
    expected.accept_field("user", &Value::Integer(7)).unwrap();
    assert_eq!(finished, expected.finalize());
    assert_eq!(finished.image, None);
    assert_eq!(finished.environment, None);
}

#[test]
fn directive_builder_keeps_its_parts_apart() {
    let refuse = |text: &str| -> Result<String, String> { Err(format!("no: {text}")) };
    let mut builder: DirectiveVisitor<String> = Default::default();
    assert_eq!(builder.fill_entry(DirectiveField::Timeout, &Value::Integer(0), &refuse), Ok(()));
    assert_eq!(builder.value.timeout, Some(None));
    assert_eq!(builder.value.filter, None);
    assert_eq!(builder.value.include_shared_libraries, None);
    assert_eq!(builder.value.ignore, None);
    assert_eq!(builder.value.container, TestContainer::default());
    assert_eq!(
        builder.fill_entry(DirectiveField::Filter, &text("any"), &refuse),
        Err(DecodeError::Filter { message: "no: any".to_string() })
    );
    assert!(builder.fill_entry(DirectiveField::Ignore, &text("yes"), &refuse).is_err());
    assert!(builder.accept_entry("timeout", &Value::Integer(3), &refuse).is_err());
    assert_eq!(builder.accept_entry("user", &Value::Integer(3), &refuse), Ok(()));
    assert_eq!(builder.value.container, TestContainer::default());
    let finished = builder.finalize();
    assert_eq!(finished.timeout, Some(None));
    assert_eq!(finished.filter, None);
    assert_eq!(finished.ignore, None);
    assert_eq!(finished.container, container("user = 3").unwrap());
}
