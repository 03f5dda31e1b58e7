use test_metadata::cargo::{
    build_arguments, cases_from_listing, cases_of_groups, listing_arguments, stream_step,
    BuildEvent, ListingError, StreamStep,
};
use test_metadata::pytest::{
    collect_outcome, exit_code, group_tests, report_lines, CollectedTest, PytestCollectError,
    PytestPackageId, PytestTestArtifact, WaitHandle,
};

fn strings(items: &[&str]) -> Vec<String> {
    items.iter().map(|item| item.to_string()).collect()
}

#[test]
fn build_arguments_without_packages() {
    assert_eq!(
        build_arguments(false, &vec![]),
        strings(&["test", "--no-run", "--message-format=json-render-diagnostics", "--color=never"])
    );
}

#[test]
fn build_arguments_with_packages_and_color() {
    assert_eq!(
        build_arguments(true, &strings(&["foo", "bar"])),
        strings(&[
            "test",
            "--no-run",
            "--message-format=json-render-diagnostics",
            "--color=always",
            "--package",
            "foo",
            "--package",
            "bar",
        ])
    );
}

#[test]
fn listing_arguments_with_and_without_filter() {
    assert_eq!(listing_arguments(&None), strings(&["--list", "--format", "terse"]));
    assert_eq!(
        listing_arguments(&Some("tests::".to_string())),
        strings(&["--list", "--format", "terse", "tests::"])
    );
}

#[test]
fn stream_step_yields_only_test_binaries() {
    assert_eq!(stream_step(BuildEvent::Unreadable), StreamStep::Fail);
    assert_eq!(stream_step(BuildEvent::Other), StreamStep::Skip);
    assert_eq!(
        stream_step(BuildEvent::CompilerArtifact { has_executable: true, test_profile: true }),
        StreamStep::Yield
    );
    assert_eq!(
        stream_step(BuildEvent::CompilerArtifact { has_executable: true, test_profile: false }),
        StreamStep::Skip
    );
    assert_eq!(
        stream_step(BuildEvent::CompilerArtifact { has_executable: false, test_profile: true }),
        StreamStep::Skip
    );
}

#[test]
fn cases_from_terse_listing() {
    let listing = "tests::one: test\ntests::two: test\nbench_it: benchmark\n\n2 tests, 1 benchmark\n";
    assert_eq!(cases_from_listing(listing), Ok(strings(&["tests::one", "tests::two"])));
    assert_eq!(cases_from_listing(""), Ok(vec![]));
}

#[test]
fn cases_of_groups_trims_names() {
    let groups = vec![Some(" a ".to_string()), Some("\tb::c\n".to_string()), Some(String::new())];
    assert_eq!(cases_of_groups(&groups), Ok(strings(&["a", "b::c", ""])));
}

#[test]
fn cases_of_groups_needs_every_name() {
    let groups = vec![Some("a".to_string()), None];
    assert_eq!(cases_of_groups(&groups), Err(ListingError::NoName));
}

#[test]
fn wait_never_fails() {
    assert_eq!(WaitHandle.wait(), Ok(()));
}

#[test]
fn exit_code_of_code_and_signal() {
    assert_eq!(exit_code(Some(0), None), 0);
    assert_eq!(exit_code(Some(2), Some(9)), 2);
    assert_eq!(exit_code(Some(256 + 7), None), 7);
    assert_eq!(exit_code(Some(-1), None), 255);
    assert_eq!(exit_code(None, Some(9)), 137);
    assert_eq!(exit_code(None, Some(15)), 143);
    assert_eq!(exit_code(None, Some(128)), 0);
    assert_eq!(exit_code(None, Some(i32::MAX)), 127);
}

#[test]
fn collect_outcome_of_success_is_the_output() {
    assert_eq!(
        collect_outcome(true, Some(0), None, "out".to_string(), "err".to_string()),
        Ok("out".to_string())
    );
}

#[test]
fn collect_outcome_of_failure_keeps_stderr_and_code() {
    let failure =
        collect_outcome(false, Some(3), None, "out".to_string(), "boom".to_string()).unwrap_err();
    assert_eq!(failure, PytestCollectError { stderr: "boom".to_string(), exit_code: 3 });
    assert_eq!(failure.message(), "boom");
    let killed =
        collect_outcome(false, None, Some(9), String::new(), "killed".to_string()).unwrap_err();
    assert_eq!(killed.exit_code, 137);
}

#[test]
fn report_lines_drops_empty_lines() {
    assert_eq!(report_lines("a\n\nb\n"), strings(&["a", "b"]));
    assert_eq!(report_lines(""), Vec::<String>::new());
    assert_eq!(report_lines("\n\n"), Vec::<String>::new());
    assert_eq!(report_lines("one line"), strings(&["one line"]));
    assert_eq!(report_lines(" \nx"), strings(&[" ", "x"]));
}

fn collected(path: &str, node_id: &str) -> CollectedTest {
    CollectedTest { path: path.to_string(), node_id: node_id.to_string() }
}

fn artifact(path: &str, tests: &[&str]) -> PytestTestArtifact {
    PytestTestArtifact {
        name: path.to_string(),
        path: path.to_string(),
        tests: strings(tests),
        ignored_tests: vec![],
        package: PytestPackageId("default".to_string()),
    }
}

#[test]
fn group_tests_gathers_by_file_in_order() {
    let tests = vec![
        collected("b.py", "b.py::one"),
        collected("a.py", "a.py::one"),
        collected("b.py", "b.py::two"),
        collected("a.py", "a.py::two"),
        collected("c.py", "c.py::one"),
    ];
    assert_eq!(
        group_tests(&tests),
        vec![
            artifact("b.py", &["b.py::one", "b.py::two"]),
            artifact("a.py", &["a.py::one", "a.py::two"]),
            artifact("c.py", &["c.py::one"]),
        ]
    );
    assert_eq!(group_tests(&vec![]), vec![]);
}

#[test]
fn collector_runs_as_a_script_on_the_command_line() {
    assert_eq!(
        test_metadata::pytest::collector_arguments("import pytest\n"),
        strings(&["python", "-c", "import pytest\n"])
    );
    assert_eq!(test_metadata::pytest::collector_arguments(""), strings(&["python", "-c", ""]));
}
