//! What is computed around a collection of tests with pytest: how the
//! collector's exit is read, which lines of its output count, and how the
//! collected tests are gathered by file.

use vstd::prelude::*;
use crate::decode::seq_view;

verus! {

/// A handle on a collection that has been started.
pub struct WaitHandle;

impl WaitHandle {
    /// Waits for the collection to finish. A collection is finished by the
    /// time it hands out its handle, so this returns at once, and never
    /// fails.
    pub fn wait(self) -> (r: Result<(), PytestCollectError>)
        ensures
            r is Ok,
    {
        Ok(())
    }
}

/// The failure of a collection: what the collector wrote to its error
/// stream, and the code that it exited with.
#[derive(Debug, PartialEq, Eq)]
pub struct PytestCollectError {
    pub stderr: String,
    pub exit_code: u8,
}

impl PytestCollectError {
    /// The message of the failure: what the collector wrote to its error
    /// stream.
    pub fn message(&self) -> (r: String)
        ensures
            r@ == self.stderr@,
    {
        self.stderr.clone()
    }
}

/// The exit code of a process, as a shell reports it: the code that the
/// process exited with, or 128 more than the number of the signal that
/// ended it; of either, the lowest eight bits.
pub open spec fn spec_exit_code(code: Option<i32>, signal: Option<i32>) -> int {
    match code {
        Some(code) => code as int % 256,
        None => match signal {
            Some(signal) => (128 + signal) % 256,
            None => 0,
        },
    }
}

/// The lowest eight bits of a number, read as a number from 0 to 255.
fn low_byte(raw: i64) -> (r: u8)
    requires
        -0x1_0000_0000 <= raw <= 0x1_0000_0000,
    ensures
        r as int == raw as int % 256,
{
    if raw >= 0 {
        (raw % 256) as u8
    } else {
        let over: i64 = (-raw) % 256;
        if over == 0 {
            0
        } else {
            (256 - over) as u8
        }
    }
}

/// The exit code of a process that exited with `code`, or was ended by
/// `signal` if it has no code.
pub fn exit_code(code: Option<i32>, signal: Option<i32>) -> (r: u8)
    requires
        code is Some || signal is Some,
    ensures
        r as int == spec_exit_code(code, signal),
{
    match code {
        Some(code) => low_byte(code as i64),
        None => match signal {
            Some(signal) => low_byte(128 + signal as i64),
            None => 0,
        },
    }
}

/// What a run of the collector comes to: its output if it succeeded, and
/// else the failure with what it wrote to its error stream and its exit
/// code.
pub fn collect_outcome(
    succeeded: bool,
    code: Option<i32>,
    signal: Option<i32>,
    stdout: String,
    stderr: String,
) -> (r: Result<String, PytestCollectError>)
    requires
        succeeded || code is Some || signal is Some,
    ensures
        succeeded ==> r == Ok::<String, PytestCollectError>(stdout),
        !succeeded ==> (r matches Err(failure) && failure.stderr == stderr && failure.exit_code
            as int == spec_exit_code(code, signal)),
{
    if succeeded {
        Ok(stdout)
    } else {
        Err(PytestCollectError { stderr, exit_code: exit_code(code, signal) })
    }
}

/// The arguments with which python runs the collector: the script itself,
/// given on the command line.
pub open spec fn spec_collector_arguments(script: Seq<char>) -> Seq<Seq<char>> {
    seq!["python"@, "-c"@, script]
}

/// The arguments with which python runs the collector `script`.
pub fn collector_arguments(script: &str) -> (r: Vec<String>)
    ensures
        seq_view(r@) == spec_collector_arguments(script@),
{
    let mut arguments: Vec<String> = Vec::new();
    arguments.push("python".to_owned());
    arguments.push("-c".to_owned());
    arguments.push(script.to_owned());
    assert(seq_view(arguments@) =~= spec_collector_arguments(script@));
    arguments
}

/// The pieces of a text between the occurrences of a separator, in order.
/// A text without the separator is one piece, the empty text too.
pub open spec fn spec_split(text: Seq<char>, separator: char) -> Seq<Seq<char>>
    decreases text.len(),
{
    if text.len() == 0 {
        seq![Seq::empty()]
    } else {
        let before = spec_split(text.drop_last(), separator);
        if text.last() == separator {
            before.push(Seq::empty())
        } else {
            before.drop_last().push(before.last().push(text.last()))
        }
    }
}

/// The lines of a text: its pieces between the line feeds.
///
/// Wraps `split` of `str` with a character for its pattern, which std
/// documents as an iterator over the substrings of the text that the
/// pattern separates.
#[verifier::external_body]
fn split_lines(text: &str) -> (r: Vec<String>)
    ensures
        seq_view(r@) == spec_split(text@, '\n'),
{
    text.split('\n').map(|line| line.to_string()).collect()
}

/// Those of the first `n` lines that are not empty, in order.
pub open spec fn spec_nonempty(lines: Seq<Seq<char>>, n: nat) -> Seq<Seq<char>>
    decreases n,
{
    if n == 0 {
        Seq::empty()
    } else {
        let before = spec_nonempty(lines, (n - 1) as nat);
        if lines[n - 1].len() > 0 {
            before.push(lines[n - 1])
        } else {
            before
        }
    }
}

/// The lines of the collector's output that report a test: those that are
/// not empty.
pub open spec fn spec_report_lines(output: Seq<char>) -> Seq<Seq<char>> {
    let lines = spec_split(output, '\n');
    spec_nonempty(lines, lines.len())
}

/// The lines of the collector's output that report a test: those that are
/// not empty, in order.
pub fn report_lines(output: &str) -> (r: Vec<String>)
    ensures
        seq_view(r@) == spec_report_lines(output@),
{
    let lines = split_lines(output);
    let ghost models = seq_view(lines@);
    let mut kept: Vec<String> = Vec::new();
    let mut i: usize = 0;
    assert(seq_view(kept@) =~= spec_nonempty(models, 0));
    while i < lines.len()
        invariant
            i <= lines.len(),
            models == seq_view(lines@),
            seq_view(kept@) == spec_nonempty(models, i as nat),
        decreases lines.len() - i,
    {
        let ghost before = seq_view(kept@);
        assert(models[i as int] == lines@[i as int]@);
        if !lines[i].as_str().is_empty() {
            kept.push(lines[i].clone());
            assert(seq_view(kept@) =~= before.push(models[i as int]));
        }
        i += 1;
    }
    kept
}

/// The package that a test file belongs to.
#[derive(Debug, PartialEq, Eq)]
pub struct PytestPackageId(pub String);

/// A test that the collector found: the file it is in, relative to the
/// project, and the identifier by which pytest knows it.
#[derive(Debug, PartialEq, Eq)]
pub struct CollectedTest {
    pub path: String,
    pub node_id: String,
}

impl View for CollectedTest {
    type V = (Seq<char>, Seq<char>);

    open spec fn view(&self) -> (Seq<char>, Seq<char>) {
        (self.path@, self.node_id@)
    }
}

/// A file of tests, with the tests that were collected from it.
#[derive(Debug, PartialEq, Eq)]
pub struct PytestTestArtifact {
    pub name: String,
    pub path: String,
    pub tests: Vec<String>,
    pub ignored_tests: Vec<String>,
    pub package: PytestPackageId,
}

/// The mathematical model of a [`PytestTestArtifact`].
pub struct PytestTestArtifactView {
    pub name: Seq<char>,
    pub path: Seq<char>,
    pub tests: Seq<Seq<char>>,
    pub ignored_tests: Seq<Seq<char>>,
    pub package: Seq<char>,
}

impl View for PytestTestArtifact {
    type V = PytestTestArtifactView;

    open spec fn view(&self) -> PytestTestArtifactView {
        PytestTestArtifactView {
            name: self.name@,
            path: self.path@,
            tests: seq_view(self.tests@),
            ignored_tests: seq_view(self.ignored_tests@),
            package: self.package.0@,
        }
    }
}

/// The files of the first `n` tests, each once, in the order in which they
/// first occur.
pub open spec fn spec_files(tests: Seq<(Seq<char>, Seq<char>)>, n: nat) -> Seq<Seq<char>>
    decreases n,
{
    if n == 0 {
        Seq::empty()
    } else {
        let before = spec_files(tests, (n - 1) as nat);
        if before.contains(tests[n - 1].0) {
            before
        } else {
            before.push(tests[n - 1].0)
        }
    }
}

/// The identifiers of those of the first `n` tests that are in the file
/// `path`, in order.
pub open spec fn spec_tests_in(tests: Seq<(Seq<char>, Seq<char>)>, n: nat, path: Seq<char>) -> Seq<
    Seq<char>,
>
    decreases n,
{
    if n == 0 {
        Seq::empty()
    } else {
        let before = spec_tests_in(tests, (n - 1) as nat, path);
        if tests[n - 1].0 == path {
            before.push(tests[n - 1].1)
        } else {
            before
        }
    }
}

/// The artifact of the file `path` with those of the first `n` tests that
/// are in it: it is named by its path, ignores no test, and belongs to the
/// package `default`.
pub open spec fn spec_artifact(tests: Seq<(Seq<char>, Seq<char>)>, n: nat, path: Seq<char>)
    -> PytestTestArtifactView {
    PytestTestArtifactView {
        name: path,
        path,
        tests: spec_tests_in(tests, n, path),
        ignored_tests: Seq::empty(),
        package: "default"@,
    }
}

/// The artifacts of the first `n` tests: one for each file, in the order
/// in which the files first occur.
pub open spec fn spec_artifacts(tests: Seq<(Seq<char>, Seq<char>)>, n: nat) -> Seq<
    PytestTestArtifactView,
> {
    let files = spec_files(tests, n);
    Seq::new(files.len(), |i: int| spec_artifact(tests, n, files[i]))
}

/// No file occurs twice among the files of the tests.
pub proof fn lemma_files_distinct(tests: Seq<(Seq<char>, Seq<char>)>, n: nat)
    ensures
        forall|i: int, j: int|
            0 <= i < j < spec_files(tests, n).len() ==> spec_files(tests, n)[i] != spec_files(
                tests,
                n,
            )[j],
    decreases n,
{
    if n > 0 {
        lemma_files_distinct(tests, (n - 1) as nat);
        let before = spec_files(tests, (n - 1) as nat);
        let files = spec_files(tests, n);
        assert forall|i: int, j: int| 0 <= i < j < files.len() implies files[i] != files[j] by {
            if j == before.len() {
                assert(!before.contains(tests[n - 1].0));
                assert(before[i] == files[i]);
            } else {
                assert(before[i] == files[i] && before[j] == files[j]);
            }
        }
    }
}

/// The place of the artifact of the file `path` among the artifacts, if it
/// has one.
fn find_artifact(artifacts: &Vec<PytestTestArtifact>, path: &str) -> (r: Option<usize>)
    ensures
        match r {
            Some(at) => at < artifacts@.len() && artifacts@[at as int].name@ == path@,
            None => forall|j: int|
                0 <= j < artifacts@.len() ==> (#[trigger] artifacts@[j]).name@ != path@,
        },
{
    let mut j: usize = 0;
    while j < artifacts.len()
        invariant
            j <= artifacts.len(),
            forall|k: int| 0 <= k < j ==> (#[trigger] artifacts@[k]).name@ != path@,
        decreases artifacts.len() - j,
    {
        if crate::value::str_eq(artifacts[j].name.as_str(), path) {
            return Some(j);
        }
        j += 1;
    }
    None
}

/// Gathers the collected tests by file: one artifact for each file, in
/// the order in which the files first occur, each with the identifiers of
/// its tests in the order in which they were collected.
pub fn group_tests(tests: &Vec<CollectedTest>) -> (r: Vec<PytestTestArtifact>)
    ensures
        seq_view(r@) == spec_artifacts(seq_view(tests@), tests@.len()),
{
    let ghost models = seq_view(tests@);
    let mut artifacts: Vec<PytestTestArtifact> = Vec::new();
    let mut i: usize = 0;
    assert(seq_view(artifacts@) =~= spec_artifacts(models, 0));
    while i < tests.len()
        invariant
            i <= tests.len(),
            models == seq_view(tests@),
            seq_view(artifacts@) == spec_artifacts(models, i as nat),
        decreases tests.len() - i,
    {
        let test = &tests[i];
        let ghost before = seq_view(artifacts@);
        let ghost files = spec_files(models, i as nat);
        let ghost path = test.path@;
        assert(models[i as int] == (test.path@, test.node_id@));
        proof {
            lemma_files_distinct(models, i as nat);
            assert(before.len() == files.len());
            assert forall|j: int| 0 <= j < files.len() implies (#[trigger] artifacts@[j]).name@
                == files[j] by {
                assert(before[j] == spec_artifact(models, i as nat, files[j]));
            }
        }
        match find_artifact(&artifacts, test.path.as_str()) {
            Some(at) => {
                let ghost old_artifacts = artifacts@;
                let mut artifact = artifacts.remove(at);
                artifact.tests.push(test.node_id.clone());
                artifacts.insert(at, artifact);
                proof {
                    assert(files[at as int] == path);
                    assert(files.contains(path));
                    assert(spec_files(models, (i + 1) as nat) == files);
                    let after = seq_view(artifacts@);
                    let wanted = spec_artifacts(models, (i + 1) as nat);
                    assert(after.len() == wanted.len());
                    assert forall|j: int| 0 <= j < after.len() implies after[j] == wanted[j] by {
                        assert(before[j] == spec_artifact(models, i as nat, files[j]));
                        if j == at {
                            assert(artifacts@[j]@.tests =~= before[j].tests.push(test.node_id@));
                        } else {
                            assert(artifacts@[j] == old_artifacts[j]);
                            assert(files[j] != path);
                        }
                    }
                    assert(after =~= wanted);
                }
            },
            None => {
                let mut found: Vec<String> = Vec::new();
                found.push(test.node_id.clone());
                artifacts.push(
                    PytestTestArtifact {
                        name: test.path.clone(),
                        path: test.path.clone(),
                        tests: found,
                        ignored_tests: Vec::new(),
                        package: PytestPackageId("default".to_owned()),
                    },
                );
                proof {
                    assert(!files.contains(path)) by {
                        if files.contains(path) {
                            let j = choose|j: int| 0 <= j < files.len() && files[j] == path;
                            assert(artifacts@[j].name@ == files[j]);
                        }
                    }
                    assert(spec_files(models, (i + 1) as nat) == files.push(path));
                    lemma_tests_in_new_file(models, i as nat, path);
                    let after = seq_view(artifacts@);
                    let wanted = spec_artifacts(models, (i + 1) as nat);
                    assert(after.len() == wanted.len());
                    assert forall|j: int| 0 <= j < after.len() implies after[j] == wanted[j] by {
                        if j < files.len() {
                            assert(before[j] == spec_artifact(models, i as nat, files[j]));
                            assert(files[j] != path);
                        } else {
                            assert(artifacts@[j]@.tests =~= seq![test.node_id@]);
                            assert(artifacts@[j]@.ignored_tests =~= Seq::empty());
                        }
                    }
                    assert(after =~= wanted);
                }
            },
        }
        i += 1;
    }
    artifacts
}

/// A file that is not among the files of the first `n` tests holds none of
/// them.
proof fn lemma_tests_in_new_file(tests: Seq<(Seq<char>, Seq<char>)>, n: nat, path: Seq<char>)
    requires
        !spec_files(tests, n).contains(path),
    ensures
        spec_tests_in(tests, n, path) == Seq::<Seq<char>>::empty(),
    decreases n,
{
    if n > 0 {
        let before = spec_files(tests, (n - 1) as nat);
        if before.contains(tests[n - 1].0) {
            lemma_tests_in_new_file(tests, (n - 1) as nat, path);
        } else {
            assert(spec_files(tests, n) == before.push(tests[n - 1].0));
            assert(spec_files(tests, n)[before.len() as int] == tests[n - 1].0);
            assert(tests[n - 1].0 != path);
            assert(!before.contains(path)) by {
                if before.contains(path) {
                    let j = choose|j: int| 0 <= j < before.len() && before[j] == path;
                    assert(spec_files(tests, n)[j] == path);
                }
            }
            lemma_tests_in_new_file(tests, (n - 1) as nat, path);
        }
    }
}

} // verus!
