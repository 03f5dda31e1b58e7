//! What is computed around a build of the tests with cargo: the arguments
//! of the commands, which of cargo's messages announce a test binary, and
//! the names of the tests that a test binary lists.

use vstd::prelude::*;
use crate::decode::seq_view;

verus! {

/// The `--package` arguments for the first `n` of `packages`.
pub open spec fn spec_package_arguments(packages: Seq<Seq<char>>, n: nat) -> Seq<Seq<char>>
    decreases n,
{
    if n == 0 {
        Seq::empty()
    } else {
        spec_package_arguments(packages, (n - 1) as nat).push("--package"@).push(packages[n - 1])
    }
}

/// The arguments with which cargo builds the tests and does not run them.
pub open spec fn spec_build_arguments(color: bool, packages: Seq<Seq<char>>) -> Seq<Seq<char>> {
    seq![
        "test"@,
        "--no-run"@,
        "--message-format=json-render-diagnostics"@,
        if color {
            "--color=always"@
        } else {
            "--color=never"@
        },
    ] + spec_package_arguments(packages, packages.len())
}

/// The arguments with which cargo builds the tests of `packages` and does
/// not run them: it reports what it builds as JSON, with or without colour
/// in the diagnostics.
pub fn build_arguments(color: bool, packages: &Vec<String>) -> (r: Vec<String>)
    ensures
        seq_view(r@) == spec_build_arguments(color, seq_view(packages@)),
{
    let mut arguments: Vec<String> = Vec::new();
    arguments.push("test".to_owned());
    arguments.push("--no-run".to_owned());
    arguments.push("--message-format=json-render-diagnostics".to_owned());
    arguments.push(
        if color {
            "--color=always".to_owned()
        } else {
            "--color=never".to_owned()
        },
    );
    let ghost fixed = seq_view(arguments@);
    let ghost names = seq_view(packages@);
    assert(fixed =~= spec_build_arguments(color, Seq::empty()));
    assert(seq_view(arguments@) =~= fixed + spec_package_arguments(names, 0));
    let mut i: usize = 0;
    while i < packages.len()
        invariant
            i <= packages.len(),
            names == seq_view(packages@),
            seq_view(arguments@) == fixed + spec_package_arguments(names, i as nat),
        decreases packages.len() - i,
    {
        let ghost before = seq_view(arguments@);
        arguments.push("--package".to_owned());
        arguments.push(packages[i].clone());
        assert(seq_view(arguments@) =~= before.push("--package"@).push(names[i as int]));
        assert(seq_view(arguments@) =~= fixed + spec_package_arguments(names, (i + 1) as nat));
        i += 1;
    }
    assert(fixed + spec_package_arguments(names, names.len()) =~= spec_build_arguments(
        color,
        names,
    ));
    arguments
}

/// The arguments with which a test binary lists its tests.
pub open spec fn spec_listing_arguments(filter: Option<Seq<char>>) -> Seq<Seq<char>> {
    let fixed = seq!["--list"@, "--format"@, "terse"@];
    match filter {
        Some(filter) => fixed.push(filter),
        None => fixed,
    }
}

/// The arguments with which a test binary lists its tests, one to a line;
/// with a filter, only the tests that the filter selects.
pub fn listing_arguments(filter: &Option<String>) -> (r: Vec<String>)
    ensures
        seq_view(r@) == spec_listing_arguments(crate::decode::opt_view(*filter)),
{
    let mut arguments: Vec<String> = Vec::new();
    arguments.push("--list".to_owned());
    arguments.push("--format".to_owned());
    arguments.push("terse".to_owned());
    match filter {
        Some(filter) => {
            arguments.push(filter.clone());
        },
        None => {},
    }
    assert(seq_view(arguments@) =~= spec_listing_arguments(crate::decode::opt_view(*filter)));
    arguments
}

/// What the stream of cargo's messages holds next, as far as the search for
/// test binaries looks at it.
#[derive(Debug, Clone, Copy, PartialEq, Eq, Structural)]
pub enum BuildEvent {
    /// The message could not be read.
    Unreadable,
    /// Cargo built an artifact.
    CompilerArtifact { has_executable: bool, test_profile: bool },
    /// Any other message.
    Other,
}

/// What the search for test binaries does with an event.
#[derive(Debug, Clone, Copy, PartialEq, Eq, Structural)]
pub enum StreamStep {
    /// Hand the error on.
    Fail,
    /// Hand the artifact on: it is a test binary.
    Yield,
    /// Go on to the next message.
    Skip,
}

/// What the search for test binaries does with an event: an artifact is a
/// test binary if it has an executable and was built with the test profile.
pub open spec fn spec_stream_step(event: BuildEvent) -> StreamStep {
    match event {
        BuildEvent::Unreadable => StreamStep::Fail,
        BuildEvent::CompilerArtifact { has_executable, test_profile } => if has_executable
            && test_profile {
            StreamStep::Yield
        } else {
            StreamStep::Skip
        },
        BuildEvent::Other => StreamStep::Skip,
    }
}

/// What the search for test binaries does with an event.
pub fn stream_step(event: BuildEvent) -> (r: StreamStep)
    ensures
        r == spec_stream_step(event),
{
    match event {
        BuildEvent::Unreadable => StreamStep::Fail,
        BuildEvent::CompilerArtifact { has_executable, test_profile } => if has_executable
            && test_profile {
            StreamStep::Yield
        } else {
            StreamStep::Skip
        },
        BuildEvent::Other => StreamStep::Skip,
    }
}

/// Whether a character is white space: one with Unicode's property
/// `White_Space`.
pub open spec fn spec_is_whitespace(c: char) -> bool {
    let code = c as u32;
    ||| 0x09 <= code <= 0x0d
    ||| code == 0x20
    ||| code == 0x85
    ||| code == 0xa0
    ||| code == 0x1680
    ||| 0x2000 <= code <= 0x200a
    ||| code == 0x2028
    ||| code == 0x2029
    ||| code == 0x202f
    ||| code == 0x205f
    ||| code == 0x3000
}

/// A text without the white space that it starts with.
pub open spec fn spec_trim_start(text: Seq<char>) -> Seq<char>
    decreases text.len(),
{
    if text.len() > 0 && spec_is_whitespace(text[0]) {
        spec_trim_start(text.drop_first())
    } else {
        text
    }
}

/// A text without the white space that it ends with.
pub open spec fn spec_trim_end(text: Seq<char>) -> Seq<char>
    decreases text.len(),
{
    if text.len() > 0 && spec_is_whitespace(text.last()) {
        spec_trim_end(text.drop_last())
    } else {
        text
    }
}

/// A text without the white space that it starts and ends with.
pub open spec fn spec_trim(text: Seq<char>) -> Seq<char> {
    spec_trim_end(spec_trim_start(text))
}

/// A text without the white space around it.
///
/// Wraps `trim` of `str`, which std documents as removing leading and
/// trailing white space, white space being the characters with Unicode's
/// property `White_Space`.
#[verifier::external_body]
fn trimmed(text: &str) -> (r: String)
    ensures
        r@ == spec_trim(text@),
{
    text.trim().to_string()
}

/// The pattern that finds the name of a test in a line of a test binary's
/// terse listing: what stands, without a space in it, before `: test`.
pub open spec fn spec_case_pattern() -> Seq<char> {
    "\\b([^ ]*): test"@
}

/// The pattern that finds the name of a test in a line of a test binary's
/// terse listing.
pub fn case_pattern() -> (r: &'static str)
    ensures
        r@ == spec_case_pattern(),
{
    "\\b([^ ]*): test"
}

/// Why the names of the tests could not be taken from a listing.
#[derive(Debug, Clone, Copy, PartialEq, Eq, Structural)]
pub enum ListingError {
    /// The pattern was refused.
    Pattern,
    /// A match held nothing for the name.
    NoName,
}

/// Whether every one of the first `n` groups took part in its match.
pub open spec fn spec_all_found(groups: Seq<Option<Seq<char>>>, n: nat) -> bool {
    forall|i: int| 0 <= i < n ==> (#[trigger] groups[i]) is Some
}

/// The names of the tests, given what the pattern's group holds for each
/// match: each name without the white space around it; or a failure if some
/// match holds nothing for the name.
pub open spec fn spec_cases_of_groups(groups: Seq<Option<Seq<char>>>) -> Result<
    Seq<Seq<char>>,
    ListingError,
> {
    if spec_all_found(groups, groups.len()) {
        Ok(Seq::new(groups.len(), |i: int| spec_trim(groups[i]->0)))
    } else {
        Err(ListingError::NoName)
    }
}

/// The texts of a list of groups, in order.
pub open spec fn groups_view(groups: Seq<Option<String>>) -> Seq<Option<Seq<char>>> {
    Seq::new(groups.len(), |i: int| crate::decode::opt_view(groups[i]))
}

/// The names of the tests, given what the pattern's group holds for each
/// match.
pub fn cases_of_groups(groups: &Vec<Option<String>>) -> (r: Result<Vec<String>, ListingError>)
    ensures
        match r {
            Ok(cases) => spec_cases_of_groups(groups_view(groups@)) == Ok::<
                Seq<Seq<char>>,
                ListingError,
            >(seq_view(cases@)),
            Err(e) => spec_cases_of_groups(groups_view(groups@)) == Err::<
                Seq<Seq<char>>,
                ListingError,
            >(e),
        },
{
    let ghost texts = groups_view(groups@);
    let mut cases: Vec<String> = Vec::new();
    let mut i: usize = 0;
    while i < groups.len()
        invariant
            i <= groups.len(),
            texts == groups_view(groups@),
            spec_all_found(texts, i as nat),
            cases@.len() == i,
            forall|j: int| 0 <= j < i ==> (#[trigger] cases@[j])@ == spec_trim(texts[j]->0),
        decreases groups.len() - i,
    {
        assert(texts[i as int] == crate::decode::opt_view(groups@[i as int]));
        match &groups[i] {
            None => {
                return Err(ListingError::NoName);
            },
            Some(name) => {
                cases.push(trimmed(name.as_str()));
            },
        }
        i += 1;
    }
    assert(seq_view(cases@) =~= spec_cases_of_groups(texts)->Ok_0);
    Ok(cases)
}

/// What is left of a text after white space has been taken from its start
/// does not start with white space.
proof fn lemma_trim_start(text: Seq<char>)
    ensures
        spec_trim_start(text).len() > 0 ==> !spec_is_whitespace(spec_trim_start(text)[0]),
    decreases text.len(),
{
    if text.len() > 0 && spec_is_whitespace(text[0]) {
        lemma_trim_start(text.drop_first());
    }
}

/// What is left of a text after white space has been taken from its end
/// starts as the text did, unless nothing is left.
proof fn lemma_trim_end(text: Seq<char>)
    ensures
        spec_trim_end(text).len() > 0 ==> !spec_is_whitespace(spec_trim_end(text).last())
            && spec_trim_end(text)[0] == text[0],
    decreases text.len(),
{
    if text.len() > 0 && spec_is_whitespace(text.last()) {
        lemma_trim_end(text.drop_last());
    }
}

/// Whether a text neither starts nor ends with white space.
pub open spec fn spec_is_trimmed(text: Seq<char>) -> bool {
    text.len() > 0 ==> !spec_is_whitespace(text[0]) && !spec_is_whitespace(text.last())
}

/// A text without the white space around it neither starts nor ends with
/// white space.
pub proof fn lemma_trim_is_trimmed(text: Seq<char>)
    ensures
        spec_is_trimmed(spec_trim(text)),
{
    lemma_trim_start(text);
    lemma_trim_end(spec_trim_start(text));
}

/// `regex::Error`: why the regex crate refused a pattern. Nothing is known
/// of what is inside.
#[verifier::external_type_specification]
#[verifier::external_body]
pub struct ExRegexError(regex::Error);

/// What the group `group` holds in each of the successive matches of
/// `pattern` in `haystack` that do not overlap: its text, or nothing where
/// the group took no part in the match. There is no such list where the
/// pattern is refused.
pub uninterp spec fn spec_group_of_matches(pattern: Seq<char>, haystack: Seq<char>, group: nat)
    -> Option<Seq<Option<Seq<char>>>>;

/// What the group `group` holds in each match of `pattern` in `haystack`.
///
/// Wraps `Regex::captures_iter` of the regex crate, on the pattern compiled
/// with `Regex::new`, and brings each match into plain values with
/// `Captures::get` and `Match::as_str`. The outcome is given a name: which
/// patterns the crate refuses, and what it finds, is a matter of the
/// pattern and the haystack alone.
#[verifier::external_body]
fn group_of_matches(pattern: &str, haystack: &str, group: usize) -> (r: Result<
    Vec<Option<String>>,
    regex::Error,
>)
    ensures
        match r {
            Ok(groups) => spec_group_of_matches(pattern@, haystack@, group as nat) == Some(
                groups_view(groups@),
            ),
            Err(_) => spec_group_of_matches(pattern@, haystack@, group as nat) is None,
        },
{
    let regex = regex::Regex::new(pattern)?;
    Ok(
        regex.captures_iter(haystack).map(
            |found| found.get(group).map(|part| part.as_str().to_string()),
        ).collect(),
    )
}

/// The names of the tests that a listing holds: for each match of the
/// pattern for names, what its group holds, without the white space around
/// it.
pub open spec fn spec_cases_from_listing(listing: Seq<char>) -> Result<
    Seq<Seq<char>>,
    ListingError,
> {
    match spec_group_of_matches(spec_case_pattern(), listing, 1) {
        None => Err(ListingError::Pattern),
        Some(groups) => spec_cases_of_groups(groups),
    }
}

/// The names of the tests that a test binary lists, from the text of its
/// terse listing: for each line `name: test`, the name without the white
/// space around it.
pub fn cases_from_listing(listing: &str) -> (r: Result<Vec<String>, ListingError>)
    ensures
        match r {
            Ok(cases) => spec_cases_from_listing(listing@) == Ok::<Seq<Seq<char>>, ListingError>(
                seq_view(cases@),
            ),
            Err(e) => spec_cases_from_listing(listing@) == Err::<Seq<Seq<char>>, ListingError>(e),
        },
{
    match group_of_matches(case_pattern(), listing, 1) {
        Err(_) => Err(ListingError::Pattern),
        Ok(groups) => cases_of_groups(&groups),
    }
}

/// No name that is taken from a listing starts or ends with white space.
pub proof fn lemma_cases_are_trimmed(listing: Seq<char>, i: int)
    requires
        spec_cases_from_listing(listing) is Ok,
        0 <= i < spec_cases_from_listing(listing)->Ok_0.len(),
    ensures
        spec_is_trimmed(spec_cases_from_listing(listing)->Ok_0[i]),
{
    let groups = spec_group_of_matches(spec_case_pattern(), listing, 1)->0;
    lemma_trim_is_trimmed(groups[i]->0);
}

} // verus!
