//! Test directives: a container specification together with the settings
//! that say which tests it is for and how they run.

use vstd::prelude::*;
use crate::container::{
    spec_fill_entry, ContainerField, TestContainer, TestContainerView, TestContainerVisitor,
    TestContainerVisitorView,
};
use crate::decode::{invalid_type, spec_invalid_type, Decode};
use crate::error::{
    duplicate_key, result_view, unknown_field, DecodeError, DecodeErrorView, Expectation, NameSet,
};
use crate::record::{agrees, entries_view, lemma_lookup_first, spec_lookup, EntryView};
use crate::value::{lemma_table_view, str_eq, Value, ValueView};

verus! {

/// A limit on the time a test may run, in seconds. It is never zero: no
/// limit at all is the absence of a `Timeout`.
#[derive(Debug, Clone, Copy, PartialEq, Eq)]
pub struct Timeout {
    seconds: u32,
}

impl View for Timeout {
    type V = u32;

    closed spec fn view(&self) -> u32 {
        self.seconds
    }
}

/// The limit that a number of seconds stands for: none for zero.
pub open spec fn spec_timeout(seconds: u32) -> Option<u32> {
    if seconds == 0 {
        None
    } else {
        Some(seconds)
    }
}

/// The model of an optional time limit.
pub open spec fn timeout_view(timeout: Option<Timeout>) -> Option<u32> {
    match timeout {
        None => None,
        Some(limit) => Some(limit@),
    }
}

/// The model of a `timeout` field.
pub open spec fn timeout_field_view(field: Option<Option<Timeout>>) -> Option<Option<u32>> {
    match field {
        None => None,
        Some(timeout) => Some(timeout_view(timeout)),
    }
}

impl Timeout {
    #[verifier::type_invariant]
    spec fn positive(self) -> bool {
        self.seconds > 0
    }

    /// The limit of `seconds` seconds; zero seconds is no limit.
    pub fn new(seconds: u32) -> (r: Option<Timeout>)
        ensures
            timeout_view(r) == spec_timeout(seconds),
    {
        if seconds == 0 {
            None
        } else {
            Some(Timeout { seconds })
        }
    }

    /// The limit in seconds.
    pub fn as_u32(&self) -> (r: u32)
        ensures
            r == self@,
            r > 0,
    {
        proof {
            use_type_invariant(self);
        }
        self.seconds
    }
}

/// A directive: how the tests that its filter selects are to be run.
#[derive(Debug, PartialEq, Eq)]
pub struct TestDirective<TestFilterT> {
    pub filter: Option<TestFilterT>,
    pub container: TestContainer,
    pub include_shared_libraries: Option<bool>,
    /// Unset, or set to no limit, or set to a limit.
    pub timeout: Option<Option<Timeout>>,
    pub ignore: Option<bool>,
}

/// The mathematical model of a [`TestDirective`].
pub struct TestDirectiveView<TestFilterT> {
    pub filter: Option<TestFilterT>,
    pub container: TestContainerView,
    pub include_shared_libraries: Option<bool>,
    pub timeout: Option<Option<u32>>,
    pub ignore: Option<bool>,
}

impl<TestFilterT> View for TestDirective<TestFilterT> {
    type V = TestDirectiveView<TestFilterT>;

    open spec fn view(&self) -> TestDirectiveView<TestFilterT> {
        TestDirectiveView {
            filter: self.filter,
            container: self.container@,
            include_shared_libraries: self.include_shared_libraries,
            timeout: timeout_field_view(self.timeout),
            ignore: self.ignore,
        }
    }
}

impl<TestFilterT> TestDirectiveView<TestFilterT> {
    /// The directive in which nothing is set.
    pub open spec fn spec_default() -> TestDirectiveView<TestFilterT> {
        TestDirectiveView {
            filter: None,
            container: TestContainerView::spec_default(),
            include_shared_libraries: None,
            timeout: None,
            ignore: None,
        }
    }
}

impl<TestFilterT> Default for TestDirective<TestFilterT> {
    /// The directive in which nothing is set.
    fn default() -> (r: TestDirective<TestFilterT>)
        ensures
            r@ == TestDirectiveView::<TestFilterT>::spec_default(),
    {
        TestDirective {
            filter: None,
            container: Default::default(),
            include_shared_libraries: None,
            timeout: None,
            ignore: None,
        }
    }
}

/// The fields of a directive: four of its own, and those of its container.
#[derive(Debug, Clone, Copy, PartialEq, Eq, Structural)]
pub enum DirectiveField {
    Filter,
    IncludeSharedLibraries,
    Timeout,
    Ignore,
    Network,
    EnableWritableFileSystem,
    User,
    Group,
    Mounts,
    AddedMounts,
    Image,
    WorkingDirectory,
    Layers,
    AddedLayers,
    Environment,
    AddedEnvironment,
}

impl DirectiveField {
    /// The field of the container that this is, unless it is one of the
    /// directive's own.
    pub open spec fn spec_into_container_field(self) -> Option<ContainerField> {
        match self {
            DirectiveField::Filter => None,
            DirectiveField::IncludeSharedLibraries => None,
            DirectiveField::Timeout => None,
            DirectiveField::Ignore => None,
            DirectiveField::Network => Some(ContainerField::Network),
            DirectiveField::EnableWritableFileSystem => Some(
                ContainerField::EnableWritableFileSystem,
            ),
            DirectiveField::User => Some(ContainerField::User),
            DirectiveField::Group => Some(ContainerField::Group),
            DirectiveField::Mounts => Some(ContainerField::Mounts),
            DirectiveField::AddedMounts => Some(ContainerField::AddedMounts),
            DirectiveField::Image => Some(ContainerField::Image),
            DirectiveField::WorkingDirectory => Some(ContainerField::WorkingDirectory),
            DirectiveField::Layers => Some(ContainerField::Layers),
            DirectiveField::AddedLayers => Some(ContainerField::AddedLayers),
            DirectiveField::Environment => Some(ContainerField::Environment),
            DirectiveField::AddedEnvironment => Some(ContainerField::AddedEnvironment),
        }
    }

    /// The field of the container that this is, unless it is one of the
    /// directive's own.
    pub fn into_container_field(self) -> (r: Option<ContainerField>)
        ensures
            r == self.spec_into_container_field(),
    {
        match self {
            Self::Filter => None,
            Self::IncludeSharedLibraries => None,
            Self::Timeout => None,
            Self::Ignore => None,
            Self::Network => Some(ContainerField::Network),
            Self::EnableWritableFileSystem => Some(ContainerField::EnableWritableFileSystem),
            Self::User => Some(ContainerField::User),
            Self::Group => Some(ContainerField::Group),
            Self::Mounts => Some(ContainerField::Mounts),
            Self::AddedMounts => Some(ContainerField::AddedMounts),
            Self::Image => Some(ContainerField::Image),
            Self::WorkingDirectory => Some(ContainerField::WorkingDirectory),
            Self::Layers => Some(ContainerField::Layers),
            Self::AddedLayers => Some(ContainerField::AddedLayers),
            Self::Environment => Some(ContainerField::Environment),
            Self::AddedEnvironment => Some(ContainerField::AddedEnvironment),
        }
    }

    /// The field of a directive that a field of its container is.
    pub open spec fn spec_from_container_field(field: ContainerField) -> DirectiveField {
        match field {
            ContainerField::Network => DirectiveField::Network,
            ContainerField::EnableWritableFileSystem => DirectiveField::EnableWritableFileSystem,
            ContainerField::User => DirectiveField::User,
            ContainerField::Group => DirectiveField::Group,
            ContainerField::Mounts => DirectiveField::Mounts,
            ContainerField::AddedMounts => DirectiveField::AddedMounts,
            ContainerField::Image => DirectiveField::Image,
            ContainerField::WorkingDirectory => DirectiveField::WorkingDirectory,
            ContainerField::Layers => DirectiveField::Layers,
            ContainerField::AddedLayers => DirectiveField::AddedLayers,
            ContainerField::Environment => DirectiveField::Environment,
            ContainerField::AddedEnvironment => DirectiveField::AddedEnvironment,
        }
    }

    /// The field of a directive that a field of its container is.
    pub fn from_container_field(field: ContainerField) -> (r: DirectiveField)
        ensures
            r == DirectiveField::spec_from_container_field(field),
            r.spec_into_container_field() == Some(field),
    {
        match field {
            ContainerField::Network => DirectiveField::Network,
            ContainerField::EnableWritableFileSystem => DirectiveField::EnableWritableFileSystem,
            ContainerField::User => DirectiveField::User,
            ContainerField::Group => DirectiveField::Group,
            ContainerField::Mounts => DirectiveField::Mounts,
            ContainerField::AddedMounts => DirectiveField::AddedMounts,
            ContainerField::Image => DirectiveField::Image,
            ContainerField::WorkingDirectory => DirectiveField::WorkingDirectory,
            ContainerField::Layers => DirectiveField::Layers,
            ContainerField::AddedLayers => DirectiveField::AddedLayers,
            ContainerField::Environment => DirectiveField::Environment,
            ContainerField::AddedEnvironment => DirectiveField::AddedEnvironment,
        }
    }

    /// The field that a key stands for, if it stands for one.
    pub open spec fn spec_from_name(name: Seq<char>) -> Option<DirectiveField> {
        if name == "filter"@ {
            Some(DirectiveField::Filter)
        } else if name == "include_shared_libraries"@ {
            Some(DirectiveField::IncludeSharedLibraries)
        } else if name == "timeout"@ {
            Some(DirectiveField::Timeout)
        } else if name == "ignore"@ {
            Some(DirectiveField::Ignore)
        } else {
            match ContainerField::spec_from_name(name) {
                Some(field) => Some(DirectiveField::spec_from_container_field(field)),
                None => None,
            }
        }
    }

    /// The field that a key stands for, if it stands for one.
    pub fn from_name(name: &str) -> (r: Option<DirectiveField>)
        ensures
            r == DirectiveField::spec_from_name(name@),
    {
        if str_eq(name, "filter") {
            Some(DirectiveField::Filter)
        } else if str_eq(name, "include_shared_libraries") {
            Some(DirectiveField::IncludeSharedLibraries)
        } else if str_eq(name, "timeout") {
            Some(DirectiveField::Timeout)
        } else if str_eq(name, "ignore") {
            Some(DirectiveField::Ignore)
        } else {
            match ContainerField::from_name(name) {
                Some(field) => Some(DirectiveField::from_container_field(field)),
                None => None,
            }
        }
    }

    /// The key under which the field stands in a declaration.
    pub open spec fn spec_name(self) -> Seq<char> {
        match self.spec_into_container_field() {
            Some(field) => field.spec_name(),
            None => match self {
                DirectiveField::Filter => "filter"@,
                DirectiveField::IncludeSharedLibraries => "include_shared_libraries"@,
                DirectiveField::Timeout => "timeout"@,
                _ => "ignore"@,
            },
        }
    }

    /// The key under which the field stands in a declaration.
    pub fn name(self) -> (r: &'static str)
        ensures
            r@ == self.spec_name(),
    {
        match self.into_container_field() {
            Some(field) => field.name(),
            None => match self {
                DirectiveField::Filter => "filter",
                DirectiveField::IncludeSharedLibraries => "include_shared_libraries",
                DirectiveField::Timeout => "timeout",
                _ => "ignore",
            },
        }
    }
}

/// A directive under construction.
pub struct DirectiveVisitor<TestFilterT> {
    pub value: TestDirective<TestFilterT>,
    pub container_visitor: TestContainerVisitor,
}

/// The mathematical model of a [`DirectiveVisitor`]: the directive's own
/// fields as far as they are set, the container that the directive holds
/// until it is finished, and its container under construction.
pub struct DirectiveVisitorView<TestFilterT> {
    pub filter: Option<TestFilterT>,
    pub container: TestContainerView,
    pub include_shared_libraries: Option<bool>,
    pub timeout: Option<Option<u32>>,
    pub ignore: Option<bool>,
    pub container_visitor: TestContainerVisitorView,
}

impl<TestFilterT> View for DirectiveVisitor<TestFilterT> {
    type V = DirectiveVisitorView<TestFilterT>;

    open spec fn view(&self) -> DirectiveVisitorView<TestFilterT> {
        DirectiveVisitorView {
            filter: self.value.filter,
            container: self.value.container@,
            include_shared_libraries: self.value.include_shared_libraries,
            timeout: timeout_field_view(self.value.timeout),
            ignore: self.value.ignore,
            container_visitor: self.container_visitor@,
        }
    }
}

impl<TestFilterT> DirectiveVisitorView<TestFilterT> {
    /// The builder in which nothing is set.
    pub open spec fn start() -> DirectiveVisitorView<TestFilterT> {
        DirectiveVisitorView {
            filter: None,
            container: TestContainerView::spec_default(),
            include_shared_libraries: None,
            timeout: None,
            ignore: None,
            container_visitor: TestContainerVisitorView::start(),
        }
    }

    /// The finished directive: its container is the one that was under
    /// construction, whatever the directive held before.
    pub open spec fn finalize(self) -> TestDirectiveView<TestFilterT> {
        TestDirectiveView {
            filter: self.filter,
            container: self.container_visitor.finalize(),
            include_shared_libraries: self.include_shared_libraries,
            timeout: self.timeout,
            ignore: self.ignore,
        }
    }

    /// The builder after the filter parser has answered: its filter is
    /// kept, its refusal ends the declaration with the parser's own message.
    pub open spec fn set_filter(self, parsed: Result<TestFilterT, Seq<char>>) -> Result<
        DirectiveVisitorView<TestFilterT>,
        DecodeErrorView,
    > {
        match parsed {
            Ok(filter) => Ok(DirectiveVisitorView { filter: Some(filter), ..self }),
            Err(message) => Err(DecodeErrorView::Filter { message }),
        }
    }
}

/// The model of what a filter parser answered.
pub open spec fn parsed_view<TestFilterT>(parsed: Result<TestFilterT, String>) -> Result<
    TestFilterT,
    Seq<char>,
> {
    match parsed {
        Ok(filter) => Ok(filter),
        Err(message) => Err(message@),
    }
}

/// The text that the filter parser is asked about when the field `ident`
/// is set to `value`: the value of a `filter` field that is a string and the
/// first of its name.
pub open spec fn spec_filter_text<TestFilterT>(
    state: DirectiveVisitorView<TestFilterT>,
    ident: DirectiveField,
    value: ValueView,
) -> Option<Seq<char>> {
    if ident == DirectiveField::Filter && state.filter is None && value is String {
        Some(value->String_0)
    } else {
        None
    }
}

/// What setting the field `ident` to `value` does to the builder, where
/// `parsed` is what the filter parser answers if it is asked.
///
/// A field that is set already is a duplicate. The directive's own fields
/// are decoded and kept; a `timeout` of zero is kept as no limit. Any other
/// field goes to the container under construction.
pub open spec fn spec_fill_directive_entry<TestFilterT>(
    state: DirectiveVisitorView<TestFilterT>,
    ident: DirectiveField,
    value: ValueView,
    parsed: Result<TestFilterT, Seq<char>>,
) -> Result<DirectiveVisitorView<TestFilterT>, DecodeErrorView> {
    let duplicate = Err::<DirectiveVisitorView<TestFilterT>, DecodeErrorView>(
        DecodeErrorView::DuplicateKey { field: ident.spec_name() },
    );
    match ident.spec_into_container_field() {
        Some(field) => match spec_fill_entry(state.container_visitor, field, value) {
            Err(e) => Err(e),
            Ok(container_visitor) => Ok(DirectiveVisitorView { container_visitor, ..state }),
        },
        None => match ident {
            DirectiveField::Filter => if state.filter is Some {
                duplicate
            } else {
                match String::spec_decode(value) {
                    Err(e) => Err(e),
                    Ok(_) => state.set_filter(parsed),
                }
            },
            DirectiveField::IncludeSharedLibraries => if state.include_shared_libraries is Some {
                duplicate
            } else {
                match bool::spec_decode(value) {
                    Err(e) => Err(e),
                    Ok(flag) => Ok(
                        DirectiveVisitorView { include_shared_libraries: Some(flag), ..state },
                    ),
                }
            },
            DirectiveField::Timeout => if state.timeout is Some {
                duplicate
            } else {
                match u32::spec_decode(value) {
                    Err(e) => Err(e),
                    Ok(seconds) => Ok(
                        DirectiveVisitorView { timeout: Some(spec_timeout(seconds)), ..state },
                    ),
                }
            },
            _ => if state.ignore is Some {
                duplicate
            } else {
                match bool::spec_decode(value) {
                    Err(e) => Err(e),
                    Ok(flag) => Ok(DirectiveVisitorView { ignore: Some(flag), ..state }),
                }
            },
        },
    }
}

/// Whether a key stands for a field of the container of a directive.
pub open spec fn spec_is_container_key(key: Seq<char>) -> bool {
    DirectiveField::spec_from_name(key) matches Some(ident)
        && ident.spec_into_container_field() is Some
}

/// The text that the filter parser is asked about when the entry `key` with
/// `value` is accepted.
pub open spec fn spec_entry_filter_text<TestFilterT>(
    state: DirectiveVisitorView<TestFilterT>,
    key: Seq<char>,
    value: ValueView,
) -> Option<Seq<char>> {
    match DirectiveField::spec_from_name(key) {
        None => None,
        Some(ident) => spec_filter_text(state, ident, value),
    }
}

/// What the entry `key` with `value` does to the builder: a key that is no
/// field of a directive is refused, any other is handled as
/// [`spec_fill_directive_entry`] says.
pub open spec fn spec_accept_directive_entry<TestFilterT>(
    state: DirectiveVisitorView<TestFilterT>,
    key: Seq<char>,
    value: ValueView,
    parsed: Result<TestFilterT, Seq<char>>,
) -> Result<DirectiveVisitorView<TestFilterT>, DecodeErrorView> {
    match DirectiveField::spec_from_name(key) {
        None => Err(DecodeErrorView::UnknownField { field: key, expected: NameSet::DirectiveFields }),
        Some(ident) => spec_fill_directive_entry(state, ident, value, parsed),
    }
}

/// The builder after the first `n` entries of a declaration have been
/// accepted in order, or the error of the first entry that was refused.
pub open spec fn spec_visit_entries<TestFilterT>(
    start: DirectiveVisitorView<TestFilterT>,
    entries: Seq<EntryView>,
    n: nat,
    parsed: Result<TestFilterT, Seq<char>>,
) -> Result<DirectiveVisitorView<TestFilterT>, DecodeErrorView>
    decreases n,
{
    if n == 0 {
        Ok(start)
    } else {
        match spec_visit_entries(start, entries, (n - 1) as nat, parsed) {
            Err(e) => Err(e),
            Ok(state) => spec_accept_directive_entry(
                state,
                entries[n - 1].0,
                entries[n - 1].1,
                parsed,
            ),
        }
    }
}

/// The directive that a builder makes of the entries of a declaration,
/// where `parsed` is what the filter parser answers if it is asked.
pub open spec fn spec_visit_map<TestFilterT>(
    start: DirectiveVisitorView<TestFilterT>,
    entries: Seq<EntryView>,
    parsed: Result<TestFilterT, Seq<char>>,
) -> Result<TestDirectiveView<TestFilterT>, DecodeErrorView> {
    match spec_visit_entries(start, entries, entries.len(), parsed) {
        Err(e) => Err(e),
        Ok(state) => Ok(state.finalize()),
    }
}

/// The directive that a value makes: the value must be a table.
pub open spec fn spec_decode_directive<TestFilterT>(
    value: ValueView,
    parsed: Result<TestFilterT, Seq<char>>,
) -> Result<TestDirectiveView<TestFilterT>, DecodeErrorView> {
    match value {
        ValueView::Table(entries) => spec_visit_map(DirectiveVisitorView::start(), entries, parsed),
        _ => Err(spec_invalid_type(value, Expectation::Table)),
    }
}

/// Once an entry has been refused, the entries after it change nothing.
pub proof fn lemma_visit_entries_error_stays<TestFilterT>(
    start: DirectiveVisitorView<TestFilterT>,
    entries: Seq<EntryView>,
    n: nat,
    m: nat,
    parsed: Result<TestFilterT, Seq<char>>,
)
    requires
        n <= m,
        spec_visit_entries(start, entries, n, parsed) is Err,
    ensures
        spec_visit_entries(start, entries, m, parsed) == spec_visit_entries(
            start,
            entries,
            n,
            parsed,
        ),
    decreases m,
{
    if n < m {
        lemma_visit_entries_error_stays(start, entries, n, (m - 1) as nat, parsed);
    }
}

/// If the whole declaration was accepted, so was every prefix of it.
pub proof fn lemma_visit_entries_prefix_ok<TestFilterT>(
    start: DirectiveVisitorView<TestFilterT>,
    entries: Seq<EntryView>,
    n: nat,
    m: nat,
    parsed: Result<TestFilterT, Seq<char>>,
)
    requires
        n <= m,
        spec_visit_entries(start, entries, m, parsed) is Ok,
    ensures
        spec_visit_entries(start, entries, n, parsed) is Ok,
    decreases m,
{
    if n < m {
        lemma_visit_entries_prefix_ok(start, entries, n, (m - 1) as nat, parsed);
    }
}

/// Whether `parsed` is the model of something that the filter parser
/// answers when it is asked about `text`.
pub open spec fn answers<TestFilterT, P: Fn(&str) -> Result<TestFilterT, String>>(
    parse_filter: P,
    text: Seq<char>,
    parsed: Result<TestFilterT, Seq<char>>,
) -> bool {
    exists|asked: &str, answer: Result<TestFilterT, String>|
        asked@ == text && #[trigger] call_ensures(parse_filter, (asked,), answer) && parsed_view(
            answer,
        ) == parsed
}

impl<TestFilterT> Default for DirectiveVisitor<TestFilterT> {
    /// The builder in which nothing is set.
    fn default() -> (r: DirectiveVisitor<TestFilterT>)
        ensures
            r@ == DirectiveVisitorView::<TestFilterT>::start(),
    {
        DirectiveVisitor { value: Default::default(), container_visitor: TestContainerVisitor::new() }
    }
}

impl<TestFilterT> DirectiveVisitor<TestFilterT> {
    /// Takes what the filter parser answered: keeps the filter, or fails
    /// with the parser's message. Nothing but the filter changes, and a
    /// refusal changes nothing.
    pub fn set_filter(&mut self, parsed: Result<TestFilterT, String>) -> (r: Result<
        (),
        DecodeError,
    >)
        ensures
            agrees(r, old(self)@.set_filter(parsed_view(parsed)), final(self)@),
            final(self).value.container == old(self).value.container,
            final(self).container_visitor == old(self).container_visitor,
            r is Err ==> *final(self) == *old(self),
    {
        match parsed {
            Ok(filter) => {
                self.value.filter = Some(filter);
                Ok(())
            },
            Err(message) => Err(DecodeError::Filter { message }),
        }
    }

    /// Sets the field `ident` to what `value` decodes to. The filter parser
    /// is asked once, about the text of a `filter` that is a string and the
    /// first of its name.
    ///
    /// Either the outcome does not depend on the parser, or it is the
    /// outcome for something that the parser answered about that text.
    ///
    /// One of the directive's own fields leaves the container under
    /// construction as it was, a field of the container leaves the
    /// directive's own fields as they were, and neither touches the
    /// container that the directive holds until it is finished. A field that
    /// is refused leaves the builder as it was.
    pub fn fill_entry<P: Fn(&str) -> Result<TestFilterT, String>>(
        &mut self,
        ident: DirectiveField,
        value: &Value,
        parse_filter: &P,
    ) -> (r: Result<(), DecodeError>)
        requires
            forall|text: &str| call_requires(*parse_filter, (text,)),
        ensures
            spec_filter_text(old(self)@, ident, value@) is None ==> forall|
                parsed: Result<TestFilterT, Seq<char>>,
            |
                agrees(
                    r,
                    #[trigger] spec_fill_directive_entry(old(self)@, ident, value@, parsed),
                    final(self)@,
                ),
            spec_filter_text(old(self)@, ident, value@) matches Some(text) ==> exists|
                parsed: Result<TestFilterT, Seq<char>>,
            |
                answers(*parse_filter, text, parsed) && agrees(
                    r,
                    #[trigger] spec_fill_directive_entry(old(self)@, ident, value@, parsed),
                    final(self)@,
                ),
            final(self).value.container == old(self).value.container,
            ident.spec_into_container_field() is Some ==> final(self).value == old(self).value,
            ident.spec_into_container_field() is None ==> final(self).container_visitor == old(
                self,
            ).container_visitor,
            r is Err ==> *final(self) == *old(self),
    {
        match ident.into_container_field() {
            Some(field) => self.container_visitor.fill_entry(field, value),
            None => match ident {
                DirectiveField::Filter => {
                    if self.value.filter.is_some() {
                        return Err(duplicate_key(ident.name()));
                    }
                    match value {
                        Value::String(text) => {
                            let ghost before = self@;
                            let answer = parse_filter(text.as_str());
                            let r = self.set_filter(answer);
                            proof {
                                let parsed = parsed_view(answer);
                                assert(answers(*parse_filter, text@, parsed));
                                assert(agrees(
                                    r,
                                    spec_fill_directive_entry(before, ident, value@, parsed),
                                    self@,
                                ));
                            }
                            r
                        },
                        _ => Err(invalid_type(value, Expectation::String)),
                    }
                },
                DirectiveField::IncludeSharedLibraries => {
                    if self.value.include_shared_libraries.is_some() {
                        return Err(duplicate_key(ident.name()));
                    }
                    match bool::decode(value) {
                        Err(e) => Err(e),
                        Ok(flag) => {
                            self.value.include_shared_libraries = Some(flag);
                            Ok(())
                        },
                    }
                },
                DirectiveField::Timeout => {
                    if self.value.timeout.is_some() {
                        return Err(duplicate_key(ident.name()));
                    }
                    match u32::decode(value) {
                        Err(e) => Err(e),
                        Ok(seconds) => {
                            self.value.timeout = Some(Timeout::new(seconds));
                            Ok(())
                        },
                    }
                },
                _ => {
                    if self.value.ignore.is_some() {
                        return Err(duplicate_key(ident.name()));
                    }
                    match bool::decode(value) {
                        Err(e) => Err(e),
                        Ok(flag) => {
                            self.value.ignore = Some(flag);
                            Ok(())
                        },
                    }
                },
            },
        }
    }

    /// Accepts the entry `key` with `value`: sets the field that the key
    /// stands for.
    ///
    /// Either the outcome does not depend on the filter parser, or it is the
    /// outcome for something that the parser answered about the filter's
    /// text.
    ///
    /// The key of one of the directive's own fields leaves the container
    /// under construction as it was, the key of a field of the container
    /// leaves the directive's own fields as they were, and none touches the
    /// container that the directive holds until it is finished. An entry
    /// that is refused leaves the builder as it was.
    pub fn accept_entry<P: Fn(&str) -> Result<TestFilterT, String>>(
        &mut self,
        key: &str,
        value: &Value,
        parse_filter: &P,
    ) -> (r: Result<(), DecodeError>)
        requires
            forall|text: &str| call_requires(*parse_filter, (text,)),
        ensures
            spec_entry_filter_text(old(self)@, key@, value@) is None ==> forall|
                parsed: Result<TestFilterT, Seq<char>>,
            |
                agrees(
                    r,
                    #[trigger] spec_accept_directive_entry(old(self)@, key@, value@, parsed),
                    final(self)@,
                ),
            spec_entry_filter_text(old(self)@, key@, value@) matches Some(text) ==> exists|
                parsed: Result<TestFilterT, Seq<char>>,
            |
                answers(*parse_filter, text, parsed) && agrees(
                    r,
                    #[trigger] spec_accept_directive_entry(old(self)@, key@, value@, parsed),
                    final(self)@,
                ),
            final(self).value.container == old(self).value.container,
            spec_is_container_key(key@) ==> final(self).value == old(self).value,
            !spec_is_container_key(key@) ==> final(self).container_visitor == old(
                self,
            ).container_visitor,
            r is Err ==> *final(self) == *old(self),
    {
        match DirectiveField::from_name(key) {
            None => Err(unknown_field(key, NameSet::DirectiveFields)),
            Some(ident) => {
                let ghost before = self@;
                let r = self.fill_entry(ident, value, parse_filter);
                proof {
                    assert forall|parsed: Result<TestFilterT, Seq<char>>|
                        #[trigger] spec_accept_directive_entry(before, key@, value@, parsed)
                            == spec_fill_directive_entry(before, ident, value@, parsed) by {}
                    if spec_filter_text(before, ident, value@) is Some {
                        let parsed = choose|parsed: Result<TestFilterT, Seq<char>>|
                            answers(*parse_filter, spec_filter_text(before, ident, value@)->0, parsed)
                                && agrees(
                                r,
                                #[trigger] spec_fill_directive_entry(before, ident, value@, parsed),
                                self@,
                            );
                        assert(agrees(
                            r,
                            spec_accept_directive_entry(before, key@, value@, parsed),
                            self@,
                        ));
                    }
                }
                r
            },
        }
    }

    /// The finished directive.
    pub fn finalize(self) -> (r: TestDirective<TestFilterT>)
        ensures
            r@ == self@.finalize(),
    {
        let mut value = self.value;
        value.container = self.container_visitor.finalize();
        value
    }
}

/// Whether `r` is what a builder that starts at `start` makes of `entries`
/// with the filter parser `parse_filter`: either the outcome is the same
/// whatever the parser answers, or the builder started without a filter and
/// the outcome is the one for something that the parser answered about the
/// text of the first `filter` entry.
pub open spec fn visited<TestFilterT, P: Fn(&str) -> Result<TestFilterT, String>>(
    parse_filter: P,
    start: DirectiveVisitorView<TestFilterT>,
    entries: Seq<EntryView>,
    r: Result<TestDirectiveView<TestFilterT>, DecodeErrorView>,
) -> bool {
    ||| forall|parsed: Result<TestFilterT, Seq<char>>|
        r == #[trigger] spec_visit_map(start, entries, parsed)
    ||| exists|parsed: Result<TestFilterT, Seq<char>>|
        {
            &&& start.filter is None
            &&& spec_lookup(entries, "filter"@) matches Some(ValueView::String(text))
            &&& answers(parse_filter, text, parsed)
            &&& r == #[trigger] spec_visit_map(start, entries, parsed)
        }
}

/// Only a `filter` entry sets the filter.
proof fn lemma_filter_kept<TestFilterT>(
    state: DirectiveVisitorView<TestFilterT>,
    key: Seq<char>,
    value: ValueView,
    parsed: Result<TestFilterT, Seq<char>>,
)
    requires
        spec_accept_directive_entry(state, key, value, parsed) is Ok,
    ensures
        key != "filter"@ ==> spec_accept_directive_entry(state, key, value, parsed)->Ok_0.filter
            == state.filter,
        key == "filter"@ ==> state.filter is None && value is String && spec_accept_directive_entry(
            state,
            key,
            value,
            parsed,
        )->Ok_0.filter is Some,
{
}

impl<TestFilterT> DirectiveVisitor<TestFilterT> {
    /// Accepts the entries of a declaration in document order and finishes
    /// the directive; the first entry that is refused ends it.
    pub fn visit_map<P: Fn(&str) -> Result<TestFilterT, String>>(
        self,
        entries: &Vec<(String, Value)>,
        parse_filter: &P,
    ) -> (r: Result<TestDirective<TestFilterT>, DecodeError>)
        requires
            forall|text: &str| call_requires(*parse_filter, (text,)),
        ensures
            visited(*parse_filter, self@, entries_view(entries@), result_view(r)),
    {
        let ghost start = self@;
        let ghost models = entries_view(entries@);
        let ghost mut consulted: Option<Result<TestFilterT, Seq<char>>> = None;
        let mut visitor = self;
        let mut i: usize = 0;
        while i < entries.len()
            invariant
                i <= entries.len(),
                start == self@,
                models == entries_view(entries@),
                forall|text: &str| call_requires(*parse_filter, (text,)),
                consulted is None ==> forall|parsed: Result<TestFilterT, Seq<char>>|
                    #[trigger] spec_visit_entries(start, models, i as nat, parsed) == Ok::<
                        DirectiveVisitorView<TestFilterT>,
                        DecodeErrorView,
                    >(visitor@),
                consulted is None ==> visitor@.filter == start.filter,
                consulted is None && start.filter is None ==> forall|j: int|
                    0 <= j < i ==> (#[trigger] models[j]).0 != "filter"@,
                consulted matches Some(parsed) ==> {
                    &&& start.filter is None
                    &&& visitor@.filter is Some
                    &&& spec_lookup(models, "filter"@) matches Some(ValueView::String(text))
                    &&& answers(*parse_filter, text, parsed)
                    &&& spec_visit_entries(start, models, i as nat, parsed) == Ok::<
                        DirectiveVisitorView<TestFilterT>,
                        DecodeErrorView,
                    >(visitor@)
                },
            decreases entries.len() - i,
        {
            let entry = &entries[i];
            let ghost before = visitor@;
            let ghost key = entry.0@;
            let ghost value = entry.1@;
            assert(models[i as int] == (key, value));
            let r = visitor.accept_entry(entry.0.as_str(), &entry.1, parse_filter);
            proof {
                let asked = spec_entry_filter_text(before, key, value);
                if consulted is None && asked is Some {
                    let parsed = choose|parsed: Result<TestFilterT, Seq<char>>|
                        answers(*parse_filter, asked->0, parsed) && agrees(
                            r,
                            #[trigger] spec_accept_directive_entry(before, key, value, parsed),
                            visitor@,
                        );
                    assert(key == "filter"@);
                    lemma_lookup_first(models, "filter"@, i as nat, 0);
                    assert(spec_visit_entries(start, models, i as nat, parsed) == Ok::<
                        DirectiveVisitorView<TestFilterT>,
                        DecodeErrorView,
                    >(before));
                    assert(agrees(
                        r,
                        spec_visit_entries(start, models, (i + 1) as nat, parsed),
                        visitor@,
                    ));
                    if r is Ok {
                        lemma_filter_kept(before, key, value, parsed);
                    }
                    consulted = Some(parsed);
                } else if consulted is None {
                    assert forall|parsed: Result<TestFilterT, Seq<char>>|
                        agrees(
                            r,
                            #[trigger] spec_visit_entries(start, models, (i + 1) as nat, parsed),
                            visitor@,
                        ) by {
                        assert(spec_visit_entries(start, models, i as nat, parsed) == Ok::<
                            DirectiveVisitorView<TestFilterT>,
                            DecodeErrorView,
                        >(before));
                        assert(agrees(
                            r,
                            spec_accept_directive_entry(before, key, value, parsed),
                            visitor@,
                        ));
                    }
                    if r is Ok {
                        let any: Result<TestFilterT, Seq<char>> = Err(Seq::empty());
                        assert(agrees(
                            r,
                            spec_accept_directive_entry(before, key, value, any),
                            visitor@,
                        ));
                        lemma_filter_kept(before, key, value, any);
                    }
                } else {
                    let parsed = consulted->0;
                    assert(asked is None);
                    assert(agrees(
                        r,
                        spec_accept_directive_entry(before, key, value, parsed),
                        visitor@,
                    ));
                    assert(agrees(
                        r,
                        spec_visit_entries(start, models, (i + 1) as nat, parsed),
                        visitor@,
                    ));
                    if r is Ok {
                        lemma_filter_kept(before, key, value, parsed);
                    }
                }
            }
            match r {
                Ok(()) => {},
                Err(e) => {
                    proof {
                        if consulted is Some {
                            let parsed = consulted->0;
                            lemma_visit_entries_error_stays(
                                start,
                                models,
                                (i + 1) as nat,
                                models.len(),
                                parsed,
                            );
                            assert(spec_visit_map(start, models, parsed) == Err::<
                                TestDirectiveView<TestFilterT>,
                                DecodeErrorView,
                            >(e@));
                        } else {
                            assert forall|parsed: Result<TestFilterT, Seq<char>>|
                                #[trigger] spec_visit_map(start, models, parsed) == Err::<
                                    TestDirectiveView<TestFilterT>,
                                    DecodeErrorView,
                                >(e@) by {
                                assert(agrees(
                                    r,
                                    spec_visit_entries(start, models, (i + 1) as nat, parsed),
                                    visitor@,
                                ));
                                lemma_visit_entries_error_stays(
                                    start,
                                    models,
                                    (i + 1) as nat,
                                    models.len(),
                                    parsed,
                                );
                            }
                        }
                    }
                    return Err(e);
                },
            }
            i += 1;
        }
        let directive = visitor.finalize();
        proof {
            if consulted is Some {
                assert(spec_visit_map(start, models, consulted->0) == Ok::<
                    TestDirectiveView<TestFilterT>,
                    DecodeErrorView,
                >(directive@));
            } else {
                assert forall|parsed: Result<TestFilterT, Seq<char>>|
                    #[trigger] spec_visit_map(start, models, parsed) == Ok::<
                        TestDirectiveView<TestFilterT>,
                        DecodeErrorView,
                    >(directive@) by {
                    assert(spec_visit_entries(start, models, i as nat, parsed) == Ok::<
                        DirectiveVisitorView<TestFilterT>,
                        DecodeErrorView,
                    >(visitor@));
                }
            }
        }
        Ok(directive)
    }
}

impl<TestFilterT> TestDirective<TestFilterT> {
    /// Decodes a directive from a table of its fields, which are set in
    /// document order. `parse_filter` turns the text of the filter into a
    /// filter, or into the message that says why it is none.
    ///
    /// Either the outcome is the same whatever the parser answers, or it is
    /// the outcome for something that the parser answered about the text of
    /// the first `filter` entry.
    pub fn deserialize<P: Fn(&str) -> Result<TestFilterT, String>>(
        value: &Value,
        parse_filter: &P,
    ) -> (r: Result<TestDirective<TestFilterT>, DecodeError>)
        requires
            forall|text: &str| call_requires(*parse_filter, (text,)),
        ensures
            match value@ {
                ValueView::Table(entries) => visited(
                    *parse_filter,
                    DirectiveVisitorView::start(),
                    entries,
                    result_view(r),
                ),
                other => result_view(r) == Err::<TestDirectiveView<TestFilterT>, DecodeErrorView>(
                    spec_invalid_type(other, Expectation::Table),
                ),
            },
    {
        match value {
            Value::Table(entries) => {
                proof {
                    lemma_table_view(*value);
                }
                let visitor: DirectiveVisitor<TestFilterT> = Default::default();
                visitor.visit_map(entries, parse_filter)
            },
            _ => Err(invalid_type(value, Expectation::Table)),
        }
    }
}

} // verus!
