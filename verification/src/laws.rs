//! What holds of every declaration that is accepted.
//!
//! A directive, a container and a named container all hand the container
//! fields of their declaration to the same builder, in document order. The
//! laws are stated of the container that a declaration declares in this
//! way; three lemmas say that each of the decoders declares just that
//! container.

use vstd::prelude::*;
use crate::container::{
    spec_fill_entry, ContainerField, NamedTestContainer, NamedTestContainerVisitor,
    NamedTestContainerVisitorView, Provenance, TestContainer, TestContainerView,
    TestContainerVisitor, TestContainerVisitorView,
};
use crate::decode::{lemma_decode_items_ok, spec_decode_array, Decode};
use crate::directive::{
    spec_timeout, spec_visit_entries, spec_visit_map, DirectiveField, DirectiveVisitorView,
    TestDirectiveView,
};
use crate::error::{DecodeErrorView, ImageUse};
use crate::image::{ImageReference, ImageReferenceView};
use crate::mount::{Mount, MountFields, MountFieldsView, MountView};
use crate::record::{spec_accept_entries, EntryView};
use crate::value::ValueView;

verus! {

/// The container field that the entry at index `i` sets, if its key names
/// one.
pub open spec fn field_at(entries: Seq<EntryView>, i: int) -> Option<ContainerField> {
    ContainerField::spec_from_name(entries[i].0)
}

/// The container builder after the container fields among the first `n`
/// entries have been set in order; entries that set no container field are
/// passed over.
pub open spec fn spec_container_after(entries: Seq<EntryView>, n: nat) -> Result<
    TestContainerVisitorView,
    DecodeErrorView,
>
    decreases n,
{
    if n == 0 {
        Ok(TestContainerVisitorView::start())
    } else {
        match spec_container_after(entries, (n - 1) as nat) {
            Err(e) => Err(e),
            Ok(state) => match field_at(entries, n - 1) {
                None => Ok(state),
                Some(ident) => spec_fill_entry(state, ident, entries[n - 1].1),
            },
        }
    }
}

/// The container that a declaration declares: what its container fields
/// make in the order in which they stand.
pub open spec fn spec_declared_container(entries: Seq<EntryView>) -> Result<
    TestContainerView,
    DecodeErrorView,
> {
    match spec_container_after(entries, entries.len()) {
        Err(e) => Err(e),
        Ok(state) => Ok(state.finalize()),
    }
}

/// If the container fields of a declaration are accepted, so are those of
/// every prefix of it.
pub proof fn lemma_container_prefix_ok(entries: Seq<EntryView>, n: nat, m: nat)
    requires
        n <= m,
        spec_container_after(entries, m) is Ok,
    ensures
        spec_container_after(entries, n) is Ok,
    decreases m,
{
    if n < m {
        lemma_container_prefix_ok(entries, n, (m - 1) as nat);
    }
}

/// Whether one of the first `n` entries sets the container field `field`.
pub open spec fn seen(entries: Seq<EntryView>, n: nat, field: ContainerField) -> bool
    decreases n,
{
    n > 0 && (field_at(entries, n - 1) == Some(field) || seen(entries, (n - 1) as nat, field))
}

/// Whether the entry at index `i` is an image that supplies `field`.
pub open spec fn supplies(entries: Seq<EntryView>, i: int, field: ImageUse) -> bool {
    &&& field_at(entries, i) == Some(ContainerField::Image)
    &&& ImageReference::spec_decode(entries[i].1) matches Ok(image)
    &&& image.uses.spec_contains(field)
}

/// Whether one of the first `n` entries is an image that supplies `field`.
pub open spec fn supplied(entries: Seq<EntryView>, n: nat, field: ImageUse) -> bool
    decreases n,
{
    n > 0 && (supplies(entries, n - 1, field) || supplied(entries, (n - 1) as nat, field))
}

/// An entry among the first `n` that sets `field` has been seen.
pub proof fn lemma_seen_at(entries: Seq<EntryView>, n: nat, field: ContainerField, i: int)
    requires
        0 <= i < n,
        field_at(entries, i) == Some(field),
    ensures
        seen(entries, n, field),
    decreases n,
{
    if i < n - 1 {
        lemma_seen_at(entries, (n - 1) as nat, field, i);
    }
}

/// A field that has been seen is set by one of the first `n` entries.
pub proof fn lemma_seen_somewhere(entries: Seq<EntryView>, n: nat, field: ContainerField) -> (i:
    int)
    requires
        seen(entries, n, field),
    ensures
        0 <= i < n,
        field_at(entries, i) == Some(field),
    decreases n,
{
    if field_at(entries, n - 1) == Some(field) {
        n - 1
    } else {
        lemma_seen_somewhere(entries, (n - 1) as nat, field)
    }
}

/// An image among the first `n` entries that supplies `field` has been
/// counted.
pub proof fn lemma_supplied_at(entries: Seq<EntryView>, n: nat, field: ImageUse, i: int)
    requires
        0 <= i < n,
        supplies(entries, i, field),
    ensures
        supplied(entries, n, field),
    decreases n,
{
    if i < n - 1 {
        lemma_supplied_at(entries, (n - 1) as nat, field, i);
    }
}

/// A field that has been supplied is supplied by one of the first `n`
/// entries.
pub proof fn lemma_supplied_somewhere(entries: Seq<EntryView>, n: nat, field: ImageUse) -> (i: int)
    requires
        supplied(entries, n, field),
    ensures
        0 <= i < n,
        supplies(entries, i, field),
    decreases n,
{
    if supplies(entries, n - 1, field) {
        n - 1
    } else {
        lemma_supplied_somewhere(entries, (n - 1) as nat, field)
    }
}

/// The container field under which a field that an image can supply is set
/// explicitly.
pub open spec fn explicit_field(field: ImageUse) -> ContainerField {
    match field {
        ImageUse::Layers => ContainerField::Layers,
        ImageUse::Environment => ContainerField::Environment,
        ImageUse::WorkingDirectory => ContainerField::WorkingDirectory,
    }
}

/// Whether the builder holds something for the container field `field`.
/// For a field that an image can supply, this asks for an explicit value.
pub open spec fn is_set(state: TestContainerVisitorView, field: ContainerField) -> bool {
    match field {
        ContainerField::Network => state.network is Some,
        ContainerField::EnableWritableFileSystem => state.enable_writable_file_system is Some,
        ContainerField::User => state.user is Some,
        ContainerField::Group => state.group is Some,
        ContainerField::Mounts => state.mounts is Some,
        ContainerField::AddedMounts => state.added_mounts is Some,
        ContainerField::Image => state.image is Some,
        ContainerField::WorkingDirectory => state.provenance(ImageUse::WorkingDirectory)
            == Provenance::Explicit,
        ContainerField::Layers => state.provenance(ImageUse::Layers) == Provenance::Explicit,
        ContainerField::AddedLayers => state.added_layers is Some,
        ContainerField::Environment => state.provenance(ImageUse::Environment)
            == Provenance::Explicit,
        ContainerField::AddedEnvironment => state.added_environment is Some,
    }
}

/// Whether setting `ident` to `value` is an image that supplies `field`.
pub open spec fn step_supplies(ident: ContainerField, value: ValueView, field: ImageUse) -> bool {
    &&& ident == ContainerField::Image
    &&& ImageReference::spec_decode(value) matches Ok(image)
    &&& image.uses.spec_contains(field)
}

/// Basing a container on an image leaves to the image exactly the fields
/// that the reference uses, and sets nothing else but the image's name.
proof fn lemma_use_image_step(state: TestContainerVisitorView, image: ImageReferenceView)
    requires
        state.image is None,
        state.use_image(image) is Ok,
    ensures
        forall|field: ContainerField|
            #![trigger is_set(state.use_image(image)->Ok_0, field)]
            is_set(state.use_image(image)->Ok_0, field) <==> is_set(state, field) || field
                == ContainerField::Image,
        forall|field: ImageUse|
            #![trigger state.use_image(image)->Ok_0.provenance(field)]
            state.use_image(image)->Ok_0.provenance(field) == Provenance::FromImage
                <==> state.provenance(field) == Provenance::FromImage || image.uses.spec_contains(
                field,
            ),
{
    let named = TestContainerVisitorView { image: Some(image.name), ..state };
    let with_layers = named.supply(ImageUse::Layers, image.uses.layers)->Ok_0;
    let with_environment = with_layers.supply(ImageUse::Environment, image.uses.environment)->Ok_0;
    let after = state.use_image(image)->Ok_0;
    assert(after == with_environment.supply(
        ImageUse::WorkingDirectory,
        image.uses.working_directory,
    )->Ok_0);
}

/// One step of the builder sets the field it is about and, where it is an
/// image, leaves to the image what the reference uses; nothing else
/// changes hands.
pub proof fn lemma_fill_step(state: TestContainerVisitorView, ident: ContainerField, value: ValueView)
    requires
        spec_fill_entry(state, ident, value) is Ok,
    ensures
        !is_set(state, ident),
        forall|field: ContainerField|
            #![trigger is_set(spec_fill_entry(state, ident, value)->Ok_0, field)]
            is_set(spec_fill_entry(state, ident, value)->Ok_0, field) <==> is_set(state, field)
                || field == ident,
        forall|field: ImageUse|
            #![trigger spec_fill_entry(state, ident, value)->Ok_0.provenance(field)]
            spec_fill_entry(state, ident, value)->Ok_0.provenance(field) == Provenance::FromImage
                <==> state.provenance(field) == Provenance::FromImage || step_supplies(
                ident,
                value,
                field,
            ),
{
    match ident {
        ContainerField::Image => {
            lemma_use_image_step(state, ImageReference::spec_decode(value)->Ok_0);
        },
        _ => {},
    }
}

/// What the builder holds says which fields have been set, and how.
pub open spec fn ledger_agrees(
    state: TestContainerVisitorView,
    entries: Seq<EntryView>,
    n: nat,
) -> bool {
    &&& forall|field: ContainerField|
        #![trigger is_set(state, field)]
        is_set(state, field) <==> seen(entries, n, field)
    &&& forall|field: ImageUse|
        #![trigger state.provenance(field)]
        state.provenance(field) == Provenance::FromImage <==> supplied(entries, n, field)
}

/// The ledger: after any number of entries, a field of the builder is set
/// exactly if an entry has set it, and left to the image exactly if an
/// image entry supplies it.
pub proof fn lemma_ledger(entries: Seq<EntryView>, n: nat)
    requires
        spec_container_after(entries, n) is Ok,
    ensures
        ledger_agrees(spec_container_after(entries, n)->Ok_0, entries, n),
    decreases n,
{
    if n > 0 {
        lemma_container_prefix_ok(entries, (n - 1) as nat, n);
        lemma_ledger(entries, (n - 1) as nat);
        let before = spec_container_after(entries, (n - 1) as nat)->Ok_0;
        let after = spec_container_after(entries, n)->Ok_0;
        match field_at(entries, n - 1) {
            None => {
                assert(after == before);
            },
            Some(ident) => {
                lemma_fill_step(before, ident, entries[n - 1].1);
                assert(after == spec_fill_entry(before, ident, entries[n - 1].1)->Ok_0);
            },
        }
        assert forall|field: ContainerField| #![trigger is_set(after, field)]
            is_set(after, field) <==> seen(entries, n, field) by {
            assert(is_set(before, field) <==> seen(entries, (n - 1) as nat, field));
        }
        assert forall|field: ImageUse| #![trigger after.provenance(field)]
            after.provenance(field) == Provenance::FromImage <==> supplied(entries, n, field) by {
            assert(before.provenance(field) == Provenance::FromImage <==> supplied(
                entries,
                (n - 1) as nat,
                field,
            ));
        }
    } else {
        let start = TestContainerVisitorView::start();
        assert forall|field: ImageUse| #![trigger start.provenance(field)]
            start.provenance(field) == Provenance::Unset by {}
    }
}

/// The container field under which the appending sibling of a field that
/// an image can supply is given, if it has one.
pub open spec fn added_field(field: ImageUse) -> Option<ContainerField> {
    match field {
        ImageUse::Layers => Some(ContainerField::AddedLayers),
        ImageUse::Environment => Some(ContainerField::AddedEnvironment),
        ImageUse::WorkingDirectory => None,
    }
}

/// What one step of the builder needs in order to be accepted: a replacing
/// field needs its appending sibling not to be given; a field that an image
/// can supply needs not to be supplied by the image; and an image needs each
/// field that it supplies to be unset and its appending sibling not to be
/// given.
pub proof fn lemma_fill_needs(state: TestContainerVisitorView, ident: ContainerField, value: ValueView)
    requires
        spec_fill_entry(state, ident, value) is Ok,
    ensures
        ident == ContainerField::Mounts ==> state.added_mounts is None,
        forall|field: ImageUse|
            ident == explicit_field(field) ==> #[trigger] state.provenance(field)
                == Provenance::Unset && !state.added_given(field),
        forall|field: ImageUse|
            step_supplies(ident, value, field) ==> #[trigger] state.provenance(field)
                == Provenance::Unset && !state.added_given(field),
{
    if ident == ContainerField::Image {
        let image = ImageReference::spec_decode(value)->Ok_0;
        let named = TestContainerVisitorView { image: Some(image.name), ..state };
        let with_layers = named.supply(ImageUse::Layers, image.uses.layers)->Ok_0;
        let with_environment = with_layers.supply(
            ImageUse::Environment,
            image.uses.environment,
        )->Ok_0;
        assert(with_environment.supply(ImageUse::WorkingDirectory, image.uses.working_directory)
            is Ok);
    }
}

/// The state of the builder just before the entry at index `i` of an
/// accepted declaration, and the fact that the entry is accepted in it.
proof fn lemma_state_before(entries: Seq<EntryView>, i: int) -> (state: TestContainerVisitorView)
    requires
        spec_container_after(entries, entries.len()) is Ok,
        0 <= i < entries.len(),
        field_at(entries, i) is Some,
    ensures
        spec_container_after(entries, i as nat) == Ok::<TestContainerVisitorView, DecodeErrorView>(
            state,
        ),
        ledger_agrees(state, entries, i as nat),
        spec_fill_entry(state, field_at(entries, i)->0, entries[i].1) is Ok,
        spec_container_after(entries, (i + 1) as nat) == spec_fill_entry(
            state,
            field_at(entries, i)->0,
            entries[i].1,
        ),
{
    lemma_container_prefix_ok(entries, i as nat, entries.len());
    lemma_container_prefix_ok(entries, (i + 1) as nat, entries.len());
    lemma_ledger(entries, i as nat);
    spec_container_after(entries, i as nat)->Ok_0
}

/// Set exactly if declared: after an accepted declaration the builder
/// holds a container field exactly if an entry sets it, and leaves a field
/// to the image exactly if an image entry supplies it.
pub proof fn law_set_iff_declared(entries: Seq<EntryView>)
    requires
        spec_container_after(entries, entries.len()) is Ok,
    ensures
        forall|field: ContainerField|
            #![trigger is_set(spec_container_after(entries, entries.len())->Ok_0, field)]
            is_set(spec_container_after(entries, entries.len())->Ok_0, field) <==> exists|i: int|
                0 <= i < entries.len() && #[trigger] field_at(entries, i) == Some(field),
        forall|field: ImageUse|
            #![trigger spec_container_after(entries, entries.len())->Ok_0.provenance(field)]
            spec_container_after(entries, entries.len())->Ok_0.provenance(field)
                == Provenance::FromImage <==> exists|i: int|
                0 <= i < entries.len() && #[trigger] supplies(entries, i, field),
{
    let n = entries.len();
    let state = spec_container_after(entries, n)->Ok_0;
    lemma_ledger(entries, n);
    assert forall|field: ContainerField| #![trigger is_set(state, field)]
        is_set(state, field) <==> exists|i: int|
            0 <= i < n && #[trigger] field_at(entries, i) == Some(field) by {
        if seen(entries, n, field) {
            let i = lemma_seen_somewhere(entries, n, field);
            assert(0 <= i < n && field_at(entries, i) == Some(field));
        }
        if exists|i: int| 0 <= i < n && #[trigger] field_at(entries, i) == Some(field) {
            let i = choose|i: int| 0 <= i < n && #[trigger] field_at(entries, i) == Some(field);
            lemma_seen_at(entries, n, field, i);
        }
    }
    assert forall|field: ImageUse| #![trigger state.provenance(field)]
        state.provenance(field) == Provenance::FromImage <==> exists|i: int|
            0 <= i < n && #[trigger] supplies(entries, i, field) by {
        if supplied(entries, n, field) {
            let i = lemma_supplied_somewhere(entries, n, field);
            assert(0 <= i < n && supplies(entries, i, field));
        }
        if exists|i: int| 0 <= i < n && #[trigger] supplies(entries, i, field) {
            let i = choose|i: int| 0 <= i < n && #[trigger] supplies(entries, i, field);
            lemma_supplied_at(entries, n, field, i);
        }
    }
}

/// No field twice: in an accepted declaration no two entries set the same
/// container field.
pub proof fn law_no_field_twice(entries: Seq<EntryView>, i: int, j: int)
    requires
        spec_declared_container(entries) is Ok,
        0 <= i < j < entries.len(),
        field_at(entries, i) is Some,
    ensures
        field_at(entries, j) != field_at(entries, i),
{
    let field = field_at(entries, i)->0;
    if field_at(entries, j) == Some(field) {
        let state = lemma_state_before(entries, j);
        lemma_seen_at(entries, j as nat, field, i);
        assert(is_set(state, field));
        lemma_fill_step(state, field, entries[j].1);
    }
}

/// Replace before append: in an accepted declaration `mounts` does not
/// come after `added_mounts`, nor `layers` after `added_layers`, nor
/// `environment` after `added_environment`.
pub proof fn law_replace_before_append(entries: Seq<EntryView>, i: int, j: int)
    requires
        spec_declared_container(entries) is Ok,
        0 <= i < entries.len(),
        0 <= j < entries.len(),
        ({
            ||| field_at(entries, i) == Some(ContainerField::Mounts) && field_at(entries, j)
                == Some(ContainerField::AddedMounts)
            ||| field_at(entries, i) == Some(ContainerField::Layers) && field_at(entries, j)
                == Some(ContainerField::AddedLayers)
            ||| field_at(entries, i) == Some(ContainerField::Environment) && field_at(entries, j)
                == Some(ContainerField::AddedEnvironment)
        }),
    ensures
        i < j,
{
    if j < i {
        let state = lemma_state_before(entries, i);
        lemma_seen_at(entries, i as nat, field_at(entries, j)->0, j);
        assert(is_set(state, field_at(entries, j)->0));
        lemma_fill_needs(state, field_at(entries, i)->0, entries[i].1);
        if field_at(entries, i) == Some(ContainerField::Layers) {
            assert(explicit_field(ImageUse::Layers) == ContainerField::Layers);
            assert(state.provenance(ImageUse::Layers) == Provenance::Unset && !state.added_given(
                ImageUse::Layers,
            ));
        } else if field_at(entries, i) == Some(ContainerField::Environment) {
            assert(explicit_field(ImageUse::Environment) == ContainerField::Environment);
            assert(state.provenance(ImageUse::Environment) == Provenance::Unset
                && !state.added_given(ImageUse::Environment));
        }
    }
}

impl TestContainerView {
    /// Where the value of the field that `field` names comes from.
    pub open spec fn provenance(self, field: ImageUse) -> Provenance {
        match field {
            ImageUse::Layers => crate::container::spec_provenance(self.layers),
            ImageUse::Environment => crate::container::spec_provenance(self.environment),
            ImageUse::WorkingDirectory => crate::container::spec_provenance(
                self.working_directory,
            ),
        }
    }
}

/// One source: where an accepted declaration holds an image that supplies
/// a field, the finished container leaves the field to the image, no entry
/// sets the field explicitly, and the field's appending sibling is not
/// given before the image.
pub proof fn law_one_source(entries: Seq<EntryView>, i: int, field: ImageUse)
    requires
        spec_declared_container(entries) is Ok,
        0 <= i < entries.len(),
        supplies(entries, i, field),
    ensures
        spec_declared_container(entries)->Ok_0.provenance(field) == Provenance::FromImage,
        forall|k: int|
            0 <= k < entries.len() ==> #[trigger] field_at(entries, k) != Some(
                explicit_field(field),
            ),
        forall|k: int|
            0 <= k < i ==> added_field(field) is None || #[trigger] field_at(entries, k)
                != added_field(field),
{
    let n = entries.len();
    let last = spec_container_after(entries, n)->Ok_0;
    lemma_ledger(entries, n);
    lemma_supplied_at(entries, n, field, i);
    assert(last.provenance(field) == Provenance::FromImage);
    assert(!is_set(last, explicit_field(field)));
    assert forall|k: int| 0 <= k < n implies #[trigger] field_at(entries, k) != Some(
        explicit_field(field),
    ) by {
        if field_at(entries, k) == Some(explicit_field(field)) {
            lemma_seen_at(entries, n, explicit_field(field), k);
        }
    }
    let state = lemma_state_before(entries, i);
    lemma_fill_needs(state, ContainerField::Image, entries[i].1);
    assert(state.provenance(field) == Provenance::Unset && !state.added_given(field));
    assert forall|k: int| 0 <= k < i implies added_field(field) is None || #[trigger] field_at(
        entries,
        k,
    ) != added_field(field) by {
        if added_field(field) is Some && field_at(entries, k) == added_field(field) {
            lemma_seen_at(entries, i as nat, added_field(field)->0, k);
            assert(is_set(state, added_field(field)->0));
        }
    }
}

/// The mounts that the first `n` entries declare, in document order: those
/// of `mounts` and those of `added_mounts`.
pub open spec fn spec_declared_mounts(entries: Seq<EntryView>, n: nat) -> Seq<MountView>
    decreases n,
{
    if n == 0 {
        Seq::empty()
    } else {
        let before = spec_declared_mounts(entries, (n - 1) as nat);
        if field_at(entries, n - 1) == Some(ContainerField::Mounts) || field_at(entries, n - 1)
            == Some(ContainerField::AddedMounts) {
            match spec_decode_array::<Mount>(entries[n - 1].1) {
                Ok(mounts) => before + mounts,
                Err(_) => before,
            }
        } else {
            before
        }
    }
}

/// The mounts of an optional list; none where there is no list.
pub open spec fn mounts_or_none(mounts: Option<Seq<MountView>>) -> Seq<MountView> {
    match mounts {
        Some(mounts) => mounts,
        None => Seq::empty(),
    }
}

/// What one step of the builder does to the two lists of mounts: it sets
/// the one it is about, and only that one.
proof fn lemma_fill_mounts(state: TestContainerVisitorView, ident: ContainerField, value: ValueView)
    requires
        spec_fill_entry(state, ident, value) is Ok,
    ensures
        ident == ContainerField::Mounts ==> {
            &&& state.mounts is None
            &&& state.added_mounts is None
            &&& spec_decode_array::<Mount>(value) == Ok::<Seq<MountView>, DecodeErrorView>(
                spec_fill_entry(state, ident, value)->Ok_0.mounts->0,
            )
            &&& spec_fill_entry(state, ident, value)->Ok_0.mounts is Some
            &&& spec_fill_entry(state, ident, value)->Ok_0.added_mounts is None
        },
        ident == ContainerField::AddedMounts ==> {
            &&& state.added_mounts is None
            &&& spec_decode_array::<Mount>(value) == Ok::<Seq<MountView>, DecodeErrorView>(
                spec_fill_entry(state, ident, value)->Ok_0.added_mounts->0,
            )
            &&& spec_fill_entry(state, ident, value)->Ok_0.added_mounts is Some
            &&& spec_fill_entry(state, ident, value)->Ok_0.mounts == state.mounts
        },
        ident != ContainerField::Mounts && ident != ContainerField::AddedMounts ==> {
            &&& spec_fill_entry(state, ident, value)->Ok_0.mounts == state.mounts
            &&& spec_fill_entry(state, ident, value)->Ok_0.added_mounts == state.added_mounts
        },
{
    if ident == ContainerField::Image {
        let image = ImageReference::spec_decode(value)->Ok_0;
        let named = TestContainerVisitorView { image: Some(image.name), ..state };
        let with_layers = named.supply(ImageUse::Layers, image.uses.layers)->Ok_0;
        let with_environment = with_layers.supply(
            ImageUse::Environment,
            image.uses.environment,
        )->Ok_0;
        assert(with_environment.supply(ImageUse::WorkingDirectory, image.uses.working_directory)
            is Ok);
    }
}

/// After any number of accepted entries the builder holds the mounts
/// declared so far: the replacing ones first, then the appended ones.
proof fn lemma_mounts_so_far(entries: Seq<EntryView>, n: nat)
    requires
        spec_container_after(entries, n) is Ok,
    ensures
        mounts_or_none(spec_container_after(entries, n)->Ok_0.mounts) + mounts_or_none(
            spec_container_after(entries, n)->Ok_0.added_mounts,
        ) == spec_declared_mounts(entries, n),
    decreases n,
{
    let after = spec_container_after(entries, n)->Ok_0;
    let held = mounts_or_none(after.mounts) + mounts_or_none(after.added_mounts);
    if n > 0 {
        lemma_container_prefix_ok(entries, (n - 1) as nat, n);
        lemma_mounts_so_far(entries, (n - 1) as nat);
        let before = spec_container_after(entries, (n - 1) as nat)->Ok_0;
        match field_at(entries, n - 1) {
            None => {},
            Some(ident) => {
                lemma_fill_mounts(before, ident, entries[n - 1].1);
            },
        }
        assert(held =~= spec_declared_mounts(entries, n));
    } else {
        assert(held =~= spec_declared_mounts(entries, n));
    }
}

/// Mounts in order: the mounts of the finished container, followed by its
/// added mounts, are the mounts that the declaration declares, in document
/// order.
pub proof fn law_mounts_in_order(entries: Seq<EntryView>)
    requires
        spec_declared_container(entries) is Ok,
    ensures
        mounts_or_none(spec_declared_container(entries)->Ok_0.mounts) + spec_declared_container(
            entries,
        )->Ok_0.added_mounts == spec_declared_mounts(entries, entries.len()),
{
    lemma_mounts_so_far(entries, entries.len());
}

/// After any number of accepted entries the builder holds under `mounts`
/// what the `mounts` entry decodes to, and under `added_mounts` what the
/// `added_mounts` entry decodes to; without the entry, it holds nothing.
proof fn lemma_mounts_by_key(entries: Seq<EntryView>, n: nat)
    requires
        spec_container_after(entries, n) is Ok,
    ensures
        forall|i: int|
            0 <= i < n && #[trigger] field_at(entries, i) == Some(ContainerField::Mounts) ==> {
                &&& spec_container_after(entries, n)->Ok_0.mounts is Some
                &&& spec_decode_array::<Mount>(entries[i].1) == Ok::<Seq<MountView>, DecodeErrorView>(
                    spec_container_after(entries, n)->Ok_0.mounts->0,
                )
            },
        (forall|i: int| 0 <= i < n ==> #[trigger] field_at(entries, i) != Some(ContainerField::Mounts))
            ==> spec_container_after(entries, n)->Ok_0.mounts is None,
        forall|i: int|
            0 <= i < n && #[trigger] field_at(entries, i) == Some(ContainerField::AddedMounts) ==> {
                &&& spec_container_after(entries, n)->Ok_0.added_mounts is Some
                &&& spec_decode_array::<Mount>(entries[i].1) == Ok::<Seq<MountView>, DecodeErrorView>(
                    spec_container_after(entries, n)->Ok_0.added_mounts->0,
                )
            },
        (forall|i: int|
            0 <= i < n ==> #[trigger] field_at(entries, i) != Some(ContainerField::AddedMounts))
            ==> spec_container_after(entries, n)->Ok_0.added_mounts is None,
    decreases n,
{
    if n > 0 {
        lemma_container_prefix_ok(entries, (n - 1) as nat, n);
        lemma_mounts_by_key(entries, (n - 1) as nat);
        let before = spec_container_after(entries, (n - 1) as nat)->Ok_0;
        match field_at(entries, n - 1) {
            None => {},
            Some(ident) => {
                lemma_fill_mounts(before, ident, entries[n - 1].1);
            },
        }
    }
}

/// Mounts by key: the mounts of the finished container are what the
/// `mounts` entry of the declaration decodes to, and there are none set
/// where the declaration has no such entry; its added mounts are what the
/// `added_mounts` entry decodes to, and there are none where the
/// declaration has no such entry.
pub proof fn law_mounts_by_key(entries: Seq<EntryView>)
    requires
        spec_declared_container(entries) is Ok,
    ensures
        forall|i: int|
            0 <= i < entries.len() && #[trigger] field_at(entries, i) == Some(
                ContainerField::Mounts,
            ) ==> {
                &&& spec_declared_container(entries)->Ok_0.mounts is Some
                &&& spec_decode_array::<Mount>(entries[i].1) == Ok::<Seq<MountView>, DecodeErrorView>(
                    spec_declared_container(entries)->Ok_0.mounts->0,
                )
            },
        (forall|i: int|
            0 <= i < entries.len() ==> #[trigger] field_at(entries, i) != Some(
                ContainerField::Mounts,
            )) ==> spec_declared_container(entries)->Ok_0.mounts is None,
        forall|i: int|
            0 <= i < entries.len() && #[trigger] field_at(entries, i) == Some(
                ContainerField::AddedMounts,
            ) ==> spec_decode_array::<Mount>(entries[i].1) == Ok::<Seq<MountView>, DecodeErrorView>(
                spec_declared_container(entries)->Ok_0.added_mounts,
            ),
        (forall|i: int|
            0 <= i < entries.len() ==> #[trigger] field_at(entries, i) != Some(
                ContainerField::AddedMounts,
            )) ==> spec_declared_container(entries)->Ok_0.added_mounts == Seq::<MountView>::empty(),
{
    lemma_mounts_by_key(entries, entries.len());
}

/// A set made of at least one device is not empty.
proof fn lemma_device_set_not_empty(devices: Seq<crate::mount::Device>, n: nat)
    requires
        n > 0,
    ensures
        crate::mount::DeviceSet::spec_of(devices, n) != crate::mount::DeviceSet::spec_empty(),
{
}

/// While the table of a mount is read, no mount point of `/` and no empty
/// set of devices is kept.
proof fn lemma_mount_fields_wf(start: MountFieldsView, entries: Seq<EntryView>, n: nat)
    requires
        start.mount_point is None,
        start.devices is None,
        spec_accept_entries::<MountFields>(start, entries, n) is Ok,
    ensures
        spec_accept_entries::<MountFields>(start, entries, n)->Ok_0.kind == start.kind,
        spec_accept_entries::<MountFields>(start, entries, n)->Ok_0.mount_point != Some("/"@),
        spec_accept_entries::<MountFields>(start, entries, n)->Ok_0.devices != Some(
            crate::mount::DeviceSet::spec_empty(),
        ),
    decreases n,
{
    if n > 0 {
        crate::record::lemma_accept_entries_prefix_ok::<MountFields>(
            start,
            entries,
            (n - 1) as nat,
            n,
        );
        lemma_mount_fields_wf(start, entries, (n - 1) as nat);
        let value = entries[n - 1].1;
        if spec_decode_array::<crate::mount::Device>(value) is Ok {
            let devices = spec_decode_array::<crate::mount::Device>(value)->Ok_0;
            if devices.len() > 0 {
                lemma_device_set_not_empty(devices, devices.len());
            }
        }
    }
}

/// No root mount point: a mount that is accepted is well formed.
pub proof fn law_mount_wf(value: ValueView)
    requires
        Mount::spec_decode(value) is Ok,
    ensures
        Mount::spec_decode(value)->Ok_0.wf(),
{
    let entries = value->Table_0;
    let kind = crate::mount::spec_mount_type(entries)->Ok_0;
    lemma_mount_fields_wf(MountFieldsView::start(kind), entries, entries.len());
}

/// Whether every mount of a list is well formed.
pub open spec fn mounts_wf(mounts: Seq<MountView>) -> bool {
    forall|i: int| 0 <= i < mounts.len() ==> (#[trigger] mounts[i]).wf()
}

/// Every mount of an accepted list of mounts is well formed.
pub proof fn law_mounts_wf(value: ValueView)
    requires
        spec_decode_array::<Mount>(value) is Ok,
    ensures
        mounts_wf(spec_decode_array::<Mount>(value)->Ok_0),
{
    let items = value->Array_0;
    let mounts = spec_decode_array::<Mount>(value)->Ok_0;
    lemma_decode_items_ok::<Mount>(items, items.len());
    assert forall|i: int| 0 <= i < mounts.len() implies (#[trigger] mounts[i]).wf() by {
        assert(Mount::spec_decode(items[i]) == Ok::<MountView, DecodeErrorView>(mounts[i]));
        law_mount_wf(items[i]);
    }
}

/// Every mount that a declaration declares is well formed.
proof fn lemma_declared_mounts_wf(entries: Seq<EntryView>, n: nat)
    ensures
        mounts_wf(spec_declared_mounts(entries, n)),
    decreases n,
{
    if n > 0 {
        lemma_declared_mounts_wf(entries, (n - 1) as nat);
        if spec_decode_array::<Mount>(entries[n - 1].1) is Ok {
            law_mounts_wf(entries[n - 1].1);
        }
    }
}

/// No root mount point: in the container of an accepted declaration no
/// mount goes over `/`, neither among the mounts nor among the added
/// mounts.
pub proof fn law_no_root_mount_point(entries: Seq<EntryView>)
    requires
        spec_declared_container(entries) is Ok,
    ensures
        mounts_wf(mounts_or_none(spec_declared_container(entries)->Ok_0.mounts)),
        mounts_wf(spec_declared_container(entries)->Ok_0.added_mounts),
{
    let container = spec_declared_container(entries)->Ok_0;
    let replacing = mounts_or_none(container.mounts);
    let all = spec_declared_mounts(entries, entries.len());
    law_mounts_in_order(entries);
    lemma_declared_mounts_wf(entries, entries.len());
    assert forall|i: int| 0 <= i < replacing.len() implies (#[trigger] replacing[i]).wf() by {
        assert(replacing[i] == all[i]);
    }
    assert forall|i: int| 0 <= i < container.added_mounts.len() implies (
    #[trigger] container.added_mounts[i]).wf() by {
        assert(container.added_mounts[i] == all[replacing.len() + i]);
    }
}

/// The keys of a directive's own fields, and the `name` of a named
/// container, are not the key of any container field.
pub proof fn lemma_own_keys(key: Seq<char>)
    requires
        key == "filter"@ || key == "include_shared_libraries"@ || key == "timeout"@ || key
            == "ignore"@ || key == "name"@,
    ensures
        ContainerField::spec_from_name(key) is None,
{
    reveal_strlit("filter");
    reveal_strlit("include_shared_libraries");
    reveal_strlit("timeout");
    reveal_strlit("ignore");
    reveal_strlit("name");
    reveal_strlit("network");
    reveal_strlit("enable_writable_file_system");
    reveal_strlit("user");
    reveal_strlit("group");
    reveal_strlit("mounts");
    reveal_strlit("added_mounts");
    reveal_strlit("image");
    reveal_strlit("working_directory");
    reveal_strlit("layers");
    reveal_strlit("added_layers");
    reveal_strlit("environment");
    reveal_strlit("added_environment");
    let first = key[0];
    let length = key.len();
    assert(length == 6 || length == 24 || length == 7 || length == 4);
    assert(first == 'f' || first == 'i' || first == 't' || first == 'n');
    assert("network"@[0] == 'n' && "network"@.len() == 7);
    assert("user"@[0] == 'u');
    assert("mounts"@[0] == 'm');
    assert("layers"@[0] == 'l');
    if key == "timeout"@ {
        assert(key[0] == 't');
    }
}

/// Every container field is found under its own key.
pub proof fn lemma_container_field_key(field: ContainerField)
    ensures
        ContainerField::spec_from_name(field.spec_name()) == Some(field),
{
    reveal_strlit("network");
    reveal_strlit("enable_writable_file_system");
    reveal_strlit("user");
    reveal_strlit("group");
    reveal_strlit("mounts");
    reveal_strlit("added_mounts");
    reveal_strlit("image");
    reveal_strlit("working_directory");
    reveal_strlit("layers");
    reveal_strlit("added_layers");
    reveal_strlit("environment");
    reveal_strlit("added_environment");
    let key = field.spec_name();
    assert(key.len() == 7 ==> key[0] == 'n');
    assert(key.len() == 4 ==> key[0] == 'u');
    assert(key.len() == 5 ==> key[0] == 'g' || key[0] == 'i');
    assert(key.len() == 6 ==> key[0] == 'm' || key[0] == 'l');
    assert(key.len() == 12 ==> key[6] == 'm' || key[6] == 'l');
    assert(key.len() == 17 ==> key[0] == 'w' || key[0] == 'a');
    assert("group"@[0] == 'g' && "image"@[0] == 'i');
    assert("mounts"@[0] == 'm' && "layers"@[0] == 'l');
    assert("added_mounts"@[6] == 'm' && "added_layers"@[6] == 'l');
    assert("working_directory"@[0] == 'w' && "added_environment"@[0] == 'a');
}

/// Every field of a directive is found under its own key.
pub proof fn lemma_directive_field_key(field: DirectiveField)
    ensures
        DirectiveField::spec_from_name(field.spec_name()) == Some(field),
{
    match field.spec_into_container_field() {
        Some(inner) => {
            lemma_container_field_key(inner);
            lemma_directive_field(field.spec_name());
            reveal_strlit("filter");
            reveal_strlit("include_shared_libraries");
            reveal_strlit("timeout");
            reveal_strlit("ignore");
            if field.spec_name() == "filter"@ || field.spec_name() == "include_shared_libraries"@
                || field.spec_name() == "timeout"@ || field.spec_name() == "ignore"@ {
                lemma_own_keys(field.spec_name());
            }
            assert(field.spec_name() == inner.spec_name());
            assert(DirectiveField::spec_from_container_field(inner) == field);
        },
        None => {
            reveal_strlit("filter");
            reveal_strlit("include_shared_libraries");
            reveal_strlit("timeout");
            reveal_strlit("ignore");
            let key = field.spec_name();
            assert(key.len() == 6 ==> key[0] == 'f' || key[0] == 'i');
            assert("filter"@[0] == 'f' && "ignore"@[0] == 'i');
            assert(key.len() == 6 || key.len() == 24 || key.len() == 7);
        },
    }
}

/// A key names a container field of a directive exactly if it names that
/// field of a container.
pub proof fn lemma_directive_field(key: Seq<char>)
    ensures
        match DirectiveField::spec_from_name(key) {
            Some(ident) => ident.spec_into_container_field() == ContainerField::spec_from_name(
                key,
            ),
            None => ContainerField::spec_from_name(key) is None,
        },
{
    if key == "filter"@ || key == "include_shared_libraries"@ || key == "timeout"@ || key
        == "ignore"@ {
        lemma_own_keys(key);
    }
}

/// A key stands for a field of the container of a directive exactly if it
/// is the key of a container field.
pub proof fn lemma_container_key(key: Seq<char>)
    ensures
        crate::directive::spec_is_container_key(key) <==> ContainerField::spec_from_name(key)
            is Some,
{
    lemma_directive_field(key);
}

/// What a directive makes of its container fields is what the declaration
/// declares, after any number of accepted entries.
pub proof fn lemma_directive_declares_so_far<TestFilterT>(
    entries: Seq<EntryView>,
    n: nat,
    parsed: Result<TestFilterT, Seq<char>>,
)
    requires
        spec_visit_entries(DirectiveVisitorView::start(), entries, n, parsed) is Ok,
    ensures
        spec_container_after(entries, n) == Ok::<TestContainerVisitorView, DecodeErrorView>(
            spec_visit_entries(
                DirectiveVisitorView::start(),
                entries,
                n,
                parsed,
            )->Ok_0.container_visitor,
        ),
    decreases n,
{
    if n > 0 {
        crate::directive::lemma_visit_entries_prefix_ok(
            DirectiveVisitorView::start(),
            entries,
            (n - 1) as nat,
            n,
            parsed,
        );
        lemma_directive_declares_so_far(entries, (n - 1) as nat, parsed);
        lemma_directive_field(entries[n - 1].0);
    }
}

/// A directive that is accepted holds the container that its declaration
/// declares.
pub proof fn law_directive_declares<TestFilterT>(
    entries: Seq<EntryView>,
    parsed: Result<TestFilterT, Seq<char>>,
)
    requires
        spec_visit_map(DirectiveVisitorView::start(), entries, parsed) is Ok,
    ensures
        spec_declared_container(entries) == Ok::<TestContainerView, DecodeErrorView>(
            spec_visit_map(DirectiveVisitorView::start(), entries, parsed)->Ok_0.container,
        ),
{
    lemma_directive_declares_so_far(entries, entries.len(), parsed);
}

/// What a container makes of its entries is what the declaration declares,
/// after any number of accepted entries.
pub proof fn lemma_container_declares_so_far(entries: Seq<EntryView>, n: nat)
    requires
        spec_accept_entries::<TestContainerVisitor>(
            TestContainerVisitorView::start(),
            entries,
            n,
        ) is Ok,
    ensures
        spec_container_after(entries, n) == spec_accept_entries::<TestContainerVisitor>(
            TestContainerVisitorView::start(),
            entries,
            n,
        ),
    decreases n,
{
    if n > 0 {
        crate::record::lemma_accept_entries_prefix_ok::<TestContainerVisitor>(
            TestContainerVisitorView::start(),
            entries,
            (n - 1) as nat,
            n,
        );
        lemma_container_declares_so_far(entries, (n - 1) as nat);
    }
}

/// A container that is accepted is the container that its declaration
/// declares.
pub proof fn law_container_declares(entries: Seq<EntryView>)
    requires
        TestContainer::spec_decode(ValueView::Table(entries)) is Ok,
    ensures
        spec_declared_container(entries) == TestContainer::spec_decode(ValueView::Table(entries)),
{
    lemma_container_declares_so_far(entries, entries.len());
}

/// What a named container makes of its container fields is what the
/// declaration declares, after any number of accepted entries.
pub proof fn lemma_named_container_declares_so_far(entries: Seq<EntryView>, n: nat)
    requires
        spec_accept_entries::<NamedTestContainerVisitor>(
            NamedTestContainerVisitorView::start(),
            entries,
            n,
        ) is Ok,
    ensures
        spec_container_after(entries, n) == Ok::<TestContainerVisitorView, DecodeErrorView>(
            spec_accept_entries::<NamedTestContainerVisitor>(
                NamedTestContainerVisitorView::start(),
                entries,
                n,
            )->Ok_0.container_visitor,
        ),
    decreases n,
{
    if n > 0 {
        crate::record::lemma_accept_entries_prefix_ok::<NamedTestContainerVisitor>(
            NamedTestContainerVisitorView::start(),
            entries,
            (n - 1) as nat,
            n,
        );
        lemma_named_container_declares_so_far(entries, (n - 1) as nat);
        if entries[n - 1].0 == "name"@ {
            lemma_own_keys(entries[n - 1].0);
        }
    }
}

/// A named container that is accepted holds the container that its
/// declaration declares.
pub proof fn law_named_container_declares(entries: Seq<EntryView>)
    requires
        NamedTestContainer::spec_decode(ValueView::Table(entries)) is Ok,
    ensures
        spec_declared_container(entries) == Ok::<TestContainerView, DecodeErrorView>(
            NamedTestContainer::spec_decode(ValueView::Table(entries))->Ok_0.container,
        ),
{
    lemma_named_container_declares_so_far(entries, entries.len());
}

/// Defaults: the declaration without entries makes the directive in which
/// nothing is set, whatever the filter parser would answer, and the
/// container in which nothing is set.
pub proof fn law_empty_declaration<TestFilterT>(parsed: Result<TestFilterT, Seq<char>>)
    ensures
        spec_visit_map(DirectiveVisitorView::start(), Seq::<EntryView>::empty(), parsed) == Ok::<
            TestDirectiveView<TestFilterT>,
            DecodeErrorView,
        >(TestDirectiveView::spec_default()),
        TestContainer::spec_decode(ValueView::Table(Seq::empty())) == Ok::<
            TestContainerView,
            DecodeErrorView,
        >(TestContainerView::spec_default()),
{
}

/// Whether two declarations are the same but for the way in which they
/// write their image: they have the same keys in the same order, and the
/// same values but where both are an image that decodes to the same
/// reference.
pub open spec fn same_but_image(a: Seq<EntryView>, b: Seq<EntryView>) -> bool {
    &&& a.len() == b.len()
    &&& forall|i: int|
        #![trigger a[i]]
        0 <= i < a.len() ==> {
            &&& a[i].0 == b[i].0
            &&& {
                ||| a[i].1 == b[i].1
                ||| field_at(a, i) == Some(ContainerField::Image) && ImageReference::spec_decode(
                    a[i].1,
                ) == ImageReference::spec_decode(b[i].1)
            }
        }
}

/// Declarations that are the same but for the way in which they write
/// their image make the same directive builder, entry by entry.
proof fn lemma_same_image_same_visit<TestFilterT>(
    a: Seq<EntryView>,
    b: Seq<EntryView>,
    n: nat,
    parsed: Result<TestFilterT, Seq<char>>,
)
    requires
        same_but_image(a, b),
        n <= a.len(),
    ensures
        spec_visit_entries(DirectiveVisitorView::start(), a, n, parsed) == spec_visit_entries(
            DirectiveVisitorView::start(),
            b,
            n,
            parsed,
        ),
    decreases n,
{
    if n > 0 {
        lemma_same_image_same_visit(a, b, (n - 1) as nat, parsed);
        assert(a[n - 1].0 == b[n - 1].0);
        lemma_directive_field(a[n - 1].0);
    }
}

/// Declarations that are the same but for the way in which they write
/// their image make the same container builder, entry by entry.
proof fn lemma_same_image_same_container(a: Seq<EntryView>, b: Seq<EntryView>, n: nat)
    requires
        same_but_image(a, b),
        n <= a.len(),
    ensures
        spec_accept_entries::<TestContainerVisitor>(TestContainerVisitorView::start(), a, n)
            == spec_accept_entries::<TestContainerVisitor>(
            TestContainerVisitorView::start(),
            b,
            n,
        ),
    decreases n,
{
    if n > 0 {
        lemma_same_image_same_container(a, b, (n - 1) as nat);
        assert(a[n - 1].0 == b[n - 1].0);
    }
}

/// Declarations that are the same but for the way in which they write
/// their image make the same named container builder, entry by entry.
proof fn lemma_same_image_same_named_container(a: Seq<EntryView>, b: Seq<EntryView>, n: nat)
    requires
        same_but_image(a, b),
        n <= a.len(),
    ensures
        spec_accept_entries::<NamedTestContainerVisitor>(
            NamedTestContainerVisitorView::start(),
            a,
            n,
        ) == spec_accept_entries::<NamedTestContainerVisitor>(
            NamedTestContainerVisitorView::start(),
            b,
            n,
        ),
    decreases n,
{
    if n > 0 {
        lemma_same_image_same_named_container(a, b, (n - 1) as nat);
        assert(a[n - 1].0 == b[n - 1].0);
        if a[n - 1].0 == "name"@ {
            lemma_own_keys(a[n - 1].0);
        }
    }
}

/// Declarations that are the same but for the way in which they write
/// their image are decoded to the same directive, the same container and
/// the same named container, or refused with the same error.
pub proof fn law_same_image<TestFilterT>(
    a: Seq<EntryView>,
    b: Seq<EntryView>,
    parsed: Result<TestFilterT, Seq<char>>,
)
    requires
        same_but_image(a, b),
    ensures
        spec_visit_map(DirectiveVisitorView::start(), a, parsed) == spec_visit_map(
            DirectiveVisitorView::start(),
            b,
            parsed,
        ),
        TestContainer::spec_decode(ValueView::Table(a)) == TestContainer::spec_decode(
            ValueView::Table(b),
        ),
        NamedTestContainer::spec_decode(ValueView::Table(a)) == NamedTestContainer::spec_decode(
            ValueView::Table(b),
        ),
{
    lemma_same_image_same_visit(a, b, a.len(), parsed);
    lemma_same_image_same_container(a, b, a.len());
    lemma_same_image_same_named_container(a, b, a.len());
}

/// The table that names an image and takes layers and environment from
/// it.
pub open spec fn image_table(name: Seq<char>) -> ValueView {
    ValueView::Table(
        seq![
            ("name"@, ValueView::String(name)),
            (
                "use"@,
                ValueView::Array(
                    seq![ValueView::String("layers"@), ValueView::String("environment"@)],
                ),
            ),
        ],
    )
}

/// Image by name alone: a declaration whose image is the bare name of the
/// image, and the declaration that differs from it only in that its image
/// is the table that names the same image and takes layers and environment
/// from it, are decoded to the same directive, the same container and the
/// same named container.
pub proof fn law_image_name_alone<TestFilterT>(
    a: Seq<EntryView>,
    b: Seq<EntryView>,
    i: int,
    name: Seq<char>,
    parsed: Result<TestFilterT, Seq<char>>,
)
    requires
        a.len() == b.len(),
        0 <= i < a.len(),
        forall|k: int| 0 <= k < a.len() && k != i ==> a[k] == b[k],
        field_at(a, i) == Some(ContainerField::Image),
        a[i].0 == b[i].0,
        a[i].1 == ValueView::String(name),
        b[i].1 == image_table(name),
    ensures
        spec_visit_map(DirectiveVisitorView::start(), a, parsed) == spec_visit_map(
            DirectiveVisitorView::start(),
            b,
            parsed,
        ),
        TestContainer::spec_decode(ValueView::Table(a)) == TestContainer::spec_decode(
            ValueView::Table(b),
        ),
        NamedTestContainer::spec_decode(ValueView::Table(a)) == NamedTestContainer::spec_decode(
            ValueView::Table(b),
        ),
{
    crate::image::lemma_image_name_alone(name);
    law_same_image(a, b, parsed);
}

/// Whether the entry at index `i` is the `timeout` of a directive.
pub open spec fn is_timeout_at(entries: Seq<EntryView>, i: int) -> bool {
    DirectiveField::spec_from_name(entries[i].0) == Some(DirectiveField::Timeout)
}

/// After any number of accepted entries the timeout of a directive is
/// unset if no entry was a `timeout`, and else what the seconds of that
/// entry stand for.
proof fn lemma_timeout_so_far<TestFilterT>(
    entries: Seq<EntryView>,
    n: nat,
    parsed: Result<TestFilterT, Seq<char>>,
)
    requires
        spec_visit_entries(DirectiveVisitorView::start(), entries, n, parsed) is Ok,
    ensures
        (forall|i: int| 0 <= i < n ==> !is_timeout_at(entries, i)) ==> spec_visit_entries(
            DirectiveVisitorView::start(),
            entries,
            n,
            parsed,
        )->Ok_0.timeout is None,
        forall|i: int|
            0 <= i < n && #[trigger] is_timeout_at(entries, i) ==> {
                &&& u32::spec_decode(entries[i].1) is Ok
                &&& spec_visit_entries(
                    DirectiveVisitorView::start(),
                    entries,
                    n,
                    parsed,
                )->Ok_0.timeout == Some(spec_timeout(u32::spec_decode(entries[i].1)->Ok_0))
            },
    decreases n,
{
    if n > 0 {
        crate::directive::lemma_visit_entries_prefix_ok(
            DirectiveVisitorView::start(),
            entries,
            (n - 1) as nat,
            n,
            parsed,
        );
        lemma_timeout_so_far(entries, (n - 1) as nat, parsed);
        let before = spec_visit_entries(
            DirectiveVisitorView::start(),
            entries,
            (n - 1) as nat,
            parsed,
        )->Ok_0;
        let after = spec_visit_entries(DirectiveVisitorView::start(), entries, n, parsed)->Ok_0;
        if is_timeout_at(entries, n - 1) {
            assert(before.timeout is None);
            assert forall|i: int| 0 <= i < n - 1 implies !is_timeout_at(entries, i) by {}
        } else {
            assert(after.timeout == before.timeout);
        }
    }
}

/// Timeout: in an accepted directive the timeout is unset if the
/// declaration holds no `timeout`; else it is set, to no limit if the
/// declaration says zero seconds, and to that many seconds if it says more.
pub proof fn law_timeout<TestFilterT>(
    entries: Seq<EntryView>,
    parsed: Result<TestFilterT, Seq<char>>,
)
    requires
        spec_visit_map(DirectiveVisitorView::start(), entries, parsed) is Ok,
    ensures
        (forall|i: int| 0 <= i < entries.len() ==> !is_timeout_at(entries, i)) ==> spec_visit_map(
            DirectiveVisitorView::start(),
            entries,
            parsed,
        )->Ok_0.timeout is None,
        forall|i: int|
            0 <= i < entries.len() && #[trigger] is_timeout_at(entries, i) ==> {
                &&& entries[i].1 matches ValueView::Integer(seconds)
                &&& 0 <= seconds <= u32::MAX
                &&& spec_visit_map(DirectiveVisitorView::start(), entries, parsed)->Ok_0.timeout
                    == Some(
                    if seconds == 0 {
                        None
                    } else {
                        Some(seconds as u32)
                    },
                )
            },
{
    lemma_timeout_so_far(entries, entries.len(), parsed);
}

/// Whether the directive builder holds something for `field`, one of the
/// directive's own fields.
pub open spec fn own_is_set<TestFilterT>(
    state: DirectiveVisitorView<TestFilterT>,
    field: DirectiveField,
) -> bool {
    match field {
        DirectiveField::Filter => state.filter is Some,
        DirectiveField::IncludeSharedLibraries => state.include_shared_libraries is Some,
        DirectiveField::Timeout => state.timeout is Some,
        DirectiveField::Ignore => state.ignore is Some,
        _ => false,
    }
}

/// Whether one of the first `n` entries sets `field`, one of the
/// directive's own fields.
pub open spec fn own_seen(entries: Seq<EntryView>, n: nat, field: DirectiveField) -> bool
    decreases n,
{
    n > 0 && (DirectiveField::spec_from_name(entries[n - 1].0) == Some(field) || own_seen(
        entries,
        (n - 1) as nat,
        field,
    ))
}

/// An entry among the first `n` that sets one of the directive's own
/// fields has been seen.
proof fn lemma_own_seen_at(entries: Seq<EntryView>, n: nat, field: DirectiveField, i: int)
    requires
        0 <= i < n,
        DirectiveField::spec_from_name(entries[i].0) == Some(field),
    ensures
        own_seen(entries, n, field),
    decreases n,
{
    if i < n - 1 {
        lemma_own_seen_at(entries, (n - 1) as nat, field, i);
    }
}

/// After any number of accepted entries the directive builder holds one of
/// the directive's own fields exactly if an entry has set it.
proof fn lemma_own_ledger<TestFilterT>(
    entries: Seq<EntryView>,
    n: nat,
    parsed: Result<TestFilterT, Seq<char>>,
)
    requires
        spec_visit_entries(DirectiveVisitorView::start(), entries, n, parsed) is Ok,
    ensures
        forall|field: DirectiveField|
            #![trigger own_seen(entries, n, field)]
            field.spec_into_container_field() is None ==> (own_is_set(
                spec_visit_entries(DirectiveVisitorView::start(), entries, n, parsed)->Ok_0,
                field,
            ) <==> own_seen(entries, n, field)),
    decreases n,
{
    if n > 0 {
        crate::directive::lemma_visit_entries_prefix_ok(
            DirectiveVisitorView::start(),
            entries,
            (n - 1) as nat,
            n,
            parsed,
        );
        lemma_own_ledger(entries, (n - 1) as nat, parsed);
        let before = spec_visit_entries(
            DirectiveVisitorView::start(),
            entries,
            (n - 1) as nat,
            parsed,
        )->Ok_0;
        let after = spec_visit_entries(DirectiveVisitorView::start(), entries, n, parsed)->Ok_0;
        assert forall|field: DirectiveField| #![trigger own_seen(entries, n, field)]
            field.spec_into_container_field() is None implies (own_is_set(after, field)
                <==> own_seen(entries, n, field)) by {
            assert(own_is_set(before, field) <==> own_seen(entries, (n - 1) as nat, field));
        }
    }
}

/// No key twice: an accepted directive holds no key twice.
pub proof fn law_no_key_twice<TestFilterT>(
    entries: Seq<EntryView>,
    parsed: Result<TestFilterT, Seq<char>>,
    i: int,
    j: int,
)
    requires
        spec_visit_map(DirectiveVisitorView::start(), entries, parsed) is Ok,
        0 <= i < j < entries.len(),
    ensures
        entries[i].0 != entries[j].0,
{
    let start = DirectiveVisitorView::<TestFilterT>::start();
    if entries[i].0 == entries[j].0 {
        let key = entries[j].0;
        crate::directive::lemma_visit_entries_prefix_ok(
            start,
            entries,
            (j + 1) as nat,
            entries.len(),
            parsed,
        );
        crate::directive::lemma_visit_entries_prefix_ok(
            start,
            entries,
            j as nat,
            entries.len(),
            parsed,
        );
        let before = spec_visit_entries(start, entries, j as nat, parsed)->Ok_0;
        assert(DirectiveField::spec_from_name(key) is Some);
        let field = DirectiveField::spec_from_name(key)->0;
        lemma_directive_field(key);
        if field.spec_into_container_field() is Some {
            law_directive_declares(entries, parsed);
            law_no_field_twice(entries, i, j);
        } else {
            lemma_own_ledger(entries, j as nat, parsed);
            lemma_own_seen_at(entries, j as nat, field, i);
            assert(own_is_set(before, field));
        }
    }
}

/// No key twice: an accepted container holds no key twice, and neither
/// does an accepted named container.
pub proof fn law_no_container_key_twice(entries: Seq<EntryView>, i: int, j: int)
    requires
        TestContainer::spec_decode(ValueView::Table(entries)) is Ok
            || NamedTestContainer::spec_decode(ValueView::Table(entries)) is Ok,
        0 <= i < j < entries.len(),
    ensures
        entries[i].0 != entries[j].0,
{
    if entries[i].0 == entries[j].0 {
        let key = entries[j].0;
        if TestContainer::spec_decode(ValueView::Table(entries)) is Ok {
            let start = TestContainerVisitorView::start();
            crate::record::lemma_accept_entries_prefix_ok::<TestContainerVisitor>(
                start,
                entries,
                (j + 1) as nat,
                entries.len(),
            );
            crate::record::lemma_accept_entries_prefix_ok::<TestContainerVisitor>(
                start,
                entries,
                j as nat,
                entries.len(),
            );
            assert(ContainerField::spec_from_name(key) is Some);
            law_container_declares(entries);
            law_no_field_twice(entries, i, j);
        } else {
            let start = NamedTestContainerVisitorView::start();
            crate::record::lemma_accept_entries_prefix_ok::<NamedTestContainerVisitor>(
                start,
                entries,
                (j + 1) as nat,
                entries.len(),
            );
            crate::record::lemma_accept_entries_prefix_ok::<NamedTestContainerVisitor>(
                start,
                entries,
                j as nat,
                entries.len(),
            );
            if key == "name"@ {
                lemma_name_so_far(entries, j as nat);
                lemma_named_at(entries, j as nat, i);
            } else {
                assert(ContainerField::spec_from_name(key) is Some);
                law_named_container_declares(entries);
                law_no_field_twice(entries, i, j);
            }
        }
    }
}

/// Whether one of the first `n` entries is a `name`.
pub open spec fn named(entries: Seq<EntryView>, n: nat) -> bool
    decreases n,
{
    n > 0 && (entries[n - 1].0 == "name"@ || named(entries, (n - 1) as nat))
}

/// A `name` among the first `n` entries has been seen.
proof fn lemma_named_at(entries: Seq<EntryView>, n: nat, i: int)
    requires
        0 <= i < n,
        entries[i].0 == "name"@,
    ensures
        named(entries, n),
    decreases n,
{
    if i < n - 1 {
        lemma_named_at(entries, (n - 1) as nat, i);
    }
}

/// After any number of accepted entries a named container holds a name
/// exactly if an entry was a `name`.
proof fn lemma_name_so_far(entries: Seq<EntryView>, n: nat)
    requires
        spec_accept_entries::<NamedTestContainerVisitor>(
            NamedTestContainerVisitorView::start(),
            entries,
            n,
        ) is Ok,
    ensures
        spec_accept_entries::<NamedTestContainerVisitor>(
            NamedTestContainerVisitorView::start(),
            entries,
            n,
        )->Ok_0.name is Some <==> named(entries, n),
    decreases n,
{
    if n > 0 {
        crate::record::lemma_accept_entries_prefix_ok::<NamedTestContainerVisitor>(
            NamedTestContainerVisitorView::start(),
            entries,
            (n - 1) as nat,
            n,
        );
        lemma_name_so_far(entries, (n - 1) as nat);
    }
}

} // verus!
