//! What the orchestration relies on in the runtime's registry of devices,
//! and what follows from it for operations on one name.
//!
//! The registry is the runtime's, not the library's. It is modelled here by
//! the set of names that are registered at a point in time, and the
//! runtime's answers are held against that set.

use crate::bridge::Completion;
use crate::error::BdevErrorView;
use crate::lifecycle::{
    spec_create_outcome, spec_destroy_outcome, spec_status, CreateRun, CreatedView, DestroyRun,
};
use crate::ocf::OcfView;
use vstd::prelude::*;

verus! {

/// A lookup by name finds a device where the name is registered, and only
/// there.
pub open spec fn answers_lookup(
    registered: Set<Seq<char>>,
    name: Seq<char>,
    found: Option<Seq<char>>,
) -> bool {
    found is Some <==> registered.contains(name)
}

/// A construct call: the runtime turns down a name that is registered, and
/// a name whose construction it reports as done is registered afterwards.
pub open spec fn answers_construct(
    before: Set<Seq<char>>,
    name: Seq<char>,
    completion: Completion<()>,
    after: Set<Seq<char>>,
) -> bool {
    &&& before.contains(name) ==> spec_status(completion) != Some(0i32)
    &&& spec_status(completion) == Some(0i32) ==> after.contains(name)
}

/// A destroy call: a device whose destruction the runtime accepts and
/// reports as done is registered no longer.
pub open spec fn answers_destroy(
    name: Seq<char>,
    issued: i32,
    completion: Completion<()>,
    after: Set<Seq<char>>,
) -> bool {
    issued >= 0 && spec_status(completion) == Some(0i32) ==> !after.contains(name)
}

/// What the runtime answered to a create's construct call, where the create
/// got as far as making it; `before` and `after` are the registry around the
/// call.
pub open spec fn answers_create(
    before: Set<Seq<char>>,
    name: Seq<char>,
    run: CreateRun,
    after: Set<Seq<char>>,
) -> bool {
    run.before is None ==> answers_construct(before, name, run.completion, after)
}

/// What the runtime answered to a destroy's call, where the destroy got as
/// far as making it; `after` is the registry once the call is done with.
pub open spec fn answers_delete(name: Seq<char>, run: DestroyRun, after: Set<Seq<char>>) -> bool {
    run.found is Some ==> answers_destroy(name, run.issued, run.completion, after)
}

/// Of two creates of one name, at most one succeeds. Where the first has
/// succeeded, the second ends in `AlreadyExists` if its own lookup found the
/// device, and else in the runtime's rejection of its construct call: a
/// status other than zero, or a completion that never came. This holds
/// whether the second looked the name up before or after the first was
/// constructed; `middle` is the registry between the two construct calls.
pub proof fn law_create_twice(
    ocf: OcfView,
    first: CreateRun,
    second: CreateRun,
    start: Set<Seq<char>>,
    middle: Set<Seq<char>>,
    end: Set<Seq<char>>,
)
    requires
        answers_create(start, ocf.name, first, middle),
        answers_create(middle, ocf.name, second, end),
    ensures
        !(spec_create_outcome(ocf, first) is Ok && spec_create_outcome(ocf, second) is Ok),
        spec_create_outcome(ocf, first) is Ok ==> (spec_create_outcome(ocf, second) matches Err(
            error,
        ) && (error == (BdevErrorView::AlreadyExists { name: ocf.name })
            || error is ConstructionFailed || error is BridgeAbandoned)),
        spec_create_outcome(ocf, first) is Ok && second.before is Some ==> spec_create_outcome(
            ocf,
            second,
        ) == Err::<CreatedView, BdevErrorView>(BdevErrorView::AlreadyExists { name: ocf.name }),
{
}

/// A create that follows a successful create of the same name ends in
/// `AlreadyExists`: its lookup is answered from the registry that the first
/// left.
pub proof fn law_create_again(
    ocf: OcfView,
    first: CreateRun,
    second: CreateRun,
    start: Set<Seq<char>>,
    middle: Set<Seq<char>>,
)
    requires
        answers_create(start, ocf.name, first, middle),
        answers_lookup(middle, ocf.name, second.before),
    ensures
        spec_create_outcome(ocf, first) is Ok ==> spec_create_outcome(ocf, second) == Err::<
            CreatedView,
            BdevErrorView,
        >(BdevErrorView::AlreadyExists { name: ocf.name }),
{
}

/// A destroy of a name that is not registered ends in `NotFound`, and no
/// destroy call is issued.
pub proof fn law_destroy_unregistered(
    name: Seq<char>,
    run: DestroyRun,
    registered: Set<Seq<char>>,
)
    requires
        !registered.contains(name),
        answers_lookup(registered, name, run.found),
    ensures
        spec_destroy_outcome(name, run) == Err::<(), BdevErrorView>(
            BdevErrorView::NotFound { name },
        ),
{
}

/// A destroy that follows a successful destroy of the same name ends in
/// `NotFound`.
pub proof fn law_destroy_twice(
    name: Seq<char>,
    first: DestroyRun,
    second: DestroyRun,
    middle: Set<Seq<char>>,
)
    requires
        answers_delete(name, first, middle),
        answers_lookup(middle, name, second.found),
    ensures
        spec_destroy_outcome(name, first) is Ok ==> spec_destroy_outcome(name, second) == Err::<
            (),
            BdevErrorView,
        >(BdevErrorView::NotFound { name }),
{
}

} // verus!
