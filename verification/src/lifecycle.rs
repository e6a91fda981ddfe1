//! Creating and destroying an OCF device in the runtime.
//!
//! Both operations alternate between a native call and a decision on what it
//! reported. The decisions are here, as two small state machines: the caller
//! performs the action that a step returns, and hands the step that follows
//! what the runtime reported. Nothing is retried, and an error ends the
//! operation.
//!
//! The runtime reads the names it is given as C strings. An operation is
//! therefore only begun on a device whose name holds no NUL, and the
//! construct call only asked for where none of its strings does.

use crate::bridge::Completion;
use crate::device::{nul_free, spec_nul_free};
use crate::error::{BdevError, BdevErrorView};
use crate::ocf::{option_view, Ocf, OcfView};
use vstd::prelude::*;

verus! {

/// What the runtime reported.
#[derive(Debug, PartialEq, Eq)]
pub enum Event {
    /// The registry was asked for a device by name: the identity that the
    /// device reports, or `None` where there is no such device.
    Lookup(Option<String>),
    /// The call that issues an operation returned with this status.
    Issued(i32),
    /// The completion bridge was settled.
    Completed(Completion<()>),
}

/// `Event` with its strings as sequences of characters.
pub enum EventView {
    Lookup(Option<Seq<char>>),
    Issued(i32),
    Completed(Completion<()>),
}

impl View for Event {
    type V = EventView;

    open spec fn view(&self) -> EventView {
        match self {
            Event::Lookup(found) => EventView::Lookup(option_view(*found)),
            Event::Issued(status) => EventView::Issued(*status),
            Event::Completed(completion) => EventView::Completed(*completion),
        }
    }
}

/// The status with which a bridge was settled: zero where the callback
/// delivered success, `None` where it never came.
pub open spec fn spec_status(completion: Completion<()>) -> Option<i32> {
    match completion {
        Completion::Delivered(Ok(_)) => Some(0),
        Completion::Delivered(Err(status)) => Some(status),
        Completion::Abandoned => None,
    }
}

pub fn completion_status(completion: &Completion<()>) -> (status: Option<i32>)
    ensures
        status == spec_status(*completion),
{
    match completion {
        Completion::Delivered(Ok(_)) => Some(0),
        Completion::Delivered(Err(status)) => Some(*status),
        Completion::Abandoned => None,
    }
}

/// The arguments of the native construct call.
#[derive(Debug, PartialEq, Eq)]
pub struct ConstructRequest {
    pub name: String,
    pub cache_mode: String,
    pub cache_line_size: u64,
    pub cache_bdev_name: String,
    pub core_bdev_name: String,
    /// Whether the cache is loaded from the cache device; never asked for.
    pub load: bool,
}

/// `ConstructRequest` with its strings as sequences of characters.
pub struct ConstructRequestView {
    pub name: Seq<char>,
    pub cache_mode: Seq<char>,
    pub cache_line_size: u64,
    pub cache_bdev_name: Seq<char>,
    pub core_bdev_name: Seq<char>,
    pub load: bool,
}

impl View for ConstructRequest {
    type V = ConstructRequestView;

    open spec fn view(&self) -> ConstructRequestView {
        ConstructRequestView {
            name: self.name@,
            cache_mode: self.cache_mode@,
            cache_line_size: self.cache_line_size,
            cache_bdev_name: self.cache_bdev_name@,
            core_bdev_name: self.core_bdev_name@,
            load: self.load,
        }
    }
}

/// What a successful create reports.
#[derive(Debug, PartialEq, Eq)]
pub struct Created {
    /// The name under which the device is registered.
    pub name: String,
    /// Whether an identity was asked for and the device reports another.
    /// The device stands all the same; the caller is to log a warning.
    pub identity_differs: bool,
}

/// `Created` with its name as a sequence of characters.
pub struct CreatedView {
    pub name: Seq<char>,
    pub identity_differs: bool,
}

impl View for Created {
    type V = CreatedView;

    open spec fn view(&self) -> CreatedView {
        CreatedView { name: self.name@, identity_differs: self.identity_differs }
    }
}

/// Where a create stands.
#[derive(Debug, Clone, Copy, PartialEq, Eq, Structural)]
pub enum CreatePhase {
    /// The registry is being asked whether the name is taken.
    Checking,
    /// The construct call is issued and its completion awaited.
    Constructing,
    /// The registry is being asked for the device that was constructed.
    Verifying,
    /// The operation has ended.
    Finished,
}

/// What the caller of a create step is to do next.
#[derive(Debug, PartialEq, Eq)]
pub enum CreateAction {
    /// Look the device up by name and report `Event::Lookup`.
    Lookup { name: String },
    /// Issue the construct call with a fresh bridge token, wait for the
    /// token to settle and report `Event::Completed`.
    Construct(ConstructRequest),
    /// The event answers nothing that was asked: go on waiting.
    Ignored,
    /// The operation has ended with this result.
    Done(Result<Created, BdevError>),
}

/// `CreateAction` with its strings as sequences of characters.
pub enum CreateActionView {
    Lookup { name: Seq<char> },
    Construct(ConstructRequestView),
    Ignored,
    Done(Result<CreatedView, BdevErrorView>),
}

impl View for CreateAction {
    type V = CreateActionView;

    open spec fn view(&self) -> CreateActionView {
        match self {
            CreateAction::Lookup { name } => CreateActionView::Lookup { name: name@ },
            CreateAction::Construct(request) => CreateActionView::Construct(request@),
            CreateAction::Ignored => CreateActionView::Ignored,
            CreateAction::Done(Ok(created)) => CreateActionView::Done(Ok(created@)),
            CreateAction::Done(Err(error)) => CreateActionView::Done(Err(error@)),
        }
    }
}

/// Whether the runtime can take every string of the construct call for a
/// device: none holds a NUL.
pub open spec fn spec_constructible(ocf: OcfView) -> bool {
    &&& spec_nul_free(ocf.name)
    &&& spec_nul_free(ocf.cache_mode)
    &&& spec_nul_free(ocf.cache_bdev_name)
    &&& spec_nul_free(ocf.core_bdev_name)
}

/// Whether a step of a create asks for the construct call: it does where
/// the lookup before it has found nothing.
pub open spec fn spec_asks_construct(phase: CreatePhase, event: EventView) -> bool {
    phase == CreatePhase::Checking && event == EventView::Lookup(None)
}

/// The construct call for a device.
pub open spec fn spec_construct_request(ocf: OcfView) -> ConstructRequestView {
    ConstructRequestView {
        name: ocf.name,
        cache_mode: ocf.cache_mode,
        cache_line_size: ocf.cache_line_size,
        cache_bdev_name: ocf.cache_bdev_name,
        core_bdev_name: ocf.core_bdev_name,
        load: false,
    }
}

/// Whether a device that reports `identity` is not the one asked for.
pub open spec fn spec_identity_differs(ocf: OcfView, identity: Seq<char>) -> bool {
    ocf.uuid is Some && ocf.uuid != Some(identity)
}

/// One step of a create: the phase that follows and what is to be done.
pub open spec fn spec_create_step(ocf: OcfView, phase: CreatePhase, event: EventView) -> (
    CreatePhase,
    CreateActionView,
) {
    match (phase, event) {
        (CreatePhase::Checking, EventView::Lookup(Some(_))) => (
            CreatePhase::Finished,
            CreateActionView::Done(Err(BdevErrorView::AlreadyExists { name: ocf.name })),
        ),
        (CreatePhase::Checking, EventView::Lookup(None)) => (
            CreatePhase::Constructing,
            CreateActionView::Construct(spec_construct_request(ocf)),
        ),
        (CreatePhase::Constructing, EventView::Completed(completion)) => match spec_status(
            completion,
        ) {
            None => (
                CreatePhase::Finished,
                CreateActionView::Done(Err(BdevErrorView::BridgeAbandoned)),
            ),
            Some(status) => if status != 0 {
                (
                    CreatePhase::Finished,
                    CreateActionView::Done(Err(BdevErrorView::ConstructionFailed { status })),
                )
            } else {
                (CreatePhase::Verifying, CreateActionView::Lookup { name: ocf.name })
            },
        },
        (CreatePhase::Verifying, EventView::Lookup(None)) => (
            CreatePhase::Finished,
            CreateActionView::Done(Err(BdevErrorView::NotFound { name: ocf.name })),
        ),
        (CreatePhase::Verifying, EventView::Lookup(Some(identity))) => (
            CreatePhase::Finished,
            CreateActionView::Done(
                Ok(
                    CreatedView {
                        name: ocf.name,
                        identity_differs: spec_identity_differs(ocf, identity),
                    },
                ),
            ),
        ),
        _ => (phase, CreateActionView::Ignored),
    }
}

/// Where a destroy stands.
#[derive(Debug, Clone, Copy, PartialEq, Eq, Structural)]
pub enum DestroyPhase {
    /// The registry is being asked for the device.
    Resolving,
    /// The destroy call is being issued.
    Issuing,
    /// The destroy call was accepted and its completion is awaited.
    Awaiting,
    /// The operation has ended.
    Finished,
}

/// What the caller of a destroy step is to do next.
#[derive(Debug, PartialEq, Eq)]
pub enum DestroyAction {
    /// Look the device up by name and report `Event::Lookup`.
    Lookup { name: String },
    /// Issue the destroy call for the device just found, with a fresh
    /// bridge token, and report `Event::Issued` with what the call returned.
    Delete { name: String },
    /// Wait for the token to settle and report `Event::Completed`.
    Await,
    /// The event answers nothing that was asked: go on waiting.
    Ignored,
    /// The operation has ended with this result.
    Done(Result<(), BdevError>),
}

/// `DestroyAction` with its strings as sequences of characters.
pub enum DestroyActionView {
    Lookup { name: Seq<char> },
    Delete { name: Seq<char> },
    Await,
    Ignored,
    Done(Result<(), BdevErrorView>),
}

impl View for DestroyAction {
    type V = DestroyActionView;

    open spec fn view(&self) -> DestroyActionView {
        match self {
            DestroyAction::Lookup { name } => DestroyActionView::Lookup { name: name@ },
            DestroyAction::Delete { name } => DestroyActionView::Delete { name: name@ },
            DestroyAction::Await => DestroyActionView::Await,
            DestroyAction::Ignored => DestroyActionView::Ignored,
            DestroyAction::Done(Ok(_)) => DestroyActionView::Done(Ok(())),
            DestroyAction::Done(Err(error)) => DestroyActionView::Done(Err(error@)),
        }
    }
}

/// One step of a destroy: the phase that follows and what is to be done.
pub open spec fn spec_destroy_step(name: Seq<char>, phase: DestroyPhase, event: EventView) -> (
    DestroyPhase,
    DestroyActionView,
) {
    match (phase, event) {
        (DestroyPhase::Resolving, EventView::Lookup(None)) => (
            DestroyPhase::Finished,
            DestroyActionView::Done(Err(BdevErrorView::NotFound { name })),
        ),
        (DestroyPhase::Resolving, EventView::Lookup(Some(_))) => (
            DestroyPhase::Issuing,
            DestroyActionView::Delete { name },
        ),
        (DestroyPhase::Issuing, EventView::Issued(status)) => if status < 0 {
            (
                DestroyPhase::Finished,
                DestroyActionView::Done(Err(BdevErrorView::DestructionRejected { status })),
            )
        } else {
            (DestroyPhase::Awaiting, DestroyActionView::Await)
        },
        (DestroyPhase::Awaiting, EventView::Completed(completion)) => match spec_status(
            completion,
        ) {
            None => (
                DestroyPhase::Finished,
                DestroyActionView::Done(Err(BdevErrorView::BridgeAbandoned)),
            ),
            Some(status) => if status != 0 {
                (
                    DestroyPhase::Finished,
                    DestroyActionView::Done(Err(BdevErrorView::DestructionFailed { status })),
                )
            } else {
                (DestroyPhase::Finished, DestroyActionView::Done(Ok(())))
            },
        },
        _ => (phase, DestroyActionView::Ignored),
    }
}

impl Ocf {
    /// Whether the runtime can take the name of the device.
    pub fn is_named(&self) -> (named: bool)
        ensures
            named == spec_nul_free(self@.name),
    {
        nul_free(self.get_name().as_str())
    }

    /// Whether the runtime can take every string of the construct call.
    pub fn is_constructible(&self) -> (constructible: bool)
        ensures
            constructible == spec_constructible(self@),
    {
        nul_free(self.get_name().as_str()) && nul_free(self.cache_mode()) && nul_free(
            self.cache_bdev_name(),
        ) && nul_free(self.core_bdev_name())
    }

    /// The arguments with which the device is constructed.
    pub fn construct_request(&self) -> (request: ConstructRequest)
        requires
            spec_constructible(self@),
        ensures
            request@ == spec_construct_request(self@),
    {
        ConstructRequest {
            name: self.get_name(),
            cache_mode: self.cache_mode().to_owned(),
            cache_line_size: self.cache_line_size(),
            cache_bdev_name: self.cache_bdev_name().to_owned(),
            core_bdev_name: self.core_bdev_name().to_owned(),
            load: false,
        }
    }

    /// Starts a create: the registry is asked first whether the name is
    /// taken.
    pub fn create(&self) -> (start: (CreatePhase, CreateAction))
        requires
            spec_nul_free(self@.name),
        ensures
            start.0 == CreatePhase::Checking,
            start.1@ == (CreateActionView::Lookup { name: self@.name }),
    {
        (CreatePhase::Checking, CreateAction::Lookup { name: self.get_name() })
    }

    /// Takes a create one step further with what the runtime reported.
    pub fn create_step(&self, phase: CreatePhase, event: Event) -> (next: (
        CreatePhase,
        CreateAction,
    ))
        requires
            spec_nul_free(self@.name),
            spec_asks_construct(phase, event@) ==> spec_constructible(self@),
        ensures
            (next.0, next.1@) == spec_create_step(self@, phase, event@),
    {
        match phase {
            CreatePhase::Checking => match event {
                Event::Lookup(Some(_)) => (
                    CreatePhase::Finished,
                    CreateAction::Done(Err(BdevError::AlreadyExists { name: self.get_name() })),
                ),
                Event::Lookup(None) => (
                    CreatePhase::Constructing,
                    CreateAction::Construct(self.construct_request()),
                ),
                _ => (phase, CreateAction::Ignored),
            },
            CreatePhase::Constructing => match event {
                Event::Completed(completion) => match completion_status(&completion) {
                    None => (
                        CreatePhase::Finished,
                        CreateAction::Done(Err(BdevError::BridgeAbandoned)),
                    ),
                    Some(status) => if status != 0 {
                        (
                            CreatePhase::Finished,
                            CreateAction::Done(Err(BdevError::ConstructionFailed { status })),
                        )
                    } else {
                        (CreatePhase::Verifying, CreateAction::Lookup { name: self.get_name() })
                    },
                },
                _ => (phase, CreateAction::Ignored),
            },
            CreatePhase::Verifying => match event {
                Event::Lookup(None) => (
                    CreatePhase::Finished,
                    CreateAction::Done(Err(BdevError::NotFound { name: self.get_name() })),
                ),
                Event::Lookup(Some(identity)) => {
                    let identity_differs = match self.uuid() {
                        Some(wanted) => !(*wanted == identity),
                        None => false,
                    };
                    (
                        CreatePhase::Finished,
                        CreateAction::Done(Ok(Created { name: self.get_name(), identity_differs })),
                    )
                },
                _ => (phase, CreateAction::Ignored),
            },
            CreatePhase::Finished => (phase, CreateAction::Ignored),
        }
    }

    /// Starts a destroy: the registry is asked first for the device.
    pub fn destroy(&self) -> (start: (DestroyPhase, DestroyAction))
        requires
            spec_nul_free(self@.name),
        ensures
            start.0 == DestroyPhase::Resolving,
            start.1@ == (DestroyActionView::Lookup { name: self@.name }),
    {
        (DestroyPhase::Resolving, DestroyAction::Lookup { name: self.get_name() })
    }

    /// Takes a destroy one step further with what the runtime reported.
    pub fn destroy_step(&self, phase: DestroyPhase, event: Event) -> (next: (
        DestroyPhase,
        DestroyAction,
    ))
        requires
            spec_nul_free(self@.name),
        ensures
            (next.0, next.1@) == spec_destroy_step(self@.name, phase, event@),
    {
        match phase {
            DestroyPhase::Resolving => match event {
                Event::Lookup(None) => (
                    DestroyPhase::Finished,
                    DestroyAction::Done(Err(BdevError::NotFound { name: self.get_name() })),
                ),
                Event::Lookup(Some(_)) => (
                    DestroyPhase::Issuing,
                    DestroyAction::Delete { name: self.get_name() },
                ),
                _ => (phase, DestroyAction::Ignored),
            },
            DestroyPhase::Issuing => match event {
                Event::Issued(status) => if status < 0 {
                    (
                        DestroyPhase::Finished,
                        DestroyAction::Done(Err(BdevError::DestructionRejected { status })),
                    )
                } else {
                    (DestroyPhase::Awaiting, DestroyAction::Await)
                },
                _ => (phase, DestroyAction::Ignored),
            },
            DestroyPhase::Awaiting => match event {
                Event::Completed(completion) => match completion_status(&completion) {
                    None => (
                        DestroyPhase::Finished,
                        DestroyAction::Done(Err(BdevError::BridgeAbandoned)),
                    ),
                    Some(status) => if status != 0 {
                        (
                            DestroyPhase::Finished,
                            DestroyAction::Done(Err(BdevError::DestructionFailed { status })),
                        )
                    } else {
                        (DestroyPhase::Finished, DestroyAction::Done(Ok(())))
                    },
                },
                _ => (phase, DestroyAction::Ignored),
            },
            DestroyPhase::Finished => (phase, DestroyAction::Ignored),
        }
    }
}

/// What the runtime answered in the course of one create, step by step. An
/// answer to a step that the create never reached is of no account.
pub struct CreateRun {
    /// The lookup before the construct call.
    pub before: Option<Seq<char>>,
    /// What settled the bridge of the construct call.
    pub completion: Completion<()>,
    /// The lookup after the construct call.
    pub after: Option<Seq<char>>,
}

/// How a create ends, given what the runtime answers.
pub open spec fn spec_create_outcome(ocf: OcfView, run: CreateRun) -> Result<
    CreatedView,
    BdevErrorView,
> {
    if run.before is Some {
        Err(BdevErrorView::AlreadyExists { name: ocf.name })
    } else if spec_status(run.completion) is None {
        Err(BdevErrorView::BridgeAbandoned)
    } else if spec_status(run.completion) != Some(0i32) {
        Err(BdevErrorView::ConstructionFailed { status: spec_status(run.completion)->0 })
    } else if run.after is None {
        Err(BdevErrorView::NotFound { name: ocf.name })
    } else {
        Ok(
            CreatedView {
                name: ocf.name,
                identity_differs: spec_identity_differs(ocf, run.after->0),
            },
        )
    }
}

/// The last action of a create that is taken step by step through a run.
pub open spec fn spec_create_run(ocf: OcfView, run: CreateRun) -> CreateActionView {
    let checked = spec_create_step(ocf, CreatePhase::Checking, EventView::Lookup(run.before));
    let constructed = spec_create_step(ocf, checked.0, EventView::Completed(run.completion));
    let verified = spec_create_step(ocf, constructed.0, EventView::Lookup(run.after));
    if checked.0 == CreatePhase::Finished {
        checked.1
    } else if constructed.0 == CreatePhase::Finished {
        constructed.1
    } else {
        verified.1
    }
}

/// A create that is handed the runtime's answers in turn asks for the
/// construct call only where the name was not found, and ends as
/// `spec_create_outcome` says.
pub proof fn law_create_run(ocf: OcfView, run: CreateRun)
    ensures
        spec_create_run(ocf, run) == CreateActionView::Done(spec_create_outcome(ocf, run)),
        spec_create_step(ocf, CreatePhase::Checking, EventView::Lookup(run.before)).1
            is Construct <==> run.before is None,
{
}

/// What the runtime answered in the course of one destroy, step by step. An
/// answer to a step that the destroy never reached is of no account.
pub struct DestroyRun {
    /// The lookup of the device.
    pub found: Option<Seq<char>>,
    /// What the destroy call returned as it was issued.
    pub issued: i32,
    /// What settled the bridge of the destroy call.
    pub completion: Completion<()>,
}

/// How a destroy ends, given what the runtime answers.
pub open spec fn spec_destroy_outcome(name: Seq<char>, run: DestroyRun) -> Result<
    (),
    BdevErrorView,
> {
    if run.found is None {
        Err(BdevErrorView::NotFound { name })
    } else if run.issued < 0 {
        Err(BdevErrorView::DestructionRejected { status: run.issued })
    } else if spec_status(run.completion) is None {
        Err(BdevErrorView::BridgeAbandoned)
    } else if spec_status(run.completion) != Some(0i32) {
        Err(BdevErrorView::DestructionFailed { status: spec_status(run.completion)->0 })
    } else {
        Ok(())
    }
}

/// The last action of a destroy that is taken step by step through a run.
pub open spec fn spec_destroy_run(name: Seq<char>, run: DestroyRun) -> DestroyActionView {
    let resolved = spec_destroy_step(name, DestroyPhase::Resolving, EventView::Lookup(run.found));
    let issued = spec_destroy_step(name, resolved.0, EventView::Issued(run.issued));
    let completed = spec_destroy_step(name, issued.0, EventView::Completed(run.completion));
    if resolved.0 == DestroyPhase::Finished {
        resolved.1
    } else if issued.0 == DestroyPhase::Finished {
        issued.1
    } else {
        completed.1
    }
}

/// A destroy that is handed the runtime's answers in turn asks for the
/// destroy call only where the device was found, and ends as
/// `spec_destroy_outcome` says.
pub proof fn law_destroy_run(name: Seq<char>, run: DestroyRun)
    ensures
        spec_destroy_run(name, run) == DestroyActionView::Done(spec_destroy_outcome(name, run)),
        spec_destroy_step(name, DestroyPhase::Resolving, EventView::Lookup(run.found)).1
            is Delete <==> run.found is Some,
{
}

} // verus!
