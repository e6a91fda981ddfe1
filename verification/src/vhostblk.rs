//! Vhost-blk controllers: a block device of the runtime handed to another
//! process over a socket.
//!
//! A controller is constructed with a call that returns at once, and found by
//! name afterwards. It is torn down under the lock of the runtime's device
//! table: the device is looked up there by name, and what is removed is what
//! the lookup found. A removal that the runtime turns down is logged, not
//! reported.

use crate::device::{lemma_nul_free_joined, spec_nul_free, DeviceHandle};
use crate::placement::{spec_next_core, PlacementPolicy};
use vstd::prelude::*;
use vstd::string::StringExecFns;

verus! {

/// Why a controller could not be made.
#[derive(Debug, PartialEq, Eq)]
pub enum VhostblkError {
    /// The construct call for the backing device `dev` returned `source`,
    /// a status other than zero.
    ConstructVhostblk { source: i32, dev: String },
}

/// `VhostblkError` with its strings as sequences of characters.
pub enum VhostblkErrorView {
    ConstructVhostblk { source: i32, dev: Seq<char> },
}

impl View for VhostblkError {
    type V = VhostblkErrorView;

    open spec fn view(&self) -> VhostblkErrorView {
        match self {
            VhostblkError::ConstructVhostblk { source, dev } => {
                VhostblkErrorView::ConstructVhostblk { source: *source, dev: dev@ }
            },
        }
    }
}

impl VhostblkError {
    /// The error in words.
    pub fn message(&self) -> (text: String)
        ensures
            self@ matches VhostblkErrorView::ConstructVhostblk { dev, .. } && text@
                == "Failed to construct vhostblk on "@ + dev,
    {
        match self {
            VhostblkError::ConstructVhostblk { dev, .. } => {
                "Failed to construct vhostblk on ".to_owned().concat(dev.as_str())
            },
        }
    }
}

/// The name of the controller for a backing device.
pub open spec fn spec_controller_name(bdev_name: Seq<char>) -> Seq<char> {
    bdev_name + "_vhostblk"@
}

pub fn controller_name(bdev_name: &str) -> (name: String)
    ensures
        name@ == spec_controller_name(bdev_name@),
{
    bdev_name.to_owned().concat("_vhostblk")
}

/// The controller of a device whose name the runtime can take has a name
/// that the runtime can take.
pub proof fn lemma_controller_name(bdev_name: Seq<char>)
    requires
        spec_nul_free(bdev_name),
    ensures
        spec_nul_free(spec_controller_name(bdev_name)),
{
    reveal_strlit("_vhostblk");
    lemma_nul_free_joined(bdev_name, "_vhostblk"@);
}

/// The description of a controller: the device behind it, the core that
/// polls it, and its name.
#[derive(Debug, PartialEq, Eq)]
pub struct VhostBlkSpec {
    bdev_name: String,
    core: u32,
    name: String,
}

/// `VhostBlkSpec` with its strings as sequences of characters.
pub struct VhostBlkSpecView {
    pub bdev_name: Seq<char>,
    pub core: u32,
    pub name: Seq<char>,
}

impl View for VhostBlkSpec {
    type V = VhostBlkSpecView;

    closed spec fn view(&self) -> VhostBlkSpecView {
        VhostBlkSpecView { bdev_name: self.bdev_name@, core: self.core, name: self.name@ }
    }
}

impl VhostBlkSpec {
    #[verifier::type_invariant]
    closed spec fn named(self) -> bool {
        self.name@ == spec_controller_name(self.bdev_name@)
    }

    /// Describes the controller for a backing device and places it on the
    /// core that is next in turn. Without a core to place it on there is no
    /// controller, and the policy is left as it is. The name of the device
    /// is one that the runtime can take: it holds no NUL.
    pub fn new(bdev_name: &str, policy: &mut PlacementPolicy, cores: &[u32]) -> (spec: Option<
        VhostBlkSpec,
    >)
        requires
            spec_nul_free(bdev_name@),
        ensures
            spec is None <==> cores@.len() == 0,
            spec matches Some(s) ==> final(policy).cursor() == Some(s@.core)
                && cores@.contains(s@.core),
            spec matches Some(s) ==> s@ == (VhostBlkSpecView {
                bdev_name: bdev_name@,
                core: spec_next_core(old(policy).cursor(), cores@)->0,
                name: spec_controller_name(bdev_name@),
            }),
            final(policy).cursor() == if spec is Some {
                spec_next_core(old(policy).cursor(), cores@)
            } else {
                old(policy).cursor()
            },
    {
        match policy.next_core(cores) {
            Some(core) => Some(
                VhostBlkSpec {
                    bdev_name: bdev_name.to_owned(),
                    core,
                    name: controller_name(bdev_name),
                },
            ),
            None => None,
        }
    }

    pub fn bdev_name(&self) -> (name: &str)
        ensures
            name@ == self@.bdev_name,
    {
        self.bdev_name.as_str()
    }

    /// The core that polls the controller.
    pub fn assigned_core(&self) -> (core: u32)
        ensures
            core == self@.core,
    {
        self.core
    }

    pub fn name(&self) -> (name: &str)
        ensures
            name@ == self@.name,
            name@ == spec_controller_name(self@.bdev_name),
    {
        proof {
            use_type_invariant(self);
        }
        self.name.as_str()
    }
}

/// What the runtime reported in the course of making a controller.
#[derive(Debug, Clone, Copy, PartialEq, Eq, Structural)]
pub enum VhostEvent {
    /// The construct call returned with this status.
    Issued(i32),
    /// The lookup by name returned this handle.
    Found(DeviceHandle),
}

/// Where the making of a controller stands.
#[derive(Debug, Clone, Copy, PartialEq, Eq, Structural)]
pub enum VhostPhase {
    /// The construct call is being made.
    Constructing,
    /// The controller is being looked up.
    Finding,
    /// The operation has ended.
    Finished,
}

/// A constructed controller. Its name is one that the runtime can take.
#[derive(Debug, PartialEq, Eq)]
pub struct VhostblkCtrlr {
    handle: DeviceHandle,
    name: String,
}

/// `VhostblkCtrlr` with its name as a sequence of characters.
pub struct VhostblkCtrlrView {
    pub handle: DeviceHandle,
    pub name: Seq<char>,
}

impl View for VhostblkCtrlr {
    type V = VhostblkCtrlrView;

    closed spec fn view(&self) -> VhostblkCtrlrView {
        VhostblkCtrlrView { handle: self.handle, name: self.name@ }
    }
}

/// What the caller of a step is to do next.
#[derive(Debug, PartialEq, Eq)]
pub enum VhostAction {
    /// Make the construct call and report `VhostEvent::Issued`.
    Construct { name: String, core: u32, bdev_name: String, readonly: bool, packed_ring: bool },
    /// Look the controller up by name and report `VhostEvent::Found`.
    Find { name: String },
    /// The event answers nothing that was asked: go on waiting.
    Ignored,
    /// The operation has ended with this result.
    Done(Result<VhostblkCtrlr, VhostblkError>),
}

/// `VhostAction` with its strings as sequences of characters.
pub enum VhostActionView {
    Construct {
        name: Seq<char>,
        core: u32,
        bdev_name: Seq<char>,
        readonly: bool,
        packed_ring: bool,
    },
    Find { name: Seq<char> },
    Ignored,
    Done(Result<VhostblkCtrlrView, VhostblkErrorView>),
}

impl View for VhostAction {
    type V = VhostActionView;

    open spec fn view(&self) -> VhostActionView {
        match self {
            VhostAction::Construct { name, core, bdev_name, readonly, packed_ring } => {
                VhostActionView::Construct {
                    name: name@,
                    core: *core,
                    bdev_name: bdev_name@,
                    readonly: *readonly,
                    packed_ring: *packed_ring,
                }
            },
            VhostAction::Find { name } => VhostActionView::Find { name: name@ },
            VhostAction::Ignored => VhostActionView::Ignored,
            VhostAction::Done(Ok(ctrlr)) => VhostActionView::Done(Ok(ctrlr@)),
            VhostAction::Done(Err(error)) => VhostActionView::Done(Err(error@)),
        }
    }
}

/// The construct call for a controller: writable, without packed rings.
pub open spec fn spec_start(spec: VhostBlkSpecView) -> VhostActionView {
    VhostActionView::Construct {
        name: spec.name,
        core: spec.core,
        bdev_name: spec.bdev_name,
        readonly: false,
        packed_ring: false,
    }
}

/// One step in the making of a controller.
pub open spec fn spec_step(spec: VhostBlkSpecView, phase: VhostPhase, event: VhostEvent) -> (
    VhostPhase,
    VhostActionView,
) {
    match (phase, event) {
        (VhostPhase::Constructing, VhostEvent::Issued(status)) => if status != 0 {
            (
                VhostPhase::Finished,
                VhostActionView::Done(
                    Err(
                        VhostblkErrorView::ConstructVhostblk {
                            source: status,
                            dev: spec.bdev_name,
                        },
                    ),
                ),
            )
        } else {
            (VhostPhase::Finding, VhostActionView::Find { name: spec.name })
        },
        (VhostPhase::Finding, VhostEvent::Found(handle)) => (
            VhostPhase::Finished,
            VhostActionView::Done(Ok(VhostblkCtrlrView { handle, name: spec.name })),
        ),
        _ => (phase, VhostActionView::Ignored),
    }
}

/// The external address of a controller: the socket of its name in the
/// runtime's socket directory, which is joined to the name as it is.
pub open spec fn spec_as_uri(sock_dir: Seq<char>, name: Seq<char>) -> Seq<char> {
    "file://"@ + sock_dir + name
}

/// A step of a teardown, in the order in which the steps are taken.
#[derive(Debug, PartialEq, Eq)]
pub enum TeardownAction {
    /// Take the lock of the runtime's device table.
    Lock,
    /// Look the device up by name in the table, and hand what was found to
    /// `VhostblkCtrlr::destroy_step`.
    Find { name: String },
    /// Ask the runtime to remove the device.
    Remove(DeviceHandle),
    /// Release the lock.
    Unlock,
}

/// `TeardownAction` with its name as a sequence of characters.
pub enum TeardownActionView {
    Lock,
    Find { name: Seq<char> },
    Remove(DeviceHandle),
    Unlock,
}

impl View for TeardownAction {
    type V = TeardownActionView;

    open spec fn view(&self) -> TeardownActionView {
        match self {
            TeardownAction::Lock => TeardownActionView::Lock,
            TeardownAction::Find { name } => TeardownActionView::Find { name: name@ },
            TeardownAction::Remove(handle) => TeardownActionView::Remove(*handle),
            TeardownAction::Unlock => TeardownActionView::Unlock,
        }
    }
}

/// The steps of a teardown with their names as sequences of characters.
pub open spec fn teardown_view(steps: Seq<TeardownAction>) -> Seq<TeardownActionView> {
    Seq::new(steps.len(), |i: int| steps[i]@)
}

/// How a teardown ends once the device has been looked up under the lock:
/// the removal of what was found, if anything was, and the release of the
/// lock.
pub open spec fn spec_destroy_step(found: Option<DeviceHandle>) -> Seq<TeardownActionView> {
    match found {
        Some(handle) => seq![TeardownActionView::Remove(handle), TeardownActionView::Unlock],
        None => seq![TeardownActionView::Unlock],
    }
}

impl VhostblkCtrlr {
    #[verifier::type_invariant]
    closed spec fn named(self) -> bool {
        spec_nul_free(self.name@)
    }

    /// Starts the making of the controller that `spec` describes. The name
    /// of the device behind it is one that the runtime can take.
    pub fn create(spec: &VhostBlkSpec) -> (start: (VhostPhase, VhostAction))
        requires
            spec_nul_free(spec@.bdev_name),
        ensures
            start.0 == VhostPhase::Constructing,
            start.1@ == spec_start(spec@),
    {
        (
            VhostPhase::Constructing,
            VhostAction::Construct {
                name: spec.name().to_owned(),
                core: spec.assigned_core(),
                bdev_name: spec.bdev_name().to_owned(),
                readonly: false,
                packed_ring: false,
            },
        )
    }

    /// Takes the making of a controller one step further with what the
    /// runtime reported.
    pub fn create_step(spec: &VhostBlkSpec, phase: VhostPhase, event: VhostEvent) -> (next: (
        VhostPhase,
        VhostAction,
    ))
        requires
            spec_nul_free(spec@.bdev_name),
        ensures
            (next.0, next.1@) == spec_step(spec@, phase, event),
    {
        proof {
            lemma_controller_name(spec@.bdev_name);
        }
        match phase {
            VhostPhase::Constructing => match event {
                VhostEvent::Issued(status) => if status != 0 {
                    (
                        VhostPhase::Finished,
                        VhostAction::Done(
                            Err(
                                VhostblkError::ConstructVhostblk {
                                    source: status,
                                    dev: spec.bdev_name().to_owned(),
                                },
                            ),
                        ),
                    )
                } else {
                    (VhostPhase::Finding, VhostAction::Find { name: spec.name().to_owned() })
                },
                _ => (phase, VhostAction::Ignored),
            },
            VhostPhase::Finding => match event {
                VhostEvent::Found(handle) => (
                    VhostPhase::Finished,
                    VhostAction::Done(Ok(VhostblkCtrlr { handle, name: spec.name().to_owned() })),
                ),
                _ => (phase, VhostAction::Ignored),
            },
            VhostPhase::Finished => (phase, VhostAction::Ignored),
        }
    }

    /// Gives the controller up. What is left is the teardown to perform:
    /// first the lock is taken and the device looked up by name under it.
    /// The controller itself is gone whatever the runtime makes of the
    /// teardown.
    pub fn destroy(self) -> (first: Vec<TeardownAction>)
        ensures
            teardown_view(first@) == seq![
                TeardownActionView::Lock,
                TeardownActionView::Find { name: self@.name },
            ],
            spec_nul_free(self@.name),
    {
        proof {
            use_type_invariant(&self);
        }
        let first = vec![TeardownAction::Lock, TeardownAction::Find { name: self.name }];
        assert(teardown_view(first@) =~= seq![
            TeardownActionView::Lock,
            TeardownActionView::Find { name: self@.name },
        ]);
        first
    }

    /// The rest of a teardown, given what the lookup under the lock found:
    /// the removal of the device that was found, and the release of the
    /// lock. Where nothing was found, nothing is removed.
    pub fn destroy_step(found: Option<DeviceHandle>) -> (rest: Vec<TeardownAction>)
        ensures
            teardown_view(rest@) == spec_destroy_step(found),
    {
        let rest = match found {
            Some(handle) => vec![TeardownAction::Remove(handle), TeardownAction::Unlock],
            None => vec![TeardownAction::Unlock],
        };
        assert(teardown_view(rest@) =~= spec_destroy_step(found));
        rest
    }

    pub fn handle(&self) -> (handle: DeviceHandle)
        ensures
            handle == self@.handle,
    {
        self.handle
    }

    /// The name of the controller.
    pub fn get_name(&self) -> (name: String)
        ensures
            name@ == self@.name,
            spec_nul_free(name@),
    {
        proof {
            use_type_invariant(self);
        }
        self.name.clone()
    }

    /// The external address of the controller, given the runtime's socket
    /// directory.
    pub fn as_uri(&self, sock_dir: &str) -> (uri: String)
        ensures
            uri@ == spec_as_uri(sock_dir@, self@.name),
    {
        "file://".to_owned().concat(sock_dir).concat(self.name.as_str())
    }
}

/// Whether the runtime turned a removal down. Such a failure is logged; the
/// teardown counts as done all the same.
pub fn removal_failed(rc: i32) -> (failed: bool)
    ensures
        failed == (rc < 0),
{
    rc < 0
}

} // verus!
