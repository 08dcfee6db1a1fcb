//! The operations on the worker VM, step by step: what is asked of the runtime
//! and of the guest, and in which order.
use crate::agent::steps::Sight;
use crate::failure::{refusal, Failure};
use crate::identity;
use crate::values::contents;
use crate::vm::{credentials_script, node_script, packages_script, Vm};
use vstd::prelude::*;

verus! {

/// An operation on the VM.
#[derive(Clone, Copy, Debug, PartialEq, Eq, Structural)]
pub enum VmWork {
    Stop,
    Start,
    /// Change its resources.
    Resize,
    Remove,
    Make,
    /// Change the disks that are attached to it.
    Attach,
    /// Change what it is provisioned with.
    Provision,
    /// See how much the original disk takes.
    InspectSpace,
    InstallFiles,
    /// Stop the worker's service for good.
    Quiesce,
    /// Get the guest ready for a storage pool.
    PrepareStorage,
    /// Use the guest's storage pool. The worker's service may have to stop first.
    UseStorage(bool),
    Configure,
    RenewLease,
    CountWorkloads,
    InspectBackup,
    StreamBackup,
    /// Read the worker's node from its own Kubernetes.
    ReadNode,
    ResetCredentials,
}

/// What is done in the guest.
#[derive(Clone, Copy, Debug, PartialEq, Eq, Structural)]
pub enum GuestTask {
    /// Wait for the end of its first start.
    Initialize,
    RenewLease,
    InstallFiles,
    /// Whether the worker's service is loaded.
    ServiceState,
    StopService,
    DisableService,
    InstallPackages,
    UsePool,
    Configure,
    ListWorkloads,
    InspectBackup,
    StreamBackup,
    ReadNode,
    ResetCredentials,
}

/// Why an operation on the VM is refused.
#[derive(Clone, Copy, Debug, PartialEq, Eq, Structural)]
pub enum VmRefusal {
    NotStopped,
    NoStartReceipt,
    NoResizeReceipt,
    ResizeNeedsStop,
    NoRemovalReceipt,
    RemovalNeedsStop,
    NotRemoved,
    AlreadyExists,
    NoLimaReceipt,
    AttachmentNeedsStop,
    NoSpaceReceipt,
}

/// The message of a refusal.
pub open spec fn vm_refusal_text(n: VmRefusal) -> Seq<char> {
    match n {
        VmRefusal::NotStopped => "The VM runtime has not confirmed that the worker stopped"@,
        VmRefusal::NoStartReceipt => "This application has no creation receipt for the VM; it has been left untouched"@,
        VmRefusal::NoResizeReceipt => "This application has no creation receipt for the VM"@,
        VmRefusal::ResizeNeedsStop => "Stop the worker before changing its resources"@,
        VmRefusal::NoRemovalReceipt => "The worker has no ownership receipt; it has been left untouched"@,
        VmRefusal::RemovalNeedsStop => "The VM runtime must confirm the worker is stopped before deleting its disk"@,
        VmRefusal::NotRemoved => "The VM runtime has not confirmed that the worker disk was removed"@,
        VmRefusal::AlreadyExists => "The worker VM already exists; refusing to replace it"@,
        VmRefusal::NoLimaReceipt => "The worker has no matching Lima ownership receipt"@,
        VmRefusal::AttachmentNeedsStop => "Stop the worker before changing storage attachments"@,
        VmRefusal::NoSpaceReceipt => "Original worker ownership receipt is required for storage inspection"@,
    }
}

/// The message of a refusal.
pub fn vm_refusal_message(n: VmRefusal) -> (r: &'static str)
    ensures
        r@ == vm_refusal_text(n),
{
    match n {
        VmRefusal::NotStopped => "The VM runtime has not confirmed that the worker stopped",
        VmRefusal::NoStartReceipt => "This application has no creation receipt for the VM; it has been left untouched",
        VmRefusal::NoResizeReceipt => "This application has no creation receipt for the VM",
        VmRefusal::ResizeNeedsStop => "Stop the worker before changing its resources",
        VmRefusal::NoRemovalReceipt => "The worker has no ownership receipt; it has been left untouched",
        VmRefusal::RemovalNeedsStop => "The VM runtime must confirm the worker is stopped before deleting its disk",
        VmRefusal::NotRemoved => "The VM runtime has not confirmed that the worker disk was removed",
        VmRefusal::AlreadyExists => "The worker VM already exists; refusing to replace it",
        VmRefusal::NoLimaReceipt => "The worker has no matching Lima ownership receipt",
        VmRefusal::AttachmentNeedsStop => "Stop the worker before changing storage attachments",
        VmRefusal::NoSpaceReceipt => "Original worker ownership receipt is required for storage inspection",
    }
}

/// How an operation on the VM ends.
#[derive(Clone, Copy, Debug, PartialEq, Eq, Structural)]
pub enum VmOutcome {
    Done,
    /// With the error of the last step.
    Failed,
    Refused(VmRefusal),
}

/// What an operation on the VM asks for next.
#[derive(Clone, Copy, Debug, PartialEq, Eq, Structural)]
pub enum VmStep {
    /// Whether the VM's creation receipt is here.
    Receipt,
    /// The state of the VM.
    Look,
    /// Whether the guest says that it belongs to this computer.
    VerifyOwner,
    /// Write the file that the VM is made from.
    WriteConfiguration,
    RecordCreation,
    MakeVm,
    StartVm,
    StopVm,
    ResizeVm,
    DeleteVm,
    RemoveReceipt,
    AttachDisks,
    /// Read the configuration of the stopped VM.
    ReadSaved,
    EditVm,
    InspectSpace,
    Guest(GuestTask),
    Finish(VmOutcome),
}

/// What came of a step.
#[derive(Clone, Copy, Debug, PartialEq, Eq, Structural)]
pub enum VmEvent {
    Begin,
    Done,
    Failed,
    Answer(bool),
    Seen(Sight),
}

/// Where an operation on the VM stands: what was asked for last.
#[derive(Clone, Copy, Debug, PartialEq, Eq, Structural)]
pub enum VmAt {
    Start,
    Received,
    Looked,
    SavedRead,
    Owned,
    OwnedToRenew,
    Renewed,
    OwnedToInstall,
    FilesInstalled,
    OwnedToQuiesce,
    ServiceKnown,
    ServiceStopped,
    Written,
    Recorded,
    Made,
    Initialized,
    Started,
    OwnedLast,
    Stopped,
    StopSeen,
    Deleted,
    GoneSeen,
    Last,
    Over,
}

/// An operation on the VM under way.
#[derive(Clone, Copy, Debug, PartialEq, Eq, Structural)]
pub struct VmRun {
    pub at: VmAt,
    pub work: VmWork,
    /// Whether Lima runs the VM.
    pub lima: bool,
    /// Whether the creation receipt is here.
    pub receipt: bool,
    /// Whether the guest said that it belongs to this computer.
    pub verified: bool,
    /// Whether the worker's lease is renewed while the work goes on.
    pub leased: bool,
    /// What was seen of the VM last.
    pub seen: Option<Sight>,
}

/// The operation is over.
pub open spec fn vm_end(x: VmRun, outcome: VmOutcome) -> (VmRun, VmStep) {
    (VmRun { at: VmAt::Over, ..x }, VmStep::Finish(outcome))
}

/// The operation is over.
fn do_vm_end(x: VmRun, outcome: VmOutcome) -> (r: (VmRun, VmStep))
    ensures
        r == vm_end(x, outcome),
{
    (VmRun { at: VmAt::Over, ..x }, VmStep::Finish(outcome))
}

/// The operation is refused.
pub open spec fn vm_refuse(x: VmRun, n: VmRefusal) -> (VmRun, VmStep) {
    vm_end(x, VmOutcome::Refused(n))
}

/// The operation is refused.
fn do_vm_refuse(x: VmRun, n: VmRefusal) -> (r: (VmRun, VmStep))
    ensures
        r == vm_refuse(x, n),
{
    do_vm_end(x, VmOutcome::Refused(n))
}

/// How an operation begins: with the receipt, with a look at the VM, or with the
/// guest's owner.
pub open spec fn vm_begun(x: VmRun) -> (VmRun, VmStep) {
    match x.work {
        VmWork::Stop | VmWork::Start | VmWork::Resize | VmWork::Remove | VmWork::InspectSpace => (
            VmRun { at: VmAt::Received, ..x },
            VmStep::Receipt,
        ),
        VmWork::Attach | VmWork::Provision => if x.lima {
            (VmRun { at: VmAt::Received, ..x }, VmStep::Receipt)
        } else {
            vm_refuse(x, VmRefusal::NoLimaReceipt)
        },
        VmWork::Make => (VmRun { at: VmAt::Looked, ..x }, VmStep::Look),
        _ => (VmRun { at: VmAt::Owned, ..x }, VmStep::VerifyOwner),
    }
}

/// How an operation begins: with the receipt, with a look at the VM, or with the
/// guest's owner.
fn do_vm_begun(x: VmRun) -> (r: (VmRun, VmStep))
    ensures
        r == vm_begun(x),
{
    match x.work {
        VmWork::Stop | VmWork::Start | VmWork::Resize | VmWork::Remove | VmWork::InspectSpace => (
            VmRun { at: VmAt::Received, ..x },
            VmStep::Receipt,
        ),
        VmWork::Attach | VmWork::Provision => if x.lima {
            (VmRun { at: VmAt::Received, ..x }, VmStep::Receipt)
        } else {
            do_vm_refuse(x, VmRefusal::NoLimaReceipt)
        },
        VmWork::Make => (VmRun { at: VmAt::Looked, ..x }, VmStep::Look),
        _ => (VmRun { at: VmAt::Owned, ..x }, VmStep::VerifyOwner),
    }
}

/// What follows once it is known whether the receipt is here.
pub open spec fn vm_received(x: VmRun) -> (VmRun, VmStep) {
    match (x.work, x.receipt) {
        (VmWork::Stop, true) => (VmRun { at: VmAt::Stopped, ..x }, VmStep::StopVm),
        (VmWork::Stop, false) => (VmRun { at: VmAt::Owned, ..x }, VmStep::VerifyOwner),
        (VmWork::Start, true) => (VmRun { at: VmAt::Started, ..x }, VmStep::StartVm),
        (VmWork::Start, false) => vm_refuse(x, VmRefusal::NoStartReceipt),
        (VmWork::Resize, true) => (VmRun { at: VmAt::Looked, ..x }, VmStep::Look),
        (VmWork::Resize, false) => vm_refuse(x, VmRefusal::NoResizeReceipt),
        (VmWork::Remove, _) => (VmRun { at: VmAt::Looked, ..x }, VmStep::Look),
        (VmWork::InspectSpace, true) => (VmRun { at: VmAt::Last, ..x }, VmStep::InspectSpace),
        (VmWork::InspectSpace, false) => vm_refuse(x, VmRefusal::NoSpaceReceipt),
        (VmWork::Attach, true) => (VmRun { at: VmAt::Looked, ..x }, VmStep::Look),
        (VmWork::Provision, true) => (VmRun { at: VmAt::SavedRead, ..x }, VmStep::ReadSaved),
        (VmWork::Attach, false) | (VmWork::Provision, false) => vm_refuse(
            x,
            VmRefusal::NoLimaReceipt,
        ),
        _ => vm_end(x, VmOutcome::Failed),
    }
}

/// What follows once it is known whether the receipt is here.
fn do_vm_received(x: VmRun) -> (r: (VmRun, VmStep))
    ensures
        r == vm_received(x),
{
    match (x.work, x.receipt) {
        (VmWork::Stop, true) => (VmRun { at: VmAt::Stopped, ..x }, VmStep::StopVm),
        (VmWork::Stop, false) => (VmRun { at: VmAt::Owned, ..x }, VmStep::VerifyOwner),
        (VmWork::Start, true) => (VmRun { at: VmAt::Started, ..x }, VmStep::StartVm),
        (VmWork::Start, false) => do_vm_refuse(x, VmRefusal::NoStartReceipt),
        (VmWork::Resize, true) => (VmRun { at: VmAt::Looked, ..x }, VmStep::Look),
        (VmWork::Resize, false) => do_vm_refuse(x, VmRefusal::NoResizeReceipt),
        (VmWork::Remove, _) => (VmRun { at: VmAt::Looked, ..x }, VmStep::Look),
        (VmWork::InspectSpace, true) => (VmRun { at: VmAt::Last, ..x }, VmStep::InspectSpace),
        (VmWork::InspectSpace, false) => do_vm_refuse(x, VmRefusal::NoSpaceReceipt),
        (VmWork::Attach, true) => (VmRun { at: VmAt::Looked, ..x }, VmStep::Look),
        (VmWork::Provision, true) => (VmRun { at: VmAt::SavedRead, ..x }, VmStep::ReadSaved),
        (VmWork::Attach, false) | (VmWork::Provision, false) => do_vm_refuse(
            x,
            VmRefusal::NoLimaReceipt,
        ),
        _ => do_vm_end(x, VmOutcome::Failed),
    }
}

/// There is no VM any more, so its receipt goes too.
pub open spec fn vm_gone(x: VmRun) -> (VmRun, VmStep) {
    if x.receipt {
        (VmRun { at: VmAt::Last, ..x }, VmStep::RemoveReceipt)
    } else {
        vm_end(x, VmOutcome::Done)
    }
}

/// There is no VM any more, so its receipt goes too.
fn do_vm_gone(x: VmRun) -> (r: (VmRun, VmStep))
    ensures
        r == vm_gone(x),
{
    if x.receipt {
        (VmRun { at: VmAt::Last, ..x }, VmStep::RemoveReceipt)
    } else {
        do_vm_end(x, VmOutcome::Done)
    }
}

/// What follows a look at the VM.
pub open spec fn vm_looked(x: VmRun, s: Sight) -> (VmRun, VmStep) {
    match x.work {
        VmWork::Resize => if s.installed && !s.running {
            (VmRun { at: VmAt::Last, ..x }, VmStep::ResizeVm)
        } else {
            vm_refuse(x, VmRefusal::ResizeNeedsStop)
        },
        VmWork::Remove => if !s.installed {
            vm_gone(x)
        } else if !x.receipt {
            vm_refuse(x, VmRefusal::NoRemovalReceipt)
        } else if !s.stopped {
            vm_refuse(x, VmRefusal::RemovalNeedsStop)
        } else {
            (VmRun { at: VmAt::Deleted, ..x }, VmStep::DeleteVm)
        },
        VmWork::Make => if s.installed {
            vm_refuse(x, VmRefusal::AlreadyExists)
        } else {
            (VmRun { at: VmAt::Written, ..x }, VmStep::WriteConfiguration)
        },
        VmWork::Attach => if s.stopped {
            (VmRun { at: VmAt::Last, ..x }, VmStep::AttachDisks)
        } else {
            vm_refuse(x, VmRefusal::AttachmentNeedsStop)
        },
        _ => vm_end(x, VmOutcome::Failed),
    }
}

/// What follows a look at the VM.
fn do_vm_looked(x: VmRun, s: Sight) -> (r: (VmRun, VmStep))
    ensures
        r == vm_looked(x, s),
{
    match x.work {
        VmWork::Resize => if s.installed && !s.running {
            (VmRun { at: VmAt::Last, ..x }, VmStep::ResizeVm)
        } else {
            do_vm_refuse(x, VmRefusal::ResizeNeedsStop)
        },
        VmWork::Remove => if !s.installed {
            do_vm_gone(x)
        } else if !x.receipt {
            do_vm_refuse(x, VmRefusal::NoRemovalReceipt)
        } else if !s.stopped {
            do_vm_refuse(x, VmRefusal::RemovalNeedsStop)
        } else {
            (VmRun { at: VmAt::Deleted, ..x }, VmStep::DeleteVm)
        },
        VmWork::Make => if s.installed {
            do_vm_refuse(x, VmRefusal::AlreadyExists)
        } else {
            (VmRun { at: VmAt::Written, ..x }, VmStep::WriteConfiguration)
        },
        VmWork::Attach => if s.stopped {
            (VmRun { at: VmAt::Last, ..x }, VmStep::AttachDisks)
        } else {
            do_vm_refuse(x, VmRefusal::AttachmentNeedsStop)
        },
        _ => do_vm_end(x, VmOutcome::Failed),
    }
}

/// The last thing that is done in the guest.
pub open spec fn vm_last(x: VmRun, task: GuestTask) -> (VmRun, VmStep) {
    (VmRun { at: VmAt::Last, ..x }, VmStep::Guest(task))
}

/// The last thing that is done in the guest.
fn do_vm_last(x: VmRun, task: GuestTask) -> (r: (VmRun, VmStep))
    ensures
        r == vm_last(x, task),
{
    (VmRun { at: VmAt::Last, ..x }, VmStep::Guest(task))
}

/// What follows once the guest said that it belongs to this computer.
pub open spec fn vm_owned(x: VmRun) -> (VmRun, VmStep) {
    match x.work {
        VmWork::Stop => (VmRun { at: VmAt::Stopped, ..x }, VmStep::StopVm),
        VmWork::InstallFiles => vm_last(x, GuestTask::InstallFiles),
        VmWork::Quiesce | VmWork::UseStorage(true) => (
            VmRun { at: VmAt::ServiceKnown, ..x },
            VmStep::Guest(GuestTask::ServiceState),
        ),
        VmWork::UseStorage(false) => vm_last(VmRun { leased: true, ..x }, GuestTask::UsePool),
        VmWork::PrepareStorage | VmWork::Configure | VmWork::RenewLease => (
            VmRun { at: VmAt::Renewed, ..x },
            VmStep::Guest(GuestTask::RenewLease),
        ),
        VmWork::StreamBackup => (VmRun { at: VmAt::OwnedToRenew, ..x }, VmStep::VerifyOwner),
        VmWork::CountWorkloads => vm_last(x, GuestTask::ListWorkloads),
        VmWork::InspectBackup => vm_last(x, GuestTask::InspectBackup),
        VmWork::ReadNode => vm_last(x, GuestTask::ReadNode),
        VmWork::ResetCredentials => vm_last(x, GuestTask::ResetCredentials),
        _ => vm_end(x, VmOutcome::Failed),
    }
}

/// What follows once the guest said that it belongs to this computer.
fn do_vm_owned(x: VmRun) -> (r: (VmRun, VmStep))
    ensures
        r == vm_owned(x),
{
    match x.work {
        VmWork::Stop => (VmRun { at: VmAt::Stopped, ..x }, VmStep::StopVm),
        VmWork::InstallFiles => do_vm_last(x, GuestTask::InstallFiles),
        VmWork::Quiesce | VmWork::UseStorage(true) => (
            VmRun { at: VmAt::ServiceKnown, ..x },
            VmStep::Guest(GuestTask::ServiceState),
        ),
        VmWork::UseStorage(false) => do_vm_last(VmRun { leased: true, ..x }, GuestTask::UsePool),
        VmWork::PrepareStorage | VmWork::Configure | VmWork::RenewLease => (
            VmRun { at: VmAt::Renewed, ..x },
            VmStep::Guest(GuestTask::RenewLease),
        ),
        VmWork::StreamBackup => (VmRun { at: VmAt::OwnedToRenew, ..x }, VmStep::VerifyOwner),
        VmWork::CountWorkloads => do_vm_last(x, GuestTask::ListWorkloads),
        VmWork::InspectBackup => do_vm_last(x, GuestTask::InspectBackup),
        VmWork::ReadNode => do_vm_last(x, GuestTask::ReadNode),
        VmWork::ResetCredentials => do_vm_last(x, GuestTask::ResetCredentials),
        _ => do_vm_end(x, VmOutcome::Failed),
    }
}

/// What follows the first renewal of the lease.
pub open spec fn vm_renewed(x: VmRun) -> (VmRun, VmStep) {
    match x.work {
        VmWork::RenewLease => vm_end(x, VmOutcome::Done),
        VmWork::Configure => (
            VmRun { at: VmAt::FilesInstalled, ..x },
            VmStep::Guest(GuestTask::InstallFiles),
        ),
        VmWork::PrepareStorage => (VmRun { at: VmAt::OwnedToInstall, ..x }, VmStep::VerifyOwner),
        VmWork::StreamBackup => vm_last(x, GuestTask::StreamBackup),
        _ => vm_end(x, VmOutcome::Failed),
    }
}

/// What follows the first renewal of the lease.
fn do_vm_renewed(x: VmRun) -> (r: (VmRun, VmStep))
    ensures
        r == vm_renewed(x),
{
    match x.work {
        VmWork::RenewLease => do_vm_end(x, VmOutcome::Done),
        VmWork::Configure => (
            VmRun { at: VmAt::FilesInstalled, ..x },
            VmStep::Guest(GuestTask::InstallFiles),
        ),
        VmWork::PrepareStorage => (VmRun { at: VmAt::OwnedToInstall, ..x }, VmStep::VerifyOwner),
        VmWork::StreamBackup => do_vm_last(x, GuestTask::StreamBackup),
        _ => do_vm_end(x, VmOutcome::Failed),
    }
}

/// What follows once the worker's service does not run.
pub open spec fn vm_quiet(x: VmRun) -> (VmRun, VmStep) {
    match x.work {
        VmWork::PrepareStorage => vm_last(x, GuestTask::InstallPackages),
        VmWork::UseStorage(_) => vm_last(VmRun { leased: true, ..x }, GuestTask::UsePool),
        _ => vm_end(x, VmOutcome::Done),
    }
}

/// What follows once the worker's service does not run.
fn do_vm_quiet(x: VmRun) -> (r: (VmRun, VmStep))
    ensures
        r == vm_quiet(x),
{
    match x.work {
        VmWork::PrepareStorage => do_vm_last(x, GuestTask::InstallPackages),
        VmWork::UseStorage(_) => do_vm_last(VmRun { leased: true, ..x }, GuestTask::UsePool),
        _ => do_vm_end(x, VmOutcome::Done),
    }
}

/// What an operation on the VM makes of an answer.
pub open spec fn vm_after(x: VmRun, e: VmEvent) -> (VmRun, VmStep) {
    match (x.at, e) {
        (VmAt::Start, VmEvent::Begin) => vm_begun(x),
        (VmAt::Received, VmEvent::Answer(receipt)) => vm_received(VmRun { receipt, ..x }),
        (VmAt::Looked, VmEvent::Seen(s)) => vm_looked(VmRun { seen: Some(s), ..x }, s),
        (VmAt::SavedRead, VmEvent::Done) => (VmRun { at: VmAt::Last, ..x }, VmStep::EditVm),
        (VmAt::Owned, VmEvent::Done) => vm_owned(VmRun { verified: true, ..x }),
        (VmAt::OwnedToRenew, VmEvent::Done) => (
            VmRun { at: VmAt::Renewed, ..x },
            VmStep::Guest(GuestTask::RenewLease),
        ),
        (VmAt::Renewed, VmEvent::Done) => vm_renewed(VmRun { leased: true, ..x }),
        (VmAt::OwnedToInstall, VmEvent::Done) => (
            VmRun { at: VmAt::FilesInstalled, ..x },
            VmStep::Guest(GuestTask::InstallFiles),
        ),
        (VmAt::FilesInstalled, VmEvent::Done) => if x.work == VmWork::Configure {
            vm_last(x, GuestTask::Configure)
        } else {
            (VmRun { at: VmAt::OwnedToQuiesce, ..x }, VmStep::VerifyOwner)
        },
        (VmAt::OwnedToQuiesce, VmEvent::Done) => (
            VmRun { at: VmAt::ServiceKnown, ..x },
            VmStep::Guest(GuestTask::ServiceState),
        ),
        (VmAt::ServiceKnown, VmEvent::Answer(loaded)) => if !loaded {
            vm_quiet(x)
        } else if x.work == VmWork::UseStorage(true) {
            (VmRun { at: VmAt::ServiceStopped, ..x }, VmStep::Guest(GuestTask::StopService))
        } else {
            (VmRun { at: VmAt::ServiceStopped, ..x }, VmStep::Guest(GuestTask::DisableService))
        },
        (VmAt::ServiceStopped, VmEvent::Done) => vm_quiet(x),
        (VmAt::Written, VmEvent::Done) => (
            VmRun { at: VmAt::Recorded, ..x },
            VmStep::RecordCreation,
        ),
        (VmAt::Recorded, VmEvent::Done) => (
            VmRun { at: VmAt::Made, receipt: true, ..x },
            VmStep::MakeVm,
        ),
        (VmAt::Made, VmEvent::Done) => if x.lima {
            (VmRun { at: VmAt::OwnedLast, ..x }, VmStep::VerifyOwner)
        } else {
            (VmRun { at: VmAt::Initialized, ..x }, VmStep::Guest(GuestTask::Initialize))
        },
        (VmAt::Initialized, VmEvent::Done) | (VmAt::Started, VmEvent::Done) => (
            VmRun { at: VmAt::OwnedLast, ..x },
            VmStep::VerifyOwner,
        ),
        (VmAt::OwnedLast, VmEvent::Done) => vm_end(VmRun { verified: true, ..x }, VmOutcome::Done),
        (VmAt::Stopped, VmEvent::Done) => (VmRun { at: VmAt::StopSeen, ..x }, VmStep::Look),
        (VmAt::StopSeen, VmEvent::Seen(s)) => if s.running {
            vm_refuse(VmRun { seen: Some(s), ..x }, VmRefusal::NotStopped)
        } else {
            vm_end(VmRun { seen: Some(s), ..x }, VmOutcome::Done)
        },
        (VmAt::Deleted, VmEvent::Done) => (VmRun { at: VmAt::GoneSeen, ..x }, VmStep::Look),
        (VmAt::GoneSeen, VmEvent::Seen(s)) => if s.installed {
            vm_refuse(VmRun { seen: Some(s), ..x }, VmRefusal::NotRemoved)
        } else {
            vm_gone(VmRun { seen: Some(s), ..x })
        },
        (VmAt::Last, VmEvent::Done) => vm_end(x, VmOutcome::Done),
        _ => vm_end(x, VmOutcome::Failed),
    }
}

/// What an operation on the VM makes of an answer.
fn do_vm_after(x: VmRun, e: VmEvent) -> (r: (VmRun, VmStep))
    ensures
        r == vm_after(x, e),
{
    match (x.at, e) {
        (VmAt::Start, VmEvent::Begin) => do_vm_begun(x),
        (VmAt::Received, VmEvent::Answer(receipt)) => do_vm_received(VmRun { receipt, ..x }),
        (VmAt::Looked, VmEvent::Seen(s)) => do_vm_looked(VmRun { seen: Some(s), ..x }, s),
        (VmAt::SavedRead, VmEvent::Done) => (VmRun { at: VmAt::Last, ..x }, VmStep::EditVm),
        (VmAt::Owned, VmEvent::Done) => do_vm_owned(VmRun { verified: true, ..x }),
        (VmAt::OwnedToRenew, VmEvent::Done) => (
            VmRun { at: VmAt::Renewed, ..x },
            VmStep::Guest(GuestTask::RenewLease),
        ),
        (VmAt::Renewed, VmEvent::Done) => do_vm_renewed(VmRun { leased: true, ..x }),
        (VmAt::OwnedToInstall, VmEvent::Done) => (
            VmRun { at: VmAt::FilesInstalled, ..x },
            VmStep::Guest(GuestTask::InstallFiles),
        ),
        (VmAt::FilesInstalled, VmEvent::Done) => if x.work == VmWork::Configure {
            do_vm_last(x, GuestTask::Configure)
        } else {
            (VmRun { at: VmAt::OwnedToQuiesce, ..x }, VmStep::VerifyOwner)
        },
        (VmAt::OwnedToQuiesce, VmEvent::Done) => (
            VmRun { at: VmAt::ServiceKnown, ..x },
            VmStep::Guest(GuestTask::ServiceState),
        ),
        (VmAt::ServiceKnown, VmEvent::Answer(loaded)) => if !loaded {
            do_vm_quiet(x)
        } else if x.work == VmWork::UseStorage(true) {
            (VmRun { at: VmAt::ServiceStopped, ..x }, VmStep::Guest(GuestTask::StopService))
        } else {
            (VmRun { at: VmAt::ServiceStopped, ..x }, VmStep::Guest(GuestTask::DisableService))
        },
        (VmAt::ServiceStopped, VmEvent::Done) => do_vm_quiet(x),
        (VmAt::Written, VmEvent::Done) => (
            VmRun { at: VmAt::Recorded, ..x },
            VmStep::RecordCreation,
        ),
        (VmAt::Recorded, VmEvent::Done) => (
            VmRun { at: VmAt::Made, receipt: true, ..x },
            VmStep::MakeVm,
        ),
        (VmAt::Made, VmEvent::Done) => if x.lima {
            (VmRun { at: VmAt::OwnedLast, ..x }, VmStep::VerifyOwner)
        } else {
            (VmRun { at: VmAt::Initialized, ..x }, VmStep::Guest(GuestTask::Initialize))
        },
        (VmAt::Initialized, VmEvent::Done) | (VmAt::Started, VmEvent::Done) => (
            VmRun { at: VmAt::OwnedLast, ..x },
            VmStep::VerifyOwner,
        ),
        (VmAt::OwnedLast, VmEvent::Done) => do_vm_end(
            VmRun { verified: true, ..x },
            VmOutcome::Done,
        ),
        (VmAt::Stopped, VmEvent::Done) => (VmRun { at: VmAt::StopSeen, ..x }, VmStep::Look),
        (VmAt::StopSeen, VmEvent::Seen(s)) => if s.running {
            do_vm_refuse(VmRun { seen: Some(s), ..x }, VmRefusal::NotStopped)
        } else {
            do_vm_end(VmRun { seen: Some(s), ..x }, VmOutcome::Done)
        },
        (VmAt::Deleted, VmEvent::Done) => (VmRun { at: VmAt::GoneSeen, ..x }, VmStep::Look),
        (VmAt::GoneSeen, VmEvent::Seen(s)) => if s.installed {
            do_vm_refuse(VmRun { seen: Some(s), ..x }, VmRefusal::NotRemoved)
        } else {
            do_vm_gone(VmRun { seen: Some(s), ..x })
        },
        (VmAt::Last, VmEvent::Done) => do_vm_end(x, VmOutcome::Done),
        _ => do_vm_end(x, VmOutcome::Failed),
    }
}

/// An operation that has not begun.
pub open spec fn fresh_run(work: VmWork, lima: bool) -> VmRun {
    VmRun {
        at: VmAt::Start,
        work,
        lima,
        receipt: false,
        verified: false,
        leased: false,
        seen: None,
    }
}

impl VmRun {
    /// An operation that has not begun.
    pub fn new(work: VmWork, lima: bool) -> (r: Self)
        ensures
            r == fresh_run(work, lima),
    {
        VmRun {
            at: VmAt::Start,
            work,
            lima,
            receipt: false,
            verified: false,
            leased: false,
            seen: None,
        }
    }

    /// What the operation makes of an answer, and what it asks for next.
    pub fn next(self, e: VmEvent) -> (r: (VmRun, VmStep))
        ensures
            r == vm_after(self, e),
    {
        do_vm_after(self, e)
    }
}

/// How long a step of an operation may take, in seconds.
pub open spec fn seconds_allowed(work: VmWork, step: VmStep) -> u64 {
    match step {
        VmStep::Look | VmStep::VerifyOwner => 15,
        VmStep::MakeVm => 1200,
        VmStep::StartVm => 600,
        VmStep::ReadSaved => 30,
        VmStep::Guest(task) => match task {
            GuestTask::RenewLease | GuestTask::ServiceState => 15,
            GuestTask::ListWorkloads => 20,
            GuestTask::InstallFiles => if work is Configure {
                30
            } else {
                60
            },
            GuestTask::StopService | GuestTask::DisableService => 120,
            GuestTask::Initialize => 180,
            GuestTask::InstallPackages | GuestTask::Configure => 600,
            GuestTask::UsePool | GuestTask::InspectBackup => 1800,
            _ => 60,
        },
        _ => 60,
    }
}

/// How long a step of an operation may take, in seconds.
pub fn step_timeout(work: VmWork, step: VmStep) -> (r: u64)
    ensures
        r == seconds_allowed(work, step),
{
    match step {
        VmStep::Look | VmStep::VerifyOwner => 15,
        VmStep::MakeVm => 1200,
        VmStep::StartVm => 600,
        VmStep::ReadSaved => 30,
        VmStep::Guest(task) => match task {
            GuestTask::RenewLease | GuestTask::ServiceState => 15,
            GuestTask::ListWorkloads => 20,
            GuestTask::InstallFiles => if work == VmWork::Configure {
                30
            } else {
                60
            },
            GuestTask::StopService | GuestTask::DisableService => 120,
            GuestTask::Initialize => 180,
            GuestTask::InstallPackages | GuestTask::Configure => 600,
            GuestTask::UsePool | GuestTask::InspectBackup => 1800,
            _ => 60,
        },
        _ => 60,
    }
}

impl Vm {
    /// The command of a task in the guest. The program is the one that is handed
    /// in, the word the storage command or what an archive is for.
    pub open spec fn guest_words(&self, task: GuestTask, program: Seq<char>, word: Seq<char>) -> Seq<
        Seq<char>,
    > {
        match task {
            GuestTask::Initialize => seq!["sudo"@, "cloud-init"@, "status"@, "--wait"@],
            GuestTask::RenewLease => seq![
                "sudo"@,
                "python3"@,
                "/usr/local/lib/nodeharbor/watchdog.py"@,
                "renew"@,
            ],
            GuestTask::InstallFiles => seq!["sudo"@, "python3"@, "-c"@, program],
            GuestTask::ServiceState => seq![
                "systemctl"@,
                "show"@,
                "k3s-agent.service"@,
                "--property=LoadState"@,
                "--value"@,
            ],
            GuestTask::StopService => seq!["sudo"@, "systemctl"@, "stop"@, "k3s-agent.service"@],
            GuestTask::DisableService => seq![
                "sudo"@,
                "systemctl"@,
                "disable"@,
                "--now"@,
                "k3s-agent.service"@,
            ],
            GuestTask::InstallPackages => seq!["sudo"@, "sh"@, "-c"@, packages_script()],
            GuestTask::UsePool => seq![
                "sudo"@,
                "python3"@,
                "/usr/local/lib/nodeharbor/storage_pool.py"@,
                word,
            ],
            GuestTask::Configure => seq![
                "sudo"@,
                "python3"@,
                "/usr/local/lib/nodeharbor/configure_worker.py"@,
            ],
            GuestTask::ListWorkloads => seq![
                "sudo"@,
                "/usr/local/bin/k3s"@,
                "crictl"@,
                "pods"@,
                "-o"@,
                "json"@,
            ],
            GuestTask::InspectBackup => seq![
                "sudo"@,
                "python3"@,
                "-c"@,
                program,
                "inspect"@,
                self.device_id@,
            ],
            GuestTask::StreamBackup => seq![
                "sudo"@,
                "python3"@,
                "-c"@,
                program,
                word,
                self.device_id@,
            ],
            GuestTask::ReadNode => seq![
                "sudo"@,
                "python3"@,
                "-c"@,
                node_script(),
                identity::vm_name(identity::parsed_uuid(self.device_id@)->Ok_0),
            ],
            GuestTask::ResetCredentials => seq!["sudo"@, "python3"@, "-c"@, credentials_script()],
        }
    }

    /// How a task is run in the guest. Only the node is found by a name that the
    /// VM may not have.
    pub fn guest_command(&self, task: GuestTask, program: &str, word: &str) -> (r: Result<
        Vec<String>,
        Failure,
    >)
        ensures
            refusal(r) == (if task is ReadNode {
                identity::identity_refusal(self.device_id@)
            } else {
                None
            }),
            r matches Ok(args) ==> contents(args@) == self.in_guest(
                self.guest_words(task, program@, word@),
            ),
    {
        match task {
            GuestTask::Initialize => Ok(self.initialization_args()),
            GuestTask::RenewLease => Ok(self.lease_args()),
            GuestTask::InstallFiles => Ok(self.script_args(program)),
            GuestTask::ServiceState => Ok(self.service_args()),
            GuestTask::StopService => Ok(self.stop_service_args(false)),
            GuestTask::DisableService => Ok(self.stop_service_args(true)),
            GuestTask::InstallPackages => Ok(self.package_args()),
            GuestTask::UsePool => Ok(self.storage_args(word)),
            GuestTask::Configure => Ok(self.configure_args()),
            GuestTask::ListWorkloads => Ok(self.workload_args()),
            GuestTask::InspectBackup => Ok(self.backup_args(program, "inspect")),
            GuestTask::StreamBackup => Ok(self.backup_args(program, word)),
            GuestTask::ReadNode => self.node_args(),
            GuestTask::ResetCredentials => Ok(self.credentials_args()),
        }
    }
}

/// What holds at each point of an operation on the VM.
pub open spec fn sound_run(x: VmRun) -> bool {
    let absent = x.seen matches Some(s) && !s.installed;
    match x.at {
        VmAt::Start | VmAt::Over => true,
        VmAt::Received => x.work is Attach || x.work is Provision ==> x.lima,
        VmAt::Looked => (x.work is Attach ==> x.lima && x.receipt) && (x.work is Resize
            ==> x.receipt),
        VmAt::SavedRead => x.work is Provision && x.receipt && x.lima,
        VmAt::Owned => !(x.work is Remove),
        VmAt::OwnedToRenew => x.work is StreamBackup && x.verified,
        VmAt::Renewed => x.verified && (x.work is StreamBackup || x.work is PrepareStorage
            || x.work is Configure || x.work is RenewLease),
        VmAt::OwnedToInstall | VmAt::OwnedToQuiesce => x.work is PrepareStorage && x.verified
            && x.leased,
        VmAt::FilesInstalled => (x.work is Configure || x.work is PrepareStorage) && x.verified
            && x.leased,
        VmAt::ServiceKnown | VmAt::ServiceStopped => x.verified && (x.work is Quiesce
            || x.work is UseStorage || (x.work is PrepareStorage && x.leased)),
        VmAt::Written | VmAt::Recorded => x.work is Make && absent,
        VmAt::Made | VmAt::Initialized => x.work is Make && absent && x.receipt,
        VmAt::Started => x.work is Start && x.receipt,
        VmAt::OwnedLast => x.work is Make || x.work is Start,
        VmAt::Stopped | VmAt::StopSeen => x.work is Stop,
        VmAt::Deleted | VmAt::GoneSeen => x.work is Remove && x.receipt,
        VmAt::Last => !(x.work is Stop) && (x.work is Remove ==> absent),
    }
}

/// Every operation keeps to what holds at its points.
pub proof fn operations_stay_sound(work: VmWork, lima: bool, x: VmRun, e: VmEvent)
    requires
        sound_run(x),
    ensures
        sound_run(fresh_run(work, lima)),
        sound_run(vm_after(x, e).0),
{
}

/// Nothing is done in a guest before it said that it belongs to this computer,
/// but for the first start of a VM that this computer has just made. A VM without
/// a receipt is not stopped before either.
pub proof fn guests_are_used_by_their_owner(x: VmRun, e: VmEvent)
    requires
        sound_run(x),
    ensures
        ({
            let (after, step) = vm_after(x, e);
            &&& step matches VmStep::Guest(task) ==> after.verified || (task is Initialize
                && after.receipt)
            &&& step is StopVm ==> after.receipt || after.verified
        }),
{
}

/// A VM is made only where none was seen, and only once its receipt is recorded.
pub proof fn vms_are_recorded_before_they_are_made(x: VmRun, e: VmEvent)
    requires
        sound_run(x),
    ensures
        ({
            let (after, step) = vm_after(x, e);
            step is MakeVm ==> after.receipt && x.at is Recorded && e is Done && (
            after.seen matches Some(s) && !s.installed)
        }),
{
}

/// A VM is deleted only with its receipt and once it was seen stopped, and the
/// receipt goes only once no VM was seen any more.
pub proof fn only_owned_vms_are_deleted(x: VmRun, e: VmEvent)
    requires
        sound_run(x),
    ensures
        ({
            let (after, step) = vm_after(x, e);
            &&& step is DeleteVm ==> after.receipt && (after.seen matches Some(s) && s.stopped)
            &&& step is RemoveReceipt ==> (after.seen matches Some(s) && !s.installed)
        }),
{
}

/// A VM is started, or its resources, disks and provisioning changed, only with
/// its receipt, and a change waits until the VM was seen at rest.
pub proof fn changes_need_the_receipt_and_a_resting_vm(x: VmRun, e: VmEvent)
    requires
        sound_run(x),
    ensures
        ({
            let (after, step) = vm_after(x, e);
            &&& step is StartVm || step is ResizeVm || step is InspectSpace ==> after.receipt
            &&& step is AttachDisks || step is ReadSaved || step is EditVm ==> after.receipt
                && after.lima
            &&& step is ResizeVm ==> (after.seen matches Some(s) && s.installed && !s.running)
            &&& step is AttachDisks ==> (after.seen matches Some(s) && s.stopped)
        }),
{
}

/// What takes long in the guest goes on under a lease that is renewed.
pub proof fn long_work_is_leased(x: VmRun, e: VmEvent)
    requires
        sound_run(x),
    ensures
        ({
            let (after, step) = vm_after(x, e);
            step == VmStep::Guest(GuestTask::Configure) || step == VmStep::Guest(GuestTask::UsePool)
                || step == VmStep::Guest(GuestTask::StreamBackup) || step == VmStep::Guest(
                GuestTask::InstallPackages,
            ) ==> after.leased
        }),
{
}

/// How many steps an operation can still take.
pub open spec fn steps_left(at: VmAt) -> nat {
    match at {
        VmAt::Over => 0,
        VmAt::Last | VmAt::OwnedLast | VmAt::StopSeen => 1,
        VmAt::ServiceStopped | VmAt::GoneSeen | VmAt::Stopped | VmAt::Initialized | VmAt::Started
        | VmAt::SavedRead => 2,
        VmAt::ServiceKnown | VmAt::Deleted | VmAt::Made => 3,
        VmAt::OwnedToQuiesce | VmAt::Recorded => 4,
        VmAt::FilesInstalled | VmAt::Written => 5,
        VmAt::OwnedToInstall => 6,
        VmAt::Renewed => 7,
        VmAt::OwnedToRenew => 8,
        VmAt::Owned => 9,
        VmAt::Looked => 10,
        VmAt::Received => 11,
        VmAt::Start => 12,
    }
}

/// Every operation ends, whatever comes of its steps.
pub proof fn operations_end(x: VmRun, e: VmEvent)
    ensures
        vm_after(x, e).1 is Finish || steps_left(vm_after(x, e).0.at) < steps_left(x.at),
        vm_after(x, e).1 is Finish <==> vm_after(x, e).0.at is Over,
{
}

/// A stop is done only once the VM was seen not to run, and a removal only once
/// it was seen not to be there.
pub proof fn ends_are_confirmed(x: VmRun, e: VmEvent)
    requires
        sound_run(x),
    ensures
        ({
            let (after, step) = vm_after(x, e);
            &&& step == VmStep::Finish(VmOutcome::Done) && x.work is Stop ==> (
            after.seen matches Some(s) && !s.running)
            &&& step == VmStep::Finish(VmOutcome::Done) && x.work is Remove ==> (
            after.seen matches Some(s) && !s.installed)
        }),
{
}

} // verus!
