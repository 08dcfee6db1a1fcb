//! One tick of the supervisor, as a machine: every step that it asks for, and
//! what it makes of the answer.
use crate::agent::steps::{
    expired, has_expired, is_overdue, needs_resize, no_sight, nothing, overdue, resize_pending,
    Event, Facts, Memory, Notice, Outcome, Refusal, Route, Routine, Save, Sight, Starting, Step,
    VmTask, WorkerAction, WorkerInput,
};
use vstd::prelude::*;

verus! {

/// Where the first part of a tick stands: which routine it is for.
#[derive(Clone, Copy, Debug, PartialEq, Eq, Structural)]
pub enum Entry {
    Start,
    Recovered,
    Loaded,
    Noted,
    ReceiptBeforeUpdate,
    ReadyNoted,
    ConnectTold,
    Resolved,
    Owned,
    BackupsCleaned,
    DisabledTold,
    DisabledBeat,
    MissingChecked,
    Validated,
    InvalidHeld,
    InvalidReceipt,
    InvalidSeen,
    InvalidStopped,
    InvalidTold,
    InvalidBeat,
    RepairBeat,
    PreparationCleared,
}

/// Where the preparation of a worker stands.
#[derive(Clone, Copy, Debug, PartialEq, Eq, Structural)]
pub enum Prepare {
    Started,
    Seen,
    Absent,
    UnreachableTold,
    Told,
    PolicyValid,
    StoppedToResize,
    Sized,
    Recorded,
    Reloaded,
    CanceledSeen,
    CanceledStopped,
    ExistingSeen,
    ExistingStarted,
    Rechecked,
    StorageReady,
    Announced,
    Bootstrapped,
    Configured,
    Saved,
    Noted,
}

/// Where the look at the worker stands.
#[derive(Clone, Copy, Debug, PartialEq, Eq, Structural)]
pub enum Observe {
    Loaded,
    Receipt,
    Seen,
    Absent,
    CopiesCleaned,
    UpdateNoted,
    UpdateTold,
    IncompleteStopped,
    IncompleteNoted,
    IncompleteTold,
    Applied,
    AppliedLoaded,
    AppliedBeat,
    PrepareFirstTold,
    PrepareFirstBeat,
    Resized,
    ResizeSaved,
    ResizeTold,
    DrainAsked,
    DrainBegun,
    DrainCleared,
    UpdateWaitTold,
    BeatLoaded,
    Beaten,
    BeatHeld,
}

/// Where the sharing of the worker stands.
#[derive(Clone, Copy, Debug, PartialEq, Eq, Structural)]
pub enum Share {
    Loaded,
    Judged,
    UpdateLease,
    UpdateAsked,
    UpdatePods,
    UpdateBound,
    UpdateCounted,
    UpdateShown,
    UpdateSwapped,
    UpdateStopped,
    UpdateNoted,
    DrainBegun,
    Counted,
    DrainRead,
    Decided,
    StartNoted,
    StartTold,
    StartAnnounced,
    StartBootstrapped,
    Started,
    StartConfigured,
    StartDone,
    StartSaved,
    DrainTold,
    DrainAsked,
    DrainHeld,
    DrainLease,
    DrainPods,
    Stopped,
    StopSaved,
    StopNoted,
    ResumeAsked,
    ResumeSaved,
    KeepLease,
    KeepTold,
    WorkloadsNoted,
    LastBeat,
}

/// Where a tick stands.
#[derive(Clone, Copy, Debug, PartialEq, Eq, Structural)]
pub enum At {
    Entry(Entry),
    Prepare(Prepare),
    Observe(Observe),
    Share(Share),
    Over,
}

/// A tick under way.
#[derive(Clone, Copy, Debug, PartialEq, Eq, Structural)]
pub struct Tick {
    pub at: At,
    /// The settings that this part of the tick goes by.
    pub config: Facts,
    pub owned: bool,
    pub worker: Sight,
    pub was_draining: bool,
    /// Whether the controller heard of this computer's state.
    pub beaten: bool,
    /// Whether the owner's rules permit sharing, and whether the fleet paused it.
    pub judged: bool,
    pub remote_paused: bool,
    /// Whether the worker may share: every condition holds.
    pub allowed: bool,
    pub bound: u64,
    pub idle: bool,
    /// How many workloads there are, where that is known.
    pub workloads: Option<usize>,
    pub draining_since: Option<u64>,
    pub now: u64,
    pub drained: bool,
}

/// A tick that has not begun.
pub open spec fn fresh_tick(config: Facts) -> Tick {
    Tick {
        at: At::Entry(Entry::Start),
        config,
        owned: false,
        worker: nothing(),
        was_draining: false,
        beaten: false,
        judged: false,
        remote_paused: false,
        allowed: false,
        bound: 0,
        idle: false,
        workloads: None,
        draining_since: None,
        now: 0,
        drained: false,
    }
}

/// The tick is over.
pub open spec fn end(t: Tick, outcome: Outcome) -> (Tick, Step) {
    (Tick { at: At::Over, ..t }, Step::Finish(outcome))
}

/// The tick is over.
fn finish(t: Tick, outcome: Outcome) -> (r: (Tick, Step))
    ensures
        r == end(t, outcome),
{
    (Tick { at: At::Over, ..t }, Step::Finish(outcome))
}

/// The tick ends with a refusal.
pub open spec fn refuse(t: Tick, refusal: Refusal) -> (Tick, Step) {
    end(t, Outcome::Refused(refusal))
}

/// The tick ends with a refusal.
fn refusing(t: Tick, refusal: Refusal) -> (r: (Tick, Step))
    ensures
        r == refuse(t, refusal),
{
    finish(t, Outcome::Refused(refusal))
}

/// How the worker gets the resources that the owner grants.
pub open spec fn resize_step(f: Facts) -> Step {
    if f.placed {
        Step::Run(VmTask::ResizeCompute(f.resources))
    } else {
        Step::Run(VmTask::Resize(f.resources))
    }
}

/// How the worker gets the resources that the owner grants.
fn resizing(f: Facts) -> (r: Step)
    ensures
        r == resize_step(f),
{
    if f.placed {
        Step::Run(VmTask::ResizeCompute(f.resources))
    } else {
        Step::Run(VmTask::Resize(f.resources))
    }
}

/// A preparation goes on where the worker can be reached or does not run.
pub open spec fn preparation_after(t: Tick, worker: Sight) -> (Tick, Step) {
    let seen = Tick { worker, ..t };
    if worker.running && !worker.reachable {
        (
            Tick { at: At::Prepare(Prepare::UnreachableTold), ..seen },
            Step::Tell(Notice::Unreachable),
        )
    } else {
        (Tick { at: At::Prepare(Prepare::Told), ..seen }, Step::Tell(Notice::Preparing))
    }
}

/// A preparation goes on where the worker can be reached or does not run.
fn preparation(t: Tick, worker: Sight) -> (r: (Tick, Step))
    ensures
        r == preparation_after(t, worker),
{
    let seen = Tick { worker, ..t };
    if worker.running && !worker.reachable {
        (
            Tick { at: At::Prepare(Prepare::UnreachableTold), ..seen },
            Step::Tell(Notice::Unreachable),
        )
    } else {
        (Tick { at: At::Prepare(Prepare::Told), ..seen }, Step::Tell(Notice::Preparing))
    }
}

/// The worker has its resources, which are recorded.
pub open spec fn sized_after(t: Tick) -> (Tick, Step) {
    (
        Tick { at: At::Prepare(Prepare::Recorded), ..t },
        Step::Save(Save::RecordWorker(t.config.resources)),
    )
}

/// The worker has its resources, which are recorded.
fn sized(t: Tick) -> (r: (Tick, Step))
    ensures
        r == sized_after(t),
{
    (
        Tick { at: At::Prepare(Prepare::Recorded), ..t },
        Step::Save(Save::RecordWorker(t.config.resources)),
    )
}

/// What a worker with valid storage is for. One that is already prepared follows
/// the normal rules: preparation cannot override them.
pub open spec fn validated_after(t: Tick, cleared: bool) -> (Tick, Step) {
    if !cleared && t.config.recreation {
        end(t, Outcome::Go(Routine::Recreation))
    } else if !cleared && t.config.repair {
        (Tick { at: At::Entry(Entry::RepairBeat), ..t }, Step::Heartbeat)
    } else if !cleared && t.config.prepare_requested && t.config.vm_configured {
        (
            Tick { at: At::Entry(Entry::PreparationCleared), ..t },
            Step::Save(Save::ClearPreparation),
        )
    } else if t.config.prepare_requested && !t.config.vm_configured {
        (
            Tick { at: At::Prepare(Prepare::Started), ..t },
            Step::Note(Memory::Starting(Some(Starting::Preparation))),
        )
    } else {
        (Tick { at: At::Observe(Observe::Loaded), ..t }, Step::Load)
    }
}

/// What a worker with valid storage is for. One that is already prepared follows
/// the normal rules: preparation cannot override them.
fn validated(t: Tick, cleared: bool) -> (r: (Tick, Step))
    ensures
        r == validated_after(t, cleared),
{
    if !cleared && t.config.recreation {
        finish(t, Outcome::Go(Routine::Recreation))
    } else if !cleared && t.config.repair {
        (Tick { at: At::Entry(Entry::RepairBeat), ..t }, Step::Heartbeat)
    } else if !cleared && t.config.prepare_requested && t.config.vm_configured {
        (
            Tick { at: At::Entry(Entry::PreparationCleared), ..t },
            Step::Save(Save::ClearPreparation),
        )
    } else if t.config.prepare_requested && !t.config.vm_configured {
        (
            Tick { at: At::Prepare(Prepare::Started), ..t },
            Step::Note(Memory::Starting(Some(Starting::Preparation))),
        )
    } else {
        (Tick { at: At::Observe(Observe::Loaded), ..t }, Step::Load)
    }
}

/// Which routine a tick is for.
pub open spec fn route_after(t: Tick) -> (Tick, Step) {
    if t.config.stop_requested {
        end(t, Outcome::Go(Routine::ImmediateStop))
    } else if t.config.maintenance {
        end(t, Outcome::Go(Routine::Maintenance))
    } else {
        (Tick { at: At::Entry(Entry::BackupsCleaned), ..t }, Step::CleanBackups)
    }
}

/// Which routine a tick is for.
fn route(t: Tick) -> (r: (Tick, Step))
    ensures
        r == route_after(t),
{
    if t.config.stop_requested {
        finish(t, Outcome::Go(Routine::ImmediateStop))
    } else if t.config.maintenance {
        finish(t, Outcome::Go(Routine::Maintenance))
    } else {
        (Tick { at: At::Entry(Entry::BackupsCleaned), ..t }, Step::CleanBackups)
    }
}

/// The first part of a tick: which routine it is for, and whether the storage is
/// valid.
pub open spec fn entry_after(t: Tick, at: Entry, e: Event) -> (Tick, Step) {
    match (at, e) {
        (Entry::Start, Event::Begin) => {
            (Tick { at: At::Entry(Entry::Recovered), ..t }, Step::Save(Save::Recover))
        },
        (Entry::Recovered, Event::Settings(_)) => {
            (Tick { at: At::Entry(Entry::Loaded), ..t }, Step::Load)
        },
        (Entry::Loaded, Event::Settings(f)) => {
            (
                Tick { at: At::Entry(Entry::Noted), config: f, ..t },
                Step::Note(Memory::UpdateReady(false)),
            )
        },
        (Entry::Noted, Event::Done) => {
            if t.config.enrolled {
                if t.config.storage_request {
                    end(t, Outcome::Go(Routine::RemoteStorage))
                } else {
                    (Tick { at: At::Entry(Entry::Resolved), ..t }, Step::ResolveInitialStorage)
                }
            } else if t.config.update_pending && t.config.vm_created {
                refuse(t, Refusal::ReconnectBeforeUpdate)
            } else if t.config.update_pending {
                (Tick { at: At::Entry(Entry::ReceiptBeforeUpdate), ..t }, Step::Receipt)
            } else {
                (
                    Tick { at: At::Entry(Entry::ReadyNoted), ..t },
                    Step::Note(Memory::UpdateReady(false)),
                )
            }
        },
        (Entry::ReceiptBeforeUpdate, Event::Answer(receipt)) => {
            if receipt {
                refuse(t, Refusal::ReconnectBeforeUpdate)
            } else {
                (
                    Tick { at: At::Entry(Entry::ReadyNoted), ..t },
                    Step::Note(Memory::UpdateReady(true)),
                )
            }
        },
        (Entry::ReadyNoted, Event::Done) => {
            (Tick { at: At::Entry(Entry::ConnectTold), ..t }, Step::Tell(Notice::ConnectFirst))
        },
        (Entry::ConnectTold, Event::Done) => end(t, Outcome::Done),
        (Entry::Resolved, Event::Settings(f)) => {
            if f.vm_created {
                route_after(Tick { config: f, owned: true, ..t })
            } else {
                (Tick { at: At::Entry(Entry::Owned), config: f, ..t }, Step::Receipt)
            }
        },
        (Entry::Owned, Event::Answer(receipt)) => route_after(Tick { owned: receipt, ..t }),
        (Entry::BackupsCleaned, Event::Done) => {
            if t.config.disabled {
                (
                    Tick { at: At::Entry(Entry::DisabledTold), ..t },
                    Step::Tell(Notice::StorageDisabled),
                )
            } else if t.config.operation {
                end(t, Outcome::Go(Routine::StorageOperation))
            } else if !t.config.recreation {
                (Tick { at: At::Entry(Entry::MissingChecked), ..t }, Step::MissingStorage)
            } else {
                (Tick { at: At::Entry(Entry::Validated), ..t }, Step::ValidateStorage)
            }
        },
        (Entry::DisabledTold, Event::Done) => {
            (Tick { at: At::Entry(Entry::DisabledBeat), ..t }, Step::Heartbeat)
        },
        (Entry::DisabledBeat, _) => end(t, Outcome::Done),
        (Entry::MissingChecked, Event::Answer(handled)) => {
            if handled {
                end(t, Outcome::Done)
            } else {
                (Tick { at: At::Entry(Entry::Validated), ..t }, Step::ValidateStorage)
            }
        },
        (Entry::Validated, Event::Done) => validated_after(t, false),
        (Entry::Validated, Event::Failed) => {
            (Tick { at: At::Entry(Entry::InvalidHeld), ..t }, Step::Hold)
        },
        (Entry::InvalidHeld, Event::Done) => {
            (Tick { at: At::Entry(Entry::InvalidReceipt), ..t }, Step::Receipt)
        },
        (Entry::InvalidReceipt, Event::Answer(receipt)) => {
            if receipt {
                (Tick { at: At::Entry(Entry::InvalidSeen), ..t }, Step::Look)
            } else {
                (Tick { at: At::Entry(Entry::InvalidTold), ..t }, Step::TellHeld)
            }
        },
        (Entry::InvalidSeen, Event::Worker(w)) => {
            if w.running {
                (Tick { at: At::Entry(Entry::InvalidStopped), ..t }, Step::Run(VmTask::StopNow))
            } else {
                (Tick { at: At::Entry(Entry::InvalidTold), ..t }, Step::TellHeld)
            }
        },
        (Entry::InvalidStopped, Event::Done) => {
            (Tick { at: At::Entry(Entry::InvalidTold), ..t }, Step::TellHeld)
        },
        (Entry::InvalidTold, Event::Done) => {
            (Tick { at: At::Entry(Entry::InvalidBeat), ..t }, Step::Heartbeat)
        },
        (Entry::InvalidBeat, _) => end(t, Outcome::Held),
        (Entry::RepairBeat, _) => refuse(t, Refusal::UnverifiedAllocation),
        (Entry::PreparationCleared, Event::Settings(_)) => validated_after(t, true),
        _ => end(t, Outcome::Failed),
    }
}

/// The first part of a tick: which routine it is for, and whether the storage is
/// valid.
fn next_entry(t: Tick, at: Entry, e: Event) -> (r: (Tick, Step))
    ensures
        r == entry_after(t, at, e),
{
    match (at, e) {
        (Entry::Start, Event::Begin) => {
            (Tick { at: At::Entry(Entry::Recovered), ..t }, Step::Save(Save::Recover))
        },
        (Entry::Recovered, Event::Settings(_)) => {
            (Tick { at: At::Entry(Entry::Loaded), ..t }, Step::Load)
        },
        (Entry::Loaded, Event::Settings(f)) => {
            (
                Tick { at: At::Entry(Entry::Noted), config: f, ..t },
                Step::Note(Memory::UpdateReady(false)),
            )
        },
        (Entry::Noted, Event::Done) => {
            if t.config.enrolled {
                if t.config.storage_request {
                    finish(t, Outcome::Go(Routine::RemoteStorage))
                } else {
                    (Tick { at: At::Entry(Entry::Resolved), ..t }, Step::ResolveInitialStorage)
                }
            } else if t.config.update_pending && t.config.vm_created {
                refusing(t, Refusal::ReconnectBeforeUpdate)
            } else if t.config.update_pending {
                (Tick { at: At::Entry(Entry::ReceiptBeforeUpdate), ..t }, Step::Receipt)
            } else {
                (
                    Tick { at: At::Entry(Entry::ReadyNoted), ..t },
                    Step::Note(Memory::UpdateReady(false)),
                )
            }
        },
        (Entry::ReceiptBeforeUpdate, Event::Answer(receipt)) => {
            if receipt {
                refusing(t, Refusal::ReconnectBeforeUpdate)
            } else {
                (
                    Tick { at: At::Entry(Entry::ReadyNoted), ..t },
                    Step::Note(Memory::UpdateReady(true)),
                )
            }
        },
        (Entry::ReadyNoted, Event::Done) => {
            (Tick { at: At::Entry(Entry::ConnectTold), ..t }, Step::Tell(Notice::ConnectFirst))
        },
        (Entry::ConnectTold, Event::Done) => finish(t, Outcome::Done),
        (Entry::Resolved, Event::Settings(f)) => {
            if f.vm_created {
                route(Tick { config: f, owned: true, ..t })
            } else {
                (Tick { at: At::Entry(Entry::Owned), config: f, ..t }, Step::Receipt)
            }
        },
        (Entry::Owned, Event::Answer(receipt)) => route(Tick { owned: receipt, ..t }),
        (Entry::BackupsCleaned, Event::Done) => {
            if t.config.disabled {
                (
                    Tick { at: At::Entry(Entry::DisabledTold), ..t },
                    Step::Tell(Notice::StorageDisabled),
                )
            } else if t.config.operation {
                finish(t, Outcome::Go(Routine::StorageOperation))
            } else if !t.config.recreation {
                (Tick { at: At::Entry(Entry::MissingChecked), ..t }, Step::MissingStorage)
            } else {
                (Tick { at: At::Entry(Entry::Validated), ..t }, Step::ValidateStorage)
            }
        },
        (Entry::DisabledTold, Event::Done) => {
            (Tick { at: At::Entry(Entry::DisabledBeat), ..t }, Step::Heartbeat)
        },
        (Entry::DisabledBeat, _) => finish(t, Outcome::Done),
        (Entry::MissingChecked, Event::Answer(handled)) => {
            if handled {
                finish(t, Outcome::Done)
            } else {
                (Tick { at: At::Entry(Entry::Validated), ..t }, Step::ValidateStorage)
            }
        },
        (Entry::Validated, Event::Done) => validated(t, false),
        (Entry::Validated, Event::Failed) => {
            (Tick { at: At::Entry(Entry::InvalidHeld), ..t }, Step::Hold)
        },
        (Entry::InvalidHeld, Event::Done) => {
            (Tick { at: At::Entry(Entry::InvalidReceipt), ..t }, Step::Receipt)
        },
        (Entry::InvalidReceipt, Event::Answer(receipt)) => {
            if receipt {
                (Tick { at: At::Entry(Entry::InvalidSeen), ..t }, Step::Look)
            } else {
                (Tick { at: At::Entry(Entry::InvalidTold), ..t }, Step::TellHeld)
            }
        },
        (Entry::InvalidSeen, Event::Worker(w)) => {
            if w.running {
                (Tick { at: At::Entry(Entry::InvalidStopped), ..t }, Step::Run(VmTask::StopNow))
            } else {
                (Tick { at: At::Entry(Entry::InvalidTold), ..t }, Step::TellHeld)
            }
        },
        (Entry::InvalidStopped, Event::Done) => {
            (Tick { at: At::Entry(Entry::InvalidTold), ..t }, Step::TellHeld)
        },
        (Entry::InvalidTold, Event::Done) => {
            (Tick { at: At::Entry(Entry::InvalidBeat), ..t }, Step::Heartbeat)
        },
        (Entry::InvalidBeat, _) => finish(t, Outcome::Held),
        (Entry::RepairBeat, _) => refusing(t, Refusal::UnverifiedAllocation),
        (Entry::PreparationCleared, Event::Settings(_)) => validated(t, true),
        _ => finish(t, Outcome::Failed),
    }
}

/// The preparation of a worker. Bootstrap credentials must be fresh after a
/// potentially slow first image download.
pub open spec fn prepare_after(t: Tick, at: Prepare, e: Event) -> (Tick, Step) {
    match (at, e) {
        (Prepare::Started, Event::Done) => {
            if t.owned {
                (Tick { at: At::Prepare(Prepare::Seen), ..t }, Step::Inspect)
            } else {
                (Tick { at: At::Prepare(Prepare::Absent), ..t }, Step::Note(Memory::NoWorker))
            }
        },
        (Prepare::Seen, Event::Worker(w)) => preparation_after(t, w),
        (Prepare::Absent, Event::Done) => preparation_after(t, nothing()),
        (Prepare::UnreachableTold, Event::Done) => end(t, Outcome::Done),
        (Prepare::Told, Event::Done) => {
            if !t.worker.installed {
                (Tick { at: At::Prepare(Prepare::PolicyValid), ..t }, Step::ValidatePolicy)
            } else if t.config.allocated != Some(t.config.resources) {
                if t.worker.running {
                    (
                        Tick { at: At::Prepare(Prepare::StoppedToResize), ..t },
                        Step::Run(VmTask::Stop),
                    )
                } else {
                    (Tick { at: At::Prepare(Prepare::Sized), ..t }, resize_step(t.config))
                }
            } else {
                sized_after(t)
            }
        },
        (Prepare::PolicyValid, Event::Done) => {
            if t.config.placed {
                (Tick { at: At::Prepare(Prepare::Sized), ..t }, Step::CreateStorageWorker)
            } else {
                (
                    Tick { at: At::Prepare(Prepare::Sized), ..t },
                    Step::Run(VmTask::Create(t.config.resources)),
                )
            }
        },
        (Prepare::StoppedToResize, Event::Done) => {
            (Tick { at: At::Prepare(Prepare::Sized), ..t }, resize_step(t.config))
        },
        (Prepare::Sized, Event::Done) => sized_after(t),
        (Prepare::Recorded, Event::Settings(_)) => {
            (Tick { at: At::Prepare(Prepare::Reloaded), ..t }, Step::Load)
        },
        (Prepare::Reloaded, Event::Settings(f)) => {
            if !f.prepare_requested {
                (Tick { at: At::Prepare(Prepare::CanceledSeen), ..t }, Step::Look)
            } else if t.worker.installed {
                (Tick { at: At::Prepare(Prepare::ExistingSeen), ..t }, Step::Look)
            } else {
                (Tick { at: At::Prepare(Prepare::Rechecked), ..t }, Step::Load)
            }
        },
        (Prepare::CanceledSeen, Event::Worker(w)) => {
            if w.running {
                (
                    Tick { at: At::Prepare(Prepare::CanceledStopped), ..t },
                    Step::Run(VmTask::Stop),
                )
            } else {
                end(t, Outcome::Done)
            }
        },
        (Prepare::CanceledStopped, Event::Done) => end(t, Outcome::Done),
        (Prepare::ExistingSeen, Event::Worker(w)) => {
            if w.reachable {
                (Tick { at: At::Prepare(Prepare::Rechecked), ..t }, Step::Load)
            } else {
                (
                    Tick { at: At::Prepare(Prepare::ExistingStarted), ..t },
                    Step::Run(VmTask::Start),
                )
            }
        },
        (Prepare::ExistingStarted, Event::Done) => {
            (Tick { at: At::Prepare(Prepare::Rechecked), ..t }, Step::Load)
        },
        (Prepare::Rechecked, Event::Settings(f)) => {
            if f.prepare_requested {
                (Tick { at: At::Prepare(Prepare::StorageReady), ..t }, Step::FinishInitialStorage)
            } else {
                (
                    Tick { at: At::Prepare(Prepare::CanceledStopped), ..t },
                    Step::Run(VmTask::Stop),
                )
            }
        },
        (Prepare::StorageReady, Event::Done) => {
            (Tick { at: At::Prepare(Prepare::Announced), ..t }, Step::AnnounceAccess)
        },
        (Prepare::Announced, Event::Done) => {
            (Tick { at: At::Prepare(Prepare::Bootstrapped), ..t }, Step::Ask(Route::Bootstrap))
        },
        (Prepare::Bootstrapped, Event::Done) => {
            (Tick { at: At::Prepare(Prepare::Configured), ..t }, Step::Run(VmTask::Configure))
        },
        (Prepare::Configured, Event::Done) => {
            (Tick { at: At::Prepare(Prepare::Saved), ..t }, Step::Save(Save::FinishPreparation))
        },
        (Prepare::Saved, Event::Settings(_)) => {
            (Tick { at: At::Prepare(Prepare::Noted), ..t }, Step::Note(Memory::Starting(None)))
        },
        (Prepare::Noted, Event::Done) => {
            (Tick { at: At::Observe(Observe::Loaded), ..t }, Step::Load)
        },
        _ => end(t, Outcome::Failed),
    }
}

/// The preparation of a worker. Bootstrap credentials must be fresh after a
/// potentially slow first image download.
fn next_prepare(t: Tick, at: Prepare, e: Event) -> (r: (Tick, Step))
    ensures
        r == prepare_after(t, at, e),
{
    match (at, e) {
        (Prepare::Started, Event::Done) => {
            if t.owned {
                (Tick { at: At::Prepare(Prepare::Seen), ..t }, Step::Inspect)
            } else {
                (Tick { at: At::Prepare(Prepare::Absent), ..t }, Step::Note(Memory::NoWorker))
            }
        },
        (Prepare::Seen, Event::Worker(w)) => preparation(t, w),
        (Prepare::Absent, Event::Done) => preparation(t, no_sight()),
        (Prepare::UnreachableTold, Event::Done) => finish(t, Outcome::Done),
        (Prepare::Told, Event::Done) => {
            if !t.worker.installed {
                (Tick { at: At::Prepare(Prepare::PolicyValid), ..t }, Step::ValidatePolicy)
            } else if t.config.allocated != Some(t.config.resources) {
                if t.worker.running {
                    (
                        Tick { at: At::Prepare(Prepare::StoppedToResize), ..t },
                        Step::Run(VmTask::Stop),
                    )
                } else {
                    (Tick { at: At::Prepare(Prepare::Sized), ..t }, resizing(t.config))
                }
            } else {
                sized(t)
            }
        },
        (Prepare::PolicyValid, Event::Done) => {
            if t.config.placed {
                (Tick { at: At::Prepare(Prepare::Sized), ..t }, Step::CreateStorageWorker)
            } else {
                (
                    Tick { at: At::Prepare(Prepare::Sized), ..t },
                    Step::Run(VmTask::Create(t.config.resources)),
                )
            }
        },
        (Prepare::StoppedToResize, Event::Done) => {
            (Tick { at: At::Prepare(Prepare::Sized), ..t }, resizing(t.config))
        },
        (Prepare::Sized, Event::Done) => sized(t),
        (Prepare::Recorded, Event::Settings(_)) => {
            (Tick { at: At::Prepare(Prepare::Reloaded), ..t }, Step::Load)
        },
        (Prepare::Reloaded, Event::Settings(f)) => {
            if !f.prepare_requested {
                (Tick { at: At::Prepare(Prepare::CanceledSeen), ..t }, Step::Look)
            } else if t.worker.installed {
                (Tick { at: At::Prepare(Prepare::ExistingSeen), ..t }, Step::Look)
            } else {
                (Tick { at: At::Prepare(Prepare::Rechecked), ..t }, Step::Load)
            }
        },
        (Prepare::CanceledSeen, Event::Worker(w)) => {
            if w.running {
                (
                    Tick { at: At::Prepare(Prepare::CanceledStopped), ..t },
                    Step::Run(VmTask::Stop),
                )
            } else {
                finish(t, Outcome::Done)
            }
        },
        (Prepare::CanceledStopped, Event::Done) => finish(t, Outcome::Done),
        (Prepare::ExistingSeen, Event::Worker(w)) => {
            if w.reachable {
                (Tick { at: At::Prepare(Prepare::Rechecked), ..t }, Step::Load)
            } else {
                (
                    Tick { at: At::Prepare(Prepare::ExistingStarted), ..t },
                    Step::Run(VmTask::Start),
                )
            }
        },
        (Prepare::ExistingStarted, Event::Done) => {
            (Tick { at: At::Prepare(Prepare::Rechecked), ..t }, Step::Load)
        },
        (Prepare::Rechecked, Event::Settings(f)) => {
            if f.prepare_requested {
                (Tick { at: At::Prepare(Prepare::StorageReady), ..t }, Step::FinishInitialStorage)
            } else {
                (
                    Tick { at: At::Prepare(Prepare::CanceledStopped), ..t },
                    Step::Run(VmTask::Stop),
                )
            }
        },
        (Prepare::StorageReady, Event::Done) => {
            (Tick { at: At::Prepare(Prepare::Announced), ..t }, Step::AnnounceAccess)
        },
        (Prepare::Announced, Event::Done) => {
            (Tick { at: At::Prepare(Prepare::Bootstrapped), ..t }, Step::Ask(Route::Bootstrap))
        },
        (Prepare::Bootstrapped, Event::Done) => {
            (Tick { at: At::Prepare(Prepare::Configured), ..t }, Step::Run(VmTask::Configure))
        },
        (Prepare::Configured, Event::Done) => {
            (Tick { at: At::Prepare(Prepare::Saved), ..t }, Step::Save(Save::FinishPreparation))
        },
        (Prepare::Saved, Event::Settings(_)) => {
            (Tick { at: At::Prepare(Prepare::Noted), ..t }, Step::Note(Memory::Starting(None)))
        },
        (Prepare::Noted, Event::Done) => {
            (Tick { at: At::Observe(Observe::Loaded), ..t }, Step::Load)
        },
        _ => finish(t, Outcome::Failed),
    }
}

/// Local restrictions are recorded; the controller is told next.
pub open spec fn heard_after(t: Tick) -> (Tick, Step) {
    if t.config.update_pending {
        (
            Tick { at: At::Observe(Observe::UpdateWaitTold), ..t },
            Step::Tell(Notice::WaitingForUpdate),
        )
    } else {
        (Tick { at: At::Observe(Observe::BeatLoaded), ..t }, Step::Load)
    }
}

/// Local restrictions are recorded; the controller is told next.
fn heard(t: Tick) -> (r: (Tick, Step))
    ensures
        r == heard_after(t),
{
    if t.config.update_pending {
        (
            Tick { at: At::Observe(Observe::UpdateWaitTold), ..t },
            Step::Tell(Notice::WaitingForUpdate),
        )
    } else {
        (Tick { at: At::Observe(Observe::BeatLoaded), ..t }, Step::Load)
    }
}

/// What the worker's state calls for. A partial worker cannot perform a guest
/// shutdown: the owner's pause goes through the hypervisor.
pub open spec fn seen_after(t: Tick) -> (Tick, Step) {
    let f = t.config;
    let w = t.worker;
    if f.update_pending && !w.running {
        (
            Tick { at: At::Observe(Observe::UpdateNoted), ..t },
            Step::Note(Memory::UpdateReady(true)),
        )
    } else if w.running && !f.vm_configured && !f.prepare_requested {
        (Tick { at: At::Observe(Observe::IncompleteStopped), ..t }, Step::Run(VmTask::StopNow))
    } else if f.pending && !w.running {
        (Tick { at: At::Observe(Observe::Applied), ..t }, Step::ApplyConfiguration)
    } else if !f.vm_created {
        (Tick { at: At::Observe(Observe::PrepareFirstTold), ..t }, Step::Tell(Notice::PrepareFirst))
    } else if f.stop_requested && w.running {
        end(t, Outcome::Go(Routine::ImmediateStop))
    } else if resize_pending(f) && !w.running {
        (Tick { at: At::Observe(Observe::Resized), ..t }, resize_step(f))
    } else if w.running {
        (
            Tick {
                at: At::Observe(Observe::DrainAsked),
                was_draining: f.draining_since.is_some(),
                ..t
            },
            Step::LocalDrain,
        )
    } else {
        (
            Tick {
                at: At::Observe(Observe::DrainCleared),
                was_draining: f.draining_since.is_some(),
                ..t
            },
            Step::Save(Save::ClearDrain),
        )
    }
}

/// What the worker's state calls for. A partial worker cannot perform a guest
/// shutdown: the owner's pause goes through the hypervisor.
fn worker_seen(t: Tick) -> (r: (Tick, Step))
    ensures
        r == seen_after(t),
{
    let f = t.config;
    let w = t.worker;
    if f.update_pending && !w.running {
        (
            Tick { at: At::Observe(Observe::UpdateNoted), ..t },
            Step::Note(Memory::UpdateReady(true)),
        )
    } else if w.running && !f.vm_configured && !f.prepare_requested {
        (Tick { at: At::Observe(Observe::IncompleteStopped), ..t }, Step::Run(VmTask::StopNow))
    } else if f.pending && !w.running {
        (Tick { at: At::Observe(Observe::Applied), ..t }, Step::ApplyConfiguration)
    } else if !f.vm_created {
        (Tick { at: At::Observe(Observe::PrepareFirstTold), ..t }, Step::Tell(Notice::PrepareFirst))
    } else if f.stop_requested && w.running {
        finish(t, Outcome::Go(Routine::ImmediateStop))
    } else if needs_resize(f) && !w.running {
        (Tick { at: At::Observe(Observe::Resized), ..t }, resizing(f))
    } else if w.running {
        (
            Tick {
                at: At::Observe(Observe::DrainAsked),
                was_draining: f.draining_since.is_some(),
                ..t
            },
            Step::LocalDrain,
        )
    } else {
        (
            Tick {
                at: At::Observe(Observe::DrainCleared),
                was_draining: f.draining_since.is_some(),
                ..t
            },
            Step::Save(Save::ClearDrain),
        )
    }
}

/// A stopped worker allows old disk copies to be removed.
pub open spec fn calm_after(t: Tick, worker: Sight) -> (Tick, Step) {
    let seen = Tick { worker, ..t };
    if worker.stopped {
        (Tick { at: At::Observe(Observe::CopiesCleaned), ..seen }, Step::CleanCopies)
    } else {
        seen_after(seen)
    }
}

/// A stopped worker allows old disk copies to be removed.
fn calm(t: Tick, worker: Sight) -> (r: (Tick, Step))
    ensures
        r == calm_after(t, worker),
{
    let seen = Tick { worker, ..t };
    if worker.stopped {
        (Tick { at: At::Observe(Observe::CopiesCleaned), ..seen }, Step::CleanCopies)
    } else {
        worker_seen(seen)
    }
}

/// The look at the worker, up to the controller being told. Local restrictions
/// are recorded before HTTP or guest inspection can stall.
pub open spec fn observe_after(t: Tick, at: Observe, e: Event) -> (Tick, Step) {
    match (at, e) {
        (Observe::Loaded, Event::Settings(f)) => {
            if f.vm_created {
                (Tick { at: At::Observe(Observe::Seen), config: f, ..t }, Step::Inspect)
            } else {
                (Tick { at: At::Observe(Observe::Receipt), config: f, ..t }, Step::Receipt)
            }
        },
        (Observe::Receipt, Event::Answer(receipt)) => {
            if receipt {
                (Tick { at: At::Observe(Observe::Seen), ..t }, Step::Inspect)
            } else {
                (Tick { at: At::Observe(Observe::Absent), ..t }, Step::Note(Memory::NoWorker))
            }
        },
        (Observe::Seen, Event::Worker(w)) => calm_after(t, w),
        (Observe::Absent, Event::Done) => calm_after(t, nothing()),
        (Observe::CopiesCleaned, _) => seen_after(t),
        (Observe::UpdateNoted, Event::Done) => {
            (
                Tick { at: At::Observe(Observe::UpdateTold), ..t },
                Step::Tell(Notice::StoppedForUpdate),
            )
        },
        (Observe::UpdateTold, Event::Done) => end(t, Outcome::Done),
        (Observe::IncompleteStopped, Event::Done) => {
            (
                Tick { at: At::Observe(Observe::IncompleteNoted), ..t },
                Step::Note(Memory::WorkerStopped),
            )
        },
        (Observe::IncompleteNoted, Event::Done) => {
            (Tick { at: At::Observe(Observe::IncompleteTold), ..t }, Step::Tell(Notice::Incomplete))
        },
        (Observe::IncompleteTold, Event::Done) => end(t, Outcome::Done),
        (Observe::Applied, Event::Done) => {
            (Tick { at: At::Observe(Observe::AppliedLoaded), ..t }, Step::Load)
        },
        (Observe::AppliedLoaded, Event::Settings(_)) => {
            (Tick { at: At::Observe(Observe::AppliedBeat), ..t }, Step::Heartbeat)
        },
        (Observe::AppliedBeat, _) => end(t, Outcome::Done),
        (Observe::PrepareFirstTold, Event::Done) => {
            (Tick { at: At::Observe(Observe::PrepareFirstBeat), ..t }, Step::Heartbeat)
        },
        (Observe::PrepareFirstBeat, Event::Done) => end(t, Outcome::Done),
        (Observe::Resized, Event::Done) => {
            (
                Tick { at: At::Observe(Observe::ResizeSaved), ..t },
                Step::Save(Save::RecordAllocation(t.config.resources)),
            )
        },
        (Observe::ResizeSaved, Event::Settings(_)) => {
            (
                Tick { at: At::Observe(Observe::ResizeTold), ..t },
                Step::Tell(Notice::ResourcesUpdated),
            )
        },
        (Observe::ResizeTold, Event::Done) => end(t, Outcome::Done),
        (Observe::DrainAsked, Event::Answer(required)) => {
            if required {
                (Tick { at: At::Observe(Observe::DrainBegun), ..t }, Step::Save(Save::BeginDrain))
            } else {
                heard_after(t)
            }
        },
        (Observe::DrainBegun, Event::Settings(f)) => {
            if expired(f) {
                end(t, Outcome::Go(Routine::ImmediateStop))
            } else {
                heard_after(t)
            }
        },
        (Observe::DrainCleared, Event::Settings(_)) => heard_after(t),
        (Observe::UpdateWaitTold, Event::Done) => {
            (Tick { at: At::Observe(Observe::BeatLoaded), ..t }, Step::Load)
        },
        (Observe::BeatLoaded, Event::Settings(_)) => {
            (Tick { at: At::Observe(Observe::Beaten), ..t }, Step::Heartbeat)
        },
        (Observe::Beaten, Event::Done) => {
            (Tick { at: At::Share(Share::Loaded), beaten: true, ..t }, Step::Load)
        },
        (Observe::Beaten, Event::Failed) => {
            (Tick { at: At::Observe(Observe::BeatHeld), beaten: false, ..t }, Step::Hold)
        },
        (Observe::BeatHeld, Event::Done) => {
            (Tick { at: At::Share(Share::Loaded), ..t }, Step::Load)
        },
        _ => end(t, Outcome::Failed),
    }
}

/// The look at the worker, up to the controller being told. Local restrictions
/// are recorded before HTTP or guest inspection can stall.
fn next_observe(t: Tick, at: Observe, e: Event) -> (r: (Tick, Step))
    ensures
        r == observe_after(t, at, e),
{
    match (at, e) {
        (Observe::Loaded, Event::Settings(f)) => {
            if f.vm_created {
                (Tick { at: At::Observe(Observe::Seen), config: f, ..t }, Step::Inspect)
            } else {
                (Tick { at: At::Observe(Observe::Receipt), config: f, ..t }, Step::Receipt)
            }
        },
        (Observe::Receipt, Event::Answer(receipt)) => {
            if receipt {
                (Tick { at: At::Observe(Observe::Seen), ..t }, Step::Inspect)
            } else {
                (Tick { at: At::Observe(Observe::Absent), ..t }, Step::Note(Memory::NoWorker))
            }
        },
        (Observe::Seen, Event::Worker(w)) => calm(t, w),
        (Observe::Absent, Event::Done) => calm(t, no_sight()),
        (Observe::CopiesCleaned, _) => worker_seen(t),
        (Observe::UpdateNoted, Event::Done) => {
            (
                Tick { at: At::Observe(Observe::UpdateTold), ..t },
                Step::Tell(Notice::StoppedForUpdate),
            )
        },
        (Observe::UpdateTold, Event::Done) => finish(t, Outcome::Done),
        (Observe::IncompleteStopped, Event::Done) => {
            (
                Tick { at: At::Observe(Observe::IncompleteNoted), ..t },
                Step::Note(Memory::WorkerStopped),
            )
        },
        (Observe::IncompleteNoted, Event::Done) => {
            (Tick { at: At::Observe(Observe::IncompleteTold), ..t }, Step::Tell(Notice::Incomplete))
        },
        (Observe::IncompleteTold, Event::Done) => finish(t, Outcome::Done),
        (Observe::Applied, Event::Done) => {
            (Tick { at: At::Observe(Observe::AppliedLoaded), ..t }, Step::Load)
        },
        (Observe::AppliedLoaded, Event::Settings(_)) => {
            (Tick { at: At::Observe(Observe::AppliedBeat), ..t }, Step::Heartbeat)
        },
        (Observe::AppliedBeat, _) => finish(t, Outcome::Done),
        (Observe::PrepareFirstTold, Event::Done) => {
            (Tick { at: At::Observe(Observe::PrepareFirstBeat), ..t }, Step::Heartbeat)
        },
        (Observe::PrepareFirstBeat, Event::Done) => finish(t, Outcome::Done),
        (Observe::Resized, Event::Done) => {
            (
                Tick { at: At::Observe(Observe::ResizeSaved), ..t },
                Step::Save(Save::RecordAllocation(t.config.resources)),
            )
        },
        (Observe::ResizeSaved, Event::Settings(_)) => {
            (
                Tick { at: At::Observe(Observe::ResizeTold), ..t },
                Step::Tell(Notice::ResourcesUpdated),
            )
        },
        (Observe::ResizeTold, Event::Done) => finish(t, Outcome::Done),
        (Observe::DrainAsked, Event::Answer(required)) => {
            if required {
                (Tick { at: At::Observe(Observe::DrainBegun), ..t }, Step::Save(Save::BeginDrain))
            } else {
                heard(t)
            }
        },
        (Observe::DrainBegun, Event::Settings(f)) => {
            if has_expired(f) {
                finish(t, Outcome::Go(Routine::ImmediateStop))
            } else {
                heard(t)
            }
        },
        (Observe::DrainCleared, Event::Settings(_)) => heard(t),
        (Observe::UpdateWaitTold, Event::Done) => {
            (Tick { at: At::Observe(Observe::BeatLoaded), ..t }, Step::Load)
        },
        (Observe::BeatLoaded, Event::Settings(_)) => {
            (Tick { at: At::Observe(Observe::Beaten), ..t }, Step::Heartbeat)
        },
        (Observe::Beaten, Event::Done) => {
            (Tick { at: At::Share(Share::Loaded), beaten: true, ..t }, Step::Load)
        },
        (Observe::Beaten, Event::Failed) => {
            (Tick { at: At::Observe(Observe::BeatHeld), beaten: false, ..t }, Step::Hold)
        },
        (Observe::BeatHeld, Event::Done) => {
            (Tick { at: At::Share(Share::Loaded), ..t }, Step::Load)
        },
        _ => finish(t, Outcome::Failed),
    }
}

/// An unreachable guest has an unknown workload count, not an empty one.
pub open spec fn counted_after(t: Tick) -> (Tick, Step) {
    if t.worker.running && t.worker.reachable {
        (Tick { at: At::Share(Share::Counted), ..t }, Step::Count)
    } else if t.worker.running {
        (Tick { at: At::Share(Share::DrainRead), workloads: None, ..t }, Step::Load)
    } else {
        (Tick { at: At::Share(Share::DrainRead), workloads: Some(0), ..t }, Step::Load)
    }
}

/// An unreachable guest has an unknown workload count, not an empty one.
fn counted(t: Tick) -> (r: (Tick, Step))
    ensures
        r == counted_after(t),
{
    if t.worker.running && t.worker.reachable {
        (Tick { at: At::Share(Share::Counted), ..t }, Step::Count)
    } else if t.worker.running {
        (Tick { at: At::Share(Share::DrainRead), workloads: None, ..t }, Step::Load)
    } else {
        (Tick { at: At::Share(Share::DrainRead), workloads: Some(0), ..t }, Step::Load)
    }
}

/// Automatic updates never use owner drain deadlines or evictions. Unknown
/// connectivity cannot be interpreted as idle.
pub open spec fn update_after(t: Tick) -> (Tick, Step) {
    if t.beaten {
        (Tick { at: At::Share(Share::UpdateAsked), ..t }, Step::Ask(Route::Maintenance))
    } else {
        end(t, Outcome::Held)
    }
}

/// Automatic updates never use owner drain deadlines or evictions. Unknown
/// connectivity cannot be interpreted as idle.
fn updating(t: Tick) -> (r: (Tick, Step))
    ensures
        r == update_after(t),
{
    if t.beaten {
        (Tick { at: At::Share(Share::UpdateAsked), ..t }, Step::Ask(Route::Maintenance))
    } else {
        finish(t, Outcome::Held)
    }
}

/// What the owner's rules call for.
pub open spec fn judged_after(t: Tick) -> (Tick, Step) {
    if t.config.update_pending && t.judged && !resize_pending(t.config) && !t.remote_paused {
        if t.worker.reachable {
            (Tick { at: At::Share(Share::UpdateLease), ..t }, Step::Run(VmTask::RenewLease))
        } else {
            update_after(t)
        }
    } else if t.worker.running && !t.allowed {
        (Tick { at: At::Share(Share::DrainBegun), ..t }, Step::Save(Save::BeginDrain))
    } else {
        counted_after(t)
    }
}

/// What the owner's rules call for.
fn judged(t: Tick) -> (r: (Tick, Step))
    ensures
        r == judged_after(t),
{
    if t.config.update_pending && t.judged && !needs_resize(t.config) && !t.remote_paused {
        if t.worker.reachable {
            (Tick { at: At::Share(Share::UpdateLease), ..t }, Step::Run(VmTask::RenewLease))
        } else {
            updating(t)
        }
    } else if t.worker.running && !t.allowed {
        (Tick { at: At::Share(Share::DrainBegun), ..t }, Step::Save(Save::BeginDrain))
    } else {
        counted(t)
    }
}

/// The worker was seen to; its workloads are remembered.
pub open spec fn ended_after(t: Tick) -> (Tick, Step) {
    (Tick { at: At::Share(Share::WorkloadsNoted), ..t }, Step::Note(Memory::Workloads))
}

/// The worker was seen to; its workloads are remembered.
fn ended(t: Tick) -> (r: (Tick, Step))
    ensures
        r == ended_after(t),
{
    (Tick { at: At::Share(Share::WorkloadsNoted), ..t }, Step::Note(Memory::Workloads))
}

/// What is done of the action that was decided.
pub open spec fn acted_after(t: Tick, action: WorkerAction) -> (Tick, Step) {
    match action {
        WorkerAction::Start => {
            (
                Tick { at: At::Share(Share::StartNoted), ..t },
                Step::Note(Memory::Starting(Some(Starting::Resume))),
            )
        },
        WorkerAction::Drain => {
            (
                Tick { at: At::Share(Share::DrainTold), ..t },
                if resize_pending(t.config) {
                    Step::Tell(Notice::DrainingForResize)
                } else {
                    Step::Tell(Notice::Draining)
                },
            )
        },
        WorkerAction::Wait => {
            (Tick { at: At::Share(Share::DrainTold), ..t }, Step::Tell(Notice::WaitingForWork))
        },
        WorkerAction::Stop => {
            if overdue(t.draining_since, t.now, t.config.drain_seconds) {
                end(t, Outcome::Go(Routine::ImmediateStop))
            } else {
                (Tick { at: At::Share(Share::Stopped), ..t }, Step::Run(VmTask::Stop))
            }
        },
        WorkerAction::Keep => {
            if !t.worker.running && t.remote_paused {
                (Tick { at: At::Share(Share::KeepTold), ..t }, Step::Tell(Notice::PausedFromFleet))
            } else if !t.worker.running {
                (Tick { at: At::Share(Share::KeepTold), ..t }, Step::TellResting)
            } else if t.draining_since.is_some() {
                (Tick { at: At::Share(Share::ResumeAsked), ..t }, Step::Ask(Route::Resume))
            } else {
                (Tick { at: At::Share(Share::KeepLease), ..t }, Step::Run(VmTask::RenewLease))
            }
        },
    }
}

/// What is done of the action that was decided.
fn acted(t: Tick, action: WorkerAction) -> (r: (Tick, Step))
    ensures
        r == acted_after(t, action),
{
    match action {
        WorkerAction::Start => {
            (
                Tick { at: At::Share(Share::StartNoted), ..t },
                Step::Note(Memory::Starting(Some(Starting::Resume))),
            )
        },
        WorkerAction::Drain => {
            (
                Tick { at: At::Share(Share::DrainTold), ..t },
                if needs_resize(t.config) {
                    Step::Tell(Notice::DrainingForResize)
                } else {
                    Step::Tell(Notice::Draining)
                },
            )
        },
        WorkerAction::Wait => {
            (Tick { at: At::Share(Share::DrainTold), ..t }, Step::Tell(Notice::WaitingForWork))
        },
        WorkerAction::Stop => {
            if is_overdue(t.draining_since, t.now, t.config.drain_seconds) {
                finish(t, Outcome::Go(Routine::ImmediateStop))
            } else {
                (Tick { at: At::Share(Share::Stopped), ..t }, Step::Run(VmTask::Stop))
            }
        },
        WorkerAction::Keep => {
            if !t.worker.running && t.remote_paused {
                (Tick { at: At::Share(Share::KeepTold), ..t }, Step::Tell(Notice::PausedFromFleet))
            } else if !t.worker.running {
                (Tick { at: At::Share(Share::KeepTold), ..t }, Step::TellResting)
            } else if t.draining_since.is_some() {
                (Tick { at: At::Share(Share::ResumeAsked), ..t }, Step::Ask(Route::Resume))
            } else {
                (Tick { at: At::Share(Share::KeepLease), ..t }, Step::Run(VmTask::RenewLease))
            }
        },
    }
}

/// The sharing of the worker: judge, count, decide and act.
pub open spec fn share_after(t: Tick, at: Share, e: Event) -> (Tick, Step) {
    match (at, e) {
        (Share::Loaded, Event::Settings(f)) => {
            (Tick { at: At::Share(Share::Judged), config: f, ..t }, Step::Judge)
        },
        (Share::Judged, Event::Judged(permitted, remote_paused)) => {
            judged_after(
                Tick {
                    judged: permitted,
                    remote_paused,
                    allowed: permitted && !t.config.pending && !resize_pending(t.config)
                        && t.beaten && !remote_paused,
                    ..t
                },
            )
        },
        (Share::UpdateLease, Event::Done) => update_after(t),
        (Share::UpdateAsked, Event::Done) => {
            (Tick { at: At::Share(Share::UpdatePods), ..t }, Step::Note(Memory::SystemPods))
        },
        (Share::UpdatePods, Event::Done) => {
            (Tick { at: At::Share(Share::UpdateBound), ..t }, Step::Bound)
        },
        (Share::UpdateBound, Event::Bound(n)) => {
            if t.worker.reachable {
                (
                    Tick { at: At::Share(Share::UpdateCounted), bound: n, ..t },
                    Step::CountReplied,
                )
            } else {
                refuse(t, Refusal::UninspectedUpdate)
            }
        },
        (Share::UpdateCounted, Event::Workloads(n)) => {
            let idle = t.bound == 0 && n == 0;
            (Tick { at: At::Share(Share::UpdateShown), idle, ..t }, Step::Note(Memory::Counted))
        },
        (Share::UpdateShown, Event::Done) => {
            (Tick { at: At::Share(Share::UpdateSwapped), ..t }, Step::SwapIdle(t.idle))
        },
        (Share::UpdateSwapped, Event::Answer(before)) => {
            if t.idle && before {
                (Tick { at: At::Share(Share::UpdateStopped), ..t }, Step::Run(VmTask::Stop))
            } else {
                end(t, Outcome::Done)
            }
        },
        (Share::UpdateStopped, Event::Done) => {
            (Tick { at: At::Share(Share::UpdateNoted), ..t }, Step::Note(Memory::UpdateStopped))
        },
        (Share::UpdateNoted, Event::Done) => end(t, Outcome::Done),
        (Share::DrainBegun, Event::Settings(f)) => {
            if expired(f) {
                end(t, Outcome::Go(Routine::ImmediateStop))
            } else {
                counted_after(t)
            }
        },
        (Share::Counted, Event::Workloads(n)) => {
            (Tick { at: At::Share(Share::DrainRead), workloads: Some(n), ..t }, Step::Load)
        },
        (Share::Counted, Event::Failed) => {
            (Tick { at: At::Share(Share::DrainRead), workloads: None, ..t }, Step::Load)
        },
        (Share::DrainRead, Event::Settings(f)) => {
            (
                Tick {
                    at: At::Share(Share::Decided),
                    draining_since: f.draining_since,
                    now: f.now,
                    ..t
                },
                Step::Decide(
                    WorkerInput {
                        permitted: t.allowed,
                        running: t.worker.running,
                        draining_since: if t.was_draining {
                            f.draining_since
                        } else {
                            None
                        },
                        now: f.now,
                        drain_seconds: t.config.drain_seconds,
                        workloads: match t.workloads {
                            Some(n) => n,
                            None => usize::MAX,
                        },
                    },
                ),
            )
        },
        (Share::Decided, Event::Action(action)) => acted_after(t, action),
        (Share::StartNoted, Event::Done) => {
            (Tick { at: At::Share(Share::StartTold), ..t }, Step::Tell(Notice::Connecting))
        },
        (Share::StartTold, Event::Done) => {
            (Tick { at: At::Share(Share::StartAnnounced), ..t }, Step::AnnounceAccess)
        },
        (Share::StartAnnounced, Event::Done) => {
            (Tick { at: At::Share(Share::StartBootstrapped), ..t }, Step::Ask(Route::Bootstrap))
        },
        (Share::StartBootstrapped, Event::Done) => {
            (Tick { at: At::Share(Share::Started), ..t }, Step::Run(VmTask::Start))
        },
        (Share::Started, Event::Done) => {
            (Tick { at: At::Share(Share::StartConfigured), ..t }, Step::Run(VmTask::Configure))
        },
        (Share::StartConfigured, Event::Done) => {
            (Tick { at: At::Share(Share::StartDone), ..t }, Step::Note(Memory::Starting(None)))
        },
        (Share::StartDone, Event::Done) => {
            (
                Tick { at: At::Share(Share::StartSaved), ..t },
                Step::Save(Save::ClearDrainIfPermitted),
            )
        },
        (Share::StartSaved, Event::Settings(_)) => ended_after(t),
        (Share::DrainTold, Event::Done) => {
            (Tick { at: At::Share(Share::DrainAsked), ..t }, Step::Ask(Route::Drain))
        },
        (Share::DrainAsked, Event::Failed) => {
            (Tick { at: At::Share(Share::DrainHeld), drained: false, ..t }, Step::Hold)
        },
        (Share::DrainAsked, Event::Done) => {
            if t.worker.reachable {
                (
                    Tick { at: At::Share(Share::DrainLease), drained: true, ..t },
                    Step::Run(VmTask::RenewLease),
                )
            } else {
                (
                    Tick { at: At::Share(Share::DrainPods), drained: true, ..t },
                    Step::Note(Memory::SystemPods),
                )
            }
        },
        (Share::DrainHeld, Event::Done) => {
            if t.worker.reachable {
                (
                    Tick { at: At::Share(Share::DrainLease), ..t },
                    Step::Run(VmTask::RenewLease),
                )
            } else {
                end(t, Outcome::Held)
            }
        },
        (Share::DrainLease, Event::Done) => {
            if t.drained {
                (Tick { at: At::Share(Share::DrainPods), ..t }, Step::Note(Memory::SystemPods))
            } else {
                end(t, Outcome::Held)
            }
        },
        (Share::DrainPods, Event::Done) => ended_after(t),
        (Share::Stopped, Event::Done) => {
            (Tick { at: At::Share(Share::StopSaved), ..t }, Step::Save(Save::ClearDrain))
        },
        (Share::StopSaved, Event::Settings(_)) => {
            (Tick { at: At::Share(Share::StopNoted), ..t }, Step::Note(Memory::WorkerStopped))
        },
        (Share::StopNoted, Event::Done) => ended_after(t),
        (Share::ResumeAsked, Event::Done) => {
            (
                Tick { at: At::Share(Share::ResumeSaved), ..t },
                Step::Save(Save::ClearDrainIfPermitted),
            )
        },
        (Share::ResumeSaved, Event::Settings(_)) => {
            (Tick { at: At::Share(Share::KeepLease), ..t }, Step::Run(VmTask::RenewLease))
        },
        (Share::KeepLease, Event::Done) => {
            (Tick { at: At::Share(Share::KeepTold), ..t }, Step::Tell(Notice::Sharing))
        },
        (Share::KeepTold, Event::Done) => ended_after(t),
        (Share::WorkloadsNoted, Event::Done) => {
            if t.beaten {
                (Tick { at: At::Share(Share::LastBeat), ..t }, Step::Heartbeat)
            } else {
                end(t, Outcome::Held)
            }
        },
        (Share::LastBeat, Event::Done) => end(t, Outcome::Done),
        _ => end(t, Outcome::Failed),
    }
}

/// The sharing of the worker: judge, count, decide and act.
fn next_share(t: Tick, at: Share, e: Event) -> (r: (Tick, Step))
    ensures
        r == share_after(t, at, e),
{
    match (at, e) {
        (Share::Loaded, Event::Settings(f)) => {
            (Tick { at: At::Share(Share::Judged), config: f, ..t }, Step::Judge)
        },
        (Share::Judged, Event::Judged(permitted, remote_paused)) => {
            judged(
                Tick {
                    judged: permitted,
                    remote_paused,
                    allowed: permitted && !t.config.pending && !needs_resize(t.config)
                        && t.beaten && !remote_paused,
                    ..t
                },
            )
        },
        (Share::UpdateLease, Event::Done) => updating(t),
        (Share::UpdateAsked, Event::Done) => {
            (Tick { at: At::Share(Share::UpdatePods), ..t }, Step::Note(Memory::SystemPods))
        },
        (Share::UpdatePods, Event::Done) => {
            (Tick { at: At::Share(Share::UpdateBound), ..t }, Step::Bound)
        },
        (Share::UpdateBound, Event::Bound(n)) => {
            if t.worker.reachable {
                (
                    Tick { at: At::Share(Share::UpdateCounted), bound: n, ..t },
                    Step::CountReplied,
                )
            } else {
                refusing(t, Refusal::UninspectedUpdate)
            }
        },
        (Share::UpdateCounted, Event::Workloads(n)) => {
            let idle = t.bound == 0 && n == 0;
            (Tick { at: At::Share(Share::UpdateShown), idle, ..t }, Step::Note(Memory::Counted))
        },
        (Share::UpdateShown, Event::Done) => {
            (Tick { at: At::Share(Share::UpdateSwapped), ..t }, Step::SwapIdle(t.idle))
        },
        (Share::UpdateSwapped, Event::Answer(before)) => {
            if t.idle && before {
                (Tick { at: At::Share(Share::UpdateStopped), ..t }, Step::Run(VmTask::Stop))
            } else {
                finish(t, Outcome::Done)
            }
        },
        (Share::UpdateStopped, Event::Done) => {
            (Tick { at: At::Share(Share::UpdateNoted), ..t }, Step::Note(Memory::UpdateStopped))
        },
        (Share::UpdateNoted, Event::Done) => finish(t, Outcome::Done),
        (Share::DrainBegun, Event::Settings(f)) => {
            if has_expired(f) {
                finish(t, Outcome::Go(Routine::ImmediateStop))
            } else {
                counted(t)
            }
        },
        (Share::Counted, Event::Workloads(n)) => {
            (Tick { at: At::Share(Share::DrainRead), workloads: Some(n), ..t }, Step::Load)
        },
        (Share::Counted, Event::Failed) => {
            (Tick { at: At::Share(Share::DrainRead), workloads: None, ..t }, Step::Load)
        },
        (Share::DrainRead, Event::Settings(f)) => {
            (
                Tick {
                    at: At::Share(Share::Decided),
                    draining_since: f.draining_since,
                    now: f.now,
                    ..t
                },
                Step::Decide(
                    WorkerInput {
                        permitted: t.allowed,
                        running: t.worker.running,
                        draining_since: if t.was_draining {
                            f.draining_since
                        } else {
                            None
                        },
                        now: f.now,
                        drain_seconds: t.config.drain_seconds,
                        workloads: match t.workloads {
                            Some(n) => n,
                            None => usize::MAX,
                        },
                    },
                ),
            )
        },
        (Share::Decided, Event::Action(action)) => acted(t, action),
        (Share::StartNoted, Event::Done) => {
            (Tick { at: At::Share(Share::StartTold), ..t }, Step::Tell(Notice::Connecting))
        },
        (Share::StartTold, Event::Done) => {
            (Tick { at: At::Share(Share::StartAnnounced), ..t }, Step::AnnounceAccess)
        },
        (Share::StartAnnounced, Event::Done) => {
            (Tick { at: At::Share(Share::StartBootstrapped), ..t }, Step::Ask(Route::Bootstrap))
        },
        (Share::StartBootstrapped, Event::Done) => {
            (Tick { at: At::Share(Share::Started), ..t }, Step::Run(VmTask::Start))
        },
        (Share::Started, Event::Done) => {
            (Tick { at: At::Share(Share::StartConfigured), ..t }, Step::Run(VmTask::Configure))
        },
        (Share::StartConfigured, Event::Done) => {
            (Tick { at: At::Share(Share::StartDone), ..t }, Step::Note(Memory::Starting(None)))
        },
        (Share::StartDone, Event::Done) => {
            (
                Tick { at: At::Share(Share::StartSaved), ..t },
                Step::Save(Save::ClearDrainIfPermitted),
            )
        },
        (Share::StartSaved, Event::Settings(_)) => ended(t),
        (Share::DrainTold, Event::Done) => {
            (Tick { at: At::Share(Share::DrainAsked), ..t }, Step::Ask(Route::Drain))
        },
        (Share::DrainAsked, Event::Failed) => {
            (Tick { at: At::Share(Share::DrainHeld), drained: false, ..t }, Step::Hold)
        },
        (Share::DrainAsked, Event::Done) => {
            if t.worker.reachable {
                (
                    Tick { at: At::Share(Share::DrainLease), drained: true, ..t },
                    Step::Run(VmTask::RenewLease),
                )
            } else {
                (
                    Tick { at: At::Share(Share::DrainPods), drained: true, ..t },
                    Step::Note(Memory::SystemPods),
                )
            }
        },
        (Share::DrainHeld, Event::Done) => {
            if t.worker.reachable {
                (
                    Tick { at: At::Share(Share::DrainLease), ..t },
                    Step::Run(VmTask::RenewLease),
                )
            } else {
                finish(t, Outcome::Held)
            }
        },
        (Share::DrainLease, Event::Done) => {
            if t.drained {
                (Tick { at: At::Share(Share::DrainPods), ..t }, Step::Note(Memory::SystemPods))
            } else {
                finish(t, Outcome::Held)
            }
        },
        (Share::DrainPods, Event::Done) => ended(t),
        (Share::Stopped, Event::Done) => {
            (Tick { at: At::Share(Share::StopSaved), ..t }, Step::Save(Save::ClearDrain))
        },
        (Share::StopSaved, Event::Settings(_)) => {
            (Tick { at: At::Share(Share::StopNoted), ..t }, Step::Note(Memory::WorkerStopped))
        },
        (Share::StopNoted, Event::Done) => ended(t),
        (Share::ResumeAsked, Event::Done) => {
            (
                Tick { at: At::Share(Share::ResumeSaved), ..t },
                Step::Save(Save::ClearDrainIfPermitted),
            )
        },
        (Share::ResumeSaved, Event::Settings(_)) => {
            (Tick { at: At::Share(Share::KeepLease), ..t }, Step::Run(VmTask::RenewLease))
        },
        (Share::KeepLease, Event::Done) => {
            (Tick { at: At::Share(Share::KeepTold), ..t }, Step::Tell(Notice::Sharing))
        },
        (Share::KeepTold, Event::Done) => ended(t),
        (Share::WorkloadsNoted, Event::Done) => {
            if t.beaten {
                (Tick { at: At::Share(Share::LastBeat), ..t }, Step::Heartbeat)
            } else {
                finish(t, Outcome::Held)
            }
        },
        (Share::LastBeat, Event::Done) => finish(t, Outcome::Done),
        _ => finish(t, Outcome::Failed),
    }
}

/// What a tick makes of an answer, and what it asks for next.
pub open spec fn tick_after(t: Tick, e: Event) -> (Tick, Step) {
    match t.at {
        At::Entry(at) => entry_after(t, at, e),
        At::Prepare(at) => prepare_after(t, at, e),
        At::Observe(at) => observe_after(t, at, e),
        At::Share(at) => share_after(t, at, e),
        At::Over => end(t, Outcome::Failed),
    }
}

impl Tick {
    /// A tick that has not begun.
    pub fn new(config: Facts) -> (r: Self)
        ensures
            r == fresh_tick(config),
    {
        Tick {
            at: At::Entry(Entry::Start),
            config,
            owned: false,
            worker: no_sight(),
            was_draining: false,
            beaten: false,
            judged: false,
            remote_paused: false,
            allowed: false,
            bound: 0,
            idle: false,
            workloads: None,
            draining_since: None,
            now: 0,
            drained: false,
        }
    }

    /// What a tick makes of an answer, and what it asks for next.
    pub fn next(self, e: Event) -> (r: (Tick, Step))
        ensures
            r == tick_after(self, e),
    {
        match self.at {
            At::Entry(at) => next_entry(self, at, e),
            At::Prepare(at) => next_prepare(self, at, e),
            At::Observe(at) => next_observe(self, at, e),
            At::Share(at) => next_share(self, at, e),
            At::Over => finish(self, Outcome::Failed),
        }
    }
}

/// The worker may share only with every condition at hand: the owner's rules,
/// no pending request, the granted resources, a controller that heard, and no
/// pause from the fleet.
pub open spec fn may_share(t: Tick) -> bool {
    t.judged && !t.config.pending && !resize_pending(t.config) && t.beaten && !t.remote_paused
}

/// A tick goes by its conditions: permission is theirs, and a count is only
/// there for a worker that was counted or does not run.
pub open spec fn sound(t: Tick) -> bool {
    match t.at {
        At::Share(Share::Loaded) => true,
        At::Share(Share::Judged) => true,
        At::Share(Share::Counted) => t.allowed == may_share(t) && t.worker.running
            && t.worker.reachable,
        At::Share(Share::DrainRead) => t.allowed == may_share(t) && (t.worker.running
            && !t.worker.reachable ==> t.workloads is None) && (!t.worker.running ==> t.workloads
            == Some(0usize)),
        At::Share(_) => t.allowed == may_share(t),
        _ => true,
    }
}

/// Every tick is sound from its beginning to its end, and what the worker's
/// next action is decided on permits sharing exactly under every condition.
pub proof fn permission_needs_every_condition(t: Tick, e: Event)
    requires
        sound(t),
    ensures
        sound(tick_after(t, e).0),
        tick_after(t, e).1 matches Step::Decide(input) ==> input.permitted == may_share(t)
            && input.running == t.worker.running && (t.worker.running && !t.worker.reachable
            ==> input.workloads == usize::MAX) && (!t.worker.running ==> input.workloads == 0),
{
    match t.at {
        At::Share(at) => lemma_share(t, at, e),
        _ => lemma_before_sharing(t, e),
    }
}

proof fn lemma_before_sharing(t: Tick, e: Event)
    requires
        !(t.at is Share),
    ensures
        tick_after(t, e).0.at matches At::Share(at) ==> at == Share::Loaded,
        !(tick_after(t, e).1 is Decide),
{
    match t.at {
        At::Entry(at) => lemma_entry(t, at, e),
        At::Prepare(at) => lemma_prepare(t, at, e),
        At::Observe(at) => lemma_observe(t, at, e),
        _ => {},
    }
}

#[verifier::rlimit(60)]
#[verifier::spinoff_prover]
proof fn lemma_entry(t: Tick, at: Entry, e: Event)
    requires
        t.at == At::Entry(at),
    ensures
        !(entry_after(t, at, e).0.at is Share),
        !(entry_after(t, at, e).1 is Decide),
{
}

#[verifier::rlimit(60)]
#[verifier::spinoff_prover]
proof fn lemma_entry_shrinks(t: Tick, at: Entry, e: Event)
    requires
        t.at == At::Entry(at),
    ensures
        remaining(entry_after(t, at, e).0.at) < remaining(t.at),
{
    if at == Entry::Validated || at == Entry::PreparationCleared {
        let cleared = at == Entry::PreparationCleared;
        assert(remaining(validated_after(t, cleared).0.at) < remaining(At::Entry(at)));
    }
}

#[verifier::rlimit(60)]
#[verifier::spinoff_prover]
proof fn lemma_entry_ends(t: Tick, at: Entry, e: Event)
    requires
        t.at == At::Entry(at),
    ensures
        entry_after(t, at, e).1 is Finish <==> entry_after(t, at, e).0.at == At::Over,
{
    if at == Entry::Validated || at == Entry::PreparationCleared {
        let cleared = at == Entry::PreparationCleared;
        assert(validated_after(t, cleared).1 is Finish <==> validated_after(t, cleared).0.at
            == At::Over);
    }
}

#[verifier::rlimit(60)]
#[verifier::spinoff_prover]
proof fn lemma_prepare(t: Tick, at: Prepare, e: Event)
    requires
        t.at == At::Prepare(at),
    ensures
        !(prepare_after(t, at, e).0.at is Share),
        !(prepare_after(t, at, e).1 is Decide),
        remaining(prepare_after(t, at, e).0.at) < remaining(t.at),
        prepare_after(t, at, e).1 is Finish <==> prepare_after(t, at, e).0.at == At::Over,
{
}

#[verifier::rlimit(60)]
#[verifier::spinoff_prover]
proof fn lemma_observe(t: Tick, at: Observe, e: Event)
    requires
        t.at == At::Observe(at),
    ensures
        observe_after(t, at, e).0.at matches At::Share(s) ==> s == Share::Loaded,
        !(observe_after(t, at, e).1 is Decide),
        remaining(observe_after(t, at, e).0.at) < remaining(t.at),
        observe_after(t, at, e).1 is Finish <==> observe_after(t, at, e).0.at == At::Over,
{
}

#[verifier::rlimit(60)]
#[verifier::spinoff_prover]
proof fn lemma_share(t: Tick, at: Share, e: Event)
    requires
        t.at == At::Share(at),
        sound(t),
    ensures
        sound(share_after(t, at, e).0),
        share_after(t, at, e).1 matches Step::Decide(input) ==> input.permitted == may_share(t)
            && input.running == t.worker.running && (t.worker.running && !t.worker.reachable
            ==> input.workloads == usize::MAX) && (!t.worker.running ==> input.workloads == 0),
{
}

/// Whether a tick that shares has yet to act.
spec fn deciding(at: Share) -> bool {
    match at {
        Share::Loaded | Share::Judged | Share::DrainBegun | Share::Counted | Share::DrainRead
        | Share::Decided => true,
        _ => false,
    }
}

/// Whether a tick that shares updates the worker.
spec fn updating_worker(at: Share) -> bool {
    match at {
        Share::UpdateLease | Share::UpdateAsked | Share::UpdatePods | Share::UpdateBound
        | Share::UpdateCounted | Share::UpdateShown | Share::UpdateSwapped | Share::UpdateStopped
        | Share::UpdateNoted => true,
        _ => false,
    }
}

#[verifier::rlimit(60)]
#[verifier::spinoff_prover]
proof fn lemma_deciding_shrinks(t: Tick, at: Share, e: Event)
    requires
        t.at == At::Share(at),
        deciding(at),
    ensures
        remaining(share_after(t, at, e).0.at) < remaining(t.at),
{
}

#[verifier::rlimit(60)]
#[verifier::spinoff_prover]
proof fn lemma_update_shrinks(t: Tick, at: Share, e: Event)
    requires
        t.at == At::Share(at),
        updating_worker(at),
    ensures
        remaining(share_after(t, at, e).0.at) < remaining(t.at),
{
}

#[verifier::rlimit(60)]
#[verifier::spinoff_prover]
proof fn lemma_acting_shrinks(t: Tick, at: Share, e: Event)
    requires
        t.at == At::Share(at),
        !deciding(at) && !updating_worker(at),
    ensures
        remaining(share_after(t, at, e).0.at) < remaining(t.at),
{
}

proof fn lemma_share_shrinks(t: Tick, at: Share, e: Event)
    requires
        t.at == At::Share(at),
    ensures
        remaining(share_after(t, at, e).0.at) < remaining(t.at),
{
    if deciding(at) {
        lemma_deciding_shrinks(t, at, e);
    } else if updating_worker(at) {
        lemma_update_shrinks(t, at, e);
    } else {
        lemma_acting_shrinks(t, at, e);
    }
}

#[verifier::rlimit(60)]
#[verifier::spinoff_prover]
proof fn lemma_share_finishes(t: Tick, at: Share, e: Event)
    requires
        t.at == At::Share(at),
    ensures
        share_after(t, at, e).1 is Finish <==> share_after(t, at, e).0.at == At::Over,
{
}

/// A new tick is sound.
pub proof fn ticks_begin_sound(config: Facts)
    ensures
        sound(fresh_tick(config)),
{
}

/// For an update the worker is stopped only when neither the controller nor the
/// guest counts a workload, twice in a row.
pub proof fn updates_wait_for_idle_workers(t: Tick, e: Event)
    requires
        t.at == At::Share(Share::UpdateSwapped),
    ensures
        tick_after(t, e).1 == Step::Run(VmTask::Stop) <==> t.idle && e == Event::Answer(true),
{
}

/// What counts as idle before an update, and that what was counted is noted
/// before the mark is set.
pub proof fn idle_means_no_workload(t: Tick, n: usize)
    requires
        t.at == At::Share(Share::UpdateCounted),
    ensures
        tick_after(t, Event::Workloads(n)).0.idle == (t.bound == 0 && n == 0),
        tick_after(t, Event::Workloads(n)).1 == Step::Note(Memory::Counted),
        tick_after(tick_after(t, Event::Workloads(n)).0, Event::Done).1 == Step::SwapIdle(
            t.bound == 0 && n == 0,
        ),
{
}

/// An owner's stop request goes before every other routine that a tick could
/// be for.
pub proof fn stop_requests_come_first(t: Tick)
    requires
        t.config.stop_requested,
    ensures
        route_after(t).1 == Step::Finish(Outcome::Go(Routine::ImmediateStop)),
{
}

/// A storage maintenance under way is never passed by: no worker is prepared,
/// started or shared meanwhile.
pub proof fn maintenance_is_not_passed_by(t: Tick)
    requires
        t.config.maintenance,
        !t.config.stop_requested,
    ensures
        route_after(t).1 == Step::Finish(Outcome::Go(Routine::Maintenance)),
{
}

/// A worker is created, resized or started by a tick only behind a storage
/// check of the same tick, or in the sharing part that follows it.
pub open spec fn behind_validation(at: At) -> bool {
    match at {
        At::Prepare(_) => true,
        At::Observe(_) => true,
        At::Share(_) => true,
        At::Entry(Entry::PreparationCleared) => true,
        _ => false,
    }
}

/// A tick gets behind the storage check only when that check succeeded.
pub proof fn workers_need_valid_storage(t: Tick, e: Event)
    requires
        !behind_validation(t.at),
        behind_validation(tick_after(t, e).0.at),
    ensures
        t.at == At::Entry(Entry::Validated),
        e == Event::Done,
{
}

/// Before the storage check, a tick changes nothing of the worker but to stop
/// one whose storage is not valid.
pub proof fn nothing_runs_before_validation(t: Tick, e: Event)
    requires
        !behind_validation(t.at),
    ensures
        tick_after(t, e).1 matches Step::Run(task) ==> task == VmTask::StopNow && t.at
            == At::Entry(Entry::InvalidSeen),
        !(tick_after(t, e).1 is CreateStorageWorker),
{
}

/// How far a tick still is from its end.
pub open spec fn remaining(at: At) -> nat {
    match at {
        At::Over => 0,
        At::Share(s) => match s {
            Share::Loaded => 40,
            Share::Judged => 39,
            Share::UpdateLease => 38,
            Share::UpdateAsked => 37,
            Share::UpdatePods => 36,
            Share::UpdateBound => 35,
            Share::UpdateCounted => 34,
            Share::UpdateShown => 33,
            Share::UpdateSwapped => 32,
            Share::UpdateStopped => 31,
            Share::UpdateNoted => 30,
            Share::DrainBegun => 38,
            Share::Counted => 37,
            Share::DrainRead => 36,
            Share::Decided => 35,
            Share::StartNoted => 34,
            Share::StartTold => 33,
            Share::StartAnnounced => 32,
            Share::StartBootstrapped => 31,
            Share::Started => 30,
            Share::StartConfigured => 29,
            Share::StartDone => 28,
            Share::StartSaved => 27,
            Share::DrainTold => 34,
            Share::DrainAsked => 33,
            Share::DrainHeld => 32,
            Share::DrainLease => 31,
            Share::DrainPods => 30,
            Share::Stopped => 34,
            Share::StopSaved => 33,
            Share::StopNoted => 32,
            Share::ResumeAsked => 34,
            Share::ResumeSaved => 33,
            Share::KeepLease => 32,
            Share::KeepTold => 31,
            Share::WorkloadsNoted => 2,
            Share::LastBeat => 1,
        },
        At::Observe(o) => match o {
            Observe::Loaded => 60,
            Observe::Receipt => 59,
            Observe::Seen => 58,
            Observe::Absent => 58,
            Observe::CopiesCleaned => 57,
            Observe::UpdateNoted => 56,
            Observe::UpdateTold => 55,
            Observe::IncompleteStopped => 56,
            Observe::IncompleteNoted => 55,
            Observe::IncompleteTold => 54,
            Observe::Applied => 56,
            Observe::AppliedLoaded => 55,
            Observe::AppliedBeat => 54,
            Observe::PrepareFirstTold => 56,
            Observe::PrepareFirstBeat => 55,
            Observe::Resized => 56,
            Observe::ResizeSaved => 55,
            Observe::ResizeTold => 54,
            Observe::DrainAsked => 56,
            Observe::DrainBegun => 55,
            Observe::DrainCleared => 55,
            Observe::UpdateWaitTold => 54,
            Observe::BeatLoaded => 53,
            Observe::Beaten => 52,
            Observe::BeatHeld => 51,
        },
        At::Prepare(p) => match p {
            Prepare::Started => 90,
            Prepare::Seen => 89,
            Prepare::Absent => 89,
            Prepare::UnreachableTold => 88,
            Prepare::Told => 88,
            Prepare::PolicyValid => 87,
            Prepare::StoppedToResize => 87,
            Prepare::Sized => 86,
            Prepare::Recorded => 85,
            Prepare::Reloaded => 84,
            Prepare::CanceledSeen => 83,
            Prepare::CanceledStopped => 70,
            Prepare::ExistingSeen => 83,
            Prepare::ExistingStarted => 82,
            Prepare::Rechecked => 81,
            Prepare::StorageReady => 80,
            Prepare::Announced => 79,
            Prepare::Bootstrapped => 78,
            Prepare::Configured => 77,
            Prepare::Saved => 76,
            Prepare::Noted => 75,
        },
        At::Entry(n) => match n {
            Entry::Start => 120,
            Entry::Recovered => 119,
            Entry::Loaded => 118,
            Entry::Noted => 117,
            Entry::ReceiptBeforeUpdate => 116,
            Entry::ReadyNoted => 115,
            Entry::ConnectTold => 114,
            Entry::Resolved => 116,
            Entry::Owned => 115,
            Entry::BackupsCleaned => 114,
            Entry::DisabledTold => 113,
            Entry::DisabledBeat => 112,
            Entry::MissingChecked => 113,
            Entry::Validated => 112,
            Entry::InvalidHeld => 111,
            Entry::InvalidReceipt => 110,
            Entry::InvalidSeen => 109,
            Entry::InvalidStopped => 108,
            Entry::InvalidTold => 107,
            Entry::InvalidBeat => 106,
            Entry::RepairBeat => 111,
            Entry::PreparationCleared => 111,
        },
    }
}

/// Every tick ends: each answer brings it nearer to its end, and only its end
/// finishes it.
pub proof fn ticks_end(t: Tick, e: Event)
    requires
        t.at != At::Over,
    ensures
        remaining(tick_after(t, e).0.at) < remaining(t.at),
        tick_after(t, e).1 is Finish <==> tick_after(t, e).0.at == At::Over,
{
    match t.at {
        At::Entry(at) => {
            lemma_entry_shrinks(t, at, e);
            lemma_entry_ends(t, at, e);
        },
        At::Prepare(at) => lemma_prepare(t, at, e),
        At::Observe(at) => lemma_observe(t, at, e),
        At::Share(at) => {
            lemma_share_shrinks(t, at, e);
            lemma_share_finishes(t, at, e);
        },
        At::Over => {},
    }
}

} // verus!
