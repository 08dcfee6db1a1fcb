//! One step of a storage maintenance, as a machine: the worker is drained, its
//! data backed up and verified, its disks replaced, the data restored and checked.
use crate::agent::steps::{
    expired, has_expired, no_sight, nothing, Archive, Event, Notice, Outcome, PoolTask, Refusal,
    Route, Save, Sight, Step, StorageSave, VmTask,
};
use crate::lima::VmProvider;
use crate::policy::Resources;
use crate::storage_lifecycle::{Kind, Phase};
use crate::store::{Configuration, ConfigurationView};
use vstd::prelude::*;

verus! {

/// A maintenance, as far as its steps decide on it.
#[derive(Clone, Copy, Debug, PartialEq, Eq, Structural)]
pub struct Job {
    pub kind: Kind,
    pub phase: Phase,
    pub provider: VmProvider,
    pub paused: bool,
    /// It stopped with an error.
    pub failed: bool,
    pub sharing: bool,
    pub recovery_enabled: bool,
    pub has_backup: bool,
    pub has_backup_location: bool,
    pub previous: usize,
    pub targets: usize,
    /// What the owner grants the replaced worker.
    pub resources: Resources,
}

pub open spec fn job_of(c: ConfigurationView) -> Option<Job> {
    match c.storage_lifecycle.maintenance {
        None => None,
        Some(op) => Some(
            Job {
                kind: op.review.kind,
                phase: op.phase,
                provider: c.vm_provider,
                paused: op.paused,
                failed: op.error is Some,
                sharing: c.policy.enabled,
                recovery_enabled: c.storage_lifecycle.recovery_enabled,
                has_backup: op.backup is Some,
                has_backup_location: op.review.backup is Some,
                previous: op.previous.len() as usize,
                targets: op.target.len() as usize,
                resources: Resources { disk_gib: op.total_gib, ..c.policy.resources },
            },
        ),
    }
}

/// The maintenance under the settings, as far as its steps decide on it.
pub fn job(config: &Configuration) -> (r: Option<Job>)
    ensures
        r == job_of(config@),
{
    match &config.storage_lifecycle.maintenance {
        None => None,
        Some(op) => Some(
            Job {
                kind: op.review.kind,
                phase: op.phase,
                provider: config.vm_provider,
                paused: op.paused,
                failed: op.error.is_some(),
                sharing: config.policy.enabled,
                recovery_enabled: config.storage_lifecycle.recovery_enabled,
                has_backup: op.backup.is_some(),
                has_backup_location: op.review.backup.is_some(),
                previous: op.previous.len(),
                targets: op.target.len(),
                resources: Resources {
                    cpus: config.policy.resources.cpus,
                    memory_mib: config.policy.resources.memory_mib,
                    disk_gib: op.total_gib,
                },
            },
        ),
    }
}

/// Whether the whole VM is replaced, and not only its disks.
pub open spec fn whole_vm(j: Job) -> bool {
    j.provider == VmProvider::Multipass || j.kind != Kind::ResizeRemove
}

/// Whether the whole VM is replaced, and not only its disks.
pub fn replaces_vm(j: Job) -> (r: bool)
    ensures
        r == whole_vm(j),
{
    j.provider == VmProvider::Multipass || j.kind != Kind::ResizeRemove
}

/// Whether the data outlives the disks.
pub open spec fn needs_backup(j: Job) -> bool {
    j.kind == Kind::ResizeRemove
}

/// Whether the data outlives the disks.
pub fn backs_up(j: Job) -> (r: bool)
    ensures
        r == needs_backup(j),
{
    j.kind == Kind::ResizeRemove
}

/// Whether the maintenance rests: the owner paused it, an error stopped it, or
/// the owner no longer wants a recovery.
pub open spec fn at_rest(j: Job) -> bool {
    j.paused || j.failed || (j.kind == Kind::FailureRecovery && (!j.sharing
        || !j.recovery_enabled))
}

/// Whether the maintenance rests: the owner paused it, an error stopped it, or
/// the owner no longer wants a recovery.
pub fn rests(j: Job) -> (r: bool)
    ensures
        r == at_rest(j),
{
    j.paused || j.failed || (j.kind == Kind::FailureRecovery && (!j.sharing
        || !j.recovery_enabled))
}

/// Where a step of a maintenance stands.
#[derive(Clone, Copy, Debug, PartialEq, Eq, Structural)]
pub enum Work {
    Start,
    RestReceipt,
    RestSeen,
    RestStopped,
    RestTold,
    RestBeat,
    Seen,
    Told,
    Beaten,
    Failing,
    FailureSaved,
    FailureReceipt,
    FailureSeen,
    FailureStopped,
    DrainReceipt,
    DrainAsked,
    DrainBegun,
    DrainLease,
    DrainCounted,
    DrainLoaded,
    DrainStarted,
    DrainGuest,
    DrainStopped,
    DrainCleared,
    BackupStarted,
    BackupGuest,
    BackupSized,
    BackupMade,
    BackupSaved,
    BackupOpened,
    BackupTruncated,
    BackupStreamed,
    BackupSummed,
    BackupChecked,
    BackupDone,
    RetireVerified,
    RetireStarted,
    RetireGuest,
    Retired,
    RetireSeen,
    RetireStopped,
    ResetVerified,
    ResetAsked,
    DeleteVerified,
    DeleteSpace,
    Removed,
    PreviousSaved,
    DiskSeen,
    DiskRemoved,
    DiskSaved,
    CreateVerified,
    DiskCreated,
    StorageConfigured,
    CreateStarted,
    CreateGuest,
    PoolApplied,
    WorkerMade,
    RestoreVerified,
    RestoreStarted,
    Restored,
    VerifyStarted,
    VerifyVerified,
    VerifyStreamed,
    PoolRestored,
    PoolRead,
    PoolChecked,
    BootstrapStarted,
    Quiesced,
    CredentialsReset,
    Bootstrapped,
    Configured,
    CapacityStarted,
    CapacityLease,
    CapacityKnown,
    CapacityStopped,
    Finished,
    BackupsCleaned,
    EndTold,
    PhaseSaved,
    Over,
}

/// A step of a maintenance under way.
#[derive(Clone, Copy, Debug, PartialEq, Eq, Structural)]
pub struct Maintaining {
    pub at: Work,
    pub job: Option<Job>,
    pub worker: Sight,
    /// Whether the backup was verified in this step.
    pub verified: bool,
    /// The disk that is next.
    pub disk: usize,
}

/// The step is over.
pub open spec fn work_end(m: Maintaining, outcome: Outcome) -> (Maintaining, Step) {
    (Maintaining { at: Work::Over, ..m }, Step::Finish(outcome))
}

/// The step is over.
fn do_work_end(m: Maintaining, outcome: Outcome) -> (r: (Maintaining, Step))
    ensures
        r == work_end(m, outcome),
{
    (Maintaining { at: Work::Over, ..m }, Step::Finish(outcome))
}

/// The step is refused, which stops the maintenance.
pub open spec fn work_hold(m: Maintaining, refusal: Refusal) -> (Maintaining, Step) {
    (Maintaining { at: Work::Failing, ..m }, Step::HoldRefusal(refusal))
}

/// The step is refused, which stops the maintenance.
fn do_work_hold(m: Maintaining, refusal: Refusal) -> (r: (Maintaining, Step))
    ensures
        r == work_hold(m, refusal),
{
    (Maintaining { at: Work::Failing, ..m }, Step::HoldRefusal(refusal))
}

/// The step failed, which stops the maintenance.
pub open spec fn work_failed(m: Maintaining) -> (Maintaining, Step) {
    (Maintaining { at: Work::Failing, ..m }, Step::Hold)
}

/// The step failed, which stops the maintenance.
fn do_work_failed(m: Maintaining) -> (r: (Maintaining, Step))
    ensures
        r == work_failed(m),
{
    (Maintaining { at: Work::Failing, ..m }, Step::Hold)
}

/// The phase is done; the next tick goes on with the following one.
pub open spec fn phase_saved(m: Maintaining, phase: Phase) -> (Maintaining, Step) {
    (Maintaining { at: Work::PhaseSaved, ..m }, Step::SaveStorage(StorageSave::MaintenancePhase(phase)))
}

/// The phase is done; the next tick goes on with the following one.
fn do_phase_saved(m: Maintaining, phase: Phase) -> (r: (Maintaining, Step))
    ensures
        r == phase_saved(m, phase),
{
    (Maintaining { at: Work::PhaseSaved, ..m }, Step::SaveStorage(StorageSave::MaintenancePhase(phase)))
}

/// A step that needs the worker to run: it is started where it does not.
pub open spec fn started_then(m: Maintaining, started: Work, then: Work, step: Step) -> (Maintaining, Step) {
    if m.worker.running {
        (Maintaining { at: then, ..m }, step)
    } else {
        (Maintaining { at: started, ..m }, Step::Run(VmTask::Start))
    }
}

/// A step that needs the worker to run: it is started where it does not.
fn do_started_then(m: Maintaining, started: Work, then: Work, step: Step) -> (r: (Maintaining, Step))
    ensures
        r == started_then(m, started, then, step),
{
    if m.worker.running {
        (Maintaining { at: then, ..m }, step)
    } else {
        (Maintaining { at: started, ..m }, Step::Run(VmTask::Start))
    }
}

/// A step that needs the verified backup.
pub open spec fn verify_first(m: Maintaining, j: Job, at: Work) -> (Maintaining, Step) {
    if j.has_backup {
        (Maintaining { at, ..m }, Step::VerifyBackup)
    } else {
        work_hold(m, Refusal::NoVerifiedBackup)
    }
}

/// A step that needs the verified backup.
fn do_verify_first(m: Maintaining, j: Job, at: Work) -> (r: (Maintaining, Step))
    ensures
        r == verify_first(m, j, at),
{
    if j.has_backup {
        (Maintaining { at, ..m }, Step::VerifyBackup)
    } else {
        do_work_hold(m, Refusal::NoVerifiedBackup)
    }
}

/// The worker is drained: its guest is prepared for the backup, or it stops.
pub open spec fn drained_after(m: Maintaining, j: Job) -> (Maintaining, Step) {
    if needs_backup(j) {
        started_then(m, Work::DrainStarted, Work::DrainGuest, Step::Run(VmTask::PrepareStorage))
    } else if m.worker.running {
        (Maintaining { at: Work::DrainStopped, ..m }, Step::Run(VmTask::StopNow))
    } else {
        (Maintaining { at: Work::DrainCleared, ..m }, Step::Save(Save::ClearDrain))
    }
}

/// The worker is drained: its guest is prepared for the backup, or it stops.
fn do_drained_after(m: Maintaining, j: Job) -> (r: (Maintaining, Step))
    ensures
        r == drained_after(m, j),
{
    if backs_up(j) {
        do_started_then(m, Work::DrainStarted, Work::DrainGuest, Step::Run(VmTask::PrepareStorage))
    } else if m.worker.running {
        (Maintaining { at: Work::DrainStopped, ..m }, Step::Run(VmTask::StopNow))
    } else {
        (Maintaining { at: Work::DrainCleared, ..m }, Step::Save(Save::ClearDrain))
    }
}

/// The old pool is retired before its disks go.
pub open spec fn retire_after(m: Maintaining, j: Job) -> (Maintaining, Step) {
    if whole_vm(j) {
        (Maintaining { at: Work::RetireSeen, ..m }, Step::Look)
    } else {
        started_then(m, Work::RetireStarted, Work::RetireGuest, Step::Run(VmTask::PrepareStorage))
    }
}

/// The old pool is retired before its disks go.
fn do_retire_after(m: Maintaining, j: Job) -> (r: (Maintaining, Step))
    ensures
        r == retire_after(m, j),
{
    if replaces_vm(j) {
        (Maintaining { at: Work::RetireSeen, ..m }, Step::Look)
    } else {
        do_started_then(m, Work::RetireStarted, Work::RetireGuest, Step::Run(VmTask::PrepareStorage))
    }
}

/// The VM goes, or only the disks are detached.
pub open spec fn dismantle_after(m: Maintaining, j: Job) -> (Maintaining, Step) {
    if whole_vm(j) {
        (Maintaining { at: Work::Removed, ..m }, Step::Run(VmTask::Remove))
    } else {
        (Maintaining { at: Work::Removed, ..m }, Step::DetachDisks)
    }
}

/// The VM goes, or only the disks are detached.
fn do_dismantle_after(m: Maintaining, j: Job) -> (r: (Maintaining, Step))
    ensures
        r == dismantle_after(m, j),
{
    if replaces_vm(j) {
        (Maintaining { at: Work::Removed, ..m }, Step::Run(VmTask::Remove))
    } else {
        (Maintaining { at: Work::Removed, ..m }, Step::DetachDisks)
    }
}

/// The next of the previous disks, or the next phase.
pub open spec fn delete_next(m: Maintaining, j: Job) -> (Maintaining, Step) {
    if m.disk < j.previous {
        (Maintaining { at: Work::DiskSeen, ..m }, Step::DiskPresent(m.disk))
    } else if j.kind == Kind::DeleteAll {
        phase_saved(m, Phase::Cleanup)
    } else {
        phase_saved(m, Phase::Create)
    }
}

/// The next of the previous disks, or the next phase.
fn do_delete_next(m: Maintaining, j: Job) -> (r: (Maintaining, Step))
    ensures
        r == delete_next(m, j),
{
    if m.disk < j.previous {
        (Maintaining { at: Work::DiskSeen, ..m }, Step::DiskPresent(m.disk))
    } else if j.kind == Kind::DeleteAll {
        do_phase_saved(m, Phase::Cleanup)
    } else {
        do_phase_saved(m, Phase::Create)
    }
}

/// The replacement is there.
pub open spec fn created_after(m: Maintaining, j: Job) -> (Maintaining, Step) {
    if needs_backup(j) {
        phase_saved(m, Phase::Restore)
    } else {
        phase_saved(m, Phase::Verify)
    }
}

/// The replacement is there.
fn do_created_after(m: Maintaining, j: Job) -> (r: (Maintaining, Step))
    ensures
        r == created_after(m, j),
{
    if backs_up(j) {
        do_phase_saved(m, Phase::Restore)
    } else {
        do_phase_saved(m, Phase::Verify)
    }
}

/// The next of the new disks, or the worker on them.
pub open spec fn create_next(m: Maintaining, j: Job) -> (Maintaining, Step) {
    if m.disk < j.targets {
        (Maintaining { at: Work::DiskCreated, ..m }, Step::CreateDisk(m.disk))
    } else if m.worker.installed {
        (Maintaining { at: Work::StorageConfigured, ..m }, Step::ConfigureStorage)
    } else {
        (Maintaining { at: Work::CreateStarted, ..m }, Step::CreateWithStorage)
    }
}

/// The next of the new disks, or the worker on them.
fn do_create_next(m: Maintaining, j: Job) -> (r: (Maintaining, Step))
    ensures
        r == create_next(m, j),
{
    if m.disk < j.targets {
        (Maintaining { at: Work::DiskCreated, ..m }, Step::CreateDisk(m.disk))
    } else if m.worker.installed {
        (Maintaining { at: Work::StorageConfigured, ..m }, Step::ConfigureStorage)
    } else {
        (Maintaining { at: Work::CreateStarted, ..m }, Step::CreateWithStorage)
    }
}

/// The replacement is made: on new disks, or with a new single disk.
pub open spec fn placed_after(m: Maintaining, j: Job) -> (Maintaining, Step) {
    if j.provider == VmProvider::Lima {
        if m.worker.running {
            (Maintaining { at: Work::CreateGuest, ..m }, Step::Run(VmTask::PrepareStorage))
        } else {
            create_next(Maintaining { disk: 0, ..m }, j)
        }
    } else if !m.worker.installed {
        (Maintaining { at: Work::WorkerMade, ..m }, Step::Run(VmTask::Create(j.resources)))
    } else if !m.worker.running {
        (Maintaining { at: Work::WorkerMade, ..m }, Step::Run(VmTask::Start))
    } else {
        created_after(m, j)
    }
}

/// The replacement is made: on new disks, or with a new single disk.
fn do_placed_after(m: Maintaining, j: Job) -> (r: (Maintaining, Step))
    ensures
        r == placed_after(m, j),
{
    if j.provider == VmProvider::Lima {
        if m.worker.running {
            (Maintaining { at: Work::CreateGuest, ..m }, Step::Run(VmTask::PrepareStorage))
        } else {
            do_create_next(Maintaining { disk: 0, ..m }, j)
        }
    } else if !m.worker.installed {
        (Maintaining { at: Work::WorkerMade, ..m }, Step::Run(VmTask::Create(j.resources)))
    } else if !m.worker.running {
        (Maintaining { at: Work::WorkerMade, ..m }, Step::Run(VmTask::Start))
    } else {
        do_created_after(m, j)
    }
}

/// The data is verified; a pool is checked too.
pub open spec fn streamed_after(m: Maintaining, j: Job) -> (Maintaining, Step) {
    if j.provider == VmProvider::Lima {
        (Maintaining { at: Work::PoolRestored, ..m }, Step::Pool(PoolTask::Restored))
    } else {
        phase_saved(m, Phase::Bootstrap)
    }
}

/// The data is verified; a pool is checked too.
fn do_streamed_after(m: Maintaining, j: Job) -> (r: (Maintaining, Step))
    ensures
        r == streamed_after(m, j),
{
    if j.provider == VmProvider::Lima {
        (Maintaining { at: Work::PoolRestored, ..m }, Step::Pool(PoolTask::Restored))
    } else {
        do_phase_saved(m, Phase::Bootstrap)
    }
}

/// What a phase begins with.
pub open spec fn phase_begin(m: Maintaining, j: Job) -> (Maintaining, Step) {
    match j.phase {
        Phase::Drain => (Maintaining { at: Work::DrainReceipt, ..m }, Step::Receipt),
        Phase::Backup => started_then(
            m,
            Work::BackupStarted,
            Work::BackupGuest,
            Step::Run(VmTask::PrepareStorage),
        ),
        Phase::BackupVerified => verify_first(m, j, Work::RetireVerified),
        Phase::Reset => if m.worker.running {
            work_hold(m, Refusal::ResetNeedsStop)
        } else if needs_backup(j) {
            verify_first(m, j, Work::ResetVerified)
        } else {
            (Maintaining { at: Work::ResetAsked, ..m }, Step::Ask(Route::Reset))
        },
        Phase::Delete => if m.worker.running {
            work_hold(m, Refusal::DeleteNeedsStop)
        } else if needs_backup(j) {
            verify_first(m, j, Work::DeleteVerified)
        } else {
            dismantle_after(m, j)
        },
        Phase::Create => if needs_backup(j) {
            verify_first(m, j, Work::CreateVerified)
        } else {
            placed_after(m, j)
        },
        Phase::Restore => verify_first(m, j, Work::RestoreVerified),
        Phase::Verify => if !m.worker.running {
            (Maintaining { at: Work::VerifyStarted, ..m }, Step::Run(VmTask::Start))
        } else if needs_backup(j) {
            verify_first(m, j, Work::VerifyVerified)
        } else {
            streamed_after(m, j)
        },
        Phase::Bootstrap => if !m.worker.running {
            (Maintaining { at: Work::BootstrapStarted, ..m }, Step::Run(VmTask::Start))
        } else if j.provider == VmProvider::Multipass {
            (Maintaining { at: Work::Quiesced, ..m }, Step::Run(VmTask::QuiesceStorage))
        } else {
            (Maintaining { at: Work::Bootstrapped, ..m }, Step::Ask(Route::Bootstrap))
        },
        Phase::Capacity => started_then(
            m,
            Work::CapacityStarted,
            Work::CapacityLease,
            Step::Run(VmTask::RenewLease),
        ),
        Phase::Cleanup => if m.worker.running {
            work_hold(m, Refusal::CleanupNeedsStop)
        } else {
            (Maintaining { at: Work::Finished, ..m }, Step::SaveStorage(StorageSave::MaintenanceFinished))
        },
    }
}

/// What a phase begins with.
fn do_phase_begin(m: Maintaining, j: Job) -> (r: (Maintaining, Step))
    ensures
        r == phase_begin(m, j),
{
    match j.phase {
        Phase::Drain => (Maintaining { at: Work::DrainReceipt, ..m }, Step::Receipt),
        Phase::Backup => do_started_then(
            m,
            Work::BackupStarted,
            Work::BackupGuest,
            Step::Run(VmTask::PrepareStorage),
        ),
        Phase::BackupVerified => do_verify_first(m, j, Work::RetireVerified),
        Phase::Reset => if m.worker.running {
            do_work_hold(m, Refusal::ResetNeedsStop)
        } else if backs_up(j) {
            do_verify_first(m, j, Work::ResetVerified)
        } else {
            (Maintaining { at: Work::ResetAsked, ..m }, Step::Ask(Route::Reset))
        },
        Phase::Delete => if m.worker.running {
            do_work_hold(m, Refusal::DeleteNeedsStop)
        } else if backs_up(j) {
            do_verify_first(m, j, Work::DeleteVerified)
        } else {
            do_dismantle_after(m, j)
        },
        Phase::Create => if backs_up(j) {
            do_verify_first(m, j, Work::CreateVerified)
        } else {
            do_placed_after(m, j)
        },
        Phase::Restore => do_verify_first(m, j, Work::RestoreVerified),
        Phase::Verify => if !m.worker.running {
            (Maintaining { at: Work::VerifyStarted, ..m }, Step::Run(VmTask::Start))
        } else if backs_up(j) {
            do_verify_first(m, j, Work::VerifyVerified)
        } else {
            do_streamed_after(m, j)
        },
        Phase::Bootstrap => if !m.worker.running {
            (Maintaining { at: Work::BootstrapStarted, ..m }, Step::Run(VmTask::Start))
        } else if j.provider == VmProvider::Multipass {
            (Maintaining { at: Work::Quiesced, ..m }, Step::Run(VmTask::QuiesceStorage))
        } else {
            (Maintaining { at: Work::Bootstrapped, ..m }, Step::Ask(Route::Bootstrap))
        },
        Phase::Capacity => do_started_then(
            m,
            Work::CapacityStarted,
            Work::CapacityLease,
            Step::Run(VmTask::RenewLease),
        ),
        Phase::Cleanup => if m.worker.running {
            do_work_hold(m, Refusal::CleanupNeedsStop)
        } else {
            (Maintaining { at: Work::Finished, ..m }, Step::SaveStorage(StorageSave::MaintenanceFinished))
        },
    }
}

/// A maintenance that rests keeps the worker stopped: local controls remain
/// effective when the controller is down. One that fails records why.
pub open spec fn rest_after(m: Maintaining, j: Job, e: Event) -> (Maintaining, Step) {
    match (m.at, e) {
        (Work::Start, Event::Begin) => if at_rest(j) {
            (Maintaining { at: Work::RestReceipt, ..m }, Step::Receipt)
        } else {
            (Maintaining { at: Work::Seen, ..m }, Step::Inspect)
        },
        (Work::RestReceipt, Event::Answer(receipt)) => if receipt {
            (Maintaining { at: Work::RestSeen, ..m }, Step::Look)
        } else if j.failed {
            (Maintaining { at: Work::RestTold, ..m }, Step::TellMaintenanceError)
        } else {
            (Maintaining { at: Work::RestTold, ..m }, Step::Tell(Notice::MaintenancePaused))
        },
        (Work::RestSeen, Event::Worker(w)) => if w.running {
            (Maintaining { at: Work::RestStopped, ..m }, Step::Run(VmTask::StopNow))
        } else if j.failed {
            (Maintaining { at: Work::RestTold, ..m }, Step::TellMaintenanceError)
        } else {
            (Maintaining { at: Work::RestTold, ..m }, Step::Tell(Notice::MaintenancePaused))
        },
        (Work::RestStopped, Event::Done) => if j.failed {
            (Maintaining { at: Work::RestTold, ..m }, Step::TellMaintenanceError)
        } else {
            (Maintaining { at: Work::RestTold, ..m }, Step::Tell(Notice::MaintenancePaused))
        },
        (Work::RestTold, Event::Done) => (Maintaining { at: Work::RestBeat, ..m }, Step::Heartbeat),
        (Work::RestBeat, _) => work_end(m, Outcome::Done),
        (Work::Failing, Event::Done) => {
            (Maintaining { at: Work::FailureSaved, ..m }, Step::SaveStorage(StorageSave::MaintenanceFailed))
        },
        (Work::FailureSaved, Event::Done) => (
            Maintaining { at: Work::FailureReceipt, ..m },
            Step::Receipt,
        ),
        (Work::FailureReceipt, Event::Answer(receipt)) => if receipt {
            (Maintaining { at: Work::FailureSeen, ..m }, Step::Look)
        } else {
            work_end(m, Outcome::Held)
        },
        (Work::FailureSeen, Event::Worker(w)) => if w.running {
            (Maintaining { at: Work::FailureStopped, ..m }, Step::Run(VmTask::StopNow))
        } else {
            work_end(m, Outcome::Held)
        },
        (Work::FailureStopped, Event::Done) => work_end(m, Outcome::Held),
        _ => work_end(m, Outcome::Failed),
    }
}

/// A maintenance that rests keeps the worker stopped: local controls remain
/// effective when the controller is down. One that fails records why.
fn do_rest_after(m: Maintaining, j: Job, e: Event) -> (r: (Maintaining, Step))
    ensures
        r == rest_after(m, j, e),
{
    match (m.at, e) {
        (Work::Start, Event::Begin) => if rests(j) {
            (Maintaining { at: Work::RestReceipt, ..m }, Step::Receipt)
        } else {
            (Maintaining { at: Work::Seen, ..m }, Step::Inspect)
        },
        (Work::RestReceipt, Event::Answer(receipt)) => if receipt {
            (Maintaining { at: Work::RestSeen, ..m }, Step::Look)
        } else if j.failed {
            (Maintaining { at: Work::RestTold, ..m }, Step::TellMaintenanceError)
        } else {
            (Maintaining { at: Work::RestTold, ..m }, Step::Tell(Notice::MaintenancePaused))
        },
        (Work::RestSeen, Event::Worker(w)) => if w.running {
            (Maintaining { at: Work::RestStopped, ..m }, Step::Run(VmTask::StopNow))
        } else if j.failed {
            (Maintaining { at: Work::RestTold, ..m }, Step::TellMaintenanceError)
        } else {
            (Maintaining { at: Work::RestTold, ..m }, Step::Tell(Notice::MaintenancePaused))
        },
        (Work::RestStopped, Event::Done) => if j.failed {
            (Maintaining { at: Work::RestTold, ..m }, Step::TellMaintenanceError)
        } else {
            (Maintaining { at: Work::RestTold, ..m }, Step::Tell(Notice::MaintenancePaused))
        },
        (Work::RestTold, Event::Done) => (Maintaining { at: Work::RestBeat, ..m }, Step::Heartbeat),
        (Work::RestBeat, _) => do_work_end(m, Outcome::Done),
        (Work::Failing, Event::Done) => {
            (Maintaining { at: Work::FailureSaved, ..m }, Step::SaveStorage(StorageSave::MaintenanceFailed))
        },
        (Work::FailureSaved, Event::Done) => (
            Maintaining { at: Work::FailureReceipt, ..m },
            Step::Receipt,
        ),
        (Work::FailureReceipt, Event::Answer(receipt)) => if receipt {
            (Maintaining { at: Work::FailureSeen, ..m }, Step::Look)
        } else {
            do_work_end(m, Outcome::Held)
        },
        (Work::FailureSeen, Event::Worker(w)) => if w.running {
            (Maintaining { at: Work::FailureStopped, ..m }, Step::Run(VmTask::StopNow))
        } else {
            do_work_end(m, Outcome::Held)
        },
        (Work::FailureStopped, Event::Done) => do_work_end(m, Outcome::Held),
        _ => do_work_end(m, Outcome::Failed),
    }
}

/// The beginning of every step, and the drain: running work is waited for until
/// its grace period is over.
pub open spec fn drain_phase(m: Maintaining, j: Job, e: Event) -> (Maintaining, Step) {
    match (m.at, e) {
        (Work::Seen, Event::Worker(w)) => {
            (
                Maintaining { at: Work::Told, worker: w, ..m },
                Step::Tell(Notice::AtPhase(j.phase)),
            )
        },
        (Work::Told, Event::Done) => (Maintaining { at: Work::Beaten, ..m }, Step::Heartbeat),
        (Work::Beaten, Event::Done) => phase_begin(m, j),
        (Work::DrainReceipt, Event::Answer(receipt)) => if receipt || !m.worker.installed {
            (Maintaining { at: Work::DrainAsked, ..m }, Step::Ask(Route::Drain))
        } else {
            work_hold(m, Refusal::NoReceipt)
        },
        (Work::DrainAsked, Event::Done) => (
            Maintaining { at: Work::DrainBegun, ..m },
            Step::Save(Save::BeginDrain),
        ),
        (Work::DrainBegun, Event::Settings(_)) => if !m.worker.running {
            drained_after(m, j)
        } else if m.worker.reachable {
            (Maintaining { at: Work::DrainLease, ..m }, Step::Run(VmTask::RenewLease))
        } else {
            work_hold(m, Refusal::UninspectedMaintenance)
        },
        (Work::DrainLease, Event::Done) => (
            Maintaining { at: Work::DrainCounted, ..m },
            Step::CountReplied,
        ),
        (Work::DrainCounted, Event::Workloads(n)) => if n == 0 {
            drained_after(m, j)
        } else {
            (Maintaining { at: Work::DrainLoaded, ..m }, Step::Load)
        },
        (Work::DrainLoaded, Event::Settings(f)) => if expired(f) {
            drained_after(m, j)
        } else {
            work_end(m, Outcome::Done)
        },
        (Work::DrainStarted, Event::Done) => {
            (Maintaining { at: Work::DrainGuest, ..m }, Step::Run(VmTask::PrepareStorage))
        },
        (Work::DrainGuest, Event::Done) => (
            Maintaining { at: Work::DrainCleared, ..m },
            Step::Save(Save::ClearDrain),
        ),
        (Work::DrainStopped, Event::Done) => (
            Maintaining { at: Work::DrainCleared, ..m },
            Step::Save(Save::ClearDrain),
        ),
        (Work::DrainCleared, Event::Settings(_)) => if needs_backup(j) {
            phase_saved(m, Phase::Backup)
        } else {
            phase_saved(m, Phase::Reset)
        },
        (Work::PhaseSaved, Event::Done) => work_end(m, Outcome::Done),
        _ => work_failed(m),
    }
}

/// The beginning of every step, and the drain: running work is waited for until
/// its grace period is over.
fn do_drain_phase(m: Maintaining, j: Job, e: Event) -> (r: (Maintaining, Step))
    ensures
        r == drain_phase(m, j, e),
{
    match (m.at, e) {
        (Work::Seen, Event::Worker(w)) => {
            (
                Maintaining { at: Work::Told, worker: w, ..m },
                Step::Tell(Notice::AtPhase(j.phase)),
            )
        },
        (Work::Told, Event::Done) => (Maintaining { at: Work::Beaten, ..m }, Step::Heartbeat),
        (Work::Beaten, Event::Done) => do_phase_begin(m, j),
        (Work::DrainReceipt, Event::Answer(receipt)) => if receipt || !m.worker.installed {
            (Maintaining { at: Work::DrainAsked, ..m }, Step::Ask(Route::Drain))
        } else {
            do_work_hold(m, Refusal::NoReceipt)
        },
        (Work::DrainAsked, Event::Done) => (
            Maintaining { at: Work::DrainBegun, ..m },
            Step::Save(Save::BeginDrain),
        ),
        (Work::DrainBegun, Event::Settings(_)) => if !m.worker.running {
            do_drained_after(m, j)
        } else if m.worker.reachable {
            (Maintaining { at: Work::DrainLease, ..m }, Step::Run(VmTask::RenewLease))
        } else {
            do_work_hold(m, Refusal::UninspectedMaintenance)
        },
        (Work::DrainLease, Event::Done) => (
            Maintaining { at: Work::DrainCounted, ..m },
            Step::CountReplied,
        ),
        (Work::DrainCounted, Event::Workloads(n)) => if n == 0 {
            do_drained_after(m, j)
        } else {
            (Maintaining { at: Work::DrainLoaded, ..m }, Step::Load)
        },
        (Work::DrainLoaded, Event::Settings(f)) => if has_expired(f) {
            do_drained_after(m, j)
        } else {
            do_work_end(m, Outcome::Done)
        },
        (Work::DrainStarted, Event::Done) => {
            (Maintaining { at: Work::DrainGuest, ..m }, Step::Run(VmTask::PrepareStorage))
        },
        (Work::DrainGuest, Event::Done) => (
            Maintaining { at: Work::DrainCleared, ..m },
            Step::Save(Save::ClearDrain),
        ),
        (Work::DrainStopped, Event::Done) => (
            Maintaining { at: Work::DrainCleared, ..m },
            Step::Save(Save::ClearDrain),
        ),
        (Work::DrainCleared, Event::Settings(_)) => if backs_up(j) {
            do_phase_saved(m, Phase::Backup)
        } else {
            do_phase_saved(m, Phase::Reset)
        },
        (Work::PhaseSaved, Event::Done) => do_work_end(m, Outcome::Done),
        _ => do_work_failed(m),
    }
}

/// The backup: the data is streamed out, summed and read back, and only then the
/// old pool is retired.
pub open spec fn backup_phase(m: Maintaining, j: Job, e: Event) -> (Maintaining, Step) {
    match (m.at, e) {
        (Work::BackupStarted, Event::Done) => {
            (Maintaining { at: Work::BackupGuest, ..m }, Step::Run(VmTask::PrepareStorage))
        },
        (Work::BackupGuest, Event::Done) => (
            Maintaining { at: Work::BackupSized, ..m },
            Step::CheckCapacity,
        ),
        (Work::BackupSized, Event::Done) => if j.has_backup {
            (Maintaining { at: Work::BackupOpened, ..m }, Step::OpenBackup)
        } else if j.has_backup_location {
            (Maintaining { at: Work::BackupMade, ..m }, Step::MakeBackupFile)
        } else {
            work_hold(m, Refusal::NoBackupLocation)
        },
        (Work::BackupMade, Event::Done) => {
            (Maintaining { at: Work::BackupSaved, ..m }, Step::SaveStorage(StorageSave::BackupMade))
        },
        (Work::BackupSaved, Event::Done) => (
            Maintaining { at: Work::BackupOpened, ..m },
            Step::OpenBackup,
        ),
        (Work::BackupOpened, Event::Done) => (
            Maintaining { at: Work::BackupTruncated, ..m },
            Step::TruncateBackup,
        ),
        (Work::BackupTruncated, Event::Done) => {
            (Maintaining { at: Work::BackupStreamed, ..m }, Step::Stream(Archive::Backup))
        },
        (Work::BackupStreamed, Event::Done) => (
            Maintaining { at: Work::BackupSummed, ..m },
            Step::ChecksumBackup,
        ),
        (Work::BackupSummed, Event::Done) => {
            (Maintaining { at: Work::BackupChecked, ..m }, Step::Stream(Archive::Verify))
        },
        (Work::BackupChecked, Event::Done) => {
            (Maintaining { at: Work::BackupDone, ..m }, Step::SaveStorage(StorageSave::BackupVerified))
        },
        (Work::BackupDone, Event::Done) => work_end(m, Outcome::Done),
        (Work::RetireVerified, Event::Done) => retire_after(Maintaining { verified: true, ..m }, j),
        (Work::RetireStarted, Event::Done) => {
            (Maintaining { at: Work::RetireGuest, ..m }, Step::Run(VmTask::PrepareStorage))
        },
        (Work::RetireGuest, Event::Done) => (
            Maintaining { at: Work::Retired, ..m },
            Step::Pool(PoolTask::Retire),
        ),
        (Work::Retired, Event::Done) => (Maintaining { at: Work::RetireSeen, ..m }, Step::Look),
        (Work::RetireSeen, Event::Worker(w)) => if w.running {
            (Maintaining { at: Work::RetireStopped, ..m }, Step::Run(VmTask::Stop))
        } else if whole_vm(j) {
            phase_saved(m, Phase::Reset)
        } else {
            phase_saved(m, Phase::Delete)
        },
        (Work::RetireStopped, Event::Done) => if whole_vm(j) {
            phase_saved(m, Phase::Reset)
        } else {
            phase_saved(m, Phase::Delete)
        },
        _ => work_failed(m),
    }
}

/// The backup: the data is streamed out, summed and read back, and only then the
/// old pool is retired.
fn do_backup_phase(m: Maintaining, j: Job, e: Event) -> (r: (Maintaining, Step))
    ensures
        r == backup_phase(m, j, e),
{
    match (m.at, e) {
        (Work::BackupStarted, Event::Done) => {
            (Maintaining { at: Work::BackupGuest, ..m }, Step::Run(VmTask::PrepareStorage))
        },
        (Work::BackupGuest, Event::Done) => (
            Maintaining { at: Work::BackupSized, ..m },
            Step::CheckCapacity,
        ),
        (Work::BackupSized, Event::Done) => if j.has_backup {
            (Maintaining { at: Work::BackupOpened, ..m }, Step::OpenBackup)
        } else if j.has_backup_location {
            (Maintaining { at: Work::BackupMade, ..m }, Step::MakeBackupFile)
        } else {
            do_work_hold(m, Refusal::NoBackupLocation)
        },
        (Work::BackupMade, Event::Done) => {
            (Maintaining { at: Work::BackupSaved, ..m }, Step::SaveStorage(StorageSave::BackupMade))
        },
        (Work::BackupSaved, Event::Done) => (
            Maintaining { at: Work::BackupOpened, ..m },
            Step::OpenBackup,
        ),
        (Work::BackupOpened, Event::Done) => (
            Maintaining { at: Work::BackupTruncated, ..m },
            Step::TruncateBackup,
        ),
        (Work::BackupTruncated, Event::Done) => {
            (Maintaining { at: Work::BackupStreamed, ..m }, Step::Stream(Archive::Backup))
        },
        (Work::BackupStreamed, Event::Done) => (
            Maintaining { at: Work::BackupSummed, ..m },
            Step::ChecksumBackup,
        ),
        (Work::BackupSummed, Event::Done) => {
            (Maintaining { at: Work::BackupChecked, ..m }, Step::Stream(Archive::Verify))
        },
        (Work::BackupChecked, Event::Done) => {
            (Maintaining { at: Work::BackupDone, ..m }, Step::SaveStorage(StorageSave::BackupVerified))
        },
        (Work::BackupDone, Event::Done) => do_work_end(m, Outcome::Done),
        (Work::RetireVerified, Event::Done) => do_retire_after(
            Maintaining { verified: true, ..m },
            j,
        ),
        (Work::RetireStarted, Event::Done) => {
            (Maintaining { at: Work::RetireGuest, ..m }, Step::Run(VmTask::PrepareStorage))
        },
        (Work::RetireGuest, Event::Done) => (
            Maintaining { at: Work::Retired, ..m },
            Step::Pool(PoolTask::Retire),
        ),
        (Work::Retired, Event::Done) => (Maintaining { at: Work::RetireSeen, ..m }, Step::Look),
        (Work::RetireSeen, Event::Worker(w)) => if w.running {
            (Maintaining { at: Work::RetireStopped, ..m }, Step::Run(VmTask::Stop))
        } else if replaces_vm(j) {
            do_phase_saved(m, Phase::Reset)
        } else {
            do_phase_saved(m, Phase::Delete)
        },
        (Work::RetireStopped, Event::Done) => if replaces_vm(j) {
            do_phase_saved(m, Phase::Reset)
        } else {
            do_phase_saved(m, Phase::Delete)
        },
        _ => do_work_failed(m),
    }
}

/// The previous worker's access goes, then its VM or its disks. A disk that is
/// not there is left for later unless its data was to be kept.
pub open spec fn delete_phase(m: Maintaining, j: Job, e: Event) -> (Maintaining, Step) {
    match (m.at, e) {
        (Work::ResetVerified, Event::Done) => {
            (Maintaining { at: Work::ResetAsked, verified: true, ..m }, Step::Ask(Route::Reset))
        },
        (Work::ResetAsked, Event::Done) => phase_saved(m, Phase::Delete),
        (Work::DeleteVerified, Event::Done) => if j.provider == VmProvider::Multipass
            && m.worker.installed {
            (
                Maintaining { at: Work::DeleteSpace, verified: true, ..m },
                Step::ReplacementSpace,
            )
        } else {
            dismantle_after(Maintaining { verified: true, ..m }, j)
        },
        (Work::DeleteSpace, Event::Done) => dismantle_after(m, j),
        (Work::Removed, Event::Done) => if j.provider == VmProvider::Lima {
            (Maintaining { at: Work::PreviousSaved, ..m }, Step::SaveStorage(StorageSave::PreviousRetired))
        } else if j.kind == Kind::DeleteAll {
            phase_saved(m, Phase::Cleanup)
        } else {
            phase_saved(m, Phase::Create)
        },
        (Work::PreviousSaved, Event::Done) => delete_next(Maintaining { disk: 0, ..m }, j),
        (Work::DiskSeen, Event::Answer(present)) => if !present && j.kind != Kind::ResizeRemove {
            if m.disk < j.previous {
                delete_next(Maintaining { disk: (m.disk + 1) as usize, ..m }, j)
            } else {
                work_failed(m)
            }
        } else {
            (Maintaining { at: Work::DiskRemoved, ..m }, Step::RemoveDisk(m.disk))
        },
        (Work::DiskRemoved, Event::Done) => {
            (Maintaining { at: Work::DiskSaved, ..m }, Step::SaveStorage(StorageSave::DiskRemoved(m.disk)))
        },
        (Work::DiskSaved, Event::Done) => if m.disk < j.previous {
            delete_next(Maintaining { disk: (m.disk + 1) as usize, ..m }, j)
        } else {
            work_failed(m)
        },
        _ => work_failed(m),
    }
}

/// The previous worker's access goes, then its VM or its disks. A disk that is
/// not there is left for later unless its data was to be kept.
fn do_delete_phase(m: Maintaining, j: Job, e: Event) -> (r: (Maintaining, Step))
    ensures
        r == delete_phase(m, j, e),
{
    match (m.at, e) {
        (Work::ResetVerified, Event::Done) => {
            (Maintaining { at: Work::ResetAsked, verified: true, ..m }, Step::Ask(Route::Reset))
        },
        (Work::ResetAsked, Event::Done) => do_phase_saved(m, Phase::Delete),
        (Work::DeleteVerified, Event::Done) => if j.provider == VmProvider::Multipass
            && m.worker.installed {
            (
                Maintaining { at: Work::DeleteSpace, verified: true, ..m },
                Step::ReplacementSpace,
            )
        } else {
            do_dismantle_after(Maintaining { verified: true, ..m }, j)
        },
        (Work::DeleteSpace, Event::Done) => do_dismantle_after(m, j),
        (Work::Removed, Event::Done) => if j.provider == VmProvider::Lima {
            (Maintaining { at: Work::PreviousSaved, ..m }, Step::SaveStorage(StorageSave::PreviousRetired))
        } else if j.kind == Kind::DeleteAll {
            do_phase_saved(m, Phase::Cleanup)
        } else {
            do_phase_saved(m, Phase::Create)
        },
        (Work::PreviousSaved, Event::Done) => do_delete_next(Maintaining { disk: 0, ..m }, j),
        (Work::DiskSeen, Event::Answer(present)) => if !present && j.kind != Kind::ResizeRemove {
            if m.disk < j.previous {
                do_delete_next(Maintaining { disk: (m.disk + 1) as usize, ..m }, j)
            } else {
                do_work_failed(m)
            }
        } else {
            (Maintaining { at: Work::DiskRemoved, ..m }, Step::RemoveDisk(m.disk))
        },
        (Work::DiskRemoved, Event::Done) => {
            (Maintaining { at: Work::DiskSaved, ..m }, Step::SaveStorage(StorageSave::DiskRemoved(m.disk)))
        },
        (Work::DiskSaved, Event::Done) => if m.disk < j.previous {
            do_delete_next(Maintaining { disk: (m.disk + 1) as usize, ..m }, j)
        } else {
            do_work_failed(m)
        },
        _ => do_work_failed(m),
    }
}

/// The new disks and the worker on them, and the data back on it.
pub open spec fn create_phase(m: Maintaining, j: Job, e: Event) -> (Maintaining, Step) {
    match (m.at, e) {
        (Work::CreateVerified, Event::Done) => placed_after(Maintaining { verified: true, ..m }, j),
        (Work::DiskCreated, Event::Done) => if m.disk < j.targets {
            create_next(Maintaining { disk: (m.disk + 1) as usize, ..m }, j)
        } else {
            work_failed(m)
        },
        (Work::StorageConfigured, Event::Done) => {
            (Maintaining { at: Work::CreateStarted, ..m }, Step::Run(VmTask::Start))
        },
        (Work::CreateStarted, Event::Done) => {
            (Maintaining { at: Work::CreateGuest, ..m }, Step::Run(VmTask::PrepareStorage))
        },
        (Work::CreateGuest, Event::Done) => (
            Maintaining { at: Work::PoolApplied, ..m },
            Step::Pool(PoolTask::Apply),
        ),
        (Work::PoolApplied, Event::Done) => created_after(m, j),
        (Work::WorkerMade, Event::Done) => created_after(m, j),
        (Work::RestoreVerified, Event::Done) => started_then(
            Maintaining { verified: true, ..m },
            Work::RestoreStarted,
            Work::Restored,
            Step::Stream(Archive::Restore),
        ),
        (Work::RestoreStarted, Event::Done) => {
            (Maintaining { at: Work::Restored, ..m }, Step::Stream(Archive::Restore))
        },
        (Work::Restored, Event::Done) => phase_saved(m, Phase::Verify),
        _ => work_failed(m),
    }
}

/// The new disks and the worker on them, and the data back on it.
fn do_create_phase(m: Maintaining, j: Job, e: Event) -> (r: (Maintaining, Step))
    ensures
        r == create_phase(m, j, e),
{
    match (m.at, e) {
        (Work::CreateVerified, Event::Done) => do_placed_after(
            Maintaining { verified: true, ..m },
            j,
        ),
        (Work::DiskCreated, Event::Done) => if m.disk < j.targets {
            do_create_next(Maintaining { disk: (m.disk + 1) as usize, ..m }, j)
        } else {
            do_work_failed(m)
        },
        (Work::StorageConfigured, Event::Done) => {
            (Maintaining { at: Work::CreateStarted, ..m }, Step::Run(VmTask::Start))
        },
        (Work::CreateStarted, Event::Done) => {
            (Maintaining { at: Work::CreateGuest, ..m }, Step::Run(VmTask::PrepareStorage))
        },
        (Work::CreateGuest, Event::Done) => (
            Maintaining { at: Work::PoolApplied, ..m },
            Step::Pool(PoolTask::Apply),
        ),
        (Work::PoolApplied, Event::Done) => do_created_after(m, j),
        (Work::WorkerMade, Event::Done) => do_created_after(m, j),
        (Work::RestoreVerified, Event::Done) => do_started_then(
            Maintaining { verified: true, ..m },
            Work::RestoreStarted,
            Work::Restored,
            Step::Stream(Archive::Restore),
        ),
        (Work::RestoreStarted, Event::Done) => {
            (Maintaining { at: Work::Restored, ..m }, Step::Stream(Archive::Restore))
        },
        (Work::Restored, Event::Done) => do_phase_saved(m, Phase::Verify),
        _ => do_work_failed(m),
    }
}

/// The checks of the replacement: its data, its pool, its place in the fleet and
/// its capacity there.
pub open spec fn verify_phase(m: Maintaining, j: Job, e: Event) -> (Maintaining, Step) {
    match (m.at, e) {
        (Work::VerifyStarted, Event::Done) => if needs_backup(j) {
            verify_first(m, j, Work::VerifyVerified)
        } else {
            streamed_after(m, j)
        },
        (Work::VerifyVerified, Event::Done) => {
            (
                Maintaining { at: Work::VerifyStreamed, verified: true, ..m },
                Step::Stream(Archive::Verify),
            )
        },
        (Work::VerifyStreamed, Event::Done) => streamed_after(m, j),
        (Work::PoolRestored, Event::Done) => (
            Maintaining { at: Work::PoolRead, ..m },
            Step::Pool(PoolTask::Check),
        ),
        (Work::PoolRead, Event::Done) => (
            Maintaining { at: Work::PoolChecked, ..m },
            Step::CheckPool,
        ),
        (Work::PoolChecked, Event::Done) => phase_saved(m, Phase::Bootstrap),
        (Work::BootstrapStarted, Event::Done) => if j.provider == VmProvider::Multipass {
            (Maintaining { at: Work::Quiesced, ..m }, Step::Run(VmTask::QuiesceStorage))
        } else {
            (Maintaining { at: Work::Bootstrapped, ..m }, Step::Ask(Route::Bootstrap))
        },
        (Work::Quiesced, Event::Done) => {
            (Maintaining { at: Work::CredentialsReset, ..m }, Step::Run(VmTask::ResetCredentials))
        },
        (Work::CredentialsReset, Event::Done) => {
            (Maintaining { at: Work::Bootstrapped, ..m }, Step::Ask(Route::Bootstrap))
        },
        (Work::Bootstrapped, Event::Done) => {
            (Maintaining { at: Work::Configured, ..m }, Step::Run(VmTask::Configure))
        },
        (Work::Configured, Event::Done) => phase_saved(m, Phase::Capacity),
        (Work::CapacityStarted, Event::Done) => {
            (Maintaining { at: Work::CapacityLease, ..m }, Step::Run(VmTask::RenewLease))
        },
        (Work::CapacityLease, Event::Done) => (
            Maintaining { at: Work::CapacityKnown, ..m },
            Step::ReplacementCapacity,
        ),
        (Work::CapacityKnown, Event::Done) => {
            (Maintaining { at: Work::CapacityStopped, ..m }, Step::Run(VmTask::Stop))
        },
        (Work::CapacityStopped, Event::Done) => phase_saved(m, Phase::Cleanup),
        (Work::Finished, Event::Done) => (
            Maintaining { at: Work::BackupsCleaned, ..m },
            Step::CleanBackups,
        ),
        (Work::BackupsCleaned, Event::Done) => if j.kind == Kind::DeleteAll {
            (Maintaining { at: Work::EndTold, ..m }, Step::Tell(Notice::StorageDeleted))
        } else {
            (Maintaining { at: Work::EndTold, ..m }, Step::Tell(Notice::StorageVerified))
        },
        (Work::EndTold, Event::Done) => work_end(m, Outcome::Done),
        _ => work_failed(m),
    }
}

/// The checks of the replacement: its data, its pool, its place in the fleet and
/// its capacity there.
fn do_verify_phase(m: Maintaining, j: Job, e: Event) -> (r: (Maintaining, Step))
    ensures
        r == verify_phase(m, j, e),
{
    match (m.at, e) {
        (Work::VerifyStarted, Event::Done) => if backs_up(j) {
            do_verify_first(m, j, Work::VerifyVerified)
        } else {
            do_streamed_after(m, j)
        },
        (Work::VerifyVerified, Event::Done) => {
            (
                Maintaining { at: Work::VerifyStreamed, verified: true, ..m },
                Step::Stream(Archive::Verify),
            )
        },
        (Work::VerifyStreamed, Event::Done) => do_streamed_after(m, j),
        (Work::PoolRestored, Event::Done) => (
            Maintaining { at: Work::PoolRead, ..m },
            Step::Pool(PoolTask::Check),
        ),
        (Work::PoolRead, Event::Done) => (
            Maintaining { at: Work::PoolChecked, ..m },
            Step::CheckPool,
        ),
        (Work::PoolChecked, Event::Done) => do_phase_saved(m, Phase::Bootstrap),
        (Work::BootstrapStarted, Event::Done) => if j.provider == VmProvider::Multipass {
            (Maintaining { at: Work::Quiesced, ..m }, Step::Run(VmTask::QuiesceStorage))
        } else {
            (Maintaining { at: Work::Bootstrapped, ..m }, Step::Ask(Route::Bootstrap))
        },
        (Work::Quiesced, Event::Done) => {
            (Maintaining { at: Work::CredentialsReset, ..m }, Step::Run(VmTask::ResetCredentials))
        },
        (Work::CredentialsReset, Event::Done) => {
            (Maintaining { at: Work::Bootstrapped, ..m }, Step::Ask(Route::Bootstrap))
        },
        (Work::Bootstrapped, Event::Done) => {
            (Maintaining { at: Work::Configured, ..m }, Step::Run(VmTask::Configure))
        },
        (Work::Configured, Event::Done) => do_phase_saved(m, Phase::Capacity),
        (Work::CapacityStarted, Event::Done) => {
            (Maintaining { at: Work::CapacityLease, ..m }, Step::Run(VmTask::RenewLease))
        },
        (Work::CapacityLease, Event::Done) => (
            Maintaining { at: Work::CapacityKnown, ..m },
            Step::ReplacementCapacity,
        ),
        (Work::CapacityKnown, Event::Done) => {
            (Maintaining { at: Work::CapacityStopped, ..m }, Step::Run(VmTask::Stop))
        },
        (Work::CapacityStopped, Event::Done) => do_phase_saved(m, Phase::Cleanup),
        (Work::Finished, Event::Done) => (
            Maintaining { at: Work::BackupsCleaned, ..m },
            Step::CleanBackups,
        ),
        (Work::BackupsCleaned, Event::Done) => if j.kind == Kind::DeleteAll {
            (Maintaining { at: Work::EndTold, ..m }, Step::Tell(Notice::StorageDeleted))
        } else {
            (Maintaining { at: Work::EndTold, ..m }, Step::Tell(Notice::StorageVerified))
        },
        (Work::EndTold, Event::Done) => do_work_end(m, Outcome::Done),
        _ => do_work_failed(m),
    }
}

/// What a step of a maintenance makes of an answer.
pub open spec fn maintenance_after(m: Maintaining, e: Event) -> (Maintaining, Step) {
    match m.job {
        None => work_end(m, Outcome::Refused(Refusal::NoMaintenance)),
        Some(j) => match m.at {
            Work::Start | Work::RestReceipt | Work::RestSeen | Work::RestStopped | Work::RestTold
            | Work::RestBeat | Work::Failing | Work::FailureSaved | Work::FailureReceipt
            | Work::FailureSeen | Work::FailureStopped | Work::Over => rest_after(m, j, e),
            Work::Seen | Work::Told | Work::Beaten | Work::DrainReceipt | Work::DrainAsked
            | Work::DrainBegun | Work::DrainLease | Work::DrainCounted | Work::DrainLoaded
            | Work::DrainStarted | Work::DrainGuest | Work::DrainStopped | Work::DrainCleared
            | Work::PhaseSaved => drain_phase(m, j, e),
            Work::BackupStarted | Work::BackupGuest | Work::BackupSized | Work::BackupMade
            | Work::BackupSaved | Work::BackupOpened | Work::BackupTruncated | Work::BackupStreamed
            | Work::BackupSummed | Work::BackupChecked | Work::BackupDone | Work::RetireVerified
            | Work::RetireStarted | Work::RetireGuest | Work::Retired | Work::RetireSeen
            | Work::RetireStopped => backup_phase(m, j, e),
            Work::ResetVerified | Work::ResetAsked | Work::DeleteVerified | Work::DeleteSpace
            | Work::Removed | Work::PreviousSaved | Work::DiskSeen | Work::DiskRemoved
            | Work::DiskSaved => delete_phase(m, j, e),
            Work::CreateVerified | Work::DiskCreated | Work::StorageConfigured | Work::CreateStarted
            | Work::CreateGuest | Work::PoolApplied | Work::WorkerMade | Work::RestoreVerified
            | Work::RestoreStarted | Work::Restored => create_phase(m, j, e),
            _ => verify_phase(m, j, e),
        },
    }
}

/// What a step of a maintenance makes of an answer.
fn do_maintenance_after(m: Maintaining, e: Event) -> (r: (Maintaining, Step))
    ensures
        r == maintenance_after(m, e),
{
    match m.job {
        None => do_work_end(m, Outcome::Refused(Refusal::NoMaintenance)),
        Some(j) => match m.at {
            Work::Start | Work::RestReceipt | Work::RestSeen | Work::RestStopped | Work::RestTold
            | Work::RestBeat | Work::Failing | Work::FailureSaved | Work::FailureReceipt
            | Work::FailureSeen | Work::FailureStopped | Work::Over => do_rest_after(m, j, e),
            Work::Seen | Work::Told | Work::Beaten | Work::DrainReceipt | Work::DrainAsked
            | Work::DrainBegun | Work::DrainLease | Work::DrainCounted | Work::DrainLoaded
            | Work::DrainStarted | Work::DrainGuest | Work::DrainStopped | Work::DrainCleared
            | Work::PhaseSaved => do_drain_phase(m, j, e),
            Work::BackupStarted | Work::BackupGuest | Work::BackupSized | Work::BackupMade
            | Work::BackupSaved | Work::BackupOpened | Work::BackupTruncated | Work::BackupStreamed
            | Work::BackupSummed | Work::BackupChecked | Work::BackupDone | Work::RetireVerified
            | Work::RetireStarted | Work::RetireGuest | Work::Retired | Work::RetireSeen
            | Work::RetireStopped => do_backup_phase(m, j, e),
            Work::ResetVerified | Work::ResetAsked | Work::DeleteVerified | Work::DeleteSpace
            | Work::Removed | Work::PreviousSaved | Work::DiskSeen | Work::DiskRemoved
            | Work::DiskSaved => do_delete_phase(m, j, e),
            Work::CreateVerified | Work::DiskCreated | Work::StorageConfigured | Work::CreateStarted
            | Work::CreateGuest | Work::PoolApplied | Work::WorkerMade | Work::RestoreVerified
            | Work::RestoreStarted | Work::Restored => do_create_phase(m, j, e),
            _ => do_verify_phase(m, j, e),
        },
    }
}

/// A step that has not begun.
pub open spec fn fresh_step(job: Option<Job>) -> Maintaining {
    Maintaining { at: Work::Start, job, worker: nothing(), verified: false, disk: 0 }
}

impl Maintaining {
    /// A step of the maintenance, which has not begun.
    pub fn new(job: Option<Job>) -> (r: Self)
        ensures
            r == fresh_step(job),
    {
        Maintaining { at: Work::Start, job, worker: no_sight(), verified: false, disk: 0 }
    }

    /// What a step of a maintenance makes of an answer, and what it asks for next.
    pub fn next(self, e: Event) -> (r: (Maintaining, Step))
        ensures
            r == maintenance_after(self, e),
    {
        do_maintenance_after(self, e)
    }
}

/// Whether a step destroys what the worker had.
pub open spec fn destroys(s: Step) -> bool {
    s == Step::Run(VmTask::Remove) || s == Step::DetachDisks || s is RemoveDisk
}

/// The places where the worker's disks may be gone or going.
pub open spec fn dismantling(at: Work) -> bool {
    match at {
        Work::DeleteSpace | Work::Removed | Work::PreviousSaved | Work::DiskSeen
        | Work::DiskRemoved | Work::DiskSaved => true,
        _ => false,
    }
}

/// What holds at each point: data that is to be kept was verified in the backup
/// before anything is dismantled, and the worker does not run.
pub open spec fn keeps_data(m: Maintaining) -> bool {
    match m.job {
        None => true,
        Some(j) => {
            &&& dismantling(m.at) ==> (needs_backup(j) ==> m.verified) && !m.worker.running
            &&& m.at == Work::DeleteVerified ==> !m.worker.running
        },
    }
}

/// Data that is to be kept is never destroyed before its backup was verified in
/// the same step, and no running worker is dismantled.
#[verifier::rlimit(80)]
#[verifier::spinoff_prover]
pub proof fn deletion_follows_a_verified_backup(m: Maintaining, e: Event)
    requires
        keeps_data(m),
    ensures
        keeps_data(maintenance_after(m, e).0),
        destroys(maintenance_after(m, e).1) ==> m.job is Some && !m.worker.running && (needs_backup(
            m.job->0,
        ) ==> m.verified || (m.at == Work::DeleteVerified && e == Event::Done)),
{
    match m.job {
        Some(j) => match m.at {
            Work::Start | Work::RestReceipt | Work::RestSeen | Work::RestStopped | Work::RestTold
            | Work::RestBeat | Work::Failing | Work::FailureSaved | Work::FailureReceipt
            | Work::FailureSeen | Work::FailureStopped | Work::Over => {},
            Work::Seen | Work::Told | Work::Beaten | Work::DrainReceipt | Work::DrainAsked
            | Work::DrainBegun | Work::DrainLease | Work::DrainCounted | Work::DrainLoaded
            | Work::DrainStarted | Work::DrainGuest | Work::DrainStopped | Work::DrainCleared
            | Work::PhaseSaved => {},
            Work::BackupStarted | Work::BackupGuest | Work::BackupSized | Work::BackupMade
            | Work::BackupSaved | Work::BackupOpened | Work::BackupTruncated | Work::BackupStreamed
            | Work::BackupSummed | Work::BackupChecked | Work::BackupDone | Work::RetireVerified
            | Work::RetireStarted | Work::RetireGuest | Work::Retired | Work::RetireSeen
            | Work::RetireStopped => {},
            Work::ResetVerified | Work::ResetAsked | Work::DeleteVerified | Work::DeleteSpace
            | Work::Removed | Work::PreviousSaved | Work::DiskSeen | Work::DiskRemoved
            | Work::DiskSaved => {},
            Work::CreateVerified | Work::DiskCreated | Work::StorageConfigured | Work::CreateStarted
            | Work::CreateGuest | Work::PoolApplied | Work::WorkerMade | Work::RestoreVerified
            | Work::RestoreStarted | Work::Restored => {},
            _ => {},
        },
        None => {},
    }
}

/// A step begins with nothing dismantled.
pub proof fn steps_begin_whole(job: Option<Job>)
    ensures
        keeps_data(fresh_step(job)),
{
}

/// The phase that follows a phase.
pub open spec fn successor(j: Job) -> Phase {
    match j.phase {
        Phase::Drain => if needs_backup(j) {
            Phase::Backup
        } else {
            Phase::Reset
        },
        Phase::Backup => Phase::BackupVerified,
        Phase::BackupVerified => if whole_vm(j) {
            Phase::Reset
        } else {
            Phase::Delete
        },
        Phase::Reset => Phase::Delete,
        Phase::Delete => if j.kind == Kind::DeleteAll {
            Phase::Cleanup
        } else {
            Phase::Create
        },
        Phase::Create => if needs_backup(j) {
            Phase::Restore
        } else {
            Phase::Verify
        },
        Phase::Restore => Phase::Verify,
        Phase::Verify => Phase::Bootstrap,
        Phase::Bootstrap => Phase::Capacity,
        Phase::Capacity => Phase::Cleanup,
        Phase::Cleanup => Phase::Cleanup,
    }
}

/// How far a phase is.
pub open spec fn phase_rank(p: Phase) -> nat {
    match p {
        Phase::Drain => 0,
        Phase::Backup => 1,
        Phase::BackupVerified => 2,
        Phase::Reset => 3,
        Phase::Delete => 4,
        Phase::Create => 5,
        Phase::Restore => 6,
        Phase::Verify => 7,
        Phase::Bootstrap => 8,
        Phase::Capacity => 9,
        Phase::Cleanup => 10,
    }
}

/// A maintenance only ever goes forward, and a replaced VM loses its access
/// before it is deleted.
pub proof fn phases_go_forward(j: Job)
    ensures
        j.phase != Phase::Cleanup ==> phase_rank(successor(j)) > phase_rank(j.phase),
        whole_vm(j) && successor(j) == Phase::Delete ==> j.phase == Phase::Reset,
        needs_backup(j) && phase_rank(j.phase) < 3 && phase_rank(successor(j)) >= 3
            ==> j.phase == Phase::BackupVerified,
{
}

/// The points that belong to a phase.
pub open spec fn belongs(at: Work, p: Phase) -> bool {
    match at {
        Work::DrainReceipt | Work::DrainAsked | Work::DrainBegun | Work::DrainLease
        | Work::DrainCounted | Work::DrainLoaded | Work::DrainStarted | Work::DrainGuest
        | Work::DrainStopped | Work::DrainCleared => p == Phase::Drain,
        Work::BackupStarted | Work::BackupGuest | Work::BackupSized | Work::BackupMade
        | Work::BackupSaved | Work::BackupOpened | Work::BackupTruncated | Work::BackupStreamed
        | Work::BackupSummed | Work::BackupChecked | Work::BackupDone => p == Phase::Backup,
        Work::RetireVerified | Work::RetireStarted | Work::RetireGuest | Work::Retired
        | Work::RetireSeen | Work::RetireStopped => p == Phase::BackupVerified,
        Work::ResetVerified | Work::ResetAsked => p == Phase::Reset,
        Work::DeleteVerified | Work::DeleteSpace | Work::Removed | Work::PreviousSaved
        | Work::DiskSeen | Work::DiskRemoved | Work::DiskSaved => p == Phase::Delete,
        Work::CreateVerified | Work::DiskCreated | Work::StorageConfigured | Work::CreateStarted
        | Work::CreateGuest | Work::PoolApplied | Work::WorkerMade => p == Phase::Create,
        Work::RestoreVerified | Work::RestoreStarted | Work::Restored => p == Phase::Restore,
        Work::VerifyStarted | Work::VerifyVerified | Work::VerifyStreamed | Work::PoolRestored
        | Work::PoolRead | Work::PoolChecked => p == Phase::Verify,
        Work::BootstrapStarted | Work::Quiesced | Work::CredentialsReset | Work::Bootstrapped
        | Work::Configured => p == Phase::Bootstrap,
        Work::CapacityStarted | Work::CapacityLease | Work::CapacityKnown
        | Work::CapacityStopped => p == Phase::Capacity,
        Work::Finished | Work::BackupsCleaned | Work::EndTold => p == Phase::Cleanup,
        _ => true,
    }
}

/// A step stays in its phase, and the phase it saves is the one that follows.
#[verifier::rlimit(100)]
#[verifier::spinoff_prover]
pub proof fn steps_save_the_following_phase(m: Maintaining, e: Event)
    requires
        m.job matches Some(j) ==> belongs(m.at, j.phase),
    ensures
        m.job matches Some(j) ==> belongs(maintenance_after(m, e).0.at, j.phase),
        maintenance_after(m, e).1 matches Step::SaveStorage(
            StorageSave::MaintenancePhase(p),
        ) ==> m.job is Some && p == successor(m.job->0),
{
    match m.job {
        Some(j) => match m.at {
            Work::Start | Work::RestReceipt | Work::RestSeen | Work::RestStopped | Work::RestTold
            | Work::RestBeat | Work::Failing | Work::FailureSaved | Work::FailureReceipt
            | Work::FailureSeen | Work::FailureStopped | Work::Over => {},
            Work::Seen | Work::Told | Work::Beaten | Work::DrainReceipt | Work::DrainAsked
            | Work::DrainBegun | Work::DrainLease | Work::DrainCounted | Work::DrainLoaded
            | Work::DrainStarted | Work::DrainGuest | Work::DrainStopped | Work::DrainCleared
            | Work::PhaseSaved => {},
            Work::BackupStarted | Work::BackupGuest | Work::BackupSized | Work::BackupMade
            | Work::BackupSaved | Work::BackupOpened | Work::BackupTruncated | Work::BackupStreamed
            | Work::BackupSummed | Work::BackupChecked | Work::BackupDone | Work::RetireVerified
            | Work::RetireStarted | Work::RetireGuest | Work::Retired | Work::RetireSeen
            | Work::RetireStopped => {},
            Work::ResetVerified | Work::ResetAsked | Work::DeleteVerified | Work::DeleteSpace
            | Work::Removed | Work::PreviousSaved | Work::DiskSeen | Work::DiskRemoved
            | Work::DiskSaved => {},
            Work::CreateVerified | Work::DiskCreated | Work::StorageConfigured | Work::CreateStarted
            | Work::CreateGuest | Work::PoolApplied | Work::WorkerMade | Work::RestoreVerified
            | Work::RestoreStarted | Work::Restored => {},
            _ => {},
        },
        None => {},
    }
}

} // verus!
