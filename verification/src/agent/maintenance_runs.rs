//! Whole steps of a storage maintenance, seen from outside: which step follows which
//! answer, whatever the answers were before.
use crate::agent::maintenance::{
    at_rest, belongs, fresh_step, job_of, maintenance_after, steps_save_the_following_phase,
    whole_vm, Job, Maintaining, Work,
};
use crate::agent::steps::{
    Archive, Event, Facts, Notice, Outcome, PoolTask, Refusal, Route, Save, Sight, Step,
    StorageSave, VmTask,
};
use crate::lima::VmProvider;
use crate::storage_lifecycle::{Kind, Phase};
use crate::store::ConfigurationView;
use vstd::prelude::*;

verus! {

/// A step of a maintenance after these answers.
#[verifier::opaque]
pub open spec fn reached(j: Job, es: Seq<Event>) -> Maintaining
    decreases es.len(),
{
    if es.len() == 0 {
        fresh_step(Some(j))
    } else {
        maintenance_after(reached(j, es.drop_last()), es.last()).0
    }
}

/// What a maintenance asks for after these answers.
#[verifier::opaque]
pub open spec fn asked(j: Job, es: Seq<Event>) -> Step
    recommends
        es.len() > 0,
{
    maintenance_after(reached(j, es.drop_last()), es.last()).1
}

/// The answers of a run that begins and sees the worker.
pub open spec fn run(w: Sight, rest: Seq<Event>) -> Seq<Event> {
    seq![Event::Begin, Event::Worker(w)] + rest
}

/// The step that was asked for where a run stands.
spec fn entered(m: Maintaining, j: Job, s: Step) -> bool {
    match m.at {
        Work::RestReceipt | Work::FailureReceipt | Work::DrainReceipt => s == Step::Receipt,
        Work::RestSeen | Work::FailureSeen | Work::RetireSeen => s == Step::Look,
        Work::RestStopped | Work::FailureStopped | Work::DrainStopped => s == Step::Run(
            VmTask::StopNow,
        ),
        Work::RestBeat | Work::Beaten => s == Step::Heartbeat,
        Work::Seen => s == Step::Inspect,
        Work::Told => s == Step::Tell(Notice::AtPhase(j.phase)),
        Work::Failing => s == Step::Hold || s is HoldRefusal,
        Work::FailureSaved => s == Step::SaveStorage(StorageSave::MaintenanceFailed),
        Work::DrainAsked => s == Step::Ask(Route::Drain),
        Work::DrainBegun => s == Step::Save(Save::BeginDrain),
        Work::DrainLease | Work::CapacityLease => s == Step::Run(VmTask::RenewLease),
        Work::DrainCounted => s == Step::CountReplied,
        Work::DrainLoaded => s == Step::Load,
        Work::DrainStarted | Work::BackupStarted | Work::RetireStarted | Work::RestoreStarted
        | Work::VerifyStarted | Work::BootstrapStarted | Work::CapacityStarted => s == Step::Run(
            VmTask::Start,
        ),
        Work::DrainGuest | Work::BackupGuest | Work::RetireGuest | Work::CreateGuest => s
            == Step::Run(VmTask::PrepareStorage),
        Work::DrainCleared => s == Step::Save(Save::ClearDrain),
        Work::BackupSized => s == Step::CheckCapacity,
        Work::BackupMade => s == Step::MakeBackupFile,
        Work::BackupSaved => s == Step::SaveStorage(StorageSave::BackupMade),
        Work::BackupOpened => s == Step::OpenBackup,
        Work::BackupTruncated => s == Step::TruncateBackup,
        Work::BackupStreamed => s == Step::Stream(Archive::Backup),
        Work::BackupSummed => s == Step::ChecksumBackup,
        Work::BackupChecked | Work::VerifyStreamed => s == Step::Stream(Archive::Verify),
        Work::BackupDone => s == Step::SaveStorage(StorageSave::BackupVerified),
        Work::RetireVerified | Work::ResetVerified | Work::DeleteVerified | Work::CreateVerified
        | Work::RestoreVerified | Work::VerifyVerified => s == Step::VerifyBackup,
        Work::Retired => s == Step::Pool(PoolTask::Retire),
        Work::RetireStopped | Work::CapacityStopped => s == Step::Run(VmTask::Stop),
        Work::ResetAsked => s == Step::Ask(Route::Reset),
        Work::DeleteSpace => s == Step::ReplacementSpace,
        Work::Removed => s == if whole_vm(j) {
            Step::Run(VmTask::Remove)
        } else {
            Step::DetachDisks
        },
        Work::PreviousSaved => s == Step::SaveStorage(StorageSave::PreviousRetired),
        Work::DiskSeen => s == Step::DiskPresent(m.disk) && m.disk < j.previous,
        Work::DiskRemoved => s == Step::RemoveDisk(m.disk) && m.disk < j.previous,
        Work::DiskSaved => s == Step::SaveStorage(StorageSave::DiskRemoved(m.disk)) && m.disk
            < j.previous,
        Work::DiskCreated => s == Step::CreateDisk(m.disk) && m.disk < j.targets && j.provider
            == VmProvider::Lima,
        Work::StorageConfigured => s == Step::ConfigureStorage && j.provider == VmProvider::Lima,
        Work::CreateStarted => (s == Step::Run(VmTask::Start) || s == Step::CreateWithStorage)
            && j.provider == VmProvider::Lima,
        Work::PoolApplied => s == Step::Pool(PoolTask::Apply),
        Work::WorkerMade => (s == Step::Run(VmTask::Start) || s == Step::Run(
            VmTask::Create(j.resources),
        )) && j.provider == VmProvider::Multipass,
        Work::Restored => s == Step::Stream(Archive::Restore),
        Work::PoolRestored => s == Step::Pool(PoolTask::Restored),
        Work::PoolRead => s == Step::Pool(PoolTask::Check),
        Work::PoolChecked => s == Step::CheckPool,
        Work::Quiesced => s == Step::Run(VmTask::QuiesceStorage),
        Work::CredentialsReset => s == Step::Run(VmTask::ResetCredentials),
        Work::Bootstrapped => s == Step::Ask(Route::Bootstrap),
        Work::Configured => s == Step::Run(VmTask::Configure),
        Work::CapacityKnown => s == Step::ReplacementCapacity,
        Work::Finished => s == Step::SaveStorage(StorageSave::MaintenanceFinished),
        Work::BackupsCleaned => s == Step::CleanBackups,
        Work::EndTold => s == if j.kind == Kind::DeleteAll {
            Step::Tell(Notice::StorageDeleted)
        } else {
            Step::Tell(Notice::StorageVerified)
        },
        Work::PhaseSaved => s matches Step::SaveStorage(StorageSave::MaintenancePhase(_)),
        Work::RestTold => s == if j.failed {
            Step::TellMaintenanceError
        } else {
            Step::Tell(Notice::MaintenancePaused)
        },
        Work::Over => s is Finish,
        Work::Start => false,
    }
}

/// The points of a maintenance that rests, or has not begun.
spec fn resting(at: Work) -> bool {
    match at {
        Work::Start | Work::RestReceipt | Work::RestSeen | Work::RestStopped | Work::RestTold
        | Work::RestBeat => true,
        _ => false,
    }
}

/// What holds between the answers of a run.
spec fn standing(m: Maintaining, j: Job, w: Sight, s: Step) -> bool {
    &&& m.job == Some(j)
    &&& m.worker == w
    &&& entered(m, j, s)
    &&& belongs(m.at, j.phase)
    &&& !resting(m.at)
    &&& m.at != Work::Seen
}

#[verifier::rlimit(100)]
#[verifier::spinoff_prover]
proof fn lemma_stands(m: Maintaining, j: Job, w: Sight, s: Step, e: Event)
    requires
        standing(m, j, w, s),
    ensures
        standing(maintenance_after(m, e).0, j, w, maintenance_after(m, e).1),
{
    steps_save_the_following_phase(m, e);
    match m.at {
        Work::Failing | Work::FailureSaved | Work::FailureReceipt
        | Work::FailureSeen | Work::FailureStopped | Work::Over => {},
        Work::Told | Work::Beaten | Work::DrainReceipt | Work::DrainAsked
        | Work::DrainBegun | Work::DrainLease | Work::DrainCounted | Work::DrainLoaded
        | Work::DrainStarted | Work::DrainGuest | Work::DrainStopped | Work::DrainCleared
        | Work::PhaseSaved => {},
        Work::BackupStarted | Work::BackupGuest | Work::BackupSized | Work::BackupMade
        | Work::BackupSaved | Work::BackupOpened | Work::BackupTruncated | Work::BackupStreamed
        | Work::BackupSummed | Work::BackupChecked | Work::BackupDone | Work::RetireVerified
        | Work::RetireStarted | Work::RetireGuest | Work::Retired | Work::RetireSeen
        | Work::RetireStopped => {},
        Work::ResetVerified | Work::ResetAsked | Work::DeleteVerified | Work::DeleteSpace
        | Work::Removed | Work::PreviousSaved | Work::DiskSeen | Work::DiskRemoved
        | Work::DiskSaved => {},
        Work::CreateVerified | Work::DiskCreated | Work::StorageConfigured | Work::CreateStarted
        | Work::CreateGuest | Work::PoolApplied | Work::WorkerMade | Work::RestoreVerified
        | Work::RestoreStarted | Work::Restored => {},
        _ => {},
    }
}

proof fn lemma_push(j: Job, es: Seq<Event>, e: Event)
    ensures
        reached(j, es.push(e)) == maintenance_after(reached(j, es), e).0,
        asked(j, es.push(e)) == maintenance_after(reached(j, es), e).1,
{
    reveal(reached);
    reveal(asked);
    assert(es.push(e).drop_last() =~= es);
}

proof fn lemma_first(j: Job, w: Sight)
    requires
        !at_rest(j),
    ensures
        standing(reached(j, run(w, Seq::empty())), j, w, asked(j, run(w, Seq::empty()))),
        reached(j, run(w, Seq::empty())).at == Work::Told,
        asked(j, seq![Event::Begin]) == Step::Inspect,
{
    let none = Seq::<Event>::empty();
    assert(reached(j, none) == fresh_step(Some(j))) by {
        reveal(reached);
    }
    lemma_push(j, none, Event::Begin);
    assert(none.push(Event::Begin) =~= seq![Event::Begin]);
    lemma_push(j, none.push(Event::Begin), Event::Worker(w));
    assert(run(w, none) =~= none.push(Event::Begin).push(Event::Worker(w)));
}

proof fn lemma_run(j: Job, w: Sight, rest: Seq<Event>)
    requires
        !at_rest(j),
    ensures
        standing(reached(j, run(w, rest)), j, w, asked(j, run(w, rest))),
    decreases rest.len(),
{
    if rest.len() == 0 {
        lemma_first(j, w);
        assert(rest =~= Seq::empty());
    } else {
        let less = rest.drop_last();
        lemma_run(j, w, less);
        assert(run(w, rest) =~= run(w, less).push(rest.last()));
        lemma_push(j, run(w, less), rest.last());
        lemma_stands(reached(j, run(w, less)), j, w, asked(j, run(w, less)), rest.last());
    }
}

/// What a failed step leads to.
#[verifier::rlimit(60)]
#[verifier::spinoff_prover]
proof fn lemma_fails(m: Maintaining, j: Job, w: Sight, s: Step)
    requires
        standing(m, j, w, s),
    ensures
        ({
            let next = maintenance_after(m, Event::Failed).1;
            &&& next == Step::Hold || next == Step::Finish(Outcome::Failed)
            &&& next == Step::Finish(Outcome::Failed) ==> s == Step::Hold || s is HoldRefusal || s
                == Step::SaveStorage(StorageSave::MaintenanceFailed) || s == Step::Receipt || s
                == Step::Look || s == Step::Run(VmTask::StopNow) || s is Finish
        }),
{
    match m.at {
        Work::Failing | Work::FailureSaved | Work::FailureReceipt
        | Work::FailureSeen | Work::FailureStopped | Work::Over => {},
        Work::Told | Work::Beaten | Work::DrainReceipt | Work::DrainAsked
        | Work::DrainBegun | Work::DrainLease | Work::DrainCounted | Work::DrainLoaded
        | Work::DrainStarted | Work::DrainGuest | Work::DrainStopped | Work::DrainCleared
        | Work::PhaseSaved => {},
        Work::BackupStarted | Work::BackupGuest | Work::BackupSized | Work::BackupMade
        | Work::BackupSaved | Work::BackupOpened | Work::BackupTruncated | Work::BackupStreamed
        | Work::BackupSummed | Work::BackupChecked | Work::BackupDone | Work::RetireVerified
        | Work::RetireStarted | Work::RetireGuest | Work::Retired | Work::RetireSeen
        | Work::RetireStopped => {},
        Work::ResetVerified | Work::ResetAsked | Work::DeleteVerified | Work::DeleteSpace
        | Work::Removed | Work::PreviousSaved | Work::DiskSeen | Work::DiskRemoved
        | Work::DiskSaved => {},
        Work::CreateVerified | Work::DiskCreated | Work::StorageConfigured | Work::CreateStarted
        | Work::CreateGuest | Work::PoolApplied | Work::WorkerMade | Work::RestoreVerified
        | Work::RestoreStarted | Work::Restored => {},
        _ => {},
    }
}

/// A maintenance that does not rest looks at the worker, tells the owner its phase
/// and reports to the controller before anything else.
pub proof fn maintenance_begins_openly(j: Job, w: Sight)
    requires
        !(j.paused || j.failed || (j.kind == Kind::FailureRecovery && (!j.sharing
            || !j.recovery_enabled))),
    ensures
        asked(j, seq![Event::Begin]) == Step::Inspect,
        asked(j, run(w, Seq::empty())) == Step::Tell(Notice::AtPhase(j.phase)),
        asked(j, run(w, seq![Event::Done])) == Step::Heartbeat,
{
    lemma_first(j, w);
    let none = Seq::<Event>::empty();
    assert(run(w, seq![Event::Done]) =~= run(w, none).push(Event::Done));
    lemma_push(j, run(w, none), Event::Done);
}

/// A step that fails is kept as the error of the maintenance, or ends the run where
/// an error is being kept already. It never goes on as if the step had succeeded.
pub proof fn failed_steps_stop_the_maintenance(j: Job, w: Sight, rest: Seq<Event>)
    requires
        !at_rest(j),
    ensures
        ({
            let s = asked(j, run(w, rest));
            let next = asked(j, run(w, rest).push(Event::Failed));
            &&& next == Step::Hold || next == Step::Finish(Outcome::Failed)
            &&& next == Step::Finish(Outcome::Failed) ==> s == Step::Hold || s is HoldRefusal || s
                == Step::SaveStorage(StorageSave::MaintenanceFailed) || s == Step::Receipt || s
                == Step::Look || s == Step::Run(VmTask::StopNow) || s is Finish
        }),
{
    lemma_run(j, w, rest);
    lemma_fails(reached(j, run(w, rest)), j, w, asked(j, run(w, rest)));
    lemma_push(j, run(w, rest), Event::Failed);
}

/// An error that was kept is recorded as the error of the maintenance, and a worker
/// that is here and runs is stopped.
pub proof fn kept_errors_are_recorded(j: Job, w: Sight, rest: Seq<Event>, o: Sight)
    requires
        !at_rest(j),
        asked(j, run(w, rest)) == Step::Hold || asked(j, run(w, rest)) is HoldRefusal,
    ensures
        ({
            let es = run(w, rest);
            let recorded = es.push(Event::Done).push(Event::Done);
            let seen = recorded.push(Event::Answer(true)).push(Event::Worker(o));
            &&& asked(j, es.push(Event::Done)) == Step::SaveStorage(StorageSave::MaintenanceFailed)
            &&& asked(j, recorded) == Step::Receipt
            &&& asked(j, recorded.push(Event::Answer(false))) == Step::Finish(Outcome::Held)
            &&& asked(j, recorded.push(Event::Answer(true))) == Step::Look
            &&& asked(j, seen) == if o.running {
                Step::Run(VmTask::StopNow)
            } else {
                Step::Finish(Outcome::Held)
            }
            &&& o.running ==> asked(j, seen.push(Event::Done)) == Step::Finish(Outcome::Held)
        }),
{
    lemma_run(j, w, rest);
    let es = run(w, rest);
    assert(reached(j, es).at == Work::Failing);
    let recorded = es.push(Event::Done).push(Event::Done);
    lemma_push(j, es, Event::Done);
    lemma_push(j, es.push(Event::Done), Event::Done);
    lemma_push(j, recorded, Event::Answer(false));
    lemma_push(j, recorded, Event::Answer(true));
    lemma_push(j, recorded.push(Event::Answer(true)), Event::Worker(o));
    lemma_push(j, recorded.push(Event::Answer(true)).push(Event::Worker(o)), Event::Done);
}

/// A maintenance that rests does nothing but stop a worker that is here and runs,
/// say why it rests, and report.
pub proof fn resting_maintenance_stops_the_worker(j: Job, o: Sight)
    requires
        j.paused || j.failed || (j.kind == Kind::FailureRecovery && (!j.sharing
            || !j.recovery_enabled)),
    ensures
        ({
            let told = if j.failed {
                Step::TellMaintenanceError
            } else {
                Step::Tell(Notice::MaintenancePaused)
            };
            let b = seq![Event::Begin];
            let no = b.push(Event::Answer(false));
            let seen = b.push(Event::Answer(true)).push(Event::Worker(o));
            &&& asked(j, b) == Step::Receipt
            &&& asked(j, no) == told
            &&& asked(j, b.push(Event::Answer(true))) == Step::Look
            &&& asked(j, seen) == if o.running {
                Step::Run(VmTask::StopNow)
            } else {
                told
            }
            &&& o.running ==> asked(j, seen.push(Event::Done)) == told
            &&& asked(j, no.push(Event::Done)) == Step::Heartbeat
            &&& asked(j, no.push(Event::Done).push(Event::Done)) == Step::Finish(Outcome::Done)
            &&& asked(j, no.push(Event::Done).push(Event::Failed)) == Step::Finish(Outcome::Done)
        }),
{
    let none = Seq::<Event>::empty();
    assert(reached(j, none) == fresh_step(Some(j))) by {
        reveal(reached);
    }
    lemma_push(j, none, Event::Begin);
    let b = seq![Event::Begin];
    assert(none.push(Event::Begin) =~= b);
    let no = b.push(Event::Answer(false));
    let seen = b.push(Event::Answer(true)).push(Event::Worker(o));
    lemma_push(j, b, Event::Answer(false));
    lemma_push(j, b, Event::Answer(true));
    lemma_push(j, b.push(Event::Answer(true)), Event::Worker(o));
    lemma_push(j, seen, Event::Done);
    lemma_push(j, no, Event::Done);
    lemma_push(j, no.push(Event::Done), Event::Done);
    lemma_push(j, no.push(Event::Done), Event::Failed);
}

/// How the last steps of a backup are reached.
#[verifier::rlimit(100)]
#[verifier::spinoff_prover]
proof fn lemma_backup_before(m: Maintaining, j: Job, w: Sight, s: Step, e: Event)
    requires
        standing(m, j, w, s),
    ensures
        ({
            let at = maintenance_after(m, e).0.at;
            &&& at == Work::BackupDone ==> m.at == Work::BackupChecked && e == Event::Done
            &&& at == Work::BackupChecked ==> m.at == Work::BackupSummed && e == Event::Done
            &&& at == Work::BackupSummed ==> m.at == Work::BackupStreamed && e == Event::Done
            &&& at == Work::BackupStreamed ==> m.at == Work::BackupTruncated && e == Event::Done
        }),
{
}

/// A backup is recorded as verified only where, in the same run, the backup file was
/// emptied, the worker's data streamed into it, the file summed and then read back
/// against the worker, each of them with success and nothing in between.
pub proof fn verified_backups_hold_the_data(j: Job, w: Sight, rest: Seq<Event>)
    requires
        !at_rest(j),
        asked(j, run(w, rest)) == Step::SaveStorage(StorageSave::BackupVerified),
    ensures
        ({
            let n = rest.len() as int;
            &&& n >= 5
            &&& j.phase == Phase::Backup
            &&& asked(j, run(w, rest.take(n - 4))) == Step::TruncateBackup
            &&& rest[n - 4] == Event::Done
            &&& asked(j, run(w, rest.take(n - 3))) == Step::Stream(Archive::Backup)
            &&& rest[n - 3] == Event::Done
            &&& asked(j, run(w, rest.take(n - 2))) == Step::ChecksumBackup
            &&& rest[n - 2] == Event::Done
            &&& asked(j, run(w, rest.take(n - 1))) == Step::Stream(Archive::Verify)
            &&& rest[n - 1] == Event::Done
        }),
{
    let n = rest.len() as int;
    lemma_run(j, w, rest);
    lemma_step_back(j, w, rest, Work::BackupDone);
    let a = rest.drop_last();
    lemma_step_back(j, w, a, Work::BackupChecked);
    let b = a.drop_last();
    lemma_step_back(j, w, b, Work::BackupSummed);
    let c = b.drop_last();
    lemma_step_back(j, w, c, Work::BackupStreamed);
    let d = c.drop_last();
    lemma_run(j, w, d);
    assert(a =~= rest.take(n - 1));
    assert(b =~= rest.take(n - 2));
    assert(c =~= rest.take(n - 3));
    assert(d =~= rest.take(n - 4));
    lemma_first(j, w);
    if d.len() == 0 {
        assert(d =~= Seq::empty());
    }
}

proof fn lemma_step_back(j: Job, w: Sight, rest: Seq<Event>, at: Work)
    requires
        !at_rest(j),
        reached(j, run(w, rest)).at == at,
        at == Work::BackupDone || at == Work::BackupChecked || at == Work::BackupSummed || at
            == Work::BackupStreamed,
    ensures
        rest.len() > 0,
        rest.last() == Event::Done,
        reached(j, run(w, rest.drop_last())).at == match at {
            Work::BackupDone => Work::BackupChecked,
            Work::BackupChecked => Work::BackupSummed,
            Work::BackupSummed => Work::BackupStreamed,
            _ => Work::BackupTruncated,
        },
        standing(
            reached(j, run(w, rest.drop_last())),
            j,
            w,
            asked(j, run(w, rest.drop_last())),
        ),
{
    lemma_first(j, w);
    if rest.len() == 0 {
        assert(rest =~= Seq::empty());
    } else {
        let less = rest.drop_last();
        lemma_run(j, w, less);
        assert(run(w, rest) =~= run(w, less).push(rest.last()));
        lemma_push(j, run(w, less), rest.last());
        lemma_backup_before(
            reached(j, run(w, less)),
            j,
            w,
            asked(j, run(w, less)),
            rest.last(),
        );
    }
}

/// Work is drained before a maintenance goes on: the controller is asked to drain a
/// worker that is this computer's, the drain is recorded, and running work is waited for
/// until there is none or its grace period is over.
#[verifier::rlimit(60)]
pub proof fn drains_come_before_everything(j: Job, w: Sight, rest: Seq<Event>, here: bool, f: Facts,
    n: usize)
    requires
        !at_rest(j),
        j.phase == Phase::Drain,
    ensures
        ({
            let es = run(w, rest);
            let s = asked(j, es);
            let drained = if j.kind
                == Kind::ResizeRemove { if w.running { Step::Run(VmTask::PrepareStorage) } else { Step::Run(VmTask::Start) } } else { if w.running { Step::Run(VmTask::StopNow) } else { Step::Save(Save::ClearDrain) } };
            let late = f.draining_since is Some
                && (f.now >= f.draining_since->0 + f.drain_seconds || f.drain_seconds == 0);
            &&& s == Step::Heartbeat ==> asked(j, es.push(Event::Done)) == (Step::Receipt)
            &&& s == Step::Heartbeat
                ==> asked(j, es.push(Event::Done).push(Event::Answer(here)))
                    == (if here || !w.installed { Step::Ask(Route::Drain) } else { Step::HoldRefusal(Refusal::NoReceipt) })
            &&& s == Step::Ask(Route::Drain)
                ==> asked(j, es.push(Event::Done)) == (Step::Save(Save::BeginDrain))
            &&& s == Step::Save(Save::BeginDrain)
                ==> asked(j, es.push(Event::Settings(f)))
                    == (if !w.running { drained } else { if w.reachable { Step::Run(VmTask::RenewLease) } else { Step::HoldRefusal(Refusal::UninspectedMaintenance) } })
            &&& s == Step::Run(VmTask::RenewLease)
                ==> asked(j, es.push(Event::Done)) == (Step::CountReplied)
            &&& s == Step::CountReplied
                ==> asked(j, es.push(Event::Workloads(n)))
                    == (if n == 0 { drained } else { Step::Load })
            &&& s == Step::Load
                ==> asked(j, es.push(Event::Settings(f)))
                    == (if late { drained } else { Step::Finish(Outcome::Done) })
            &&& s == Step::Run(VmTask::Start)
                ==> asked(j, es.push(Event::Done)) == (Step::Run(VmTask::PrepareStorage))
            &&& s == Step::Run(VmTask::PrepareStorage)
                ==> asked(j, es.push(Event::Done)) == (Step::Save(Save::ClearDrain))
            &&& s == Step::CountReplied && w.running && j.kind != Kind::ResizeRemove
                ==> asked(j, es.push(Event::Workloads(0)).push(Event::Done))
                    == (Step::Save(Save::ClearDrain))
            &&& s == Step::Save(Save::ClearDrain)
                ==> asked(j, es.push(Event::Settings(f)))
                    == (Step::SaveStorage(StorageSave::MaintenancePhase(if j.kind
                        == Kind::ResizeRemove { Phase::Backup } else { Phase::Reset })))
        }),
{
    lemma_run(j, w, rest);
    let es = run(w, rest);
    let s = asked(j, es);
    let m = reached(j, es);
    if s == Step::Heartbeat {
        lemma_push(j, es, Event::Done);
    }
    if s == Step::Heartbeat {
        lemma_push(j, es, Event::Done);
        lemma_push(j, es.push(Event::Done), Event::Answer(here));
    }
    if s == Step::Ask(Route::Drain) {
        lemma_push(j, es, Event::Done);
    }
    if s == Step::Save(Save::BeginDrain) {
        lemma_push(j, es, Event::Settings(f));
    }
    if s == Step::Run(VmTask::RenewLease) {
        lemma_push(j, es, Event::Done);
    }
    if s == Step::CountReplied {
        lemma_push(j, es, Event::Workloads(n));
    }
    if s == Step::Load {
        lemma_push(j, es, Event::Settings(f));
    }
    if s == Step::Run(VmTask::Start) {
        lemma_push(j, es, Event::Done);
    }
    if s == Step::Run(VmTask::PrepareStorage) {
        lemma_push(j, es, Event::Done);
    }
    if s == Step::CountReplied && w.running && j.kind != Kind::ResizeRemove {
        lemma_push(j, es, Event::Workloads(0));
        lemma_push(j, es.push(Event::Workloads(0)), Event::Done);
    }
    if s == Step::Save(Save::ClearDrain) {
        lemma_push(j, es, Event::Settings(f));
    }
}

/// A backup is made of a worker whose guest is ready and whose data has room: into the
/// recorded file, or a new one that is recorded first; it is emptied, filled, summed,
/// read back and only then recorded as verified.
#[verifier::rlimit(60)]
pub proof fn backups_are_made_in_order(j: Job, w: Sight, rest: Seq<Event>)
    requires
        !at_rest(j),
        j.phase == Phase::Backup,
    ensures
        ({
            let es = run(w, rest);
            let s = asked(j, es);
            &&& s == Step::Heartbeat
                ==> asked(j, es.push(Event::Done))
                    == (if w.running { Step::Run(VmTask::PrepareStorage) } else { Step::Run(VmTask::Start) })
            &&& s == Step::Run(VmTask::Start)
                ==> asked(j, es.push(Event::Done)) == (Step::Run(VmTask::PrepareStorage))
            &&& s == Step::Run(VmTask::PrepareStorage)
                ==> asked(j, es.push(Event::Done)) == (Step::CheckCapacity)
            &&& s == Step::CheckCapacity
                ==> asked(j, es.push(Event::Done))
                    == (if j.has_backup { Step::OpenBackup } else { if j.has_backup_location { Step::MakeBackupFile } else { Step::HoldRefusal(Refusal::NoBackupLocation) } })
            &&& s == Step::MakeBackupFile
                ==> asked(j, es.push(Event::Done)) == (Step::SaveStorage(StorageSave::BackupMade))
            &&& s == Step::SaveStorage(StorageSave::BackupMade)
                ==> asked(j, es.push(Event::Done)) == (Step::OpenBackup)
            &&& s == Step::OpenBackup ==> asked(j, es.push(Event::Done)) == (Step::TruncateBackup)
            &&& s == Step::TruncateBackup
                ==> asked(j, es.push(Event::Done)) == (Step::Stream(Archive::Backup))
            &&& s == Step::Stream(Archive::Backup)
                ==> asked(j, es.push(Event::Done)) == (Step::ChecksumBackup)
            &&& s == Step::ChecksumBackup
                ==> asked(j, es.push(Event::Done)) == (Step::Stream(Archive::Verify))
            &&& s == Step::Stream(Archive::Verify)
                ==> asked(j, es.push(Event::Done))
                    == (Step::SaveStorage(StorageSave::BackupVerified))
            &&& s == Step::SaveStorage(StorageSave::BackupVerified)
                ==> asked(j, es.push(Event::Done)) == (Step::Finish(Outcome::Done))
        }),
{
    lemma_run(j, w, rest);
    let es = run(w, rest);
    let s = asked(j, es);
    let m = reached(j, es);
    if s == Step::Heartbeat {
        lemma_push(j, es, Event::Done);
    }
    if s == Step::Run(VmTask::Start) {
        lemma_push(j, es, Event::Done);
    }
    if s == Step::Run(VmTask::PrepareStorage) {
        lemma_push(j, es, Event::Done);
    }
    if s == Step::CheckCapacity {
        lemma_push(j, es, Event::Done);
    }
    if s == Step::MakeBackupFile {
        lemma_push(j, es, Event::Done);
    }
    if s == Step::SaveStorage(StorageSave::BackupMade) {
        lemma_push(j, es, Event::Done);
    }
    if s == Step::OpenBackup {
        lemma_push(j, es, Event::Done);
    }
    if s == Step::TruncateBackup {
        lemma_push(j, es, Event::Done);
    }
    if s == Step::Stream(Archive::Backup) {
        lemma_push(j, es, Event::Done);
    }
    if s == Step::ChecksumBackup {
        lemma_push(j, es, Event::Done);
    }
    if s == Step::Stream(Archive::Verify) {
        lemma_push(j, es, Event::Done);
    }
    if s == Step::SaveStorage(StorageSave::BackupVerified) {
        lemma_push(j, es, Event::Done);
    }
}

/// The old pool is retired only behind a backup that is still as it was verified, and
/// the phase ends with the worker stopped.
#[verifier::rlimit(60)]
pub proof fn pools_retire_behind_a_verified_backup(j: Job, w: Sight, rest: Seq<Event>, o: Sight)
    requires
        !at_rest(j),
        j.phase == Phase::BackupVerified,
    ensures
        ({
            let es = run(w, rest);
            let s = asked(j, es);
            let over = Step::SaveStorage(StorageSave::MaintenancePhase(if (j.provider
                == VmProvider::Multipass || j.kind != Kind::ResizeRemove) { Phase::Reset } else { Phase::Delete }));
            &&& s == Step::Heartbeat
                ==> asked(j, es.push(Event::Done))
                    == (if j.has_backup { Step::VerifyBackup } else { Step::HoldRefusal(Refusal::NoVerifiedBackup) })
            &&& s == Step::VerifyBackup
                ==> asked(j, es.push(Event::Done))
                    == (if (j.provider
                        == VmProvider::Multipass || j.kind != Kind::ResizeRemove) { Step::Look } else { if w.running { Step::Run(VmTask::PrepareStorage) } else { Step::Run(VmTask::Start) } })
            &&& s == Step::Run(VmTask::Start)
                ==> asked(j, es.push(Event::Done)) == (Step::Run(VmTask::PrepareStorage))
            &&& s == Step::Run(VmTask::PrepareStorage)
                ==> asked(j, es.push(Event::Done)) == (Step::Pool(PoolTask::Retire))
            &&& s == Step::Pool(PoolTask::Retire) ==> asked(j, es.push(Event::Done)) == (Step::Look)
            &&& (s == Step::Pool(PoolTask::Retire) || (s == Step::VerifyBackup
                && (j.provider == VmProvider::Multipass || j.kind != Kind::ResizeRemove)))
                    ==> asked(j, es.push(Event::Done).push(Event::Worker(o)))
                        == (if o.running { Step::Run(VmTask::Stop) } else { over })
            &&& s == Step::Run(VmTask::Stop) ==> asked(j, es.push(Event::Done)) == (over)
        }),
{
    lemma_run(j, w, rest);
    let es = run(w, rest);
    let s = asked(j, es);
    let m = reached(j, es);
    if s == Step::Heartbeat {
        lemma_push(j, es, Event::Done);
    }
    if s == Step::VerifyBackup {
        lemma_push(j, es, Event::Done);
    }
    if s == Step::Run(VmTask::Start) {
        lemma_push(j, es, Event::Done);
    }
    if s == Step::Run(VmTask::PrepareStorage) {
        lemma_push(j, es, Event::Done);
    }
    if s == Step::Pool(PoolTask::Retire) {
        lemma_push(j, es, Event::Done);
    }
    if s == Step::Pool(PoolTask::Retire) || (s == Step::VerifyBackup
        && (j.provider == VmProvider::Multipass || j.kind != Kind::ResizeRemove)) {
        lemma_push(j, es, Event::Done);
        lemma_push(j, es.push(Event::Done), Event::Worker(o));
    }
    if s == Step::Run(VmTask::Stop) {
        lemma_push(j, es, Event::Done);
    }
}

/// A worker's access is removed only while it does not run and, where its data is to be
/// kept, behind a backup that is still as it was verified.
#[verifier::rlimit(60)]
pub proof fn access_goes_from_a_stopped_worker(j: Job, w: Sight, rest: Seq<Event>)
    requires
        !at_rest(j),
        j.phase == Phase::Reset,
    ensures
        ({
            let es = run(w, rest);
            let s = asked(j, es);
            &&& s == Step::Heartbeat
                ==> asked(j, es.push(Event::Done))
                    == (if w.running { Step::HoldRefusal(Refusal::ResetNeedsStop) } else { if j.kind == Kind::ResizeRemove { if j.has_backup { Step::VerifyBackup } else { Step::HoldRefusal(Refusal::NoVerifiedBackup) } } else { Step::Ask(Route::Reset) } })
            &&& s == Step::VerifyBackup
                ==> asked(j, es.push(Event::Done)) == (Step::Ask(Route::Reset))
            &&& s == Step::Ask(Route::Reset)
                ==> asked(j, es.push(Event::Done))
                    == (Step::SaveStorage(StorageSave::MaintenancePhase(Phase::Delete)))
        }),
{
    lemma_run(j, w, rest);
    let es = run(w, rest);
    let s = asked(j, es);
    let m = reached(j, es);
    if s == Step::Heartbeat {
        lemma_push(j, es, Event::Done);
    }
    if s == Step::VerifyBackup {
        lemma_push(j, es, Event::Done);
    }
    if s == Step::Ask(Route::Reset) {
        lemma_push(j, es, Event::Done);
    }
}

/// What is replaced goes only while the worker does not run and, where its data is to be
/// kept, behind a backup that is still as it was verified. The previous disks await
/// removal on record before the first goes; each that is gone is recorded before the
/// next one, and none is passed by unless it is not there and need not be kept.
#[verifier::rlimit(60)]
pub proof fn disks_are_deleted_one_by_one(j: Job, w: Sight, rest: Seq<Event>, i: usize)
    requires
        !at_rest(j),
        j.phase == Phase::Delete,
    ensures
        ({
            let es = run(w, rest);
            let s = asked(j, es);
            let over = Step::SaveStorage(StorageSave::MaintenancePhase(if j.kind
                == Kind::DeleteAll { Phase::Cleanup } else { Phase::Create }));
            let dismantle = if (j.provider
                == VmProvider::Multipass || j.kind != Kind::ResizeRemove) { Step::Run(VmTask::Remove) } else { Step::DetachDisks };
            &&& s == Step::Heartbeat
                ==> asked(j, es.push(Event::Done))
                    == (if w.running { Step::HoldRefusal(Refusal::DeleteNeedsStop) } else { if j.kind == Kind::ResizeRemove { if j.has_backup { Step::VerifyBackup } else { Step::HoldRefusal(Refusal::NoVerifiedBackup) } } else { dismantle } })
            &&& s == Step::VerifyBackup
                ==> asked(j, es.push(Event::Done)) == (if j.provider == VmProvider::Multipass
                    && w.installed { Step::ReplacementSpace } else { dismantle })
            &&& s == Step::ReplacementSpace ==> asked(j, es.push(Event::Done)) == (dismantle)
            &&& s == dismantle
                ==> asked(j, es.push(Event::Done))
                    == (if j.provider
                        == VmProvider::Lima { Step::SaveStorage(StorageSave::PreviousRetired) } else { over })
            &&& s == Step::SaveStorage(StorageSave::PreviousRetired)
                ==> asked(j, es.push(Event::Done))
                    == (if 0 < j.previous { Step::DiskPresent(0) } else { over })
            &&& s == Step::DiskPresent(i)
                ==> asked(j, es.push(Event::Answer(true))) == (Step::RemoveDisk(i))
            &&& s == Step::DiskPresent(i) && j.kind == Kind::ResizeRemove
                ==> asked(j, es.push(Event::Answer(false))) == (Step::RemoveDisk(i))
            &&& s == Step::DiskPresent(i) && j.kind != Kind::ResizeRemove
                ==> asked(j, es.push(Event::Answer(false)))
                    == (if ((i + 1) as usize) < j.previous { Step::DiskPresent((i + 1) as usize) } else { over })
            &&& s == Step::RemoveDisk(i)
                ==> asked(j, es.push(Event::Done))
                    == (Step::SaveStorage(StorageSave::DiskRemoved(i)))
            &&& s == Step::SaveStorage(StorageSave::DiskRemoved(i))
                ==> asked(j, es.push(Event::Done))
                    == (if ((i + 1) as usize) < j.previous { Step::DiskPresent((i + 1) as usize) } else { over })
        }),
{
    lemma_run(j, w, rest);
    let es = run(w, rest);
    let s = asked(j, es);
    let m = reached(j, es);
    let dismantle = if (j.provider
        == VmProvider::Multipass || j.kind != Kind::ResizeRemove) { Step::Run(VmTask::Remove) } else { Step::DetachDisks };
    if s == Step::Heartbeat {
        lemma_push(j, es, Event::Done);
    }
    if s == Step::VerifyBackup {
        lemma_push(j, es, Event::Done);
    }
    if s == Step::ReplacementSpace {
        lemma_push(j, es, Event::Done);
    }
    if s == dismantle {
        lemma_push(j, es, Event::Done);
    }
    if s == Step::SaveStorage(StorageSave::PreviousRetired) {
        lemma_push(j, es, Event::Done);
    }
    if s == Step::DiskPresent(i) {
        lemma_push(j, es, Event::Answer(true));
    }
    if s == Step::DiskPresent(i) && j.kind == Kind::ResizeRemove {
        lemma_push(j, es, Event::Answer(false));
    }
    if s == Step::DiskPresent(i) && j.kind != Kind::ResizeRemove {
        lemma_push(j, es, Event::Answer(false));
    }
    if s == Step::RemoveDisk(i) {
        lemma_push(j, es, Event::Done);
    }
    if s == Step::SaveStorage(StorageSave::DiskRemoved(i)) {
        lemma_push(j, es, Event::Done);
    }
}

/// A replacement gets every new disk, in order, before its worker is made on them or
/// configured for them, and its pool is laid on them. One with a single disk is made with
/// the resources that the maintenance grants.
#[verifier::rlimit(60)]
pub proof fn replacements_are_made_whole(j: Job, w: Sight, rest: Seq<Event>, i: usize)
    requires
        !at_rest(j),
        j.phase == Phase::Create,
    ensures
        ({
            let es = run(w, rest);
            let s = asked(j, es);
            let over = Step::SaveStorage(StorageSave::MaintenancePhase(if j.kind
                == Kind::ResizeRemove { Phase::Restore } else { Phase::Verify }));
            let placed = if j.provider
                == VmProvider::Lima { if w.running { Step::Run(VmTask::PrepareStorage) } else { if 0 < j.targets { Step::CreateDisk(0) } else { if w.installed { Step::ConfigureStorage } else { Step::CreateWithStorage } } } } else { if !w.installed { Step::Run(VmTask::Create(j.resources)) } else { if !w.running { Step::Run(VmTask::Start) } else { over } } };
            &&& s == Step::Heartbeat
                ==> asked(j, es.push(Event::Done))
                    == (if j.kind
                        == Kind::ResizeRemove { if j.has_backup { Step::VerifyBackup } else { Step::HoldRefusal(Refusal::NoVerifiedBackup) } } else { placed })
            &&& s == Step::VerifyBackup ==> asked(j, es.push(Event::Done)) == (placed)
            &&& s == Step::CreateDisk(i)
                ==> asked(j, es.push(Event::Done))
                    == (if ((i + 1) as usize) < j.targets { Step::CreateDisk((i + 1) as usize) } else { if w.installed { Step::ConfigureStorage } else { Step::CreateWithStorage } })
            &&& s == Step::ConfigureStorage
                ==> asked(j, es.push(Event::Done)) == (Step::Run(VmTask::Start))
            &&& (j.provider == VmProvider::Lima
                && (s == Step::CreateWithStorage || s == Step::Run(VmTask::Start)))
                    ==> asked(j, es.push(Event::Done)) == (Step::Run(VmTask::PrepareStorage))
            &&& s == Step::Run(VmTask::PrepareStorage)
                ==> asked(j, es.push(Event::Done)) == (Step::Pool(PoolTask::Apply))
            &&& s == Step::Pool(PoolTask::Apply) ==> asked(j, es.push(Event::Done)) == (over)
            &&& (j.provider == VmProvider::Multipass
                && (s == Step::Run(VmTask::Start) || s == Step::Run(VmTask::Create(j.resources))))
                    ==> asked(j, es.push(Event::Done)) == (over)
        }),
{
    lemma_run(j, w, rest);
    let es = run(w, rest);
    let s = asked(j, es);
    let m = reached(j, es);
    if s == Step::Heartbeat {
        lemma_push(j, es, Event::Done);
    }
    if s == Step::VerifyBackup {
        lemma_push(j, es, Event::Done);
    }
    if s == Step::CreateDisk(i) {
        lemma_push(j, es, Event::Done);
    }
    if s == Step::ConfigureStorage {
        lemma_push(j, es, Event::Done);
    }
    if j.provider == VmProvider::Lima
        && (s == Step::CreateWithStorage || s == Step::Run(VmTask::Start)) {
        lemma_push(j, es, Event::Done);
    }
    if s == Step::Run(VmTask::PrepareStorage) {
        lemma_push(j, es, Event::Done);
    }
    if s == Step::Pool(PoolTask::Apply) {
        lemma_push(j, es, Event::Done);
    }
    if j.provider == VmProvider::Multipass
        && (s == Step::Run(VmTask::Start) || s == Step::Run(VmTask::Create(j.resources))) {
        lemma_push(j, es, Event::Done);
    }
}

/// Data is restored to a running worker from a backup that is still as it was
/// verified.
#[verifier::rlimit(60)]
pub proof fn data_is_restored_from_the_verified_backup(j: Job, w: Sight, rest: Seq<Event>)
    requires
        !at_rest(j),
        j.phase == Phase::Restore,
    ensures
        ({
            let es = run(w, rest);
            let s = asked(j, es);
            &&& s == Step::Heartbeat
                ==> asked(j, es.push(Event::Done))
                    == (if j.has_backup { Step::VerifyBackup } else { Step::HoldRefusal(Refusal::NoVerifiedBackup) })
            &&& s == Step::VerifyBackup
                ==> asked(j, es.push(Event::Done))
                    == (if w.running { Step::Stream(Archive::Restore) } else { Step::Run(VmTask::Start) })
            &&& s == Step::Run(VmTask::Start)
                ==> asked(j, es.push(Event::Done)) == (Step::Stream(Archive::Restore))
            &&& s == Step::Stream(Archive::Restore)
                ==> asked(j, es.push(Event::Done))
                    == (Step::SaveStorage(StorageSave::MaintenancePhase(Phase::Verify)))
        }),
{
    lemma_run(j, w, rest);
    let es = run(w, rest);
    let s = asked(j, es);
    let m = reached(j, es);
    if s == Step::Heartbeat {
        lemma_push(j, es, Event::Done);
    }
    if s == Step::VerifyBackup {
        lemma_push(j, es, Event::Done);
    }
    if s == Step::Run(VmTask::Start) {
        lemma_push(j, es, Event::Done);
    }
    if s == Step::Stream(Archive::Restore) {
        lemma_push(j, es, Event::Done);
    }
}

/// Data that was to be kept is compared with its backup on the replacement, and a
/// replacement with selected disks has its pool checked, before it gets its place in the
/// fleet.
#[verifier::rlimit(60)]
pub proof fn restored_data_is_compared(j: Job, w: Sight, rest: Seq<Event>)
    requires
        !at_rest(j),
        j.phase == Phase::Verify,
    ensures
        ({
            let es = run(w, rest);
            let s = asked(j, es);
            let streamed = if j.provider
                == VmProvider::Lima { Step::Pool(PoolTask::Restored) } else { Step::SaveStorage(StorageSave::MaintenancePhase(Phase::Bootstrap)) };
            &&& s == Step::Heartbeat
                ==> asked(j, es.push(Event::Done))
                    == (if !w.running { Step::Run(VmTask::Start) } else { if j.kind
                        == Kind::ResizeRemove { if j.has_backup { Step::VerifyBackup } else { Step::HoldRefusal(Refusal::NoVerifiedBackup) } } else { streamed } })
            &&& s == Step::Run(VmTask::Start)
                ==> asked(j, es.push(Event::Done))
                    == (if j.kind
                        == Kind::ResizeRemove { if j.has_backup { Step::VerifyBackup } else { Step::HoldRefusal(Refusal::NoVerifiedBackup) } } else { streamed })
            &&& s == Step::VerifyBackup
                ==> asked(j, es.push(Event::Done)) == (Step::Stream(Archive::Verify))
            &&& s == Step::Stream(Archive::Verify) ==> asked(j, es.push(Event::Done)) == (streamed)
            &&& s == Step::Pool(PoolTask::Restored)
                ==> asked(j, es.push(Event::Done)) == (Step::Pool(PoolTask::Check))
            &&& s == Step::Pool(PoolTask::Check)
                ==> asked(j, es.push(Event::Done)) == (Step::CheckPool)
            &&& s == Step::CheckPool
                ==> asked(j, es.push(Event::Done))
                    == (Step::SaveStorage(StorageSave::MaintenancePhase(Phase::Bootstrap)))
        }),
{
    lemma_run(j, w, rest);
    let es = run(w, rest);
    let s = asked(j, es);
    let m = reached(j, es);
    if s == Step::Heartbeat {
        lemma_push(j, es, Event::Done);
    }
    if s == Step::Run(VmTask::Start) {
        lemma_push(j, es, Event::Done);
    }
    if s == Step::VerifyBackup {
        lemma_push(j, es, Event::Done);
    }
    if s == Step::Stream(Archive::Verify) {
        lemma_push(j, es, Event::Done);
    }
    if s == Step::Pool(PoolTask::Restored) {
        lemma_push(j, es, Event::Done);
    }
    if s == Step::Pool(PoolTask::Check) {
        lemma_push(j, es, Event::Done);
    }
    if s == Step::CheckPool {
        lemma_push(j, es, Event::Done);
    }
}

/// A replacement is configured with access that was asked for in the same run. A single
/// disk that was restored loses its old credentials first.
#[verifier::rlimit(60)]
pub proof fn replacements_join_with_fresh_access(j: Job, w: Sight, rest: Seq<Event>)
    requires
        !at_rest(j),
        j.phase == Phase::Bootstrap,
    ensures
        ({
            let es = run(w, rest);
            let s = asked(j, es);
            let join = if j.provider
                == VmProvider::Multipass { Step::Run(VmTask::QuiesceStorage) } else { Step::Ask(Route::Bootstrap) };
            &&& s == Step::Heartbeat
                ==> asked(j, es.push(Event::Done))
                    == (if !w.running { Step::Run(VmTask::Start) } else { join })
            &&& s == Step::Run(VmTask::Start) ==> asked(j, es.push(Event::Done)) == (join)
            &&& s == Step::Run(VmTask::QuiesceStorage)
                ==> asked(j, es.push(Event::Done)) == (Step::Run(VmTask::ResetCredentials))
            &&& s == Step::Run(VmTask::ResetCredentials)
                ==> asked(j, es.push(Event::Done)) == (Step::Ask(Route::Bootstrap))
            &&& s == Step::Ask(Route::Bootstrap)
                ==> asked(j, es.push(Event::Done)) == (Step::Run(VmTask::Configure))
            &&& s == Step::Run(VmTask::Configure)
                ==> asked(j, es.push(Event::Done))
                    == (Step::SaveStorage(StorageSave::MaintenancePhase(Phase::Capacity)))
        }),
{
    lemma_run(j, w, rest);
    let es = run(w, rest);
    let s = asked(j, es);
    let m = reached(j, es);
    if s == Step::Heartbeat {
        lemma_push(j, es, Event::Done);
    }
    if s == Step::Run(VmTask::Start) {
        lemma_push(j, es, Event::Done);
    }
    if s == Step::Run(VmTask::QuiesceStorage) {
        lemma_push(j, es, Event::Done);
    }
    if s == Step::Run(VmTask::ResetCredentials) {
        lemma_push(j, es, Event::Done);
    }
    if s == Step::Ask(Route::Bootstrap) {
        lemma_push(j, es, Event::Done);
    }
    if s == Step::Run(VmTask::Configure) {
        lemma_push(j, es, Event::Done);
    }
}

/// A replacement runs under a lease while the controller confirms its capacity, and is
/// stopped after that.
#[verifier::rlimit(60)]
pub proof fn capacity_is_confirmed(j: Job, w: Sight, rest: Seq<Event>)
    requires
        !at_rest(j),
        j.phase == Phase::Capacity,
    ensures
        ({
            let es = run(w, rest);
            let s = asked(j, es);
            &&& s == Step::Heartbeat
                ==> asked(j, es.push(Event::Done))
                    == (if w.running { Step::Run(VmTask::RenewLease) } else { Step::Run(VmTask::Start) })
            &&& s == Step::Run(VmTask::Start)
                ==> asked(j, es.push(Event::Done)) == (Step::Run(VmTask::RenewLease))
            &&& s == Step::Run(VmTask::RenewLease)
                ==> asked(j, es.push(Event::Done)) == (Step::ReplacementCapacity)
            &&& s == Step::ReplacementCapacity
                ==> asked(j, es.push(Event::Done)) == (Step::Run(VmTask::Stop))
            &&& s == Step::Run(VmTask::Stop)
                ==> asked(j, es.push(Event::Done))
                    == (Step::SaveStorage(StorageSave::MaintenancePhase(Phase::Cleanup)))
        }),
{
    lemma_run(j, w, rest);
    let es = run(w, rest);
    let s = asked(j, es);
    let m = reached(j, es);
    if s == Step::Heartbeat {
        lemma_push(j, es, Event::Done);
    }
    if s == Step::Run(VmTask::Start) {
        lemma_push(j, es, Event::Done);
    }
    if s == Step::Run(VmTask::RenewLease) {
        lemma_push(j, es, Event::Done);
    }
    if s == Step::ReplacementCapacity {
        lemma_push(j, es, Event::Done);
    }
    if s == Step::Run(VmTask::Stop) {
        lemma_push(j, es, Event::Done);
    }
}

/// A maintenance is recorded as finished only while the worker does not run; then old
/// backups go and the owner is told what became of the storage.
#[verifier::rlimit(60)]
pub proof fn maintenance_ends_with_a_stopped_worker(j: Job, w: Sight, rest: Seq<Event>)
    requires
        !at_rest(j),
        j.phase == Phase::Cleanup,
    ensures
        ({
            let es = run(w, rest);
            let s = asked(j, es);
            &&& s == Step::Heartbeat
                ==> asked(j, es.push(Event::Done))
                    == (if w.running { Step::HoldRefusal(Refusal::CleanupNeedsStop) } else { Step::SaveStorage(StorageSave::MaintenanceFinished) })
            &&& s == Step::SaveStorage(StorageSave::MaintenanceFinished)
                ==> asked(j, es.push(Event::Done)) == (Step::CleanBackups)
            &&& s == Step::CleanBackups
                ==> asked(j, es.push(Event::Done))
                    == (Step::Tell(if j.kind
                        == Kind::DeleteAll { Notice::StorageDeleted } else { Notice::StorageVerified }))
            &&& (s == Step::Tell(Notice::StorageDeleted) || s
                == Step::Tell(Notice::StorageVerified))
                    ==> asked(j, es.push(Event::Done)) == (Step::Finish(Outcome::Done))
        }),
{
    lemma_run(j, w, rest);
    let es = run(w, rest);
    let s = asked(j, es);
    let m = reached(j, es);
    if s == Step::Heartbeat {
        lemma_push(j, es, Event::Done);
    }
    if s == Step::SaveStorage(StorageSave::MaintenanceFinished) {
        lemma_push(j, es, Event::Done);
    }
    if s == Step::CleanBackups {
        lemma_push(j, es, Event::Done);
    }
    if s == Step::Tell(Notice::StorageDeleted) || s == Step::Tell(Notice::StorageVerified) {
        lemma_push(j, es, Event::Done);
    }
}

/// A phase that was saved ends the run: the next one goes on with it.
#[verifier::rlimit(60)]
pub proof fn saved_phases_end_the_run(j: Job, w: Sight, rest: Seq<Event>, p: Phase)
    requires
        !at_rest(j),
    ensures
        ({
            let es = run(w, rest);
            let s = asked(j, es);
            &&& s == Step::SaveStorage(StorageSave::MaintenancePhase(p))
                ==> asked(j, es.push(Event::Done)) == (Step::Finish(Outcome::Done))
        }),
{
    lemma_run(j, w, rest);
    let es = run(w, rest);
    let s = asked(j, es);
    let m = reached(j, es);
    if s == Step::SaveStorage(StorageSave::MaintenancePhase(p)) {
        lemma_push(j, es, Event::Done);
    }
}

/// What a maintenance goes by is what is saved of it, and the grants that the owner
/// left it.
pub proof fn jobs_are_the_saved_maintenance(c: ConfigurationView)
    ensures
        job_of(c) is Some <==> c.storage_lifecycle.maintenance is Some,
        c.storage_lifecycle.maintenance matches Some(op) ==> {
            let j = job_of(c)->0;
            &&& j.kind == op.review.kind && j.phase == op.phase && j.provider == c.vm_provider
            &&& j.paused == op.paused && (j.failed <==> op.error is Some)
            &&& j.sharing == c.policy.enabled
            &&& j.recovery_enabled == c.storage_lifecycle.recovery_enabled
            &&& (j.has_backup <==> op.backup is Some)
            &&& (j.has_backup_location <==> op.review.backup is Some)
            &&& j.resources.disk_gib == op.total_gib
            &&& j.resources.cpus == c.policy.resources.cpus
            &&& j.resources.memory_mib == c.policy.resources.memory_mib
            &&& op.previous.len() <= usize::MAX ==> j.previous == op.previous.len()
            &&& op.target.len() <= usize::MAX ==> j.targets == op.target.len()
        },
{
}

} // verus!
