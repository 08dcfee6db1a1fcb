//! Whole runs of a storage change, seen from outside: which step follows which answer,
//! whatever the answers were before.
use crate::agent::steps::{
    DiskPlan, Event, Facts, Memory, Notice, Outcome, PoolTask, Refusal, Route, Save, Sight, Stage,
    Step, StorageSave, VmTask,
};
use crate::agent::storage_operations::{change_after, change_of, fresh_change, plan_for, Change,
    Changing, Point};
use crate::storage::{lemma_rank, LocationView};
use crate::store::ConfigurationView;
use vstd::prelude::*;

verus! {

/// A move of the machine.
#[verifier::opaque]
spec fn change_moved(t: Changing, e: Event) -> (Changing, Step) {
    change_after(t, e)
}

/// What is reached after these answers.
#[verifier::opaque]
pub open spec fn change_reached(g: Change, es: Seq<Event>) -> Changing
    decreases es.len(),
{
    if es.len() == 0 {
        fresh_change(Some(g))
    } else {
        change_after(change_reached(g, es.drop_last()), es.last()).0
    }
}

/// What is asked for after these answers.
#[verifier::opaque]
pub open spec fn change_asked(g: Change, es: Seq<Event>) -> Step
    recommends
        es.len() > 0,
{
    change_after(change_reached(g, es.drop_last()), es.last()).1
}

proof fn change_lemma_push(g: Change, es: Seq<Event>, e: Event)
    ensures
        change_reached(g, es.push(e)) == change_moved(change_reached(g, es), e).0,
        change_asked(g, es.push(e)) == change_moved(change_reached(g, es), e).1,
{
    reveal(change_reached);
    reveal(change_asked);
    reveal(change_moved);
    assert(es.push(e).drop_last() =~= es);
}

proof fn change_lemma_fresh(g: Change)
    ensures
        change_reached(g, Seq::empty()) == fresh_change(Some(g)),
{
    reveal(change_reached);
}

/// What is kept through a run, and the step that was asked for where it stands.
spec fn change_entered(t: Changing, g: Change, s: Step) -> bool {
    t.change == Some(g) && match t.at {
        Point::Start => false,
        Point::Receipt => s == Step::Receipt,
        Point::Ready => s == Step::Preflight && g.stage is Some,
        Point::Seen => s == Step::Inspect && g.stage is Some,
        Point::PausedTold => s == Step::Tell(Notice::MaintenancePaused) && g.paused,
        Point::PausedBeat => s == Step::Heartbeat && g.paused,
        Point::PausedCut => s == Step::Run(VmTask::StopNow) && g.paused,
        Point::PausedBegun => s == Step::Save(Save::BeginDrain) && g.paused,
        Point::PausedAsked => s == Step::Ask(Route::Drain) && g.paused,
        Point::PausedLease => s == Step::Run(VmTask::RenewLease) && g.paused,
        Point::PausedCounted => s == Step::CountReplied && g.paused,
        Point::PausedLoaded => s == Step::Load && g.paused,
        Point::PausedStopped => s == Step::Run(VmTask::Stop) && g.paused,
        Point::PausedCleared => s == Step::Save(Save::ClearDrain) && g.paused,
        Point::PausedEnd => s == Step::Tell(Notice::StorageChangePaused) && g.paused,
        Point::Told => s == Step::Tell(Notice::StorageMaintenance) && !g.paused,
        Point::Beaten => s == Step::Heartbeat && !g.paused,
        Point::Unheard => s == Step::Hold && !g.paused,
        Point::UnheardStopped => s == Step::Run(VmTask::StopNow) && !g.paused,
        Point::UnheardNoted => s == Step::Note(Memory::WorkerStopped) && !g.paused,
        Point::DiskValid => s == Step::ValidateDisk(t.disk) && t.disk < g.previous && !g.paused
            && g.stage == Some(Stage::Pending),
        Point::StorageValid => s == Step::ValidateStorage && !g.paused
            && g.stage == Some(Stage::Pending),
        Point::DrainAsked => s == Step::Ask(Route::Drain) && !g.paused
            && g.stage == Some(Stage::Pending),
        Point::PodsNoted => s == Step::Note(Memory::SystemPods) && !g.paused
            && g.stage == Some(Stage::Pending),
        Point::WaitTold => s == Step::Tell(Notice::StorageWaiting) && !g.paused
            && g.stage == Some(Stage::Pending),
        Point::DrainBegun => s == Step::Save(Save::BeginDrain) && !g.paused
            && g.stage == Some(Stage::Pending),
        Point::DrainLease => s == Step::Run(VmTask::RenewLease) && !g.paused
            && g.stage == Some(Stage::Pending),
        Point::DrainCounted => s == Step::CountReplied && !g.paused
            && g.stage == Some(Stage::Pending),
        Point::CountNoted => s == Step::Note(Memory::Counted) && !g.paused
            && g.stage == Some(Stage::Pending),
        Point::DrainLoaded => s == Step::Load && !g.paused && g.stage == Some(Stage::Pending),
        Point::Quiesced => s == Step::Run(VmTask::QuiesceStorage) && !g.paused
            && g.stage == Some(Stage::Pending),
        Point::Stopped => s == Step::Run(VmTask::Stop) && !g.paused
            && g.stage == Some(Stage::Pending),
        Point::DrainCleared => s == Step::Save(Save::ClearDrain) && !g.paused
            && g.stage == Some(Stage::Pending),
        Point::FilesTold => s == Step::Tell(Notice::StorageFiles) && !g.paused
            && g.stage == Some(Stage::Disks),
        Point::TargetsValid => s == Step::ValidateTargets && !g.paused
            && g.stage == Some(Stage::Disks),
        Point::Relocated => s == Step::RelocateRuntime && !g.paused
            && g.stage == Some(Stage::Disks),
        Point::DiskSeen => s == Step::InspectDisk(t.disk) && t.disk < g.targets && !g.paused
            && g.stage == Some(Stage::Disks),
        Point::DiskRelated => s == Step::RelateDisk(t.disk) && t.disk < g.targets && !g.paused
            && g.stage == Some(Stage::Disks),
        Point::DiskMade => (s == Step::CreateDisk(t.disk) || s == Step::GrowDisk(t.disk) || s
            == Step::GrowMoved(t.disk)) && t.disk < g.targets && !g.paused
                && g.stage == Some(Stage::Disks),
        Point::MovedSeen => s == Step::InspectMoved(t.disk) && t.disk < g.targets && !g.paused
            && g.stage == Some(Stage::Disks),
        Point::MoveStaged => s == Step::StageMove(t.disk) && t.disk < g.targets && !g.paused
            && g.stage == Some(Stage::Disks),
        Point::MoveCommitted => s == Step::CommitMove(t.disk) && t.disk < g.targets && !g.paused
            && g.stage == Some(Stage::Disks),
        Point::Configured => s == Step::ConfigureStorage && !g.paused
            && g.stage == Some(Stage::Disks),
        Point::ApplyTold => s == Step::Tell(Notice::StorageApplying) && !g.paused
            && g.stage == Some(Stage::Guest),
        Point::ChangedValid => s == Step::ValidateChanged && !g.paused
            && g.stage == Some(Stage::Guest),
        Point::GuestDiskSeen => s == Step::InspectDisk(t.disk) && t.disk < g.targets && !g.paused
            && g.stage == Some(Stage::Guest),
        Point::GuestStarted => s == Step::Run(VmTask::Start) && !g.paused
            && g.stage == Some(Stage::Guest),
        Point::GuestReady => s == Step::Run(VmTask::PrepareStorage) && !g.paused
            && g.stage == Some(Stage::Guest),
        Point::Applied => s == Step::Pool(PoolTask::Apply) && !g.paused
            && g.stage == Some(Stage::Guest),
        Point::Migrated => s == Step::Pool(PoolTask::Migrate) && !g.paused
            && g.stage == Some(Stage::Guest),
        Point::PoolRead => s == Step::Pool(PoolTask::Check) && !g.paused
            && g.stage == Some(Stage::Guest),
        Point::PoolChecked => s == Step::CheckPool && !g.paused && g.stage == Some(Stage::Guest),
        Point::Bootstrapped => s == Step::Ask(Route::Bootstrap) && !g.paused
            && g.stage == Some(Stage::Guest),
        Point::Joined => s == Step::Run(VmTask::Configure) && !g.paused
            && g.stage == Some(Stage::Guest),
        Point::Rechecked => s == Step::Pool(PoolTask::Check) && !g.paused
            && g.stage == Some(Stage::Guest),
        Point::GuestStopped => s == Step::Run(VmTask::Stop) && !g.paused
            && g.stage == Some(Stage::Guest),
        Point::Placed => s == Step::VerifyPlacement && !g.paused
            && g.stage == Some(Stage::Verified),
        Point::RelocationCleaned => s == Step::CleanRelocation && !g.paused
            && g.stage == Some(Stage::Verified),
        Point::Saved => s == Step::SaveStorage(StorageSave::OperationFinished) && !g.paused
            && g.stage == Some(Stage::Verified),
        Point::CopiesCleaned => s == Step::CleanCopies && !g.paused
            && g.stage == Some(Stage::Verified),
        Point::EndTold => s == Step::Tell(Notice::StorageUpdated) && !g.paused
            && g.stage == Some(Stage::Verified),
        Point::StageSaved => (s matches Step::SaveStorage(StorageSave::OperationStage(_))),
        Point::Over => s is Finish,
    }
}

/// What is kept through a run.
spec fn change_kept(t: Changing, g: Change) -> bool {
    t.change == Some(g)
}

#[verifier::rlimit(100)]
#[verifier::spinoff_prover]
proof fn change_lemma_enters(t: Changing, g: Change, s: Step, e: Event)
    requires
        change_kept(t, g),
        t.at == Point::Start || change_entered(t, g, s),
    ensures
        change_entered(change_moved(t, e).0, g, change_moved(t, e).1),
{
    reveal(change_moved);
    match t.at {
        Point::Receipt | Point::Ready | Point::Seen | Point::Told | Point::Beaten | Point::Unheard | Point::UnheardStopped | Point::UnheardNoted => {},
        Point::PausedTold | Point::PausedBeat | Point::PausedCut | Point::PausedBegun | Point::PausedAsked | Point::PausedLease | Point::PausedCounted | Point::PausedLoaded | Point::PausedStopped | Point::PausedCleared | Point::PausedEnd => {},
        Point::DiskValid | Point::StorageValid | Point::DrainAsked | Point::PodsNoted | Point::WaitTold | Point::DrainBegun | Point::DrainLease | Point::DrainCounted | Point::CountNoted | Point::DrainLoaded | Point::Quiesced | Point::Stopped | Point::DrainCleared | Point::StageSaved => {},
        Point::FilesTold | Point::TargetsValid | Point::Relocated | Point::DiskSeen | Point::DiskRelated | Point::DiskMade | Point::MovedSeen | Point::MoveStaged | Point::MoveCommitted | Point::Configured => {},
        Point::ApplyTold | Point::ChangedValid | Point::GuestDiskSeen | Point::GuestStarted | Point::GuestReady | Point::Applied | Point::Migrated | Point::PoolRead | Point::PoolChecked | Point::Bootstrapped | Point::Joined | Point::Rechecked | Point::GuestStopped => {},
        _ => {},
    }
}

proof fn change_lemma_run(g: Change, es: Seq<Event>)
    requires
        es.len() > 0,
    ensures
        change_entered(change_reached(g, es), g, change_asked(g, es)),
    decreases es.len(),
{
    let less = es.drop_last();
    assert(es =~= less.push(es.last()));
    change_lemma_push(g, less, es.last());
    if less.len() == 0 {
        change_lemma_fresh(g);
        assert(less =~= Seq::empty());
    } else {
        change_lemma_run(g, less);
    }
    change_lemma_enters(change_reached(g, less), g, change_asked(g, less), es.last());
}

/// A storage change begins only on this computer's worker, for one to sixteen disks and a known stage, on a host that can run it.
pub proof fn changes_need_the_worker(g: Change)
    ensures
        change_asked(g, seq![Event::Begin]) == (Step::Receipt),
        change_asked(g, seq![Event::Begin].push(Event::Answer(false)))
            == (Step::Finish(Outcome::Refused(Refusal::NoReceipt))),
        (g.targets == 0 || g.targets > 16 || g.stage is None)
            ==> change_asked(g, seq![Event::Begin].push(Event::Answer(true)))
                == (Step::Finish(Outcome::Refused(Refusal::InvalidOperation))),
        0 < g.targets <= 16 && g.stage is Some
            ==> change_asked(g, seq![Event::Begin].push(Event::Answer(true))) == (Step::Preflight),
{
    let none = Seq::<Event>::empty();
    assert(none.push(Event::Begin) =~= seq![Event::Begin]);
    change_lemma_fresh(g);
    change_lemma_push(g, none, Event::Begin);
    change_lemma_push(g, seq![Event::Begin], Event::Answer(false));
    change_lemma_push(g, seq![Event::Begin], Event::Answer(true));
    change_lemma_push(g, seq![Event::Begin], Event::Answer(true));
    reveal(change_moved);
}

proof fn lemma_changes_are_announced_0(t: Changing, g: Change, o: Sight)
    requires
        t.at == Point::Ready,
        change_kept(t, g),
        g.stage is Some,
    ensures
        ({
            &&& change_moved(t, Event::Done).1 == (Step::Inspect)
        }),
{
    reveal(change_moved);
}

proof fn lemma_changes_are_announced_1(t: Changing, g: Change, o: Sight)
    requires
        t.at == Point::Seen,
        change_kept(t, g),
        g.stage is Some,
    ensures
        ({
            &&& change_moved(t, Event::Worker(o)).1
                == (if !o.installed { Step::Finish(Outcome::Refused(Refusal::WorkerUnavailable)) } else { if g.paused { Step::Tell(Notice::MaintenancePaused) } else { Step::Tell(Notice::StorageMaintenance) } })
            &&& change_moved(t, Event::Worker(o)).0.worker == o
        }),
{
    reveal(change_moved);
}

proof fn lemma_changes_are_announced_2(t: Changing, g: Change, o: Sight)
    requires
        t.at == Point::Told,
        change_kept(t, g),
        !g.paused,
    ensures
        ({
            &&& change_moved(t, Event::Done).1 == (Step::Heartbeat)
        }),
{
    reveal(change_moved);
}

proof fn lemma_changes_are_announced_3(t: Changing, g: Change, o: Sight)
    requires
        t.at == Point::Beaten,
        change_kept(t, g),
        !g.paused,
    ensures
        ({
            let begins = if g.stage
                == Some(Stage::Pending) { if g.moves_vm { if 0 < g.previous { Step::ValidateDisk(0) } else { Step::Ask(Route::Drain) } } else { Step::ValidateStorage } } else { if g.stage == Some(Stage::Disks) { if t.worker.stopped { Step::Tell(Notice::StorageFiles) } else { Step::Finish(Outcome::Refused(Refusal::FilesNeedStop)) } } else { if g.stage == Some(Stage::Guest) { Step::Tell(Notice::StorageApplying) } else { if !t.worker.stopped { Step::Finish(Outcome::Refused(Refusal::CompletionNeedsStop)) } else { if g.has_layout { Step::VerifyPlacement } else { Step::CleanRelocation } } } } };
            &&& g.stage is Some ==> change_moved(t, Event::Done).1 == (begins)
            &&& change_moved(t, Event::Failed).1 == (Step::Hold)
            &&& change_moved(change_moved(t, Event::Failed).0, Event::Done).1
                == (if t.worker.running { Step::Run(VmTask::StopNow) } else { Step::Finish(Outcome::Held) })
            &&& t.worker.running
                ==> change_moved(change_moved(change_moved(t, Event::Failed).0, Event::Done).0,
                    Event::Done).1 == (Step::Note(Memory::WorkerStopped))
            &&& t.worker.running
                ==> change_moved(change_moved(change_moved(change_moved(t, Event::Failed).0,
                    Event::Done).0, Event::Done).0, Event::Done).1 == (Step::Finish(Outcome::Held))
        }),
{
    reveal(change_moved);
}

proof fn lemma_changes_are_announced_4(t: Changing, g: Change, o: Sight)
    requires
        t.at == Point::StageSaved,
        change_kept(t, g),
    ensures
        ({
            &&& change_moved(t, Event::Done).1 == (Step::Finish(Outcome::Done))
        }),
{
    reveal(change_moved);
}

/// The owner and the controller hear of a storage change before it goes on. One that the
/// controller did not hear of leaves the worker stopped. Disks are worked on, and a change
/// is completed, only while the worker is stopped.
pub proof fn changes_are_announced(g: Change, es: Seq<Event>, o: Sight)
    requires
        es.len() > 0,
    ensures
        ({
            let s = change_asked(g, es);
            let t = change_reached(g, es);
            let begins = if g.stage
                == Some(Stage::Pending) { if g.moves_vm { if 0 < g.previous { Step::ValidateDisk(0) } else { Step::Ask(Route::Drain) } } else { Step::ValidateStorage } } else { if g.stage == Some(Stage::Disks) { if t.worker.stopped { Step::Tell(Notice::StorageFiles) } else { Step::Finish(Outcome::Refused(Refusal::FilesNeedStop)) } } else { if g.stage == Some(Stage::Guest) { Step::Tell(Notice::StorageApplying) } else { if !t.worker.stopped { Step::Finish(Outcome::Refused(Refusal::CompletionNeedsStop)) } else { if g.has_layout { Step::VerifyPlacement } else { Step::CleanRelocation } } } } };
            &&& s == Step::Preflight ==> change_asked(g, es.push(Event::Done)) == (Step::Inspect)
            &&& s == Step::Inspect
                ==> change_asked(g, es.push(Event::Worker(o)))
                    == (if !o.installed { Step::Finish(Outcome::Refused(Refusal::WorkerUnavailable)) } else { if g.paused { Step::Tell(Notice::MaintenancePaused) } else { Step::Tell(Notice::StorageMaintenance) } })
            &&& s == Step::Inspect ==> change_reached(g, es.push(Event::Worker(o))).worker == o
            &&& s == Step::Tell(Notice::StorageMaintenance)
                ==> change_asked(g, es.push(Event::Done)) == (Step::Heartbeat)
            &&& s == Step::Heartbeat && !g.paused && g.stage is Some
                ==> change_asked(g, es.push(Event::Done)) == (begins)
            &&& s == Step::Heartbeat && !g.paused
                ==> change_asked(g, es.push(Event::Failed)) == (Step::Hold)
            &&& s == Step::Heartbeat && !g.paused
                ==> change_asked(g, es.push(Event::Failed).push(Event::Done))
                    == (if t.worker.running { Step::Run(VmTask::StopNow) } else { Step::Finish(Outcome::Held) })
            &&& s == Step::Heartbeat && !g.paused && t.worker.running
                ==> change_asked(g, es.push(Event::Failed).push(Event::Done).push(Event::Done))
                    == (Step::Note(Memory::WorkerStopped))
            &&& s == Step::Heartbeat && !g.paused && t.worker.running
                ==> change_asked(g,
                    es.push(Event::Failed).push(Event::Done).push(Event::Done).push(Event::Done))
                        == (Step::Finish(Outcome::Held))
            &&& (s == Step::SaveStorage(StorageSave::OperationStage(Stage::Disks)) || s
                == Step::SaveStorage(StorageSave::OperationStage(Stage::Guest)) || s
                    == Step::SaveStorage(StorageSave::OperationStage(Stage::Verified)))
                        ==> change_asked(g, es.push(Event::Done)) == (Step::Finish(Outcome::Done))
        }),
{
    change_lemma_run(g, es);
    let s = change_asked(g, es);
    let t = change_reached(g, es);
    if s == Step::Preflight {
        lemma_changes_are_announced_0(t, g, o);
        change_lemma_push(g, es, Event::Done);
    }
    if s == Step::Inspect {
        lemma_changes_are_announced_1(t, g, o);
        change_lemma_push(g, es, Event::Worker(o));
    }
    if s == Step::Tell(Notice::StorageMaintenance) {
        lemma_changes_are_announced_2(t, g, o);
        change_lemma_push(g, es, Event::Done);
    }
    if s == Step::Heartbeat && !g.paused {
        lemma_changes_are_announced_3(t, g, o);
        change_lemma_push(g, es, Event::Done);
        change_lemma_push(g, es, Event::Failed);
        change_lemma_push(g, es.push(Event::Failed), Event::Done);
        change_lemma_push(g, es.push(Event::Failed).push(Event::Done), Event::Done);
        change_lemma_push(g, es.push(Event::Failed).push(Event::Done).push(Event::Done),
            Event::Done);
    }
    if s == Step::SaveStorage(StorageSave::OperationStage(Stage::Disks)) || s
        == Step::SaveStorage(StorageSave::OperationStage(Stage::Guest)) || s
            == Step::SaveStorage(StorageSave::OperationStage(Stage::Verified)) {
        lemma_changes_are_announced_4(t, g, o);
        change_lemma_push(g, es, Event::Done);
    }
}

proof fn lemma_paused_changes_let_the_worker_rest_0(t: Changing, g: Change, f: Facts, h: Facts,
    n: usize)
    requires
        t.at == Point::PausedTold,
        change_kept(t, g),
        g.paused,
    ensures
        ({
            &&& change_moved(t, Event::Done).1 == (Step::Heartbeat)
        }),
{
    reveal(change_moved);
}

proof fn lemma_paused_changes_let_the_worker_rest_1(t: Changing, g: Change, f: Facts, h: Facts,
    n: usize)
    requires
        t.at == Point::PausedBeat,
        change_kept(t, g),
        g.paused,
    ensures
        ({
            let stops = Step::Run(VmTask::Stop);
            &&& change_moved(t, Event::Done).1
                == (if !t.worker.running { Step::Tell(Notice::StorageChangePaused) } else { if g.stage == Some(Stage::Pending) { Step::Save(Save::BeginDrain) } else { stops } })
            &&& change_moved(t, Event::Failed).1
                == (if !t.worker.running { Step::Tell(Notice::StorageChangePaused) } else { if g.stage == Some(Stage::Pending) { Step::Run(VmTask::StopNow) } else { stops } })
        }),
{
    reveal(change_moved);
}

proof fn lemma_paused_changes_let_the_worker_rest_2(t: Changing, g: Change, f: Facts, h: Facts,
    n: usize)
    requires
        t.at == Point::PausedBegun,
        change_kept(t, g),
        g.paused,
    ensures
        ({
            &&& change_moved(t, Event::Settings(h)).1 == (Step::Ask(Route::Drain))
        }),
{
    reveal(change_moved);
}

proof fn lemma_paused_changes_let_the_worker_rest_3(t: Changing, g: Change, f: Facts, h: Facts,
    n: usize)
    requires
        t.at == Point::PausedAsked,
        change_kept(t, g),
        g.paused,
    ensures
        ({
            &&& change_moved(t, Event::Done).1
                == (if t.worker.reachable { Step::Run(VmTask::RenewLease) } else { Step::Finish(Outcome::Done) })
        }),
{
    reveal(change_moved);
}

proof fn lemma_paused_changes_let_the_worker_rest_4(t: Changing, g: Change, f: Facts, h: Facts,
    n: usize)
    requires
        t.at == Point::PausedLease,
        change_kept(t, g),
        g.paused,
    ensures
        ({
            &&& change_moved(t, Event::Done).1 == (Step::CountReplied)
        }),
{
    reveal(change_moved);
}

proof fn lemma_paused_changes_let_the_worker_rest_5(t: Changing, g: Change, f: Facts, h: Facts,
    n: usize)
    requires
        t.at == Point::PausedCounted,
        change_kept(t, g),
        g.paused,
    ensures
        ({
            let stops = Step::Run(VmTask::Stop);
            &&& change_moved(t, Event::Workloads(n)).1 == (if n == 0 { stops } else { Step::Load })
        }),
{
    reveal(change_moved);
}

proof fn lemma_paused_changes_let_the_worker_rest_6(t: Changing, g: Change, f: Facts, h: Facts,
    n: usize)
    requires
        t.at == Point::PausedLoaded,
        change_kept(t, g),
        g.paused,
    ensures
        ({
            let stops = Step::Run(VmTask::Stop);
            &&& change_moved(t, Event::Settings(f)).1 == (if (f.draining_since is Some
                && (f.now >= f.draining_since->0 + f.drain_seconds || f.drain_seconds
                    == 0)) { stops } else { Step::Finish(Outcome::Done) })
        }),
{
    reveal(change_moved);
}

proof fn lemma_paused_changes_let_the_worker_rest_7(t: Changing, g: Change, f: Facts, h: Facts,
    n: usize)
    requires
        t.at == Point::PausedCut,
        change_kept(t, g),
        g.paused,
    ensures
        ({
            &&& change_moved(t, Event::Done).1 == (Step::Finish(Outcome::Done))
        }),
{
    reveal(change_moved);
}

proof fn lemma_paused_changes_let_the_worker_rest_8(t: Changing, g: Change, f: Facts, h: Facts,
    n: usize)
    requires
        t.at == Point::PausedStopped,
        change_kept(t, g),
        g.paused,
    ensures
        ({
            &&& change_moved(t, Event::Done).1 == (Step::Save(Save::ClearDrain))
        }),
{
    reveal(change_moved);
}

proof fn lemma_paused_changes_let_the_worker_rest_9(t: Changing, g: Change, f: Facts, h: Facts,
    n: usize)
    requires
        t.at == Point::PausedCleared,
        change_kept(t, g),
        g.paused,
    ensures
        ({
            &&& change_moved(t, Event::Settings(h)).1 == (Step::Tell(Notice::StorageChangePaused))
        }),
{
    reveal(change_moved);
}

proof fn lemma_paused_changes_let_the_worker_rest_10(t: Changing, g: Change, f: Facts, h: Facts,
    n: usize)
    requires
        t.at == Point::PausedEnd,
        change_kept(t, g),
        g.paused,
    ensures
        ({
            &&& change_moved(t, Event::Done).1 == (Step::Finish(Outcome::Done))
        }),
{
    reveal(change_moved);
}

/// A change that the owner paused stops the worker: at once where files may be half
/// changed, and through a drain where nothing was begun.
pub proof fn paused_changes_let_the_worker_rest(g: Change, es: Seq<Event>, f: Facts, h: Facts,
    n: usize)
    requires
        es.len() > 0,
    ensures
        ({
            let s = change_asked(g, es);
            let t = change_reached(g, es);
            let stops = Step::Run(VmTask::Stop);
            &&& s == Step::Tell(Notice::MaintenancePaused)
                ==> change_asked(g, es.push(Event::Done)) == (Step::Heartbeat)
            &&& s == Step::Heartbeat && g.paused
                ==> change_asked(g, es.push(Event::Done))
                    == (if !t.worker.running { Step::Tell(Notice::StorageChangePaused) } else { if g.stage == Some(Stage::Pending) { Step::Save(Save::BeginDrain) } else { stops } })
            &&& s == Step::Heartbeat && g.paused
                ==> change_asked(g, es.push(Event::Failed))
                    == (if !t.worker.running { Step::Tell(Notice::StorageChangePaused) } else { if g.stage == Some(Stage::Pending) { Step::Run(VmTask::StopNow) } else { stops } })
            &&& s == Step::Save(Save::BeginDrain) && g.paused
                ==> change_asked(g, es.push(Event::Settings(h))) == (Step::Ask(Route::Drain))
            &&& s == Step::Ask(Route::Drain) && g.paused
                ==> change_asked(g, es.push(Event::Done))
                    == (if t.worker.reachable { Step::Run(VmTask::RenewLease) } else { Step::Finish(Outcome::Done) })
            &&& s == Step::Run(VmTask::RenewLease) && g.paused
                ==> change_asked(g, es.push(Event::Done)) == (Step::CountReplied)
            &&& s == Step::CountReplied && g.paused
                ==> change_asked(g, es.push(Event::Workloads(n)))
                    == (if n == 0 { stops } else { Step::Load })
            &&& s == Step::Load && g.paused
                ==> change_asked(g, es.push(Event::Settings(f))) == (if (f.draining_since is Some
                    && (f.now >= f.draining_since->0 + f.drain_seconds || f.drain_seconds
                        == 0)) { stops } else { Step::Finish(Outcome::Done) })
            &&& s == Step::Run(VmTask::StopNow) && g.paused
                ==> change_asked(g, es.push(Event::Done)) == (Step::Finish(Outcome::Done))
            &&& s == Step::Run(VmTask::Stop) && g.paused
                ==> change_asked(g, es.push(Event::Done)) == (Step::Save(Save::ClearDrain))
            &&& s == Step::Save(Save::ClearDrain) && g.paused
                ==> change_asked(g, es.push(Event::Settings(h)))
                    == (Step::Tell(Notice::StorageChangePaused))
            &&& s == Step::Tell(Notice::StorageChangePaused)
                ==> change_asked(g, es.push(Event::Done)) == (Step::Finish(Outcome::Done))
        }),
{
    change_lemma_run(g, es);
    let s = change_asked(g, es);
    let t = change_reached(g, es);
    if s == Step::Tell(Notice::MaintenancePaused) {
        lemma_paused_changes_let_the_worker_rest_0(t, g, f, h, n);
        change_lemma_push(g, es, Event::Done);
    }
    if s == Step::Heartbeat && g.paused {
        lemma_paused_changes_let_the_worker_rest_1(t, g, f, h, n);
        change_lemma_push(g, es, Event::Done);
        change_lemma_push(g, es, Event::Failed);
    }
    if s == Step::Save(Save::BeginDrain) && g.paused {
        lemma_paused_changes_let_the_worker_rest_2(t, g, f, h, n);
        change_lemma_push(g, es, Event::Settings(h));
    }
    if s == Step::Ask(Route::Drain) && g.paused {
        lemma_paused_changes_let_the_worker_rest_3(t, g, f, h, n);
        change_lemma_push(g, es, Event::Done);
    }
    if s == Step::Run(VmTask::RenewLease) && g.paused {
        lemma_paused_changes_let_the_worker_rest_4(t, g, f, h, n);
        change_lemma_push(g, es, Event::Done);
    }
    if s == Step::CountReplied && g.paused {
        lemma_paused_changes_let_the_worker_rest_5(t, g, f, h, n);
        change_lemma_push(g, es, Event::Workloads(n));
    }
    if s == Step::Load && g.paused {
        lemma_paused_changes_let_the_worker_rest_6(t, g, f, h, n);
        change_lemma_push(g, es, Event::Settings(f));
    }
    if s == Step::Run(VmTask::StopNow) && g.paused {
        lemma_paused_changes_let_the_worker_rest_7(t, g, f, h, n);
        change_lemma_push(g, es, Event::Done);
    }
    if s == Step::Run(VmTask::Stop) && g.paused {
        lemma_paused_changes_let_the_worker_rest_8(t, g, f, h, n);
        change_lemma_push(g, es, Event::Done);
    }
    if s == Step::Save(Save::ClearDrain) && g.paused {
        lemma_paused_changes_let_the_worker_rest_9(t, g, f, h, n);
        change_lemma_push(g, es, Event::Settings(h));
    }
    if s == Step::Tell(Notice::StorageChangePaused) {
        lemma_paused_changes_let_the_worker_rest_10(t, g, f, h, n);
        change_lemma_push(g, es, Event::Done);
    }
}

proof fn lemma_changes_drain_before_they_begin_0(t: Changing, g: Change, f: Facts, h: Facts,
    n: usize, i: usize)
    requires
        t.at == Point::DiskValid,
        change_kept(t, g),
        t.disk < g.previous,
        !g.paused,
        g.stage == Some(Stage::Pending),
        t.disk == i,
    ensures
        ({
            &&& change_moved(t, Event::Done).1
                == (if ((i + 1) as usize) < g.previous { Step::ValidateDisk((i + 1) as usize) } else { Step::Ask(Route::Drain) })
        }),
{
    reveal(change_moved);
}

proof fn lemma_changes_drain_before_they_begin_1(t: Changing, g: Change, f: Facts, h: Facts,
    n: usize, i: usize)
    requires
        t.at == Point::StorageValid,
        change_kept(t, g),
        !g.paused,
        g.stage == Some(Stage::Pending),
    ensures
        ({
            &&& change_moved(t, Event::Done).1 == (Step::Ask(Route::Drain))
        }),
{
    reveal(change_moved);
}

proof fn lemma_changes_drain_before_they_begin_2(t: Changing, g: Change, f: Facts, h: Facts,
    n: usize, i: usize)
    requires
        t.at == Point::DrainAsked,
        change_kept(t, g),
        !g.paused,
        g.stage == Some(Stage::Pending),
    ensures
        ({
            &&& change_moved(t, Event::Done).1 == (Step::Note(Memory::SystemPods))
        }),
{
    reveal(change_moved);
}

proof fn lemma_changes_drain_before_they_begin_3(t: Changing, g: Change, f: Facts, h: Facts,
    n: usize, i: usize)
    requires
        t.at == Point::PodsNoted,
        change_kept(t, g),
        !g.paused,
        g.stage == Some(Stage::Pending),
    ensures
        ({
            &&& change_moved(t, Event::Done).1
                == (if t.worker.running { Step::Tell(Notice::StorageWaiting) } else { Step::Save(Save::ClearDrain) })
        }),
{
    reveal(change_moved);
}

proof fn lemma_changes_drain_before_they_begin_4(t: Changing, g: Change, f: Facts, h: Facts,
    n: usize, i: usize)
    requires
        t.at == Point::WaitTold,
        change_kept(t, g),
        !g.paused,
        g.stage == Some(Stage::Pending),
    ensures
        ({
            &&& change_moved(t, Event::Done).1 == (Step::Save(Save::BeginDrain))
        }),
{
    reveal(change_moved);
}

proof fn lemma_changes_drain_before_they_begin_5(t: Changing, g: Change, f: Facts, h: Facts,
    n: usize, i: usize)
    requires
        t.at == Point::DrainBegun,
        change_kept(t, g),
        !g.paused,
        g.stage == Some(Stage::Pending),
    ensures
        ({
            &&& change_moved(t, Event::Settings(h)).1
                == (if t.worker.reachable { Step::Run(VmTask::RenewLease) } else { Step::Finish(Outcome::Refused(Refusal::UninspectedChange)) })
        }),
{
    reveal(change_moved);
}

proof fn lemma_changes_drain_before_they_begin_6(t: Changing, g: Change, f: Facts, h: Facts,
    n: usize, i: usize)
    requires
        t.at == Point::DrainLease,
        change_kept(t, g),
        !g.paused,
        g.stage == Some(Stage::Pending),
    ensures
        ({
            &&& change_moved(t, Event::Done).1 == (Step::CountReplied)
        }),
{
    reveal(change_moved);
}

proof fn lemma_changes_drain_before_they_begin_7(t: Changing, g: Change, f: Facts, h: Facts,
    n: usize, i: usize)
    requires
        t.at == Point::DrainCounted,
        change_kept(t, g),
        !g.paused,
        g.stage == Some(Stage::Pending),
    ensures
        ({
            &&& change_moved(t, Event::Workloads(n)).1 == (Step::Note(Memory::Counted))
            &&& change_moved(change_moved(t, Event::Workloads(n)).0, Event::Done).1
                == (if n == 0 { Step::Run(VmTask::QuiesceStorage) } else { Step::Load })
        }),
{
    reveal(change_moved);
}

proof fn lemma_changes_drain_before_they_begin_8(t: Changing, g: Change, f: Facts, h: Facts,
    n: usize, i: usize)
    requires
        t.at == Point::DrainLoaded,
        change_kept(t, g),
        !g.paused,
        g.stage == Some(Stage::Pending),
    ensures
        ({
            &&& change_moved(t, Event::Settings(f)).1 == (if (f.draining_since is Some
                && (f.now >= f.draining_since->0 + f.drain_seconds || f.drain_seconds
                    == 0)) { Step::Run(VmTask::QuiesceStorage) } else { Step::Finish(Outcome::Done) })
        }),
{
    reveal(change_moved);
}

proof fn lemma_changes_drain_before_they_begin_9(t: Changing, g: Change, f: Facts, h: Facts,
    n: usize, i: usize)
    requires
        t.at == Point::Quiesced,
        change_kept(t, g),
        !g.paused,
        g.stage == Some(Stage::Pending),
    ensures
        ({
            &&& change_moved(t, Event::Done).1 == (Step::Run(VmTask::Stop))
        }),
{
    reveal(change_moved);
}

proof fn lemma_changes_drain_before_they_begin_10(t: Changing, g: Change, f: Facts, h: Facts,
    n: usize, i: usize)
    requires
        t.at == Point::Stopped,
        change_kept(t, g),
        !g.paused,
        g.stage == Some(Stage::Pending),
    ensures
        ({
            &&& change_moved(t, Event::Done).1 == (Step::Save(Save::ClearDrain))
        }),
{
    reveal(change_moved);
}

proof fn lemma_changes_drain_before_they_begin_11(t: Changing, g: Change, f: Facts, h: Facts,
    n: usize, i: usize)
    requires
        t.at == Point::DrainCleared,
        change_kept(t, g),
        !g.paused,
        g.stage == Some(Stage::Pending),
    ensures
        ({
            &&& change_moved(t, Event::Settings(h)).1
                == (Step::SaveStorage(StorageSave::OperationStage(Stage::Disks)))
        }),
{
    reveal(change_moved);
}

/// Before disks change, every disk of a VM that moves is checked, or the storage is; the
/// controller is asked to drain, running work is waited for until there is none or its
/// grace period is over, and the guest's storage is brought to rest before the worker
/// stops.
pub proof fn changes_drain_before_they_begin(g: Change, es: Seq<Event>, f: Facts, h: Facts,
    n: usize, i: usize)
    requires
        es.len() > 0,
    ensures
        ({
            let s = change_asked(g, es);
            let t = change_reached(g, es);
            &&& s == Step::ValidateDisk(i)
                ==> change_asked(g, es.push(Event::Done))
                    == (if ((i + 1) as usize) < g.previous { Step::ValidateDisk((i + 1) as usize) } else { Step::Ask(Route::Drain) })
            &&& s == Step::ValidateStorage
                ==> change_asked(g, es.push(Event::Done)) == (Step::Ask(Route::Drain))
            &&& s == Step::Ask(Route::Drain) && !g.paused
                ==> change_asked(g, es.push(Event::Done)) == (Step::Note(Memory::SystemPods))
            &&& s == Step::Note(Memory::SystemPods)
                ==> change_asked(g, es.push(Event::Done))
                    == (if t.worker.running { Step::Tell(Notice::StorageWaiting) } else { Step::Save(Save::ClearDrain) })
            &&& s == Step::Tell(Notice::StorageWaiting)
                ==> change_asked(g, es.push(Event::Done)) == (Step::Save(Save::BeginDrain))
            &&& s == Step::Save(Save::BeginDrain) && !g.paused
                ==> change_asked(g, es.push(Event::Settings(h)))
                    == (if t.worker.reachable { Step::Run(VmTask::RenewLease) } else { Step::Finish(Outcome::Refused(Refusal::UninspectedChange)) })
            &&& s == Step::Run(VmTask::RenewLease) && !g.paused
                ==> change_asked(g, es.push(Event::Done)) == (Step::CountReplied)
            &&& s == Step::CountReplied && !g.paused
                ==> change_asked(g, es.push(Event::Workloads(n))) == (Step::Note(Memory::Counted))
            &&& s == Step::CountReplied && !g.paused
                ==> change_asked(g, es.push(Event::Workloads(n)).push(Event::Done))
                    == (if n == 0 { Step::Run(VmTask::QuiesceStorage) } else { Step::Load })
            &&& s == Step::Load && !g.paused
                ==> change_asked(g, es.push(Event::Settings(f))) == (if (f.draining_since is Some
                    && (f.now >= f.draining_since->0 + f.drain_seconds || f.drain_seconds
                        == 0)) { Step::Run(VmTask::QuiesceStorage) } else { Step::Finish(Outcome::Done) })
            &&& s == Step::Run(VmTask::QuiesceStorage)
                ==> change_asked(g, es.push(Event::Done)) == (Step::Run(VmTask::Stop))
            &&& s == Step::Run(VmTask::Stop) && !g.paused && g.stage == Some(Stage::Pending)
                ==> change_asked(g, es.push(Event::Done)) == (Step::Save(Save::ClearDrain))
            &&& s == Step::Save(Save::ClearDrain) && !g.paused
                ==> change_asked(g, es.push(Event::Settings(h)))
                    == (Step::SaveStorage(StorageSave::OperationStage(Stage::Disks)))
        }),
{
    change_lemma_run(g, es);
    let s = change_asked(g, es);
    let t = change_reached(g, es);
    if s == Step::ValidateDisk(i) {
        lemma_changes_drain_before_they_begin_0(t, g, f, h, n, i);
        change_lemma_push(g, es, Event::Done);
    }
    if s == Step::ValidateStorage {
        lemma_changes_drain_before_they_begin_1(t, g, f, h, n, i);
        change_lemma_push(g, es, Event::Done);
    }
    if s == Step::Ask(Route::Drain) && !g.paused {
        lemma_changes_drain_before_they_begin_2(t, g, f, h, n, i);
        change_lemma_push(g, es, Event::Done);
    }
    if s == Step::Note(Memory::SystemPods) {
        lemma_changes_drain_before_they_begin_3(t, g, f, h, n, i);
        change_lemma_push(g, es, Event::Done);
    }
    if s == Step::Tell(Notice::StorageWaiting) {
        lemma_changes_drain_before_they_begin_4(t, g, f, h, n, i);
        change_lemma_push(g, es, Event::Done);
    }
    if s == Step::Save(Save::BeginDrain) && !g.paused {
        lemma_changes_drain_before_they_begin_5(t, g, f, h, n, i);
        change_lemma_push(g, es, Event::Settings(h));
    }
    if s == Step::Run(VmTask::RenewLease) && !g.paused {
        lemma_changes_drain_before_they_begin_6(t, g, f, h, n, i);
        change_lemma_push(g, es, Event::Done);
    }
    if s == Step::CountReplied && !g.paused {
        lemma_changes_drain_before_they_begin_7(t, g, f, h, n, i);
        change_lemma_push(g, es, Event::Workloads(n));
        change_lemma_push(g, es.push(Event::Workloads(n)), Event::Done);
    }
    if s == Step::Load && !g.paused {
        lemma_changes_drain_before_they_begin_8(t, g, f, h, n, i);
        change_lemma_push(g, es, Event::Settings(f));
    }
    if s == Step::Run(VmTask::QuiesceStorage) {
        lemma_changes_drain_before_they_begin_9(t, g, f, h, n, i);
        change_lemma_push(g, es, Event::Done);
    }
    if s == Step::Run(VmTask::Stop) && !g.paused && g.stage == Some(Stage::Pending) {
        lemma_changes_drain_before_they_begin_10(t, g, f, h, n, i);
        change_lemma_push(g, es, Event::Done);
    }
    if s == Step::Save(Save::ClearDrain) && !g.paused {
        lemma_changes_drain_before_they_begin_11(t, g, f, h, n, i);
        change_lemma_push(g, es, Event::Settings(h));
    }
}

proof fn lemma_every_disk_gets_to_its_place_0(t: Changing, g: Change, i: usize, moved_on: bool,
    grows: bool)
    requires
        t.at == Point::FilesTold,
        change_kept(t, g),
        !g.paused,
        g.stage == Some(Stage::Disks),
    ensures
        ({
            &&& change_moved(t, Event::Done).1 == (Step::ValidateTargets)
        }),
{
    reveal(change_moved);
}

proof fn lemma_every_disk_gets_to_its_place_1(t: Changing, g: Change, i: usize, moved_on: bool,
    grows: bool)
    requires
        t.at == Point::TargetsValid,
        change_kept(t, g),
        !g.paused,
        g.stage == Some(Stage::Disks),
    ensures
        ({
            &&& change_moved(t, Event::Done).1
                == (if g.has_layout { Step::RelocateRuntime } else { if 0 < g.targets { Step::InspectDisk(0) } else { Step::ConfigureStorage } })
        }),
{
    reveal(change_moved);
}

proof fn lemma_every_disk_gets_to_its_place_2(t: Changing, g: Change, i: usize, moved_on: bool,
    grows: bool)
    requires
        t.at == Point::Relocated,
        change_kept(t, g),
        !g.paused,
        g.stage == Some(Stage::Disks),
    ensures
        ({
            &&& change_moved(t, Event::Answer(moved_on)).1
                == (if moved_on { Step::Finish(Outcome::Done) } else { if 0 < g.targets { Step::InspectDisk(0) } else { Step::ConfigureStorage } })
        }),
{
    reveal(change_moved);
}

proof fn lemma_every_disk_gets_to_its_place_3(t: Changing, g: Change, i: usize, moved_on: bool,
    grows: bool)
    requires
        t.at == Point::DiskSeen,
        change_kept(t, g),
        t.disk < g.targets,
        !g.paused,
        g.stage == Some(Stage::Disks),
        t.disk == i,
    ensures
        ({
            &&& change_moved(t, Event::Done).1
                == (if ((i + 1) as usize) < g.targets { Step::InspectDisk((i + 1) as usize) } else { Step::ConfigureStorage })
            &&& change_moved(t, Event::Failed).1 == (Step::RelateDisk(i))
        }),
{
    reveal(change_moved);
}

proof fn lemma_every_disk_gets_to_its_place_4(t: Changing, g: Change, i: usize, moved_on: bool,
    grows: bool)
    requires
        t.at == Point::DiskRelated,
        change_kept(t, g),
        t.disk < g.targets,
        !g.paused,
        g.stage == Some(Stage::Disks),
        t.disk == i,
    ensures
        ({
            &&& change_moved(t, Event::Disk(DiskPlan::New)).1 == (Step::CreateDisk(i))
            &&& change_moved(t, Event::Disk(DiskPlan::Kept)).1 == (Step::GrowDisk(i))
            &&& change_moved(t, Event::Disk(DiskPlan::Moved(grows))).1 == (Step::InspectMoved(i))
            &&& change_moved(change_moved(t, Event::Disk(DiskPlan::Moved(grows))).0, Event::Done).1
                == (if grows { Step::GrowMoved(i) } else { if ((i + 1) as usize) < g.targets { Step::InspectDisk((i + 1) as usize) } else { Step::ConfigureStorage } })
            &&& change_moved(change_moved(t, Event::Disk(DiskPlan::Moved(grows))).0,
                Event::Failed).1 == (Step::StageMove(i))
            &&& change_moved(change_moved(change_moved(t, Event::Disk(DiskPlan::Moved(grows))).0,
                Event::Failed).0, Event::Done).1 == (Step::CommitMove(i))
            &&& change_moved(change_moved(change_moved(change_moved(t,
                Event::Disk(DiskPlan::Moved(grows))).0, Event::Failed).0, Event::Done).0,
                    Event::Done).1
                        == (if grows { Step::GrowMoved(i) } else { if ((i + 1) as usize) < g.targets { Step::InspectDisk((i + 1) as usize) } else { Step::ConfigureStorage } })
        }),
{
    reveal(change_moved);
}

proof fn lemma_every_disk_gets_to_its_place_5(t: Changing, g: Change, i: usize, moved_on: bool,
    grows: bool)
    requires
        t.at == Point::DiskMade,
        change_kept(t, g),
        t.disk < g.targets,
        !g.paused,
        g.stage == Some(Stage::Disks),
        t.disk == i,
    ensures
        ({
            &&& change_moved(t, Event::Done).1
                == (if ((i + 1) as usize) < g.targets { Step::InspectDisk((i + 1) as usize) } else { Step::ConfigureStorage })
        }),
{
    reveal(change_moved);
}

proof fn lemma_every_disk_gets_to_its_place_6(t: Changing, g: Change, i: usize, moved_on: bool,
    grows: bool)
    requires
        t.at == Point::Configured,
        change_kept(t, g),
        !g.paused,
        g.stage == Some(Stage::Disks),
    ensures
        ({
            &&& change_moved(t, Event::Done).1
                == (Step::SaveStorage(StorageSave::OperationStage(Stage::Guest)))
        }),
{
    reveal(change_moved);
}

/// Every disk of the change is brought to its place in order: one that is there already is
/// passed by; a new one is created, one that stays grows, and one that moves is staged and
/// committed, and grows where it should. Then the worker is configured for all of them.
pub proof fn every_disk_gets_to_its_place(g: Change, es: Seq<Event>, i: usize, moved_on: bool,
    grows: bool)
    requires
        es.len() > 0,
    ensures
        ({
            let s = change_asked(g, es);
            let t = change_reached(g, es);
            &&& s == Step::Tell(Notice::StorageFiles)
                ==> change_asked(g, es.push(Event::Done)) == (Step::ValidateTargets)
            &&& s == Step::ValidateTargets
                ==> change_asked(g, es.push(Event::Done))
                    == (if g.has_layout { Step::RelocateRuntime } else { if 0 < g.targets { Step::InspectDisk(0) } else { Step::ConfigureStorage } })
            &&& s == Step::RelocateRuntime
                ==> change_asked(g, es.push(Event::Answer(moved_on)))
                    == (if moved_on { Step::Finish(Outcome::Done) } else { if 0 < g.targets { Step::InspectDisk(0) } else { Step::ConfigureStorage } })
            &&& s == Step::InspectDisk(i) && g.stage == Some(Stage::Disks)
                ==> change_asked(g, es.push(Event::Done))
                    == (if ((i + 1) as usize) < g.targets { Step::InspectDisk((i + 1) as usize) } else { Step::ConfigureStorage })
            &&& s == Step::InspectDisk(i) && g.stage == Some(Stage::Disks)
                ==> change_asked(g, es.push(Event::Failed)) == (Step::RelateDisk(i))
            &&& s == Step::RelateDisk(i)
                ==> change_asked(g, es.push(Event::Disk(DiskPlan::New))) == (Step::CreateDisk(i))
            &&& s == Step::RelateDisk(i)
                ==> change_asked(g, es.push(Event::Disk(DiskPlan::Kept))) == (Step::GrowDisk(i))
            &&& s == Step::RelateDisk(i)
                ==> change_asked(g, es.push(Event::Disk(DiskPlan::Moved(grows))))
                    == (Step::InspectMoved(i))
            &&& s == Step::RelateDisk(i)
                ==> change_asked(g, es.push(Event::Disk(DiskPlan::Moved(grows))).push(Event::Done))
                    == (if grows { Step::GrowMoved(i) } else { if ((i + 1) as usize) < g.targets { Step::InspectDisk((i + 1) as usize) } else { Step::ConfigureStorage } })
            &&& s == Step::RelateDisk(i)
                ==> change_asked(g,
                    es.push(Event::Disk(DiskPlan::Moved(grows))).push(Event::Failed))
                        == (Step::StageMove(i))
            &&& s == Step::RelateDisk(i)
                ==> change_asked(g,
                    es.push(Event::Disk(DiskPlan::Moved(grows))).push(Event::Failed).push(Event::Done)) == (Step::CommitMove(i))
            &&& s == Step::RelateDisk(i)
                ==> change_asked(g,
                    es.push(Event::Disk(DiskPlan::Moved(grows))).push(Event::Failed).push(Event::Done).push(Event::Done)) == (if grows { Step::GrowMoved(i) } else { if ((i + 1) as usize) < g.targets { Step::InspectDisk((i + 1) as usize) } else { Step::ConfigureStorage } })
            &&& ((s == Step::CreateDisk(i) || s == Step::GrowDisk(i) || s == Step::GrowMoved(i)))
                ==> change_asked(g, es.push(Event::Done))
                    == (if ((i + 1) as usize) < g.targets { Step::InspectDisk((i + 1) as usize) } else { Step::ConfigureStorage })
            &&& s == Step::ConfigureStorage
                ==> change_asked(g, es.push(Event::Done))
                    == (Step::SaveStorage(StorageSave::OperationStage(Stage::Guest)))
        }),
{
    change_lemma_run(g, es);
    let s = change_asked(g, es);
    let t = change_reached(g, es);
    if s == Step::Tell(Notice::StorageFiles) {
        lemma_every_disk_gets_to_its_place_0(t, g, i, moved_on, grows);
        change_lemma_push(g, es, Event::Done);
    }
    if s == Step::ValidateTargets {
        lemma_every_disk_gets_to_its_place_1(t, g, i, moved_on, grows);
        change_lemma_push(g, es, Event::Done);
    }
    if s == Step::RelocateRuntime {
        lemma_every_disk_gets_to_its_place_2(t, g, i, moved_on, grows);
        change_lemma_push(g, es, Event::Answer(moved_on));
    }
    if s == Step::InspectDisk(i) && g.stage == Some(Stage::Disks) {
        lemma_every_disk_gets_to_its_place_3(t, g, i, moved_on, grows);
        change_lemma_push(g, es, Event::Done);
        change_lemma_push(g, es, Event::Failed);
    }
    if s == Step::RelateDisk(i) {
        lemma_every_disk_gets_to_its_place_4(t, g, i, moved_on, grows);
        change_lemma_push(g, es, Event::Disk(DiskPlan::New));
        change_lemma_push(g, es, Event::Disk(DiskPlan::Kept));
        change_lemma_push(g, es, Event::Disk(DiskPlan::Moved(grows)));
        change_lemma_push(g, es.push(Event::Disk(DiskPlan::Moved(grows))), Event::Done);
        change_lemma_push(g, es.push(Event::Disk(DiskPlan::Moved(grows))), Event::Failed);
        change_lemma_push(g, es.push(Event::Disk(DiskPlan::Moved(grows))).push(Event::Failed),
            Event::Done);
        change_lemma_push(g,
            es.push(Event::Disk(DiskPlan::Moved(grows))).push(Event::Failed).push(Event::Done), Event::Done);
    }
    if (s == Step::CreateDisk(i) || s == Step::GrowDisk(i) || s == Step::GrowMoved(i)) {
        lemma_every_disk_gets_to_its_place_5(t, g, i, moved_on, grows);
        change_lemma_push(g, es, Event::Done);
    }
    if s == Step::ConfigureStorage {
        lemma_every_disk_gets_to_its_place_6(t, g, i, moved_on, grows);
        change_lemma_push(g, es, Event::Done);
    }
}

proof fn lemma_pools_are_checked_on_every_disk_0(t: Changing, g: Change, i: usize)
    requires
        t.at == Point::ApplyTold,
        change_kept(t, g),
        !g.paused,
        g.stage == Some(Stage::Guest),
    ensures
        ({
            &&& change_moved(t, Event::Done).1 == (Step::ValidateChanged)
        }),
{
    reveal(change_moved);
}

proof fn lemma_pools_are_checked_on_every_disk_1(t: Changing, g: Change, i: usize)
    requires
        t.at == Point::ChangedValid,
        change_kept(t, g),
        !g.paused,
        g.stage == Some(Stage::Guest),
    ensures
        ({
            &&& change_moved(t, Event::Done).1
                == (if 0 < g.targets { Step::InspectDisk(0) } else { if t.worker.running { Step::Run(VmTask::PrepareStorage) } else { Step::Run(VmTask::Start) } })
        }),
{
    reveal(change_moved);
}

proof fn lemma_pools_are_checked_on_every_disk_2(t: Changing, g: Change, i: usize)
    requires
        t.at == Point::GuestDiskSeen,
        change_kept(t, g),
        t.disk < g.targets,
        !g.paused,
        g.stage == Some(Stage::Guest),
        t.disk == i,
    ensures
        ({
            &&& change_moved(t, Event::Done).1
                == (if ((i + 1) as usize) < g.targets { Step::InspectDisk((i + 1) as usize) } else { if t.worker.running { Step::Run(VmTask::PrepareStorage) } else { Step::Run(VmTask::Start) } })
        }),
{
    reveal(change_moved);
}

proof fn lemma_pools_are_checked_on_every_disk_3(t: Changing, g: Change, i: usize)
    requires
        t.at == Point::GuestStarted,
        change_kept(t, g),
        !g.paused,
        g.stage == Some(Stage::Guest),
    ensures
        ({
            &&& change_moved(t, Event::Done).1 == (Step::Run(VmTask::PrepareStorage))
        }),
{
    reveal(change_moved);
}

proof fn lemma_pools_are_checked_on_every_disk_4(t: Changing, g: Change, i: usize)
    requires
        t.at == Point::GuestReady,
        change_kept(t, g),
        !g.paused,
        g.stage == Some(Stage::Guest),
    ensures
        ({
            &&& change_moved(t, Event::Done).1 == (Step::Pool(PoolTask::Apply))
        }),
{
    reveal(change_moved);
}

proof fn lemma_pools_are_checked_on_every_disk_5(t: Changing, g: Change, i: usize)
    requires
        t.at == Point::Applied,
        change_kept(t, g),
        !g.paused,
        g.stage == Some(Stage::Guest),
    ensures
        ({
            &&& change_moved(t, Event::Done).1 == (Step::Pool(PoolTask::Migrate))
        }),
{
    reveal(change_moved);
}

proof fn lemma_pools_are_checked_on_every_disk_6(t: Changing, g: Change, i: usize)
    requires
        t.at == Point::Migrated,
        change_kept(t, g),
        !g.paused,
        g.stage == Some(Stage::Guest),
    ensures
        ({
            &&& change_moved(t, Event::Done).1 == (Step::Pool(PoolTask::Check))
            &&& change_moved(change_moved(t, Event::Done).0, Event::Done).1 == (Step::CheckPool)
        }),
{
    reveal(change_moved);
}

proof fn lemma_pools_are_checked_on_every_disk_7(t: Changing, g: Change, i: usize)
    requires
        t.at == Point::PoolChecked,
        change_kept(t, g),
        !g.paused,
        g.stage == Some(Stage::Guest),
    ensures
        ({
            &&& change_moved(t, Event::Done).1 == (Step::Ask(Route::Bootstrap))
        }),
{
    reveal(change_moved);
}

proof fn lemma_pools_are_checked_on_every_disk_8(t: Changing, g: Change, i: usize)
    requires
        t.at == Point::Bootstrapped,
        change_kept(t, g),
        !g.paused,
        g.stage == Some(Stage::Guest),
    ensures
        ({
            &&& change_moved(t, Event::Done).1 == (Step::Run(VmTask::Configure))
        }),
{
    reveal(change_moved);
}

proof fn lemma_pools_are_checked_on_every_disk_9(t: Changing, g: Change, i: usize)
    requires
        t.at == Point::Joined,
        change_kept(t, g),
        !g.paused,
        g.stage == Some(Stage::Guest),
    ensures
        ({
            &&& change_moved(t, Event::Done).1 == (Step::Pool(PoolTask::Check))
            &&& change_moved(change_moved(t, Event::Done).0, Event::Done).1
                == (Step::Run(VmTask::Stop))
        }),
{
    reveal(change_moved);
}

proof fn lemma_pools_are_checked_on_every_disk_10(t: Changing, g: Change, i: usize)
    requires
        t.at == Point::GuestStopped,
        change_kept(t, g),
        !g.paused,
        g.stage == Some(Stage::Guest),
    ensures
        ({
            &&& change_moved(t, Event::Done).1
                == (Step::SaveStorage(StorageSave::OperationStage(Stage::Verified)))
        }),
{
    reveal(change_moved);
}

/// The guest's pool is laid on the new disks only after the change was found valid and
/// every disk seen in its place; it is migrated and checked, the worker joins with fresh
/// access, and the pool is checked again before the change counts as verified.
pub proof fn pools_are_checked_on_every_disk(g: Change, es: Seq<Event>, i: usize)
    requires
        es.len() > 0,
    ensures
        ({
            let s = change_asked(g, es);
            let t = change_reached(g, es);
            &&& s == Step::Tell(Notice::StorageApplying)
                ==> change_asked(g, es.push(Event::Done)) == (Step::ValidateChanged)
            &&& s == Step::ValidateChanged
                ==> change_asked(g, es.push(Event::Done))
                    == (if 0 < g.targets { Step::InspectDisk(0) } else { if t.worker.running { Step::Run(VmTask::PrepareStorage) } else { Step::Run(VmTask::Start) } })
            &&& s == Step::InspectDisk(i) && g.stage == Some(Stage::Guest)
                ==> change_asked(g, es.push(Event::Done))
                    == (if ((i + 1) as usize) < g.targets { Step::InspectDisk((i + 1) as usize) } else { if t.worker.running { Step::Run(VmTask::PrepareStorage) } else { Step::Run(VmTask::Start) } })
            &&& s == Step::Run(VmTask::Start)
                ==> change_asked(g, es.push(Event::Done)) == (Step::Run(VmTask::PrepareStorage))
            &&& s == Step::Run(VmTask::PrepareStorage)
                ==> change_asked(g, es.push(Event::Done)) == (Step::Pool(PoolTask::Apply))
            &&& s == Step::Pool(PoolTask::Apply)
                ==> change_asked(g, es.push(Event::Done)) == (Step::Pool(PoolTask::Migrate))
            &&& s == Step::Pool(PoolTask::Migrate)
                ==> change_asked(g, es.push(Event::Done)) == (Step::Pool(PoolTask::Check))
            &&& s == Step::Pool(PoolTask::Migrate)
                ==> change_asked(g, es.push(Event::Done).push(Event::Done)) == (Step::CheckPool)
            &&& s == Step::CheckPool
                ==> change_asked(g, es.push(Event::Done)) == (Step::Ask(Route::Bootstrap))
            &&& s == Step::Ask(Route::Bootstrap)
                ==> change_asked(g, es.push(Event::Done)) == (Step::Run(VmTask::Configure))
            &&& s == Step::Run(VmTask::Configure)
                ==> change_asked(g, es.push(Event::Done)) == (Step::Pool(PoolTask::Check))
            &&& s == Step::Run(VmTask::Configure)
                ==> change_asked(g, es.push(Event::Done).push(Event::Done))
                    == (Step::Run(VmTask::Stop))
            &&& s == Step::Run(VmTask::Stop) && !g.paused && g.stage == Some(Stage::Guest)
                ==> change_asked(g, es.push(Event::Done))
                    == (Step::SaveStorage(StorageSave::OperationStage(Stage::Verified)))
        }),
{
    change_lemma_run(g, es);
    let s = change_asked(g, es);
    let t = change_reached(g, es);
    if s == Step::Tell(Notice::StorageApplying) {
        lemma_pools_are_checked_on_every_disk_0(t, g, i);
        change_lemma_push(g, es, Event::Done);
    }
    if s == Step::ValidateChanged {
        lemma_pools_are_checked_on_every_disk_1(t, g, i);
        change_lemma_push(g, es, Event::Done);
    }
    if s == Step::InspectDisk(i) && g.stage == Some(Stage::Guest) {
        lemma_pools_are_checked_on_every_disk_2(t, g, i);
        change_lemma_push(g, es, Event::Done);
    }
    if s == Step::Run(VmTask::Start) {
        lemma_pools_are_checked_on_every_disk_3(t, g, i);
        change_lemma_push(g, es, Event::Done);
    }
    if s == Step::Run(VmTask::PrepareStorage) {
        lemma_pools_are_checked_on_every_disk_4(t, g, i);
        change_lemma_push(g, es, Event::Done);
    }
    if s == Step::Pool(PoolTask::Apply) {
        lemma_pools_are_checked_on_every_disk_5(t, g, i);
        change_lemma_push(g, es, Event::Done);
    }
    if s == Step::Pool(PoolTask::Migrate) {
        lemma_pools_are_checked_on_every_disk_6(t, g, i);
        change_lemma_push(g, es, Event::Done);
        change_lemma_push(g, es.push(Event::Done), Event::Done);
    }
    if s == Step::CheckPool {
        lemma_pools_are_checked_on_every_disk_7(t, g, i);
        change_lemma_push(g, es, Event::Done);
    }
    if s == Step::Ask(Route::Bootstrap) {
        lemma_pools_are_checked_on_every_disk_8(t, g, i);
        change_lemma_push(g, es, Event::Done);
    }
    if s == Step::Run(VmTask::Configure) {
        lemma_pools_are_checked_on_every_disk_9(t, g, i);
        change_lemma_push(g, es, Event::Done);
        change_lemma_push(g, es.push(Event::Done), Event::Done);
    }
    if s == Step::Run(VmTask::Stop) && !g.paused && g.stage == Some(Stage::Guest) {
        lemma_pools_are_checked_on_every_disk_10(t, g, i);
        change_lemma_push(g, es, Event::Done);
    }
}

proof fn lemma_verified_changes_are_completed_0(t: Changing, g: Change, e: Event)
    requires
        t.at == Point::Placed,
        change_kept(t, g),
        !g.paused,
        g.stage == Some(Stage::Verified),
    ensures
        ({
            &&& change_moved(t, Event::Done).1 == (Step::CleanRelocation)
        }),
{
    reveal(change_moved);
}

proof fn lemma_verified_changes_are_completed_1(t: Changing, g: Change, e: Event)
    requires
        t.at == Point::RelocationCleaned,
        change_kept(t, g),
        !g.paused,
        g.stage == Some(Stage::Verified),
    ensures
        ({
            &&& change_moved(t, Event::Done).1
                == (Step::SaveStorage(StorageSave::OperationFinished))
        }),
{
    reveal(change_moved);
}

proof fn lemma_verified_changes_are_completed_2(t: Changing, g: Change, e: Event)
    requires
        t.at == Point::Saved,
        change_kept(t, g),
        !g.paused,
        g.stage == Some(Stage::Verified),
    ensures
        ({
            &&& change_moved(t, Event::Done).1 == (Step::CleanCopies)
        }),
{
    reveal(change_moved);
}

proof fn lemma_verified_changes_are_completed_3(t: Changing, g: Change, e: Event)
    requires
        t.at == Point::CopiesCleaned,
        change_kept(t, g),
        !g.paused,
        g.stage == Some(Stage::Verified),
    ensures
        ({
            &&& change_moved(t, e).1 == (Step::Tell(Notice::StorageUpdated))
        }),
{
    reveal(change_moved);
}

proof fn lemma_verified_changes_are_completed_4(t: Changing, g: Change, e: Event)
    requires
        t.at == Point::EndTold,
        change_kept(t, g),
        !g.paused,
        g.stage == Some(Stage::Verified),
    ensures
        ({
            &&& change_moved(t, Event::Done).1 == (Step::Finish(Outcome::Done))
        }),
{
    reveal(change_moved);
}

/// A verified change is recorded as finished after the VM's place was verified and what the
/// move left was cleaned up; the old copies go after that, and the owner is told.
pub proof fn verified_changes_are_completed(g: Change, es: Seq<Event>, e: Event)
    requires
        es.len() > 0,
    ensures
        ({
            let s = change_asked(g, es);
            let t = change_reached(g, es);
            &&& s == Step::VerifyPlacement
                ==> change_asked(g, es.push(Event::Done)) == (Step::CleanRelocation)
            &&& s == Step::CleanRelocation
                ==> change_asked(g, es.push(Event::Done))
                    == (Step::SaveStorage(StorageSave::OperationFinished))
            &&& s == Step::SaveStorage(StorageSave::OperationFinished)
                ==> change_asked(g, es.push(Event::Done)) == (Step::CleanCopies)
            &&& s == Step::CleanCopies
                ==> change_asked(g, es.push(e)) == (Step::Tell(Notice::StorageUpdated))
            &&& s == Step::Tell(Notice::StorageUpdated)
                ==> change_asked(g, es.push(Event::Done)) == (Step::Finish(Outcome::Done))
        }),
{
    change_lemma_run(g, es);
    let s = change_asked(g, es);
    let t = change_reached(g, es);
    if s == Step::VerifyPlacement {
        lemma_verified_changes_are_completed_0(t, g, e);
        change_lemma_push(g, es, Event::Done);
    }
    if s == Step::CleanRelocation {
        lemma_verified_changes_are_completed_1(t, g, e);
        change_lemma_push(g, es, Event::Done);
    }
    if s == Step::SaveStorage(StorageSave::OperationFinished) {
        lemma_verified_changes_are_completed_2(t, g, e);
        change_lemma_push(g, es, Event::Done);
    }
    if s == Step::CleanCopies {
        lemma_verified_changes_are_completed_3(t, g, e);
        change_lemma_push(g, es, e);
    }
    if s == Step::Tell(Notice::StorageUpdated) {
        lemma_verified_changes_are_completed_4(t, g, e);
        change_lemma_push(g, es, Event::Done);
    }
}

#[verifier::rlimit(100)]
#[verifier::spinoff_prover]
proof fn lemma_failed_changes_end(t: Changing, g: Change, s: Step)
    requires
        change_entered(t, g, s),
        s == Step::Preflight || s == Step::Inspect || s == Step::ValidateStorage || s
            == Step::ValidateTargets || s == Step::RelocateRuntime || s
                == Step::ConfigureStorage || s == Step::ValidateChanged || s
                    == Step::Run(VmTask::Start) || s == Step::Run(VmTask::PrepareStorage) || s
                        == Step::Pool(PoolTask::Apply) || s == Step::Pool(PoolTask::Migrate) || s
                            == Step::Pool(PoolTask::Check) || s == Step::CheckPool || s
                                == Step::Ask(Route::Bootstrap) || s
                                    == Step::Run(VmTask::Configure) || s
                                        == Step::Run(VmTask::Stop) || s
                                            == Step::Run(VmTask::QuiesceStorage) || s
                                                == Step::VerifyPlacement || s
                                                    == Step::CleanRelocation || s
                                                        == Step::SaveStorage(StorageSave::OperationFinished) || s is ValidateDisk || s is CreateDisk || s is GrowDisk || s is StageMove || s is CommitMove || s is GrowMoved,
    ensures
        change_moved(t, Event::Failed).1 == Step::Finish(Outcome::Failed),
{
    reveal(change_moved);
}

/// A change ends at a step that fails; the next try goes on from its stage.
pub proof fn failed_changes_end(g: Change, es: Seq<Event>)
    requires
        es.len() > 0,
        change_asked(g, es) == Step::Preflight || change_asked(g, es)
            == Step::Inspect || change_asked(g, es) == Step::ValidateStorage || change_asked(g, es)
                == Step::ValidateTargets || change_asked(g, es)
                    == Step::RelocateRuntime || change_asked(g, es)
                        == Step::ConfigureStorage || change_asked(g, es)
                            == Step::ValidateChanged || change_asked(g, es)
                                == Step::Run(VmTask::Start) || change_asked(g, es)
                                    == Step::Run(VmTask::PrepareStorage) || change_asked(g, es)
                                        == Step::Pool(PoolTask::Apply) || change_asked(g, es)
                                            == Step::Pool(PoolTask::Migrate) || change_asked(g, es)
                                                == Step::Pool(PoolTask::Check) || change_asked(g,
                                                    es) == Step::CheckPool || change_asked(g, es)
                                                        == Step::Ask(Route::Bootstrap) || change_asked(g, es) == Step::Run(VmTask::Configure) || change_asked(g, es) == Step::Run(VmTask::Stop) || change_asked(g, es) == Step::Run(VmTask::QuiesceStorage) || change_asked(g, es) == Step::VerifyPlacement || change_asked(g, es) == Step::CleanRelocation || change_asked(g, es) == Step::SaveStorage(StorageSave::OperationFinished) || change_asked(g, es) is ValidateDisk || change_asked(g, es) is CreateDisk || change_asked(g, es) is GrowDisk || change_asked(g, es) is StageMove || change_asked(g, es) is CommitMove || change_asked(g, es) is GrowMoved,
    ensures
        change_asked(g, es.push(Event::Failed)) == Step::Finish(Outcome::Failed),
{
    change_lemma_run(g, es);
    lemma_failed_changes_end(change_reached(g, es), g, change_asked(g, es));
    change_lemma_push(g, es, Event::Failed);
}

#[verifier::rlimit(60)]
#[verifier::spinoff_prover]
proof fn lemma_changes_remember_the_worker(t: Changing, g: Change, s: Step, e: Event)
    requires
        change_entered(t, g, s),
    ensures
        ({
            let u = change_moved(t, e).0;
            &&& u.worker == t.worker || s == Step::Inspect
        }),
{
    reveal(change_moved);
}

/// The worker stays as it was seen.
pub proof fn changes_remember_the_worker(g: Change, es: Seq<Event>, e: Event)
    requires
        es.len() > 0,
    ensures
        ({
            let t = change_reached(g, es);
            let s = change_asked(g, es);
            let u = change_reached(g, es.push(e));
            &&& u.worker == t.worker || s == Step::Inspect
        }),
{
    change_lemma_run(g, es);
    lemma_changes_remember_the_worker(change_reached(g, es), g, change_asked(g, es), e);
    change_lemma_push(g, es, e);
}

/// How a disk gets to its place is told by the disk of its identity: none is new, one in
/// the same directory is kept, and any other moves, and grows where its size differs.
pub proof fn disks_are_related_by_identity(
    previous: Seq<LocationView>,
    target: LocationView,
    i: int,
)
    requires
        0 <= i < previous.len() ==> forall|k: int|
            0 <= k < previous.len() && (#[trigger] previous[k]).id == target.id ==> k == i,
    ensures
        (forall|k: int| 0 <= k < previous.len() ==> (#[trigger] previous[k]).id != target.id)
            <==> plan_for(previous, target) == DiskPlan::New,
        0 <= i < previous.len() && previous[i].id == target.id ==> plan_for(previous, target)
            == if previous[i].directory == target.directory {
            DiskPlan::Kept
        } else {
            DiskPlan::Moved(previous[i].allocation_gib != target.allocation_gib)
        },
{
    lemma_rank(previous, target.id, 0);
}

/// What a change goes by is what is saved of it: its stage, whether the owner paused it,
/// its disks, and whether the VM itself has to move.
pub proof fn changes_are_the_saved_operation(c: ConfigurationView)
    ensures
        change_of(c) is Some <==> c.storage_operation is Some,
        c.storage_operation matches Some(op) ==> {
            let g = change_of(c)->0;
            &&& g.paused == op.paused
            &&& op.previous.len() <= usize::MAX ==> g.previous == op.previous.len()
            &&& op.target.len() <= usize::MAX ==> g.targets == op.target.len()
            &&& (g.has_layout <==> op.layout is Some)
            &&& (g.moves_vm <==> op.layout is Some && c.storage_layout != op.layout)
            &&& op.phase == "pending"@ ==> g.stage == Some(Stage::Pending)
            &&& op.phase == "disks"@ ==> g.stage == Some(Stage::Disks)
            &&& op.phase == "guest"@ ==> g.stage == Some(Stage::Guest)
            &&& op.phase == "verified"@ ==> g.stage == Some(Stage::Verified)
        },
{
    reveal_strlit("pending");
    reveal_strlit("disks");
    reveal_strlit("guest");
    reveal_strlit("verified");
    assert("disks"@[0] != "guest"@[0]);
    assert("pending"@.len() == 7 && "verified"@.len() == 8);
}

} // verus!
