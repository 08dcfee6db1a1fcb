//! Whole ticks, seen from outside: which step follows which answer, whatever the
//! answers were before.
use crate::agent::steps::{
    nothing, Event, Facts, Memory, Notice, Outcome, Refusal, Route, Routine, Save, Sight, Starting,
    Step, VmTask, WorkerAction, WorkerInput,
};
use crate::agent::tick::{
    entry_after, fresh_tick, observe_after, prepare_after, share_after, tick_after, At, Entry,
    Observe, Prepare, Share, Tick,
};
use vstd::prelude::*;

verus! {

/// A move of the machine.
#[verifier::opaque]
spec fn moved(t: Tick, e: Event) -> (Tick, Step) {
    tick_after(t, e)
}

/// What is reached after these answers.
#[verifier::opaque]
pub open spec fn reached(g: Facts, es: Seq<Event>) -> Tick
    decreases es.len(),
{
    if es.len() == 0 {
        fresh_tick(g)
    } else {
        tick_after(reached(g, es.drop_last()), es.last()).0
    }
}

/// What is asked for after these answers.
#[verifier::opaque]
pub open spec fn asked(g: Facts, es: Seq<Event>) -> Step
    recommends
        es.len() > 0,
{
    tick_after(reached(g, es.drop_last()), es.last()).1
}

proof fn lemma_push(g: Facts, es: Seq<Event>, e: Event)
    ensures
        reached(g, es.push(e)) == moved(reached(g, es), e).0,
        asked(g, es.push(e)) == moved(reached(g, es), e).1,
{
    reveal(reached);
    reveal(asked);
    reveal(moved);
    assert(es.push(e).drop_last() =~= es);
}

proof fn lemma_fresh(g: Facts)
    ensures
        reached(g, Seq::empty()) == fresh_tick(g),
{
    reveal(reached);
}

/// The step that was asked for where a tick stands.
spec fn entered(t: Tick, s: Step) -> bool {
    match t.at {
        At::Over => s is Finish,
        At::Entry(at) => match at {
            Entry::Start => false,
            Entry::Recovered => s == Step::Save(Save::Recover),
            Entry::Loaded => s == Step::Load,
            Entry::Noted => s == Step::Note(Memory::UpdateReady(false)),
            Entry::ReceiptBeforeUpdate => s == Step::Receipt,
            Entry::ReadyNoted => s == Step::Note(Memory::UpdateReady(true)) || s
                == Step::Note(Memory::UpdateReady(false)),
            Entry::ConnectTold => s == Step::Tell(Notice::ConnectFirst),
            Entry::Resolved => s == Step::ResolveInitialStorage,
            Entry::Owned => s == Step::Receipt,
            Entry::BackupsCleaned => s == Step::CleanBackups,
            Entry::DisabledTold => s == Step::Tell(Notice::StorageDisabled),
            Entry::DisabledBeat => s == Step::Heartbeat,
            Entry::MissingChecked => s == Step::MissingStorage,
            Entry::Validated => s == Step::ValidateStorage,
            Entry::InvalidHeld => s == Step::Hold,
            Entry::InvalidReceipt => s == Step::Receipt,
            Entry::InvalidSeen => s == Step::Look,
            Entry::InvalidStopped => s == Step::Run(VmTask::StopNow),
            Entry::InvalidTold => s == Step::TellHeld,
            Entry::InvalidBeat => s == Step::Heartbeat,
            Entry::RepairBeat => s == Step::Heartbeat,
            Entry::PreparationCleared => s == Step::Save(Save::ClearPreparation),
        },
        At::Prepare(at) => match at {
            Prepare::Started => s == Step::Note(Memory::Starting(Some(Starting::Preparation))),
            Prepare::Seen => s == Step::Inspect,
            Prepare::Absent => s == Step::Note(Memory::NoWorker),
            Prepare::UnreachableTold => s == Step::Tell(Notice::Unreachable),
            Prepare::Told => s == Step::Tell(Notice::Preparing),
            Prepare::PolicyValid => s == Step::ValidatePolicy,
            Prepare::StoppedToResize => s == Step::Run(VmTask::Stop) && t.worker.installed,
            Prepare::Sized => s == Step::CreateStorageWorker || s
                == Step::Run(VmTask::Create(t.config.resources)) || s
                    == Step::Run(VmTask::Resize(t.config.resources)) || s
                        == Step::Run(VmTask::ResizeCompute(t.config.resources)),
            Prepare::Recorded => s == Step::Save(Save::RecordWorker(t.config.resources)),
            Prepare::Reloaded => s == Step::Load,
            Prepare::CanceledSeen => s == Step::Look,
            Prepare::CanceledStopped => s == Step::Run(VmTask::Stop),
            Prepare::ExistingSeen => s == Step::Look,
            Prepare::ExistingStarted => s == Step::Run(VmTask::Start),
            Prepare::Rechecked => s == Step::Load,
            Prepare::StorageReady => s == Step::FinishInitialStorage,
            Prepare::Announced => s == Step::AnnounceAccess,
            Prepare::Bootstrapped => s == Step::Ask(Route::Bootstrap),
            Prepare::Configured => s == Step::Run(VmTask::Configure),
            Prepare::Saved => s == Step::Save(Save::FinishPreparation),
            Prepare::Noted => s == Step::Note(Memory::Starting(None)),
        },
        At::Observe(at) => match at {
            Observe::Loaded => s == Step::Load,
            Observe::Receipt => s == Step::Receipt,
            Observe::Seen => s == Step::Inspect,
            Observe::Absent => s == Step::Note(Memory::NoWorker),
            Observe::CopiesCleaned => s == Step::CleanCopies,
            Observe::UpdateNoted => s == Step::Note(Memory::UpdateReady(true)),
            Observe::UpdateTold => s == Step::Tell(Notice::StoppedForUpdate),
            Observe::IncompleteStopped => s == Step::Run(VmTask::StopNow),
            Observe::IncompleteNoted => s == Step::Note(Memory::WorkerStopped),
            Observe::IncompleteTold => s == Step::Tell(Notice::Incomplete),
            Observe::Applied => s == Step::ApplyConfiguration,
            Observe::AppliedLoaded => s == Step::Load,
            Observe::AppliedBeat => s == Step::Heartbeat,
            Observe::PrepareFirstTold => s == Step::Tell(Notice::PrepareFirst),
            Observe::PrepareFirstBeat => s == Step::Heartbeat,
            Observe::Resized => s == Step::Run(VmTask::Resize(t.config.resources)) || s
                == Step::Run(VmTask::ResizeCompute(t.config.resources)),
            Observe::ResizeSaved => s == Step::Save(Save::RecordAllocation(t.config.resources)),
            Observe::ResizeTold => s == Step::Tell(Notice::ResourcesUpdated),
            Observe::DrainAsked => s == Step::LocalDrain,
            Observe::DrainBegun => s == Step::Save(Save::BeginDrain),
            Observe::DrainCleared => s == Step::Save(Save::ClearDrain),
            Observe::UpdateWaitTold => s == Step::Tell(Notice::WaitingForUpdate),
            Observe::BeatLoaded => s == Step::Load,
            Observe::Beaten => s == Step::Heartbeat,
            Observe::BeatHeld => s == Step::Hold,
        },
        At::Share(at) => match at {
            Share::Loaded => s == Step::Load,
            Share::Judged => s == Step::Judge,
            Share::UpdateLease => s == Step::Run(VmTask::RenewLease),
            Share::UpdateAsked => s == Step::Ask(Route::Maintenance),
            Share::UpdatePods => s == Step::Note(Memory::SystemPods),
            Share::UpdateBound => s == Step::Bound,
            Share::UpdateCounted => s == Step::CountReplied,
            Share::UpdateShown => s == Step::Note(Memory::Counted),
            Share::UpdateSwapped => s == Step::SwapIdle(t.idle),
            Share::UpdateStopped => s == Step::Run(VmTask::Stop),
            Share::UpdateNoted => s == Step::Note(Memory::UpdateStopped),
            Share::DrainBegun => s == Step::Save(Save::BeginDrain),
            Share::Counted => s == Step::Count,
            Share::DrainRead => s == Step::Load,
            Share::Decided => s is Decide,
            Share::StartNoted => s == Step::Note(Memory::Starting(Some(Starting::Resume))),
            Share::StartTold => s == Step::Tell(Notice::Connecting),
            Share::StartAnnounced => s == Step::AnnounceAccess,
            Share::StartBootstrapped => s == Step::Ask(Route::Bootstrap),
            Share::Started => s == Step::Run(VmTask::Start),
            Share::StartConfigured => s == Step::Run(VmTask::Configure),
            Share::StartDone => s == Step::Note(Memory::Starting(None)),
            Share::StartSaved => s == Step::Save(Save::ClearDrainIfPermitted),
            Share::DrainTold => s == Step::Tell(Notice::Draining) || s
                == Step::Tell(Notice::DrainingForResize) || s == Step::Tell(Notice::WaitingForWork),
            Share::DrainAsked => s == Step::Ask(Route::Drain),
            Share::DrainHeld => s == Step::Hold && !t.drained,
            Share::DrainLease => s == Step::Run(VmTask::RenewLease),
            Share::DrainPods => s == Step::Note(Memory::SystemPods),
            Share::Stopped => s == Step::Run(VmTask::Stop),
            Share::StopSaved => s == Step::Save(Save::ClearDrain),
            Share::StopNoted => s == Step::Note(Memory::WorkerStopped),
            Share::ResumeAsked => s == Step::Ask(Route::Resume),
            Share::ResumeSaved => s == Step::Save(Save::ClearDrainIfPermitted),
            Share::KeepLease => s == Step::Run(VmTask::RenewLease),
            Share::KeepTold => s == Step::Tell(Notice::PausedFromFleet) || s
                == Step::TellResting || s == Step::Tell(Notice::Sharing),
            Share::WorkloadsNoted => s == Step::Note(Memory::Workloads),
            Share::LastBeat => s == Step::Heartbeat,
        },
    }
}

#[verifier::rlimit(100)]
#[verifier::spinoff_prover]
proof fn lemma_enters_entry(t: Tick, at: Entry, e: Event)
    requires
        t.at == At::Entry(at),
    ensures
        entered(entry_after(t, at, e).0, entry_after(t, at, e).1),
{
}

#[verifier::rlimit(100)]
#[verifier::spinoff_prover]
proof fn lemma_enters_prepare(t: Tick, at: Prepare, e: Event)
    requires
        t.at == At::Prepare(at),
    ensures
        entered(prepare_after(t, at, e).0, prepare_after(t, at, e).1),
{
}

#[verifier::rlimit(100)]
#[verifier::spinoff_prover]
proof fn lemma_enters_observe(t: Tick, at: Observe, e: Event)
    requires
        t.at == At::Observe(at),
    ensures
        entered(observe_after(t, at, e).0, observe_after(t, at, e).1),
{
}

#[verifier::rlimit(100)]
#[verifier::spinoff_prover]
proof fn lemma_enters_share(t: Tick, at: Share, e: Event)
    requires
        t.at == At::Share(at),
    ensures
        entered(share_after(t, at, e).0, share_after(t, at, e).1),
{
}

proof fn lemma_enters(t: Tick, s: Step, e: Event)
    ensures
        entered(moved(t, e).0, moved(t, e).1),
{
    reveal(moved);
    match t.at {
        At::Entry(at) => lemma_enters_entry(t, at, e),
        At::Prepare(at) => lemma_enters_prepare(t, at, e),
        At::Observe(at) => lemma_enters_observe(t, at, e),
        At::Share(at) => lemma_enters_share(t, at, e),
        At::Over => {},
    }
}

proof fn lemma_run(g: Facts, es: Seq<Event>)
    requires
        es.len() > 0,
    ensures
        entered(reached(g, es), asked(g, es)),
    decreases es.len(),
{
    let less = es.drop_last();
    assert(es =~= less.push(es.last()));
    lemma_push(g, less, es.last());
    if less.len() == 0 {
        lemma_fresh(g);
        assert(less =~= Seq::empty());
        lemma_enters(reached(g, less), Step::Load, es.last());
    } else {
        lemma_run(g, less);
        lemma_enters(reached(g, less), asked(g, less), es.last());
    }
}

/// A tick begins by giving up what an interrupted change left, and reads the settings.
/// A computer that is not in a fleet does nothing but say so, and holds back an update
/// while a worker of the fleet may be here.
pub proof fn ticks_begin_with_the_settings(g: Facts, f: Facts, h: Facts)
    ensures
        ({
            let b = seq![Event::Begin];
            let read = b.push(Event::Settings(h)).push(Event::Settings(f));
            let es = read.push(Event::Done);
            let no = es.push(Event::Answer(false));
            &&& asked(g, b) == Step::Save(Save::Recover)
            &&& asked(g, b.push(Event::Settings(h))) == Step::Load
            &&& asked(g, read) == Step::Note(Memory::UpdateReady(false))
            &&& reached(g, es).config == f
            &&& f.enrolled ==> asked(g, es) == (if f.storage_request {
                Step::Finish(Outcome::Go(Routine::RemoteStorage))
            } else {
                Step::ResolveInitialStorage
            })
            &&& !f.enrolled && f.update_pending && f.vm_created ==> asked(g, es) == Step::Finish(
                Outcome::Refused(Refusal::ReconnectBeforeUpdate),
            )
            &&& !f.enrolled && f.update_pending && !f.vm_created ==> asked(g, es) == Step::Receipt
                && asked(g, es.push(Event::Answer(true))) == Step::Finish(
                Outcome::Refused(Refusal::ReconnectBeforeUpdate),
            ) && asked(g, no) == Step::Note(Memory::UpdateReady(true)) && asked(
                g,
                no.push(Event::Done),
            ) == Step::Tell(Notice::ConnectFirst)
            &&& !f.enrolled && !f.update_pending ==> asked(g, es) == Step::Note(
                Memory::UpdateReady(false),
            ) && asked(g, es.push(Event::Done)) == Step::Tell(Notice::ConnectFirst)
        }),
{
    let b = seq![Event::Begin];
    let none = Seq::<Event>::empty();
    assert(none.push(Event::Begin) =~= b);
    lemma_fresh(g);
    lemma_push(g, none, Event::Begin);
    lemma_push(g, b, Event::Settings(h));
    lemma_push(g, b.push(Event::Settings(h)), Event::Settings(f));
    let read = b.push(Event::Settings(h)).push(Event::Settings(f));
    lemma_push(g, read, Event::Done);
    let es = read.push(Event::Done);
    let no = es.push(Event::Answer(false));
    lemma_push(g, es, Event::Answer(true));
    lemma_push(g, es, Event::Answer(false));
    lemma_push(g, es, Event::Done);
    lemma_push(g, no, Event::Done);
    reveal(moved);
}

proof fn lemma_routines_take_over_in_order_0(t: Tick, f: Facts, h: Facts, here: bool, o: Sight,
    e: Event)
    requires
        t.at == At::Entry(Entry::Resolved),
    ensures
        ({
            &&& f.vm_created
                ==> moved(t, Event::Settings(f)).1
                    == (if f.stop_requested { Step::Finish(Outcome::Go(Routine::ImmediateStop)) } else { if f.maintenance { Step::Finish(Outcome::Go(Routine::Maintenance)) } else { Step::CleanBackups } })
            &&& f.vm_created && !f.stop_requested && !f.maintenance
                ==> { moved(t, Event::Settings(f)).0.config == f
                    && moved(t, Event::Settings(f)).0.owned }
            &&& !f.vm_created ==> moved(t, Event::Settings(f)).1 == (Step::Receipt)
            &&& !f.vm_created
                ==> moved(moved(t, Event::Settings(f)).0, Event::Answer(here)).1
                    == (if f.stop_requested { Step::Finish(Outcome::Go(Routine::ImmediateStop)) } else { if f.maintenance { Step::Finish(Outcome::Go(Routine::Maintenance)) } else { Step::CleanBackups } })
            &&& !f.vm_created && !f.stop_requested && !f.maintenance
                ==> { moved(moved(t, Event::Settings(f)).0, Event::Answer(here)).0.config == f
                    && moved(moved(t, Event::Settings(f)).0, Event::Answer(here)).0.owned == here }
        }),
{
    reveal(moved);
}

proof fn lemma_routines_take_over_in_order_1(t: Tick, f: Facts, h: Facts, here: bool, o: Sight,
    e: Event)
    requires
        t.at == At::Entry(Entry::BackupsCleaned),
    ensures
        ({
            &&& moved(t, Event::Done).1
                == (if t.config.disabled { Step::Tell(Notice::StorageDisabled) } else { if t.config.operation { Step::Finish(Outcome::Go(Routine::StorageOperation)) } else { if !t.config.recreation { Step::MissingStorage } else { Step::ValidateStorage } } })
        }),
{
    reveal(moved);
}

proof fn lemma_routines_take_over_in_order_2(t: Tick, f: Facts, h: Facts, here: bool, o: Sight,
    e: Event)
    requires
        t.at == At::Entry(Entry::DisabledTold),
    ensures
        ({
            &&& moved(t, Event::Done).1 == (Step::Heartbeat)
            &&& moved(moved(t, Event::Done).0, e).1 == (Step::Finish(Outcome::Done))
        }),
{
    reveal(moved);
}

proof fn lemma_routines_take_over_in_order_3(t: Tick, f: Facts, h: Facts, here: bool, o: Sight,
    e: Event)
    requires
        t.at == At::Entry(Entry::ConnectTold),
    ensures
        ({
            &&& moved(t, Event::Done).1 == (Step::Finish(Outcome::Done))
        }),
{
    reveal(moved);
}

proof fn lemma_routines_take_over_in_order_4(t: Tick, f: Facts, h: Facts, here: bool, o: Sight,
    e: Event)
    requires
        t.at == At::Entry(Entry::MissingChecked),
    ensures
        ({
            &&& moved(t, Event::Answer(here)).1
                == (if here { Step::Finish(Outcome::Done) } else { Step::ValidateStorage })
        }),
{
    reveal(moved);
}

proof fn lemma_routines_take_over_in_order_5(t: Tick, f: Facts, h: Facts, here: bool, o: Sight,
    e: Event)
    requires
        t.at == At::Entry(Entry::Validated),
    ensures
        ({
            let goes_on = if t.config.recreation { Step::Finish(Outcome::Go(Routine::Recreation)) } else { if t.config.repair { Step::Heartbeat } else { if t.config.prepare_requested && t.config.vm_configured { Step::Save(Save::ClearPreparation) } else { if t.config.prepare_requested { Step::Note(Memory::Starting(Some(Starting::Preparation))) } else { Step::Load } } } };
            &&& moved(t, Event::Done).1 == (goes_on)
            &&& !t.config.recreation && t.config.repair
                ==> moved(moved(t, Event::Done).0, e).1
                    == (Step::Finish(Outcome::Refused(Refusal::UnverifiedAllocation)))
            &&& moved(t, Event::Failed).1 == (Step::Hold)
            &&& moved(moved(t, Event::Failed).0, Event::Done).1 == (Step::Receipt)
            &&& moved(moved(moved(t, Event::Failed).0, Event::Done).0, Event::Answer(here)).1
                == (if here { Step::Look } else { Step::TellHeld })
            &&& moved(moved(moved(moved(t, Event::Failed).0, Event::Done).0, Event::Answer(true)).0,
                Event::Worker(o)).1
                    == (if o.running { Step::Run(VmTask::StopNow) } else { Step::TellHeld })
            &&& o.running
                ==> moved(moved(moved(moved(moved(t, Event::Failed).0, Event::Done).0,
                    Event::Answer(true)).0, Event::Worker(o)).0, Event::Done).1 == (Step::TellHeld)
        }),
{
    reveal(moved);
}

proof fn lemma_routines_take_over_in_order_6(t: Tick, f: Facts, h: Facts, here: bool, o: Sight,
    e: Event)
    requires
        t.at == At::Entry(Entry::PreparationCleared),
    ensures
        ({
            &&& moved(t, Event::Settings(f)).1 == (if t.config.prepare_requested
                && !t.config.vm_configured { Step::Note(Memory::Starting(Some(Starting::Preparation))) } else { Step::Load })
        }),
{
    reveal(moved);
}

proof fn lemma_routines_take_over_in_order_7(t: Tick, f: Facts, h: Facts, here: bool, o: Sight,
    e: Event)
    requires
        t.at == At::Entry(Entry::InvalidTold),
    ensures
        ({
            &&& moved(t, Event::Done).1 == (Step::Heartbeat)
            &&& moved(moved(t, Event::Done).0, e).1 == (Step::Finish(Outcome::Held))
        }),
{
    reveal(moved);
}

/// What a tick is for is decided in this order: the owner's stop, a maintenance, disabled
/// storage, a change of storage, missing storage, invalid storage, a replacement, an
/// unverified allocation, a preparation. Nothing later goes on before the storage is
/// found valid.
pub proof fn routines_take_over_in_order(g: Facts, es: Seq<Event>, f: Facts, h: Facts, here: bool,
    o: Sight, e: Event)
    requires
        es.len() > 0,
    ensures
        ({
            let s = asked(g, es);
            let t = reached(g, es);
            let goes_on = if t.config.recreation { Step::Finish(Outcome::Go(Routine::Recreation)) } else { if t.config.repair { Step::Heartbeat } else { if t.config.prepare_requested && t.config.vm_configured { Step::Save(Save::ClearPreparation) } else { if t.config.prepare_requested { Step::Note(Memory::Starting(Some(Starting::Preparation))) } else { Step::Load } } } };
            &&& s == Step::ResolveInitialStorage && f.vm_created
                ==> asked(g, es.push(Event::Settings(f)))
                    == (if f.stop_requested { Step::Finish(Outcome::Go(Routine::ImmediateStop)) } else { if f.maintenance { Step::Finish(Outcome::Go(Routine::Maintenance)) } else { Step::CleanBackups } })
            &&& s == Step::ResolveInitialStorage && f.vm_created && !f.stop_requested
                && !f.maintenance
                    ==> reached(g, es.push(Event::Settings(f))).config == f
                        && reached(g, es.push(Event::Settings(f))).owned
            &&& s == Step::ResolveInitialStorage && !f.vm_created
                ==> asked(g, es.push(Event::Settings(f))) == (Step::Receipt)
            &&& s == Step::ResolveInitialStorage && !f.vm_created
                ==> asked(g, es.push(Event::Settings(f)).push(Event::Answer(here)))
                    == (if f.stop_requested { Step::Finish(Outcome::Go(Routine::ImmediateStop)) } else { if f.maintenance { Step::Finish(Outcome::Go(Routine::Maintenance)) } else { Step::CleanBackups } })
            &&& s == Step::ResolveInitialStorage && !f.vm_created && !f.stop_requested
                && !f.maintenance
                    ==> reached(g, es.push(Event::Settings(f)).push(Event::Answer(here))).config
                        == f && reached(g,
                            es.push(Event::Settings(f)).push(Event::Answer(here))).owned == here
            &&& s == Step::CleanBackups
                ==> asked(g, es.push(Event::Done))
                    == (if t.config.disabled { Step::Tell(Notice::StorageDisabled) } else { if t.config.operation { Step::Finish(Outcome::Go(Routine::StorageOperation)) } else { if !t.config.recreation { Step::MissingStorage } else { Step::ValidateStorage } } })
            &&& s == Step::Tell(Notice::StorageDisabled)
                ==> asked(g, es.push(Event::Done)) == (Step::Heartbeat)
            &&& s == Step::Tell(Notice::StorageDisabled)
                ==> asked(g, es.push(Event::Done).push(e)) == (Step::Finish(Outcome::Done))
            &&& s == Step::Tell(Notice::ConnectFirst)
                ==> asked(g, es.push(Event::Done)) == (Step::Finish(Outcome::Done))
            &&& s == Step::MissingStorage
                ==> asked(g, es.push(Event::Answer(here)))
                    == (if here { Step::Finish(Outcome::Done) } else { Step::ValidateStorage })
            &&& s == Step::ValidateStorage ==> asked(g, es.push(Event::Done)) == (goes_on)
            &&& s == Step::ValidateStorage && !t.config.recreation && t.config.repair
                ==> asked(g, es.push(Event::Done).push(e))
                    == (Step::Finish(Outcome::Refused(Refusal::UnverifiedAllocation)))
            &&& s == Step::Save(Save::ClearPreparation)
                ==> asked(g, es.push(Event::Settings(f))) == (if t.config.prepare_requested
                    && !t.config.vm_configured { Step::Note(Memory::Starting(Some(Starting::Preparation))) } else { Step::Load })
            &&& s == Step::ValidateStorage ==> asked(g, es.push(Event::Failed)) == (Step::Hold)
            &&& s == Step::ValidateStorage
                ==> asked(g, es.push(Event::Failed).push(Event::Done)) == (Step::Receipt)
            &&& s == Step::ValidateStorage
                ==> asked(g, es.push(Event::Failed).push(Event::Done).push(Event::Answer(here)))
                    == (if here { Step::Look } else { Step::TellHeld })
            &&& s == Step::ValidateStorage
                ==> asked(g,
                    es.push(Event::Failed).push(Event::Done).push(Event::Answer(true)).push(Event::Worker(o))) == (if o.running { Step::Run(VmTask::StopNow) } else { Step::TellHeld })
            &&& s == Step::ValidateStorage && o.running
                ==> asked(g,
                    es.push(Event::Failed).push(Event::Done).push(Event::Answer(true)).push(Event::Worker(o)).push(Event::Done)) == (Step::TellHeld)
            &&& s == Step::TellHeld ==> asked(g, es.push(Event::Done)) == (Step::Heartbeat)
            &&& s == Step::TellHeld
                ==> asked(g, es.push(Event::Done).push(e)) == (Step::Finish(Outcome::Held))
        }),
{
    lemma_run(g, es);
    let s = asked(g, es);
    let t = reached(g, es);
    if s == Step::ResolveInitialStorage {
        lemma_routines_take_over_in_order_0(t, f, h, here, o, e);
        lemma_push(g, es, Event::Settings(f));
        lemma_push(g, es.push(Event::Settings(f)), Event::Answer(here));
    }
    if s == Step::CleanBackups {
        lemma_routines_take_over_in_order_1(t, f, h, here, o, e);
        lemma_push(g, es, Event::Done);
    }
    if s == Step::Tell(Notice::StorageDisabled) {
        lemma_routines_take_over_in_order_2(t, f, h, here, o, e);
        lemma_push(g, es, Event::Done);
        lemma_push(g, es.push(Event::Done), e);
    }
    if s == Step::Tell(Notice::ConnectFirst) {
        lemma_routines_take_over_in_order_3(t, f, h, here, o, e);
        lemma_push(g, es, Event::Done);
    }
    if s == Step::MissingStorage {
        lemma_routines_take_over_in_order_4(t, f, h, here, o, e);
        lemma_push(g, es, Event::Answer(here));
    }
    if s == Step::ValidateStorage {
        lemma_routines_take_over_in_order_5(t, f, h, here, o, e);
        lemma_push(g, es, Event::Done);
        lemma_push(g, es.push(Event::Done), e);
        lemma_push(g, es, Event::Failed);
        lemma_push(g, es.push(Event::Failed), Event::Done);
        lemma_push(g, es.push(Event::Failed).push(Event::Done), Event::Answer(here));
        lemma_push(g, es.push(Event::Failed).push(Event::Done), Event::Answer(true));
        lemma_push(g, es.push(Event::Failed).push(Event::Done).push(Event::Answer(true)),
            Event::Worker(o));
        lemma_push(g,
            es.push(Event::Failed).push(Event::Done).push(Event::Answer(true)).push(Event::Worker(o)), Event::Done);
    }
    if s == Step::Save(Save::ClearPreparation) {
        lemma_routines_take_over_in_order_6(t, f, h, here, o, e);
        lemma_push(g, es, Event::Settings(f));
    }
    if s == Step::TellHeld {
        lemma_routines_take_over_in_order_7(t, f, h, here, o, e);
        lemma_push(g, es, Event::Done);
        lemma_push(g, es.push(Event::Done), e);
    }
}

proof fn lemma_preparations_follow_the_owner_0(t: Tick, f: Facts, h: Facts, o: Sight)
    requires
        t.at == At::Prepare(Prepare::Started),
    ensures
        ({
            &&& moved(t, Event::Done).1
                == (if t.owned { Step::Inspect } else { Step::Note(Memory::NoWorker) })
        }),
{
    reveal(moved);
}

proof fn lemma_preparations_follow_the_owner_1(t: Tick, f: Facts, h: Facts, o: Sight)
    requires
        t.at == At::Prepare(Prepare::Seen),
    ensures
        ({
            &&& moved(t, Event::Worker(o)).1 == (if o.running
                && !o.reachable { Step::Tell(Notice::Unreachable) } else { Step::Tell(Notice::Preparing) })
            &&& moved(t, Event::Worker(o)).0.worker == o
        }),
{
    reveal(moved);
}

proof fn lemma_preparations_follow_the_owner_2(t: Tick, f: Facts, h: Facts, o: Sight)
    requires
        t.at == At::Prepare(Prepare::Absent),
    ensures
        ({
            &&& moved(t, Event::Done).1 == (Step::Tell(Notice::Preparing))
            &&& moved(t, Event::Done).0.worker == nothing()
        }),
{
    reveal(moved);
}

proof fn lemma_preparations_follow_the_owner_3(t: Tick, f: Facts, h: Facts, o: Sight)
    requires
        t.at == At::Prepare(Prepare::UnreachableTold),
    ensures
        ({
            &&& moved(t, Event::Done).1 == (Step::Finish(Outcome::Done))
        }),
{
    reveal(moved);
}

proof fn lemma_preparations_follow_the_owner_4(t: Tick, f: Facts, h: Facts, o: Sight)
    requires
        t.at == At::Prepare(Prepare::Told),
    ensures
        ({
            let resize = if t.config.placed { Step::Run(VmTask::ResizeCompute(t.config.resources)) } else { Step::Run(VmTask::Resize(t.config.resources)) };
            &&& moved(t, Event::Done).1
                == (if !t.worker.installed { Step::ValidatePolicy } else { if t.config.allocated
                    == Some(t.config.resources) { Step::Save(Save::RecordWorker(t.config.resources)) } else { if t.worker.running { Step::Run(VmTask::Stop) } else { resize } } })
            &&& t.worker.installed && t.worker.running
                && t.config.allocated != Some(t.config.resources)
                    ==> moved(moved(t, Event::Done).0, Event::Done).1 == (resize)
        }),
{
    reveal(moved);
}

proof fn lemma_preparations_follow_the_owner_5(t: Tick, f: Facts, h: Facts, o: Sight)
    requires
        t.at == At::Prepare(Prepare::PolicyValid),
    ensures
        ({
            &&& moved(t, Event::Done).1
                == (if t.config.placed { Step::CreateStorageWorker } else { Step::Run(VmTask::Create(t.config.resources)) })
        }),
{
    reveal(moved);
}

proof fn lemma_preparations_follow_the_owner_6(t: Tick, f: Facts, h: Facts, o: Sight)
    requires
        t.at == At::Prepare(Prepare::Sized),
    ensures
        ({
            &&& moved(t, Event::Done).1 == (Step::Save(Save::RecordWorker(t.config.resources)))
        }),
{
    reveal(moved);
}

proof fn lemma_preparations_follow_the_owner_7(t: Tick, f: Facts, h: Facts, o: Sight)
    requires
        t.at == At::Prepare(Prepare::Recorded),
    ensures
        ({
            &&& moved(t, Event::Settings(h)).1 == (Step::Load)
            &&& moved(moved(t, Event::Settings(h)).0, Event::Settings(f)).1
                == (if !f.prepare_requested { Step::Look } else { if t.worker.installed { Step::Look } else { Step::Load } })
            &&& !f.prepare_requested
                ==> moved(moved(moved(t, Event::Settings(h)).0, Event::Settings(f)).0,
                    Event::Worker(o)).1
                        == (if o.running { Step::Run(VmTask::Stop) } else { Step::Finish(Outcome::Done) })
            &&& !f.prepare_requested && o.running
                ==> moved(moved(moved(moved(t, Event::Settings(h)).0, Event::Settings(f)).0,
                    Event::Worker(o)).0, Event::Done).1 == (Step::Finish(Outcome::Done))
            &&& f.prepare_requested && t.worker.installed
                ==> moved(moved(moved(t, Event::Settings(h)).0, Event::Settings(f)).0,
                    Event::Worker(o)).1
                        == (if o.reachable { Step::Load } else { Step::Run(VmTask::Start) })
            &&& f.prepare_requested && !t.worker.installed
                ==> moved(moved(moved(t, Event::Settings(h)).0, Event::Settings(f)).0,
                    Event::Settings(h)).1
                        == (if h.prepare_requested { Step::FinishInitialStorage } else { Step::Run(VmTask::Stop) })
        }),
{
    reveal(moved);
}

proof fn lemma_preparations_follow_the_owner_8(t: Tick, f: Facts, h: Facts, o: Sight)
    requires
        t.at == At::Prepare(Prepare::ExistingStarted),
    ensures
        ({
            &&& moved(t, Event::Done).1 == (Step::Load)
            &&& moved(moved(t, Event::Done).0, Event::Settings(h)).1
                == (if h.prepare_requested { Step::FinishInitialStorage } else { Step::Run(VmTask::Stop) })
        }),
{
    reveal(moved);
}

proof fn lemma_preparations_follow_the_owner_9(t: Tick, f: Facts, h: Facts, o: Sight)
    requires
        t.at == At::Prepare(Prepare::StorageReady),
    ensures
        ({
            &&& moved(t, Event::Done).1 == (Step::AnnounceAccess)
        }),
{
    reveal(moved);
}

proof fn lemma_preparations_follow_the_owner_10(t: Tick, f: Facts, h: Facts, o: Sight)
    requires
        t.at == At::Prepare(Prepare::Announced),
    ensures
        ({
            &&& moved(t, Event::Done).1 == (Step::Ask(Route::Bootstrap))
        }),
{
    reveal(moved);
}

proof fn lemma_preparations_follow_the_owner_11(t: Tick, f: Facts, h: Facts, o: Sight)
    requires
        t.at == At::Prepare(Prepare::Bootstrapped),
    ensures
        ({
            &&& moved(t, Event::Done).1 == (Step::Run(VmTask::Configure))
        }),
{
    reveal(moved);
}

proof fn lemma_preparations_follow_the_owner_12(t: Tick, f: Facts, h: Facts, o: Sight)
    requires
        t.at == At::Prepare(Prepare::Configured),
    ensures
        ({
            &&& moved(t, Event::Done).1 == (Step::Save(Save::FinishPreparation))
        }),
{
    reveal(moved);
}

proof fn lemma_preparations_follow_the_owner_13(t: Tick, f: Facts, h: Facts, o: Sight)
    requires
        t.at == At::Prepare(Prepare::Saved),
    ensures
        ({
            &&& moved(t, Event::Settings(h)).1 == (Step::Note(Memory::Starting(None)))
        }),
{
    reveal(moved);
}

proof fn lemma_preparations_follow_the_owner_14(t: Tick, f: Facts, h: Facts, o: Sight)
    requires
        t.at == At::Prepare(Prepare::Noted),
    ensures
        ({
            &&& moved(t, Event::Done).1 == (Step::Load)
        }),
{
    reveal(moved);
}

/// A preparation makes the worker with the owner's resources, or gives it those, records
/// it, and asks for access only while the owner still wants it; otherwise the worker is
/// stopped.
pub proof fn preparations_follow_the_owner(g: Facts, es: Seq<Event>, f: Facts, h: Facts, o: Sight)
    requires
        es.len() > 0,
    ensures
        ({
            let s = asked(g, es);
            let t = reached(g, es);
            let resize = if t.config.placed { Step::Run(VmTask::ResizeCompute(t.config.resources)) } else { Step::Run(VmTask::Resize(t.config.resources)) };
            &&& t.at is Prepare && s == Step::Note(Memory::Starting(Some(Starting::Preparation)))
                ==> asked(g, es.push(Event::Done))
                    == (if t.owned { Step::Inspect } else { Step::Note(Memory::NoWorker) })
            &&& t.at is Prepare && s == Step::Inspect
                ==> asked(g, es.push(Event::Worker(o))) == (if o.running
                    && !o.reachable { Step::Tell(Notice::Unreachable) } else { Step::Tell(Notice::Preparing) })
            &&& t.at is Prepare && s == Step::Inspect
                ==> reached(g, es.push(Event::Worker(o))).worker == o
            &&& t.at is Prepare && s == Step::Note(Memory::NoWorker)
                ==> asked(g, es.push(Event::Done)) == (Step::Tell(Notice::Preparing))
            &&& t.at is Prepare && s == Step::Note(Memory::NoWorker)
                ==> reached(g, es.push(Event::Done)).worker == nothing()
            &&& s == Step::Tell(Notice::Unreachable)
                ==> asked(g, es.push(Event::Done)) == (Step::Finish(Outcome::Done))
            &&& s == Step::Tell(Notice::Preparing)
                ==> asked(g, es.push(Event::Done))
                    == (if !t.worker.installed { Step::ValidatePolicy } else { if t.config.allocated == Some(t.config.resources) { Step::Save(Save::RecordWorker(t.config.resources)) } else { if t.worker.running { Step::Run(VmTask::Stop) } else { resize } } })
            &&& s == Step::Tell(Notice::Preparing) && t.worker.installed && t.worker.running
                && t.config.allocated != Some(t.config.resources)
                    ==> asked(g, es.push(Event::Done).push(Event::Done)) == (resize)
            &&& s == Step::ValidatePolicy
                ==> asked(g, es.push(Event::Done))
                    == (if t.config.placed { Step::CreateStorageWorker } else { Step::Run(VmTask::Create(t.config.resources)) })
            &&& (s == Step::CreateStorageWorker || s
                == Step::Run(VmTask::Create(t.config.resources)) || (t.at is Prepare
                    && s == resize))
                        ==> asked(g, es.push(Event::Done))
                            == (Step::Save(Save::RecordWorker(t.config.resources)))
            &&& s == Step::Save(Save::RecordWorker(t.config.resources))
                ==> asked(g, es.push(Event::Settings(h))) == (Step::Load)
            &&& s == Step::Save(Save::RecordWorker(t.config.resources))
                ==> asked(g, es.push(Event::Settings(h)).push(Event::Settings(f)))
                    == (if !f.prepare_requested { Step::Look } else { if t.worker.installed { Step::Look } else { Step::Load } })
            &&& s == Step::Save(Save::RecordWorker(t.config.resources)) && !f.prepare_requested
                ==> asked(g,
                    es.push(Event::Settings(h)).push(Event::Settings(f)).push(Event::Worker(o)))
                        == (if o.running { Step::Run(VmTask::Stop) } else { Step::Finish(Outcome::Done) })
            &&& s == Step::Save(Save::RecordWorker(t.config.resources)) && !f.prepare_requested
                && o.running
                    ==> asked(g,
                        es.push(Event::Settings(h)).push(Event::Settings(f)).push(Event::Worker(o)).push(Event::Done)) == (Step::Finish(Outcome::Done))
            &&& s == Step::Save(Save::RecordWorker(t.config.resources)) && f.prepare_requested
                && t.worker.installed
                    ==> asked(g,
                        es.push(Event::Settings(h)).push(Event::Settings(f)).push(Event::Worker(o))) == (if o.reachable { Step::Load } else { Step::Run(VmTask::Start) })
            &&& s == Step::Save(Save::RecordWorker(t.config.resources)) && f.prepare_requested
                && !t.worker.installed
                    ==> asked(g,
                        es.push(Event::Settings(h)).push(Event::Settings(f)).push(Event::Settings(h))) == (if h.prepare_requested { Step::FinishInitialStorage } else { Step::Run(VmTask::Stop) })
            &&& t.at is Prepare && s == Step::Run(VmTask::Start)
                ==> asked(g, es.push(Event::Done)) == (Step::Load)
            &&& t.at is Prepare && s == Step::Run(VmTask::Start)
                ==> asked(g, es.push(Event::Done).push(Event::Settings(h)))
                    == (if h.prepare_requested { Step::FinishInitialStorage } else { Step::Run(VmTask::Stop) })
            &&& s == Step::FinishInitialStorage
                ==> asked(g, es.push(Event::Done)) == (Step::AnnounceAccess)
            &&& t.at is Prepare && s == Step::AnnounceAccess
                ==> asked(g, es.push(Event::Done)) == (Step::Ask(Route::Bootstrap))
            &&& t.at is Prepare && s == Step::Ask(Route::Bootstrap)
                ==> asked(g, es.push(Event::Done)) == (Step::Run(VmTask::Configure))
            &&& t.at is Prepare && s == Step::Run(VmTask::Configure)
                ==> asked(g, es.push(Event::Done)) == (Step::Save(Save::FinishPreparation))
            &&& s == Step::Save(Save::FinishPreparation)
                ==> asked(g, es.push(Event::Settings(h))) == (Step::Note(Memory::Starting(None)))
            &&& t.at is Prepare && s == Step::Note(Memory::Starting(None))
                ==> asked(g, es.push(Event::Done)) == (Step::Load)
        }),
{
    lemma_run(g, es);
    let s = asked(g, es);
    let t = reached(g, es);
    let resize = if t.config.placed { Step::Run(VmTask::ResizeCompute(t.config.resources)) } else { Step::Run(VmTask::Resize(t.config.resources)) };
    if t.at is Prepare && s == Step::Note(Memory::Starting(Some(Starting::Preparation))) {
        lemma_preparations_follow_the_owner_0(t, f, h, o);
        lemma_push(g, es, Event::Done);
    }
    if t.at is Prepare && s == Step::Inspect {
        lemma_preparations_follow_the_owner_1(t, f, h, o);
        lemma_push(g, es, Event::Worker(o));
    }
    if t.at is Prepare && s == Step::Note(Memory::NoWorker) {
        lemma_preparations_follow_the_owner_2(t, f, h, o);
        lemma_push(g, es, Event::Done);
    }
    if s == Step::Tell(Notice::Unreachable) {
        lemma_preparations_follow_the_owner_3(t, f, h, o);
        lemma_push(g, es, Event::Done);
    }
    if s == Step::Tell(Notice::Preparing) {
        lemma_preparations_follow_the_owner_4(t, f, h, o);
        lemma_push(g, es, Event::Done);
        lemma_push(g, es.push(Event::Done), Event::Done);
    }
    if s == Step::ValidatePolicy {
        lemma_preparations_follow_the_owner_5(t, f, h, o);
        lemma_push(g, es, Event::Done);
    }
    if s == Step::CreateStorageWorker || s
        == Step::Run(VmTask::Create(t.config.resources)) || (t.at is Prepare && s == resize) {
        lemma_preparations_follow_the_owner_6(t, f, h, o);
        lemma_push(g, es, Event::Done);
    }
    if s == Step::Save(Save::RecordWorker(t.config.resources)) {
        lemma_preparations_follow_the_owner_7(t, f, h, o);
        lemma_push(g, es, Event::Settings(h));
        lemma_push(g, es.push(Event::Settings(h)), Event::Settings(f));
        lemma_push(g, es.push(Event::Settings(h)).push(Event::Settings(f)), Event::Worker(o));
        lemma_push(g, es.push(Event::Settings(h)).push(Event::Settings(f)).push(Event::Worker(o)),
            Event::Done);
        lemma_push(g, es.push(Event::Settings(h)).push(Event::Settings(f)), Event::Settings(h));
    }
    if t.at is Prepare && s == Step::Run(VmTask::Start) {
        lemma_preparations_follow_the_owner_8(t, f, h, o);
        lemma_push(g, es, Event::Done);
        lemma_push(g, es.push(Event::Done), Event::Settings(h));
    }
    if s == Step::FinishInitialStorage {
        lemma_preparations_follow_the_owner_9(t, f, h, o);
        lemma_push(g, es, Event::Done);
    }
    if t.at is Prepare && s == Step::AnnounceAccess {
        lemma_preparations_follow_the_owner_10(t, f, h, o);
        lemma_push(g, es, Event::Done);
    }
    if t.at is Prepare && s == Step::Ask(Route::Bootstrap) {
        lemma_preparations_follow_the_owner_11(t, f, h, o);
        lemma_push(g, es, Event::Done);
    }
    if t.at is Prepare && s == Step::Run(VmTask::Configure) {
        lemma_preparations_follow_the_owner_12(t, f, h, o);
        lemma_push(g, es, Event::Done);
    }
    if s == Step::Save(Save::FinishPreparation) {
        lemma_preparations_follow_the_owner_13(t, f, h, o);
        lemma_push(g, es, Event::Settings(h));
    }
    if t.at is Prepare && s == Step::Note(Memory::Starting(None)) {
        lemma_preparations_follow_the_owner_14(t, f, h, o);
        lemma_push(g, es, Event::Done);
    }
}

proof fn lemma_workers_are_looked_at_first_0(t: Tick, f: Facts, h: Facts, o: Sight, here: bool,
    e: Event)
    requires
        t.at == At::Observe(Observe::Seen),
    ensures
        ({
            let seen = if t.config.update_pending
                && !o.running { Step::Note(Memory::UpdateReady(true)) } else { if o.running
                    && !t.config.vm_configured
                        && !t.config.prepare_requested { Step::Run(VmTask::StopNow) } else { if t.config.pending && !o.running { Step::ApplyConfiguration } else { if !t.config.vm_created { Step::Tell(Notice::PrepareFirst) } else { if t.config.stop_requested && o.running { Step::Finish(Outcome::Go(Routine::ImmediateStop)) } else { if t.config.vm_configured && t.config.allocated != Some(t.config.resources) && !o.running { if t.config.placed { Step::Run(VmTask::ResizeCompute(t.config.resources)) } else { Step::Run(VmTask::Resize(t.config.resources)) } } else { if o.running { Step::LocalDrain } else { Step::Save(Save::ClearDrain) } } } } } } };
            &&& moved(t, Event::Worker(o)).1 == (if o.stopped { Step::CleanCopies } else { seen })
            &&& o.stopped
                ==> { moved(t, Event::Worker(o)).0.worker == o
                    && moved(t, Event::Worker(o)).0.config == t.config }
            &&& !o.stopped
                ==> { moved(t, Event::Worker(o)).0.worker == o
                    && moved(t, Event::Worker(o)).0.config == t.config }
        }),
{
    reveal(moved);
}

proof fn lemma_workers_are_looked_at_first_1(t: Tick, f: Facts, h: Facts, o: Sight, here: bool,
    e: Event)
    requires
        t.at == At::Observe(Observe::Absent),
    ensures
        ({
            &&& moved(t, Event::Done).1 == (if t.config.update_pending
                && !nothing().running { Step::Note(Memory::UpdateReady(true)) } else { if nothing().running && !t.config.vm_configured && !t.config.prepare_requested { Step::Run(VmTask::StopNow) } else { if t.config.pending && !nothing().running { Step::ApplyConfiguration } else { if !t.config.vm_created { Step::Tell(Notice::PrepareFirst) } else { if t.config.stop_requested && nothing().running { Step::Finish(Outcome::Go(Routine::ImmediateStop)) } else { if t.config.vm_configured && t.config.allocated != Some(t.config.resources) && !nothing().running { if t.config.placed { Step::Run(VmTask::ResizeCompute(t.config.resources)) } else { Step::Run(VmTask::Resize(t.config.resources)) } } else { if nothing().running { Step::LocalDrain } else { Step::Save(Save::ClearDrain) } } } } } } })
        }),
{
    reveal(moved);
}

proof fn lemma_workers_are_looked_at_first_2(t: Tick, f: Facts, h: Facts, o: Sight, here: bool,
    e: Event)
    requires
        t.at == At::Observe(Observe::CopiesCleaned),
    ensures
        ({
            let next = if t.config.update_pending
                && !t.worker.running { Step::Note(Memory::UpdateReady(true)) } else { if t.worker.running && !t.config.vm_configured && !t.config.prepare_requested { Step::Run(VmTask::StopNow) } else { if t.config.pending && !t.worker.running { Step::ApplyConfiguration } else { if !t.config.vm_created { Step::Tell(Notice::PrepareFirst) } else { if t.config.stop_requested && t.worker.running { Step::Finish(Outcome::Go(Routine::ImmediateStop)) } else { if t.config.vm_configured && t.config.allocated != Some(t.config.resources) && !t.worker.running { if t.config.placed { Step::Run(VmTask::ResizeCompute(t.config.resources)) } else { Step::Run(VmTask::Resize(t.config.resources)) } } else { if t.worker.running { Step::LocalDrain } else { Step::Save(Save::ClearDrain) } } } } } } };
            &&& moved(t, e).1 == (next)
        }),
{
    reveal(moved);
}

proof fn lemma_workers_are_looked_at_first_3(t: Tick, f: Facts, h: Facts, o: Sight, here: bool,
    e: Event)
    requires
        t.at == At::Observe(Observe::Receipt),
    ensures
        ({
            &&& moved(t, Event::Answer(here)).1
                == (if here { Step::Inspect } else { Step::Note(Memory::NoWorker) })
        }),
{
    reveal(moved);
}

proof fn lemma_workers_are_looked_at_first_4(t: Tick, f: Facts, h: Facts, o: Sight, here: bool,
    e: Event)
    requires
        t.at == At::Entry(Entry::Validated),
    ensures
        ({
            &&& !t.config.recreation && !t.config.repair && !t.config.prepare_requested
                ==> moved(moved(t, Event::Done).0, Event::Settings(f)).1
                    == (if f.vm_created { Step::Inspect } else { Step::Receipt })
            &&& !t.config.recreation && !t.config.repair && !t.config.prepare_requested
                ==> moved(moved(t, Event::Done).0, Event::Settings(f)).0.config == f
        }),
{
    reveal(moved);
}

proof fn lemma_workers_are_looked_at_first_5(t: Tick, f: Facts, h: Facts, o: Sight, here: bool,
    e: Event)
    requires
        t.at == At::Prepare(Prepare::Noted),
    ensures
        ({
            &&& moved(moved(t, Event::Done).0, Event::Settings(f)).1
                == (if f.vm_created { Step::Inspect } else { Step::Receipt })
            &&& moved(moved(t, Event::Done).0, Event::Settings(f)).0.config == f
        }),
{
    reveal(moved);
}

proof fn lemma_workers_are_looked_at_first_6(t: Tick, f: Facts, h: Facts, o: Sight, here: bool,
    e: Event)
    requires
        t.at == At::Observe(Observe::UpdateNoted),
    ensures
        ({
            &&& moved(t, Event::Done).1 == (Step::Tell(Notice::StoppedForUpdate))
        }),
{
    reveal(moved);
}

proof fn lemma_workers_are_looked_at_first_7(t: Tick, f: Facts, h: Facts, o: Sight, here: bool,
    e: Event)
    requires
        t.at == At::Observe(Observe::UpdateTold),
    ensures
        ({
            &&& moved(t, Event::Done).1 == (Step::Finish(Outcome::Done))
        }),
{
    reveal(moved);
}

proof fn lemma_workers_are_looked_at_first_8(t: Tick, f: Facts, h: Facts, o: Sight, here: bool,
    e: Event)
    requires
        t.at == At::Observe(Observe::IncompleteTold),
    ensures
        ({
            &&& moved(t, Event::Done).1 == (Step::Finish(Outcome::Done))
        }),
{
    reveal(moved);
}

proof fn lemma_workers_are_looked_at_first_9(t: Tick, f: Facts, h: Facts, o: Sight, here: bool,
    e: Event)
    requires
        t.at == At::Observe(Observe::ResizeTold),
    ensures
        ({
            &&& moved(t, Event::Done).1 == (Step::Finish(Outcome::Done))
        }),
{
    reveal(moved);
}

proof fn lemma_workers_are_looked_at_first_10(t: Tick, f: Facts, h: Facts, o: Sight, here: bool,
    e: Event)
    requires
        t.at == At::Observe(Observe::IncompleteStopped),
    ensures
        ({
            &&& moved(t, Event::Done).1 == (Step::Note(Memory::WorkerStopped))
        }),
{
    reveal(moved);
}

proof fn lemma_workers_are_looked_at_first_11(t: Tick, f: Facts, h: Facts, o: Sight, here: bool,
    e: Event)
    requires
        t.at == At::Observe(Observe::IncompleteNoted),
    ensures
        ({
            &&& moved(t, Event::Done).1 == (Step::Tell(Notice::Incomplete))
        }),
{
    reveal(moved);
}

proof fn lemma_workers_are_looked_at_first_12(t: Tick, f: Facts, h: Facts, o: Sight, here: bool,
    e: Event)
    requires
        t.at == At::Observe(Observe::Applied),
    ensures
        ({
            &&& moved(t, Event::Done).1 == (Step::Load)
            &&& moved(moved(t, Event::Done).0, Event::Settings(h)).1 == (Step::Heartbeat)
            &&& moved(moved(moved(t, Event::Done).0, Event::Settings(h)).0, e).1
                == (Step::Finish(Outcome::Done))
        }),
{
    reveal(moved);
}

proof fn lemma_workers_are_looked_at_first_13(t: Tick, f: Facts, h: Facts, o: Sight, here: bool,
    e: Event)
    requires
        t.at == At::Observe(Observe::PrepareFirstTold),
    ensures
        ({
            &&& moved(t, Event::Done).1 == (Step::Heartbeat)
            &&& moved(moved(t, Event::Done).0, Event::Done).1 == (Step::Finish(Outcome::Done))
        }),
{
    reveal(moved);
}

proof fn lemma_workers_are_looked_at_first_14(t: Tick, f: Facts, h: Facts, o: Sight, here: bool,
    e: Event)
    requires
        t.at == At::Observe(Observe::Resized),
    ensures
        ({
            &&& moved(t, Event::Done).1 == (Step::Save(Save::RecordAllocation(t.config.resources)))
        }),
{
    reveal(moved);
}

proof fn lemma_workers_are_looked_at_first_15(t: Tick, f: Facts, h: Facts, o: Sight, here: bool,
    e: Event)
    requires
        t.at == At::Observe(Observe::ResizeSaved),
    ensures
        ({
            &&& moved(t, Event::Settings(h)).1 == (Step::Tell(Notice::ResourcesUpdated))
        }),
{
    reveal(moved);
}

/// What the worker's state calls for is decided before the controller is told: an update
/// of a stopped worker, the stop of an incomplete one, a pending change, a first
/// preparation, the owner's stop, new resources, a drain that the owner's rules call for.
/// Old copies go only from a stopped worker.
pub proof fn workers_are_looked_at_first(g: Facts, es: Seq<Event>, f: Facts, h: Facts, o: Sight,
    here: bool, e: Event)
    requires
        es.len() > 0,
    ensures
        ({
            let s = asked(g, es);
            let t = reached(g, es);
            let next = if t.config.update_pending
                && !t.worker.running { Step::Note(Memory::UpdateReady(true)) } else { if t.worker.running && !t.config.vm_configured && !t.config.prepare_requested { Step::Run(VmTask::StopNow) } else { if t.config.pending && !t.worker.running { Step::ApplyConfiguration } else { if !t.config.vm_created { Step::Tell(Notice::PrepareFirst) } else { if t.config.stop_requested && t.worker.running { Step::Finish(Outcome::Go(Routine::ImmediateStop)) } else { if t.config.vm_configured && t.config.allocated != Some(t.config.resources) && !t.worker.running { if t.config.placed { Step::Run(VmTask::ResizeCompute(t.config.resources)) } else { Step::Run(VmTask::Resize(t.config.resources)) } } else { if t.worker.running { Step::LocalDrain } else { Step::Save(Save::ClearDrain) } } } } } } };
            let seen = if t.config.update_pending
                && !o.running { Step::Note(Memory::UpdateReady(true)) } else { if o.running
                    && !t.config.vm_configured
                        && !t.config.prepare_requested { Step::Run(VmTask::StopNow) } else { if t.config.pending && !o.running { Step::ApplyConfiguration } else { if !t.config.vm_created { Step::Tell(Notice::PrepareFirst) } else { if t.config.stop_requested && o.running { Step::Finish(Outcome::Go(Routine::ImmediateStop)) } else { if t.config.vm_configured && t.config.allocated != Some(t.config.resources) && !o.running { if t.config.placed { Step::Run(VmTask::ResizeCompute(t.config.resources)) } else { Step::Run(VmTask::Resize(t.config.resources)) } } else { if o.running { Step::LocalDrain } else { Step::Save(Save::ClearDrain) } } } } } } };
            &&& t.at is Observe && s == Step::Inspect
                ==> asked(g, es.push(Event::Worker(o)))
                    == (if o.stopped { Step::CleanCopies } else { seen })
            &&& t.at is Observe && s == Step::Inspect && o.stopped
                ==> reached(g, es.push(Event::Worker(o))).worker == o
                    && reached(g, es.push(Event::Worker(o))).config == t.config
            &&& t.at is Observe && s == Step::Inspect && !o.stopped
                ==> reached(g, es.push(Event::Worker(o))).worker == o
                    && reached(g, es.push(Event::Worker(o))).config == t.config
            &&& t.at is Observe && s == Step::Note(Memory::NoWorker)
                ==> asked(g, es.push(Event::Done)) == (if t.config.update_pending
                    && !nothing().running { Step::Note(Memory::UpdateReady(true)) } else { if nothing().running && !t.config.vm_configured && !t.config.prepare_requested { Step::Run(VmTask::StopNow) } else { if t.config.pending && !nothing().running { Step::ApplyConfiguration } else { if !t.config.vm_created { Step::Tell(Notice::PrepareFirst) } else { if t.config.stop_requested && nothing().running { Step::Finish(Outcome::Go(Routine::ImmediateStop)) } else { if t.config.vm_configured && t.config.allocated != Some(t.config.resources) && !nothing().running { if t.config.placed { Step::Run(VmTask::ResizeCompute(t.config.resources)) } else { Step::Run(VmTask::Resize(t.config.resources)) } } else { if nothing().running { Step::LocalDrain } else { Step::Save(Save::ClearDrain) } } } } } } })
            &&& s == Step::CleanCopies ==> asked(g, es.push(e)) == (next)
            &&& t.at is Observe && s == Step::Receipt
                ==> asked(g, es.push(Event::Answer(here)))
                    == (if here { Step::Inspect } else { Step::Note(Memory::NoWorker) })
            &&& s == Step::ValidateStorage && !t.config.recreation && !t.config.repair
                && !t.config.prepare_requested
                    ==> asked(g, es.push(Event::Done).push(Event::Settings(f)))
                        == (if f.vm_created { Step::Inspect } else { Step::Receipt })
            &&& s == Step::ValidateStorage && !t.config.recreation && !t.config.repair
                && !t.config.prepare_requested
                    ==> reached(g, es.push(Event::Done).push(Event::Settings(f))).config == f
            &&& t.at is Prepare && s == Step::Note(Memory::Starting(None))
                ==> asked(g, es.push(Event::Done).push(Event::Settings(f)))
                    == (if f.vm_created { Step::Inspect } else { Step::Receipt })
            &&& t.at is Prepare && s == Step::Note(Memory::Starting(None))
                ==> reached(g, es.push(Event::Done).push(Event::Settings(f))).config == f
            &&& t.at is Observe && s == Step::Note(Memory::UpdateReady(true))
                ==> asked(g, es.push(Event::Done)) == (Step::Tell(Notice::StoppedForUpdate))
            &&& s == Step::Tell(Notice::StoppedForUpdate)
                ==> asked(g, es.push(Event::Done)) == (Step::Finish(Outcome::Done))
            &&& s == Step::Tell(Notice::Incomplete)
                ==> asked(g, es.push(Event::Done)) == (Step::Finish(Outcome::Done))
            &&& s == Step::Tell(Notice::ResourcesUpdated)
                ==> asked(g, es.push(Event::Done)) == (Step::Finish(Outcome::Done))
            &&& t.at is Observe && s == Step::Run(VmTask::StopNow)
                ==> asked(g, es.push(Event::Done)) == (Step::Note(Memory::WorkerStopped))
            &&& t.at is Observe && s == Step::Note(Memory::WorkerStopped)
                ==> asked(g, es.push(Event::Done)) == (Step::Tell(Notice::Incomplete))
            &&& s == Step::ApplyConfiguration ==> asked(g, es.push(Event::Done)) == (Step::Load)
            &&& s == Step::ApplyConfiguration
                ==> asked(g, es.push(Event::Done).push(Event::Settings(h))) == (Step::Heartbeat)
            &&& s == Step::ApplyConfiguration
                ==> asked(g, es.push(Event::Done).push(Event::Settings(h)).push(e))
                    == (Step::Finish(Outcome::Done))
            &&& s == Step::Tell(Notice::PrepareFirst)
                ==> asked(g, es.push(Event::Done)) == (Step::Heartbeat)
            &&& s == Step::Tell(Notice::PrepareFirst)
                ==> asked(g, es.push(Event::Done).push(Event::Done))
                    == (Step::Finish(Outcome::Done))
            &&& (t.at is Observe
                && (s == Step::Run(VmTask::Resize(t.config.resources)) || s
                    == Step::Run(VmTask::ResizeCompute(t.config.resources))))
                        ==> asked(g, es.push(Event::Done))
                            == (Step::Save(Save::RecordAllocation(t.config.resources)))
            &&& s == Step::Save(Save::RecordAllocation(t.config.resources))
                ==> asked(g, es.push(Event::Settings(h))) == (Step::Tell(Notice::ResourcesUpdated))
        }),
{
    lemma_run(g, es);
    let s = asked(g, es);
    let t = reached(g, es);
    if t.at is Observe && s == Step::Inspect {
        lemma_workers_are_looked_at_first_0(t, f, h, o, here, e);
        lemma_push(g, es, Event::Worker(o));
    }
    if t.at is Observe && s == Step::Note(Memory::NoWorker) {
        lemma_workers_are_looked_at_first_1(t, f, h, o, here, e);
        lemma_push(g, es, Event::Done);
    }
    if s == Step::CleanCopies {
        lemma_workers_are_looked_at_first_2(t, f, h, o, here, e);
        lemma_push(g, es, e);
    }
    if t.at is Observe && s == Step::Receipt {
        lemma_workers_are_looked_at_first_3(t, f, h, o, here, e);
        lemma_push(g, es, Event::Answer(here));
    }
    if s == Step::ValidateStorage {
        lemma_workers_are_looked_at_first_4(t, f, h, o, here, e);
        lemma_push(g, es, Event::Done);
        lemma_push(g, es.push(Event::Done), Event::Settings(f));
    }
    if t.at is Prepare && s == Step::Note(Memory::Starting(None)) {
        lemma_workers_are_looked_at_first_5(t, f, h, o, here, e);
        lemma_push(g, es, Event::Done);
        lemma_push(g, es.push(Event::Done), Event::Settings(f));
    }
    if t.at is Observe && s == Step::Note(Memory::UpdateReady(true)) {
        lemma_workers_are_looked_at_first_6(t, f, h, o, here, e);
        lemma_push(g, es, Event::Done);
    }
    if s == Step::Tell(Notice::StoppedForUpdate) {
        lemma_workers_are_looked_at_first_7(t, f, h, o, here, e);
        lemma_push(g, es, Event::Done);
    }
    if s == Step::Tell(Notice::Incomplete) {
        lemma_workers_are_looked_at_first_8(t, f, h, o, here, e);
        lemma_push(g, es, Event::Done);
    }
    if s == Step::Tell(Notice::ResourcesUpdated) {
        lemma_workers_are_looked_at_first_9(t, f, h, o, here, e);
        lemma_push(g, es, Event::Done);
    }
    if t.at is Observe && s == Step::Run(VmTask::StopNow) {
        lemma_workers_are_looked_at_first_10(t, f, h, o, here, e);
        lemma_push(g, es, Event::Done);
    }
    if t.at is Observe && s == Step::Note(Memory::WorkerStopped) {
        lemma_workers_are_looked_at_first_11(t, f, h, o, here, e);
        lemma_push(g, es, Event::Done);
    }
    if s == Step::ApplyConfiguration {
        lemma_workers_are_looked_at_first_12(t, f, h, o, here, e);
        lemma_push(g, es, Event::Done);
        lemma_push(g, es.push(Event::Done), Event::Settings(h));
        lemma_push(g, es.push(Event::Done).push(Event::Settings(h)), e);
    }
    if s == Step::Tell(Notice::PrepareFirst) {
        lemma_workers_are_looked_at_first_13(t, f, h, o, here, e);
        lemma_push(g, es, Event::Done);
        lemma_push(g, es.push(Event::Done), Event::Done);
    }
    if t.at is Observe
        && (s == Step::Run(VmTask::Resize(t.config.resources)) || s
            == Step::Run(VmTask::ResizeCompute(t.config.resources))) {
        lemma_workers_are_looked_at_first_14(t, f, h, o, here, e);
        lemma_push(g, es, Event::Done);
    }
    if s == Step::Save(Save::RecordAllocation(t.config.resources)) {
        lemma_workers_are_looked_at_first_15(t, f, h, o, here, e);
        lemma_push(g, es, Event::Settings(h));
    }
}

proof fn lemma_controllers_are_told_before_sharing_0(t: Tick, f: Facts, h: Facts, here: bool)
    requires
        t.at == At::Observe(Observe::DrainAsked),
    ensures
        ({
            let hear = if t.config.update_pending { Step::Tell(Notice::WaitingForUpdate) } else { Step::Load };
            &&& moved(t, Event::Answer(here)).1
                == (if here { Step::Save(Save::BeginDrain) } else { hear })
            &&& !t.config.update_pending
                ==> moved(moved(t, Event::Answer(false)).0, Event::Settings(h)).1
                    == (Step::Heartbeat)
            &&& !t.config.update_pending
                ==> moved(moved(moved(t, Event::Answer(false)).0, Event::Settings(h)).0,
                    Event::Done).1 == (Step::Load)
            &&& !t.config.update_pending
                ==> moved(moved(moved(t, Event::Answer(false)).0, Event::Settings(h)).0,
                    Event::Done).0.beaten
            &&& !t.config.update_pending
                ==> moved(moved(moved(t, Event::Answer(false)).0, Event::Settings(h)).0,
                    Event::Failed).1 == (Step::Hold)
            &&& !t.config.update_pending
                ==> moved(moved(moved(moved(t, Event::Answer(false)).0, Event::Settings(h)).0,
                    Event::Failed).0, Event::Done).1 == (Step::Load)
            &&& !t.config.update_pending
                ==> !moved(moved(moved(moved(t, Event::Answer(false)).0, Event::Settings(h)).0,
                    Event::Failed).0, Event::Done).0.beaten
            &&& !t.config.update_pending
                ==> moved(moved(moved(moved(t, Event::Answer(false)).0, Event::Settings(h)).0,
                    Event::Done).0, Event::Settings(f)).1 == (Step::Judge)
            &&& !t.config.update_pending
                ==> moved(moved(moved(moved(t, Event::Answer(false)).0, Event::Settings(h)).0,
                    Event::Done).0, Event::Settings(f)).0.config == f
        }),
{
    reveal(moved);
}

proof fn lemma_controllers_are_told_before_sharing_1(t: Tick, f: Facts, h: Facts, here: bool)
    requires
        t.at == At::Observe(Observe::DrainBegun),
    ensures
        ({
            let hear = if t.config.update_pending { Step::Tell(Notice::WaitingForUpdate) } else { Step::Load };
            &&& moved(t, Event::Settings(f)).1 == (if (f.draining_since is Some
                && (f.now >= f.draining_since->0 + f.drain_seconds || f.drain_seconds
                    == 0)) { Step::Finish(Outcome::Go(Routine::ImmediateStop)) } else { hear })
        }),
{
    reveal(moved);
}

proof fn lemma_controllers_are_told_before_sharing_2(t: Tick, f: Facts, h: Facts, here: bool)
    requires
        t.at == At::Observe(Observe::DrainCleared),
    ensures
        ({
            let hear = if t.config.update_pending { Step::Tell(Notice::WaitingForUpdate) } else { Step::Load };
            &&& moved(t, Event::Settings(h)).1 == (hear)
        }),
{
    reveal(moved);
}

proof fn lemma_controllers_are_told_before_sharing_3(t: Tick, f: Facts, h: Facts, here: bool)
    requires
        t.at == At::Observe(Observe::UpdateWaitTold),
    ensures
        ({
            &&& moved(t, Event::Done).1 == (Step::Load)
            &&& moved(moved(t, Event::Done).0, Event::Settings(h)).1 == (Step::Heartbeat)
            &&& moved(moved(moved(t, Event::Done).0, Event::Settings(h)).0, Event::Done).1
                == (Step::Load)
            &&& moved(moved(moved(t, Event::Done).0, Event::Settings(h)).0, Event::Done).0.beaten
            &&& moved(moved(moved(t, Event::Done).0, Event::Settings(h)).0, Event::Failed).1
                == (Step::Hold)
            &&& moved(moved(moved(moved(t, Event::Done).0, Event::Settings(h)).0, Event::Failed).0,
                Event::Done).1 == (Step::Load)
            &&& !moved(moved(moved(moved(t, Event::Done).0, Event::Settings(h)).0, Event::Failed).0,
                Event::Done).0.beaten
            &&& moved(moved(moved(moved(t, Event::Done).0, Event::Settings(h)).0, Event::Done).0,
                Event::Settings(f)).1 == (Step::Judge)
            &&& moved(moved(moved(moved(t, Event::Done).0, Event::Settings(h)).0, Event::Done).0,
                Event::Settings(f)).0.config == f
        }),
{
    reveal(moved);
}

/// A drain that the owner's rules call for is recorded before the controller hears of it,
/// and one whose grace period is over stops the worker at once. The controller is told
/// before the rules are judged; where it did not hear, that is kept and remembered.
pub proof fn controllers_are_told_before_sharing(g: Facts, es: Seq<Event>, f: Facts, h: Facts,
    here: bool)
    requires
        es.len() > 0,
    ensures
        ({
            let s = asked(g, es);
            let t = reached(g, es);
            let hear = if t.config.update_pending { Step::Tell(Notice::WaitingForUpdate) } else { Step::Load };
            &&& s == Step::LocalDrain
                ==> asked(g, es.push(Event::Answer(here)))
                    == (if here { Step::Save(Save::BeginDrain) } else { hear })
            &&& t.at is Observe && s == Step::Save(Save::BeginDrain)
                ==> asked(g, es.push(Event::Settings(f))) == (if (f.draining_since is Some
                    && (f.now >= f.draining_since->0 + f.drain_seconds || f.drain_seconds
                        == 0)) { Step::Finish(Outcome::Go(Routine::ImmediateStop)) } else { hear })
            &&& t.at is Observe && s == Step::Save(Save::ClearDrain)
                ==> asked(g, es.push(Event::Settings(h))) == (hear)
            &&& s == Step::Tell(Notice::WaitingForUpdate)
                ==> asked(g, es.push(Event::Done)) == (Step::Load)
            &&& s == Step::Tell(Notice::WaitingForUpdate)
                ==> asked(g, es.push(Event::Done).push(Event::Settings(h))) == (Step::Heartbeat)
            &&& s == Step::Tell(Notice::WaitingForUpdate)
                ==> asked(g, es.push(Event::Done).push(Event::Settings(h)).push(Event::Done))
                    == (Step::Load)
            &&& s == Step::Tell(Notice::WaitingForUpdate)
                ==> reached(g,
                    es.push(Event::Done).push(Event::Settings(h)).push(Event::Done)).beaten
            &&& s == Step::Tell(Notice::WaitingForUpdate)
                ==> asked(g, es.push(Event::Done).push(Event::Settings(h)).push(Event::Failed))
                    == (Step::Hold)
            &&& s == Step::Tell(Notice::WaitingForUpdate)
                ==> asked(g,
                    es.push(Event::Done).push(Event::Settings(h)).push(Event::Failed).push(Event::Done)) == (Step::Load)
            &&& s == Step::Tell(Notice::WaitingForUpdate)
                ==> !reached(g,
                    es.push(Event::Done).push(Event::Settings(h)).push(Event::Failed).push(Event::Done)).beaten
            &&& s == Step::Tell(Notice::WaitingForUpdate)
                ==> asked(g,
                    es.push(Event::Done).push(Event::Settings(h)).push(Event::Done).push(Event::Settings(f))) == (Step::Judge)
            &&& s == Step::Tell(Notice::WaitingForUpdate)
                ==> reached(g,
                    es.push(Event::Done).push(Event::Settings(h)).push(Event::Done).push(Event::Settings(f))).config == f
            &&& s == Step::LocalDrain && !t.config.update_pending
                ==> asked(g, es.push(Event::Answer(false)).push(Event::Settings(h)))
                    == (Step::Heartbeat)
            &&& s == Step::LocalDrain && !t.config.update_pending
                ==> asked(g,
                    es.push(Event::Answer(false)).push(Event::Settings(h)).push(Event::Done))
                        == (Step::Load)
            &&& s == Step::LocalDrain && !t.config.update_pending
                ==> reached(g,
                    es.push(Event::Answer(false)).push(Event::Settings(h)).push(Event::Done)).beaten
            &&& s == Step::LocalDrain && !t.config.update_pending
                ==> asked(g,
                    es.push(Event::Answer(false)).push(Event::Settings(h)).push(Event::Failed))
                        == (Step::Hold)
            &&& s == Step::LocalDrain && !t.config.update_pending
                ==> asked(g,
                    es.push(Event::Answer(false)).push(Event::Settings(h)).push(Event::Failed).push(Event::Done)) == (Step::Load)
            &&& s == Step::LocalDrain && !t.config.update_pending
                ==> !reached(g,
                    es.push(Event::Answer(false)).push(Event::Settings(h)).push(Event::Failed).push(Event::Done)).beaten
            &&& s == Step::LocalDrain && !t.config.update_pending
                ==> asked(g,
                    es.push(Event::Answer(false)).push(Event::Settings(h)).push(Event::Done).push(Event::Settings(f))) == (Step::Judge)
            &&& s == Step::LocalDrain && !t.config.update_pending
                ==> reached(g,
                    es.push(Event::Answer(false)).push(Event::Settings(h)).push(Event::Done).push(Event::Settings(f))).config == f
        }),
{
    lemma_run(g, es);
    let s = asked(g, es);
    let t = reached(g, es);
    if s == Step::LocalDrain {
        lemma_controllers_are_told_before_sharing_0(t, f, h, here);
        lemma_push(g, es, Event::Answer(here));
        lemma_push(g, es, Event::Answer(false));
        lemma_push(g, es.push(Event::Answer(false)), Event::Settings(h));
        lemma_push(g, es.push(Event::Answer(false)).push(Event::Settings(h)), Event::Done);
        lemma_push(g, es.push(Event::Answer(false)).push(Event::Settings(h)), Event::Failed);
        lemma_push(g, es.push(Event::Answer(false)).push(Event::Settings(h)).push(Event::Failed),
            Event::Done);
        lemma_push(g, es.push(Event::Answer(false)).push(Event::Settings(h)).push(Event::Done),
            Event::Settings(f));
    }
    if t.at is Observe && s == Step::Save(Save::BeginDrain) {
        lemma_controllers_are_told_before_sharing_1(t, f, h, here);
        lemma_push(g, es, Event::Settings(f));
    }
    if t.at is Observe && s == Step::Save(Save::ClearDrain) {
        lemma_controllers_are_told_before_sharing_2(t, f, h, here);
        lemma_push(g, es, Event::Settings(h));
    }
    if s == Step::Tell(Notice::WaitingForUpdate) {
        lemma_controllers_are_told_before_sharing_3(t, f, h, here);
        lemma_push(g, es, Event::Done);
        lemma_push(g, es.push(Event::Done), Event::Settings(h));
        lemma_push(g, es.push(Event::Done).push(Event::Settings(h)), Event::Done);
        lemma_push(g, es.push(Event::Done).push(Event::Settings(h)), Event::Failed);
        lemma_push(g, es.push(Event::Done).push(Event::Settings(h)).push(Event::Failed),
            Event::Done);
        lemma_push(g, es.push(Event::Done).push(Event::Settings(h)).push(Event::Done),
            Event::Settings(f));
    }
}

proof fn lemma_sharing_is_judged_and_decided_0(t: Tick, f: Facts, p: bool, paused: bool, n: usize,
    b: u64)
    requires
        t.at == At::Share(Share::Judged),
    ensures
        ({
            let may = p && !paused && t.beaten && !t.config.pending
                && !(t.config.vm_configured && t.config.allocated != Some(t.config.resources));
            let updates = t.config.update_pending && p && !paused
                && !(t.config.vm_configured && t.config.allocated != Some(t.config.resources));
            let ask = if t.worker.running && t.worker.reachable { Step::Count } else { Step::Load };
            &&& !updates
                ==> { moved(t, Event::Judged(p, paused)).1 == (if t.worker.running
                    && !may { Step::Save(Save::BeginDrain) } else { ask }) }
            &&& !updates
                ==> { moved(t, Event::Judged(p, paused)).0.allowed == may
                    && moved(t, Event::Judged(p, paused)).0.remote_paused == paused
                        && moved(t, Event::Judged(p, paused)).0.worker == t.worker
                            && moved(t, Event::Judged(p, paused)).0.config == t.config }
            &&& updates
                ==> moved(t, Event::Judged(p, paused)).1
                    == (if t.worker.reachable { Step::Run(VmTask::RenewLease) } else { if t.beaten { Step::Ask(Route::Maintenance) } else { Step::Finish(Outcome::Held) } })
            &&& updates && t.worker.reachable
                ==> moved(moved(t, Event::Judged(p, paused)).0, Event::Done).1
                    == (if t.beaten { Step::Ask(Route::Maintenance) } else { Step::Finish(Outcome::Held) })
            &&& !updates && !t.worker.running
                ==> moved(moved(t, Event::Judged(p, paused)).0, Event::Settings(f)).1
                    == (Step::Decide(WorkerInput { permitted: may, running: t.worker.running,
                        draining_since: if t.was_draining { f.draining_since } else { None }, now: f.now, drain_seconds: t.config.drain_seconds, workloads: 0 }))
        }),
{
    reveal(moved);
}

proof fn lemma_sharing_is_judged_and_decided_1(t: Tick, f: Facts, p: bool, paused: bool, n: usize,
    b: u64)
    requires
        t.at == At::Share(Share::UpdateAsked),
    ensures
        ({
            &&& moved(t, Event::Done).1 == (Step::Note(Memory::SystemPods))
            &&& moved(moved(t, Event::Done).0, Event::Done).1 == (Step::Bound)
        }),
{
    reveal(moved);
}

proof fn lemma_sharing_is_judged_and_decided_2(t: Tick, f: Facts, p: bool, paused: bool, n: usize,
    b: u64)
    requires
        t.at == At::Share(Share::UpdateBound),
    ensures
        ({
            &&& moved(t, Event::Bound(b)).1
                == (if t.worker.reachable { Step::CountReplied } else { Step::Finish(Outcome::Refused(Refusal::UninspectedUpdate)) })
            &&& t.worker.reachable
                ==> moved(moved(t, Event::Bound(b)).0, Event::Workloads(n)).1
                    == (Step::Note(Memory::Counted))
            &&& t.worker.reachable
                ==> { moved(moved(moved(t, Event::Bound(b)).0, Event::Workloads(n)).0,
                    Event::Done).1 == (Step::SwapIdle(b == 0 && n == 0)) }
        }),
{
    reveal(moved);
}

proof fn lemma_sharing_is_judged_and_decided_3(t: Tick, f: Facts, p: bool, paused: bool, n: usize,
    b: u64)
    requires
        t.at == At::Share(Share::UpdateSwapped),
        t.idle == true,
    ensures
        ({
            &&& moved(t, Event::Answer(true)).1 == (Step::Run(VmTask::Stop))
            &&& moved(moved(t, Event::Answer(true)).0, Event::Done).1
                == (Step::Note(Memory::UpdateStopped))
        }),
{
    reveal(moved);
}

proof fn lemma_sharing_is_judged_and_decided_4(t: Tick, f: Facts, p: bool, paused: bool, n: usize,
    b: u64)
    requires
        t.at == At::Share(Share::UpdateSwapped),
    ensures
        ({
            &&& moved(t, Event::Answer(false)).1 == (Step::Finish(Outcome::Done))
        }),
{
    reveal(moved);
}

proof fn lemma_sharing_is_judged_and_decided_5(t: Tick, f: Facts, p: bool, paused: bool, n: usize,
    b: u64)
    requires
        t.at == At::Share(Share::UpdateSwapped),
        t.idle == false,
    ensures
        ({
            &&& moved(t, Event::Answer(p)).1 == (Step::Finish(Outcome::Done))
        }),
{
    reveal(moved);
}

proof fn lemma_sharing_is_judged_and_decided_6(t: Tick, f: Facts, p: bool, paused: bool, n: usize,
    b: u64)
    requires
        t.at == At::Share(Share::UpdateNoted),
    ensures
        ({
            &&& moved(t, Event::Done).1 == (Step::Finish(Outcome::Done))
        }),
{
    reveal(moved);
}

proof fn lemma_sharing_is_judged_and_decided_7(t: Tick, f: Facts, p: bool, paused: bool, n: usize,
    b: u64)
    requires
        t.at == At::Share(Share::DrainBegun),
    ensures
        ({
            let ask = if t.worker.running && t.worker.reachable { Step::Count } else { Step::Load };
            &&& moved(t, Event::Settings(f)).1 == (if (f.draining_since is Some
                && (f.now >= f.draining_since->0 + f.drain_seconds || f.drain_seconds
                    == 0)) { Step::Finish(Outcome::Go(Routine::ImmediateStop)) } else { ask })
            &&& !(f.draining_since is Some
                && (f.now >= f.draining_since->0 + f.drain_seconds || f.drain_seconds == 0))
                    && t.worker.running && !t.worker.reachable
                        ==> moved(moved(t, Event::Settings(f)).0, Event::Settings(f)).1
                            == (Step::Decide(WorkerInput { permitted: t.allowed,
                                running: t.worker.running, draining_since: if t.was_draining { f.draining_since } else { None }, now: f.now, drain_seconds: t.config.drain_seconds, workloads: usize::MAX }))
        }),
{
    reveal(moved);
}

proof fn lemma_sharing_is_judged_and_decided_8(t: Tick, f: Facts, p: bool, paused: bool, n: usize,
    b: u64)
    requires
        t.at == At::Share(Share::Counted),
    ensures
        ({
            &&& moved(t, Event::Workloads(n)).1 == (Step::Load)
            &&& moved(moved(t, Event::Workloads(n)).0, Event::Settings(f)).1
                == (Step::Decide(WorkerInput { permitted: t.allowed, running: t.worker.running,
                    draining_since: if t.was_draining { f.draining_since } else { None }, now: f.now, drain_seconds: t.config.drain_seconds, workloads: n }))
            &&& moved(t, Event::Failed).1 == (Step::Load)
            &&& moved(moved(t, Event::Failed).0, Event::Settings(f)).1
                == (Step::Decide(WorkerInput { permitted: t.allowed, running: t.worker.running,
                    draining_since: if t.was_draining { f.draining_since } else { None }, now: f.now, drain_seconds: t.config.drain_seconds, workloads: usize::MAX }))
        }),
{
    reveal(moved);
}

/// A worker may share only with every condition at hand. One that runs and may not is put
/// to drain; an update waits for an idle worker. What is decided on is the permission,
/// the worker's state, the drain that was under way, and a count of the workloads that
/// is unknown where the guest cannot be asked.
pub proof fn sharing_is_judged_and_decided(g: Facts, es: Seq<Event>, f: Facts, p: bool,
    paused: bool, n: usize, b: u64)
    requires
        es.len() > 0,
    ensures
        ({
            let s = asked(g, es);
            let t = reached(g, es);
            let may = p && !paused && t.beaten && !t.config.pending
                && !(t.config.vm_configured && t.config.allocated != Some(t.config.resources));
            let updates = t.config.update_pending && p && !paused
                && !(t.config.vm_configured && t.config.allocated != Some(t.config.resources));
            let ask = if t.worker.running && t.worker.reachable { Step::Count } else { Step::Load };
            &&& s == Step::Judge && !updates
                ==> asked(g, es.push(Event::Judged(p, paused))) == (if t.worker.running
                    && !may { Step::Save(Save::BeginDrain) } else { ask })
            &&& s == Step::Judge && !updates
                ==> reached(g, es.push(Event::Judged(p, paused))).allowed == may
                    && reached(g, es.push(Event::Judged(p, paused))).remote_paused == paused
                        && reached(g, es.push(Event::Judged(p, paused))).worker == t.worker
                            && reached(g, es.push(Event::Judged(p, paused))).config == t.config
            &&& s == Step::Judge && updates
                ==> asked(g, es.push(Event::Judged(p, paused)))
                    == (if t.worker.reachable { Step::Run(VmTask::RenewLease) } else { if t.beaten { Step::Ask(Route::Maintenance) } else { Step::Finish(Outcome::Held) } })
            &&& s == Step::Judge && updates && t.worker.reachable
                ==> asked(g, es.push(Event::Judged(p, paused)).push(Event::Done))
                    == (if t.beaten { Step::Ask(Route::Maintenance) } else { Step::Finish(Outcome::Held) })
            &&& s == Step::Ask(Route::Maintenance)
                ==> asked(g, es.push(Event::Done)) == (Step::Note(Memory::SystemPods))
            &&& s == Step::Ask(Route::Maintenance)
                ==> asked(g, es.push(Event::Done).push(Event::Done)) == (Step::Bound)
            &&& s == Step::Bound
                ==> asked(g, es.push(Event::Bound(b)))
                    == (if t.worker.reachable { Step::CountReplied } else { Step::Finish(Outcome::Refused(Refusal::UninspectedUpdate)) })
            &&& s == Step::Bound && t.worker.reachable
                ==> asked(g, es.push(Event::Bound(b)).push(Event::Workloads(n)))
                    == (Step::Note(Memory::Counted))
            &&& s == Step::Bound && t.worker.reachable
                ==> asked(g, es.push(Event::Bound(b)).push(Event::Workloads(n)).push(Event::Done))
                    == (Step::SwapIdle(b == 0 && n == 0))
            &&& s == Step::SwapIdle(true)
                ==> asked(g, es.push(Event::Answer(true))) == (Step::Run(VmTask::Stop))
            &&& s == Step::SwapIdle(true)
                ==> asked(g, es.push(Event::Answer(true)).push(Event::Done))
                    == (Step::Note(Memory::UpdateStopped))
            &&& s == Step::SwapIdle(p)
                ==> asked(g, es.push(Event::Answer(false))) == (Step::Finish(Outcome::Done))
            &&& s == Step::SwapIdle(false)
                ==> asked(g, es.push(Event::Answer(p))) == (Step::Finish(Outcome::Done))
            &&& s == Step::Note(Memory::UpdateStopped)
                ==> asked(g, es.push(Event::Done)) == (Step::Finish(Outcome::Done))
            &&& t.at is Share && s == Step::Save(Save::BeginDrain)
                ==> asked(g, es.push(Event::Settings(f))) == (if (f.draining_since is Some
                    && (f.now >= f.draining_since->0 + f.drain_seconds || f.drain_seconds
                        == 0)) { Step::Finish(Outcome::Go(Routine::ImmediateStop)) } else { ask })
            &&& s == Step::Count ==> asked(g, es.push(Event::Workloads(n))) == (Step::Load)
            &&& s == Step::Count
                ==> asked(g, es.push(Event::Workloads(n)).push(Event::Settings(f)))
                    == (Step::Decide(WorkerInput { permitted: t.allowed, running: t.worker.running,
                        draining_since: if t.was_draining { f.draining_since } else { None }, now: f.now, drain_seconds: t.config.drain_seconds, workloads: n }))
            &&& s == Step::Count ==> asked(g, es.push(Event::Failed)) == (Step::Load)
            &&& s == Step::Count
                ==> asked(g, es.push(Event::Failed).push(Event::Settings(f)))
                    == (Step::Decide(WorkerInput { permitted: t.allowed, running: t.worker.running,
                        draining_since: if t.was_draining { f.draining_since } else { None }, now: f.now, drain_seconds: t.config.drain_seconds, workloads: usize::MAX }))
            &&& t.at is Share && s == Step::Save(Save::BeginDrain)
                && !(f.draining_since is Some
                    && (f.now >= f.draining_since->0 + f.drain_seconds || f.drain_seconds == 0))
                        && t.worker.running && !t.worker.reachable
                            ==> asked(g, es.push(Event::Settings(f)).push(Event::Settings(f)))
                                == (Step::Decide(WorkerInput { permitted: t.allowed,
                                    running: t.worker.running, draining_since: if t.was_draining { f.draining_since } else { None }, now: f.now, drain_seconds: t.config.drain_seconds, workloads: usize::MAX }))
            &&& s == Step::Judge && !updates && !t.worker.running
                ==> asked(g, es.push(Event::Judged(p, paused)).push(Event::Settings(f)))
                    == (Step::Decide(WorkerInput { permitted: may, running: t.worker.running,
                        draining_since: if t.was_draining { f.draining_since } else { None }, now: f.now, drain_seconds: t.config.drain_seconds, workloads: 0 }))
        }),
{
    lemma_run(g, es);
    let s = asked(g, es);
    let t = reached(g, es);
    let updates = t.config.update_pending && p && !paused
        && !(t.config.vm_configured && t.config.allocated != Some(t.config.resources));
    if s == Step::Judge {
        lemma_sharing_is_judged_and_decided_0(t, f, p, paused, n, b);
        lemma_push(g, es, Event::Judged(p, paused));
        lemma_push(g, es.push(Event::Judged(p, paused)), Event::Done);
        lemma_push(g, es.push(Event::Judged(p, paused)), Event::Settings(f));
    }
    if s == Step::Ask(Route::Maintenance) {
        lemma_sharing_is_judged_and_decided_1(t, f, p, paused, n, b);
        lemma_push(g, es, Event::Done);
        lemma_push(g, es.push(Event::Done), Event::Done);
    }
    if s == Step::Bound {
        lemma_sharing_is_judged_and_decided_2(t, f, p, paused, n, b);
        lemma_push(g, es, Event::Bound(b));
        lemma_push(g, es.push(Event::Bound(b)), Event::Workloads(n));
        lemma_push(g, es.push(Event::Bound(b)).push(Event::Workloads(n)), Event::Done);
    }
    if s == Step::SwapIdle(true) {
        lemma_sharing_is_judged_and_decided_3(t, f, p, paused, n, b);
        lemma_push(g, es, Event::Answer(true));
        lemma_push(g, es.push(Event::Answer(true)), Event::Done);
    }
    if s == Step::SwapIdle(p) {
        lemma_sharing_is_judged_and_decided_4(t, f, p, paused, n, b);
        lemma_push(g, es, Event::Answer(false));
    }
    if s == Step::SwapIdle(false) {
        lemma_sharing_is_judged_and_decided_5(t, f, p, paused, n, b);
        lemma_push(g, es, Event::Answer(p));
    }
    if s == Step::Note(Memory::UpdateStopped) {
        lemma_sharing_is_judged_and_decided_6(t, f, p, paused, n, b);
        lemma_push(g, es, Event::Done);
    }
    if t.at is Share && s == Step::Save(Save::BeginDrain) {
        lemma_sharing_is_judged_and_decided_7(t, f, p, paused, n, b);
        lemma_push(g, es, Event::Settings(f));
        lemma_push(g, es.push(Event::Settings(f)), Event::Settings(f));
    }
    if s == Step::Count {
        lemma_sharing_is_judged_and_decided_8(t, f, p, paused, n, b);
        lemma_push(g, es, Event::Workloads(n));
        lemma_push(g, es.push(Event::Workloads(n)), Event::Settings(f));
        lemma_push(g, es, Event::Failed);
        lemma_push(g, es.push(Event::Failed), Event::Settings(f));
    }
}

proof fn lemma_decisions_are_carried_out_0(t: Tick, f: Facts, h: Facts)
    requires
        t.at == At::Share(Share::Decided),
    ensures
        ({
            let tells = if t.config.vm_configured
                && t.config.allocated != Some(t.config.resources) { Step::Tell(Notice::DrainingForResize) } else { Step::Tell(Notice::Draining) };
            let past = t.draining_since is Some
                && (t.now >= t.draining_since->0 + t.config.drain_seconds || t.config.drain_seconds
                    == 0);
            &&& moved(t, Event::Action(WorkerAction::Start)).1
                == (Step::Note(Memory::Starting(Some(Starting::Resume))))
            &&& moved(t, Event::Action(WorkerAction::Drain)).1 == (tells)
            &&& moved(moved(t, Event::Action(WorkerAction::Drain)).0, Event::Done).1
                == (Step::Ask(Route::Drain))
            &&& moved(t, Event::Action(WorkerAction::Wait)).1
                == (Step::Tell(Notice::WaitingForWork))
            &&& moved(moved(t, Event::Action(WorkerAction::Wait)).0, Event::Done).1
                == (Step::Ask(Route::Drain))
            &&& moved(t, Event::Action(WorkerAction::Stop)).1
                == (if past { Step::Finish(Outcome::Go(Routine::ImmediateStop)) } else { Step::Run(VmTask::Stop) })
            &&& !(past)
                ==> moved(moved(t, Event::Action(WorkerAction::Stop)).0, Event::Done).1
                    == (Step::Save(Save::ClearDrain))
            &&& moved(t, Event::Action(WorkerAction::Keep)).1
                == (if !t.worker.running { if t.remote_paused { Step::Tell(Notice::PausedFromFleet) } else { Step::TellResting } } else { if t.draining_since is Some { Step::Ask(Route::Resume) } else { Step::Run(VmTask::RenewLease) } })
            &&& t.worker.running && t.draining_since is None
                ==> moved(moved(t, Event::Action(WorkerAction::Keep)).0, Event::Done).1
                    == (Step::Tell(Notice::Sharing))
        }),
{
    reveal(moved);
}

proof fn lemma_decisions_are_carried_out_1(t: Tick, f: Facts, h: Facts)
    requires
        t.at == At::Share(Share::StartNoted),
    ensures
        ({
            &&& moved(t, Event::Done).1 == (Step::Tell(Notice::Connecting))
        }),
{
    reveal(moved);
}

proof fn lemma_decisions_are_carried_out_2(t: Tick, f: Facts, h: Facts)
    requires
        t.at == At::Share(Share::StartTold),
    ensures
        ({
            &&& moved(t, Event::Done).1 == (Step::AnnounceAccess)
        }),
{
    reveal(moved);
}

proof fn lemma_decisions_are_carried_out_3(t: Tick, f: Facts, h: Facts)
    requires
        t.at == At::Share(Share::StartAnnounced),
    ensures
        ({
            &&& moved(t, Event::Done).1 == (Step::Ask(Route::Bootstrap))
        }),
{
    reveal(moved);
}

proof fn lemma_decisions_are_carried_out_4(t: Tick, f: Facts, h: Facts)
    requires
        t.at == At::Share(Share::StartBootstrapped),
    ensures
        ({
            &&& moved(t, Event::Done).1 == (Step::Run(VmTask::Start))
        }),
{
    reveal(moved);
}

proof fn lemma_decisions_are_carried_out_5(t: Tick, f: Facts, h: Facts)
    requires
        t.at == At::Share(Share::Started),
    ensures
        ({
            &&& moved(t, Event::Done).1 == (Step::Run(VmTask::Configure))
        }),
{
    reveal(moved);
}

proof fn lemma_decisions_are_carried_out_6(t: Tick, f: Facts, h: Facts)
    requires
        t.at == At::Share(Share::StartConfigured),
    ensures
        ({
            &&& moved(t, Event::Done).1 == (Step::Note(Memory::Starting(None)))
        }),
{
    reveal(moved);
}

proof fn lemma_decisions_are_carried_out_7(t: Tick, f: Facts, h: Facts)
    requires
        t.at == At::Share(Share::StartDone),
    ensures
        ({
            &&& moved(t, Event::Done).1 == (Step::Save(Save::ClearDrainIfPermitted))
            &&& moved(moved(t, Event::Done).0, Event::Settings(f)).1
                == (Step::Note(Memory::Workloads))
        }),
{
    reveal(moved);
}

proof fn lemma_decisions_are_carried_out_8(t: Tick, f: Facts, h: Facts)
    requires
        t.at == At::Share(Share::DrainAsked),
    ensures
        ({
            &&& moved(t, Event::Done).1
                == (if t.worker.reachable { Step::Run(VmTask::RenewLease) } else { Step::Note(Memory::SystemPods) })
            &&& t.worker.reachable
                ==> moved(moved(t, Event::Done).0, Event::Done).1
                    == (Step::Note(Memory::SystemPods))
            &&& t.worker.reachable
                ==> moved(moved(moved(t, Event::Done).0, Event::Done).0, Event::Done).1
                    == (Step::Note(Memory::Workloads))
            &&& !t.worker.reachable
                ==> moved(moved(t, Event::Done).0, Event::Done).1 == (Step::Note(Memory::Workloads))
            &&& moved(t, Event::Failed).1 == (Step::Hold)
            &&& moved(moved(t, Event::Failed).0, Event::Done).1
                == (if t.worker.reachable { Step::Run(VmTask::RenewLease) } else { Step::Finish(Outcome::Held) })
            &&& t.worker.reachable
                ==> moved(moved(moved(t, Event::Failed).0, Event::Done).0, Event::Done).1
                    == (Step::Finish(Outcome::Held))
        }),
{
    reveal(moved);
}

proof fn lemma_decisions_are_carried_out_9(t: Tick, f: Facts, h: Facts)
    requires
        t.at == At::Share(Share::StopSaved),
    ensures
        ({
            &&& moved(t, Event::Settings(f)).1 == (Step::Note(Memory::WorkerStopped))
        }),
{
    reveal(moved);
}

proof fn lemma_decisions_are_carried_out_10(t: Tick, f: Facts, h: Facts)
    requires
        t.at == At::Share(Share::StopNoted),
    ensures
        ({
            &&& moved(t, Event::Done).1 == (Step::Note(Memory::Workloads))
        }),
{
    reveal(moved);
}

proof fn lemma_decisions_are_carried_out_11(t: Tick, f: Facts, h: Facts)
    requires
        t.at == At::Share(Share::ResumeAsked),
    ensures
        ({
            &&& moved(t, Event::Done).1 == (Step::Save(Save::ClearDrainIfPermitted))
            &&& moved(moved(t, Event::Done).0, Event::Settings(f)).1
                == (Step::Run(VmTask::RenewLease))
            &&& moved(moved(moved(t, Event::Done).0, Event::Settings(f)).0, Event::Done).1
                == (Step::Tell(Notice::Sharing))
        }),
{
    reveal(moved);
}

proof fn lemma_decisions_are_carried_out_12(t: Tick, f: Facts, h: Facts)
    requires
        t.at == At::Share(Share::KeepTold),
    ensures
        ({
            &&& moved(t, Event::Done).1 == (Step::Note(Memory::Workloads))
        }),
{
    reveal(moved);
}

proof fn lemma_decisions_are_carried_out_13(t: Tick, f: Facts, h: Facts)
    requires
        t.at == At::Share(Share::WorkloadsNoted),
    ensures
        ({
            &&& moved(t, Event::Done).1
                == (if t.beaten { Step::Heartbeat } else { Step::Finish(Outcome::Held) })
            &&& t.beaten
                ==> moved(moved(t, Event::Done).0, Event::Done).1 == (Step::Finish(Outcome::Done))
        }),
{
    reveal(moved);
}

/// What was decided is done: a start gets fresh access, a lease is kept up while a
/// reachable worker drains or shares, a drain is asked of the controller, a stop is
/// recorded, and a worker that may share again is resumed. The workloads are remembered
/// and the controller told at the end.
pub proof fn decisions_are_carried_out(g: Facts, es: Seq<Event>, f: Facts, h: Facts)
    requires
        es.len() > 0,
    ensures
        ({
            let s = asked(g, es);
            let t = reached(g, es);
            let tells = if t.config.vm_configured
                && t.config.allocated != Some(t.config.resources) { Step::Tell(Notice::DrainingForResize) } else { Step::Tell(Notice::Draining) };
            let past = t.draining_since is Some
                && (t.now >= t.draining_since->0 + t.config.drain_seconds || t.config.drain_seconds
                    == 0);
            &&& s is Decide
                ==> asked(g, es.push(Event::Action(WorkerAction::Start)))
                    == (Step::Note(Memory::Starting(Some(Starting::Resume))))
            &&& s == Step::Note(Memory::Starting(Some(Starting::Resume)))
                ==> asked(g, es.push(Event::Done)) == (Step::Tell(Notice::Connecting))
            &&& s == Step::Tell(Notice::Connecting)
                ==> asked(g, es.push(Event::Done)) == (Step::AnnounceAccess)
            &&& t.at is Share && s == Step::AnnounceAccess
                ==> asked(g, es.push(Event::Done)) == (Step::Ask(Route::Bootstrap))
            &&& t.at is Share && s == Step::Ask(Route::Bootstrap)
                ==> asked(g, es.push(Event::Done)) == (Step::Run(VmTask::Start))
            &&& t.at is Share && s == Step::Run(VmTask::Start)
                ==> asked(g, es.push(Event::Done)) == (Step::Run(VmTask::Configure))
            &&& t.at is Share && s == Step::Run(VmTask::Configure)
                ==> asked(g, es.push(Event::Done)) == (Step::Note(Memory::Starting(None)))
            &&& t.at is Share && s == Step::Note(Memory::Starting(None))
                ==> asked(g, es.push(Event::Done)) == (Step::Save(Save::ClearDrainIfPermitted))
            &&& t.at is Share && s == Step::Note(Memory::Starting(None))
                ==> asked(g, es.push(Event::Done).push(Event::Settings(f)))
                    == (Step::Note(Memory::Workloads))
            &&& s is Decide ==> asked(g, es.push(Event::Action(WorkerAction::Drain))) == (tells)
            &&& s is Decide
                ==> asked(g, es.push(Event::Action(WorkerAction::Drain)).push(Event::Done))
                    == (Step::Ask(Route::Drain))
            &&& s is Decide
                ==> asked(g, es.push(Event::Action(WorkerAction::Wait)))
                    == (Step::Tell(Notice::WaitingForWork))
            &&& s is Decide
                ==> asked(g, es.push(Event::Action(WorkerAction::Wait)).push(Event::Done))
                    == (Step::Ask(Route::Drain))
            &&& s == Step::Ask(Route::Drain)
                ==> asked(g, es.push(Event::Done))
                    == (if t.worker.reachable { Step::Run(VmTask::RenewLease) } else { Step::Note(Memory::SystemPods) })
            &&& s == Step::Ask(Route::Drain) && t.worker.reachable
                ==> asked(g, es.push(Event::Done).push(Event::Done))
                    == (Step::Note(Memory::SystemPods))
            &&& s == Step::Ask(Route::Drain) && t.worker.reachable
                ==> asked(g, es.push(Event::Done).push(Event::Done).push(Event::Done))
                    == (Step::Note(Memory::Workloads))
            &&& s == Step::Ask(Route::Drain) && !t.worker.reachable
                ==> asked(g, es.push(Event::Done).push(Event::Done))
                    == (Step::Note(Memory::Workloads))
            &&& s == Step::Ask(Route::Drain) ==> asked(g, es.push(Event::Failed)) == (Step::Hold)
            &&& s == Step::Ask(Route::Drain)
                ==> asked(g, es.push(Event::Failed).push(Event::Done))
                    == (if t.worker.reachable { Step::Run(VmTask::RenewLease) } else { Step::Finish(Outcome::Held) })
            &&& s == Step::Ask(Route::Drain) && t.worker.reachable
                ==> asked(g, es.push(Event::Failed).push(Event::Done).push(Event::Done))
                    == (Step::Finish(Outcome::Held))
            &&& s is Decide
                ==> asked(g, es.push(Event::Action(WorkerAction::Stop)))
                    == (if past { Step::Finish(Outcome::Go(Routine::ImmediateStop)) } else { Step::Run(VmTask::Stop) })
            &&& s is Decide && !(past)
                ==> asked(g, es.push(Event::Action(WorkerAction::Stop)).push(Event::Done))
                    == (Step::Save(Save::ClearDrain))
            &&& t.at is Share && s == Step::Save(Save::ClearDrain)
                ==> asked(g, es.push(Event::Settings(f))) == (Step::Note(Memory::WorkerStopped))
            &&& t.at is Share && s == Step::Note(Memory::WorkerStopped)
                ==> asked(g, es.push(Event::Done)) == (Step::Note(Memory::Workloads))
            &&& s is Decide
                ==> asked(g, es.push(Event::Action(WorkerAction::Keep)))
                    == (if !t.worker.running { if t.remote_paused { Step::Tell(Notice::PausedFromFleet) } else { Step::TellResting } } else { if t.draining_since is Some { Step::Ask(Route::Resume) } else { Step::Run(VmTask::RenewLease) } })
            &&& s == Step::Ask(Route::Resume)
                ==> asked(g, es.push(Event::Done)) == (Step::Save(Save::ClearDrainIfPermitted))
            &&& s == Step::Ask(Route::Resume)
                ==> asked(g, es.push(Event::Done).push(Event::Settings(f)))
                    == (Step::Run(VmTask::RenewLease))
            &&& s == Step::Ask(Route::Resume)
                ==> asked(g, es.push(Event::Done).push(Event::Settings(f)).push(Event::Done))
                    == (Step::Tell(Notice::Sharing))
            &&& s is Decide && t.worker.running && t.draining_since is None
                ==> asked(g, es.push(Event::Action(WorkerAction::Keep)).push(Event::Done))
                    == (Step::Tell(Notice::Sharing))
            &&& (s == Step::Tell(Notice::Sharing) || s == Step::Tell(Notice::PausedFromFleet) || s
                == Step::TellResting)
                    ==> asked(g, es.push(Event::Done)) == (Step::Note(Memory::Workloads))
            &&& s == Step::Note(Memory::Workloads)
                ==> asked(g, es.push(Event::Done))
                    == (if t.beaten { Step::Heartbeat } else { Step::Finish(Outcome::Held) })
            &&& s == Step::Note(Memory::Workloads) && t.beaten
                ==> asked(g, es.push(Event::Done).push(Event::Done))
                    == (Step::Finish(Outcome::Done))
        }),
{
    lemma_run(g, es);
    let s = asked(g, es);
    let t = reached(g, es);
    let past = t.draining_since is Some
        && (t.now >= t.draining_since->0 + t.config.drain_seconds || t.config.drain_seconds == 0);
    if s is Decide {
        lemma_decisions_are_carried_out_0(t, f, h);
        lemma_push(g, es, Event::Action(WorkerAction::Start));
        lemma_push(g, es, Event::Action(WorkerAction::Drain));
        lemma_push(g, es.push(Event::Action(WorkerAction::Drain)), Event::Done);
        lemma_push(g, es, Event::Action(WorkerAction::Wait));
        lemma_push(g, es.push(Event::Action(WorkerAction::Wait)), Event::Done);
        lemma_push(g, es, Event::Action(WorkerAction::Stop));
        lemma_push(g, es.push(Event::Action(WorkerAction::Stop)), Event::Done);
        lemma_push(g, es, Event::Action(WorkerAction::Keep));
        lemma_push(g, es.push(Event::Action(WorkerAction::Keep)), Event::Done);
    }
    if s == Step::Note(Memory::Starting(Some(Starting::Resume))) {
        lemma_decisions_are_carried_out_1(t, f, h);
        lemma_push(g, es, Event::Done);
    }
    if s == Step::Tell(Notice::Connecting) {
        lemma_decisions_are_carried_out_2(t, f, h);
        lemma_push(g, es, Event::Done);
    }
    if t.at is Share && s == Step::AnnounceAccess {
        lemma_decisions_are_carried_out_3(t, f, h);
        lemma_push(g, es, Event::Done);
    }
    if t.at is Share && s == Step::Ask(Route::Bootstrap) {
        lemma_decisions_are_carried_out_4(t, f, h);
        lemma_push(g, es, Event::Done);
    }
    if t.at is Share && s == Step::Run(VmTask::Start) {
        lemma_decisions_are_carried_out_5(t, f, h);
        lemma_push(g, es, Event::Done);
    }
    if t.at is Share && s == Step::Run(VmTask::Configure) {
        lemma_decisions_are_carried_out_6(t, f, h);
        lemma_push(g, es, Event::Done);
    }
    if t.at is Share && s == Step::Note(Memory::Starting(None)) {
        lemma_decisions_are_carried_out_7(t, f, h);
        lemma_push(g, es, Event::Done);
        lemma_push(g, es.push(Event::Done), Event::Settings(f));
    }
    if s == Step::Ask(Route::Drain) {
        lemma_decisions_are_carried_out_8(t, f, h);
        lemma_push(g, es, Event::Done);
        lemma_push(g, es.push(Event::Done), Event::Done);
        lemma_push(g, es.push(Event::Done).push(Event::Done), Event::Done);
        lemma_push(g, es, Event::Failed);
        lemma_push(g, es.push(Event::Failed), Event::Done);
        lemma_push(g, es.push(Event::Failed).push(Event::Done), Event::Done);
    }
    if t.at is Share && s == Step::Save(Save::ClearDrain) {
        lemma_decisions_are_carried_out_9(t, f, h);
        lemma_push(g, es, Event::Settings(f));
    }
    if t.at is Share && s == Step::Note(Memory::WorkerStopped) {
        lemma_decisions_are_carried_out_10(t, f, h);
        lemma_push(g, es, Event::Done);
    }
    if s == Step::Ask(Route::Resume) {
        lemma_decisions_are_carried_out_11(t, f, h);
        lemma_push(g, es, Event::Done);
        lemma_push(g, es.push(Event::Done), Event::Settings(f));
        lemma_push(g, es.push(Event::Done).push(Event::Settings(f)), Event::Done);
    }
    if s == Step::Tell(Notice::Sharing) || s == Step::Tell(Notice::PausedFromFleet) || s
        == Step::TellResting {
        lemma_decisions_are_carried_out_12(t, f, h);
        lemma_push(g, es, Event::Done);
    }
    if s == Step::Note(Memory::Workloads) {
        lemma_decisions_are_carried_out_13(t, f, h);
        lemma_push(g, es, Event::Done);
        lemma_push(g, es.push(Event::Done), Event::Done);
    }
}

/// A drain that began earlier, the time and the worker's state are those that were
/// answered when the decision was put.
pub proof fn decisions_are_put_on_what_was_read(g: Facts, es: Seq<Event>, f: Facts)
    requires
        es.len() > 0,
        asked(g, es.push(Event::Settings(f))) is Decide,
    ensures
        ({
            let t = reached(g, es);
            let d = reached(g, es.push(Event::Settings(f)));
            &&& d.draining_since == f.draining_since && d.now == f.now
            &&& d.worker == t.worker && d.config == t.config && d.allowed == t.allowed
            &&& d.remote_paused == t.remote_paused && d.beaten == t.beaten
        }),
{
    lemma_push(g, es, Event::Settings(f));
    let t = reached(g, es);
    reveal(moved);
    match t.at {
        At::Share(at) => lemma_put(t, at, f),
        At::Entry(at) => lemma_no_decision_entry(t, at, Event::Settings(f)),
        At::Prepare(at) => lemma_no_decision_prepare(t, at, Event::Settings(f)),
        At::Observe(at) => lemma_no_decision_observe(t, at, Event::Settings(f)),
        At::Over => {},
    }
}

#[verifier::rlimit(60)]
#[verifier::spinoff_prover]
proof fn lemma_no_decision_entry(t: Tick, at: Entry, e: Event)
    ensures
        !(entry_after(t, at, e).1 is Decide),
{
}

#[verifier::rlimit(60)]
#[verifier::spinoff_prover]
proof fn lemma_no_decision_prepare(t: Tick, at: Prepare, e: Event)
    ensures
        !(prepare_after(t, at, e).1 is Decide),
{
}

#[verifier::rlimit(60)]
#[verifier::spinoff_prover]
proof fn lemma_no_decision_observe(t: Tick, at: Observe, e: Event)
    ensures
        !(observe_after(t, at, e).1 is Decide),
{
}

#[verifier::rlimit(60)]
#[verifier::spinoff_prover]
proof fn lemma_put(t: Tick, at: Share, f: Facts)
    requires
        share_after(t, at, Event::Settings(f)).1 is Decide,
    ensures
        ({
            let d = share_after(t, at, Event::Settings(f)).0;
            &&& d.draining_since == f.draining_since && d.now == f.now
            &&& d.worker == t.worker && d.config == t.config && d.allowed == t.allowed
            &&& d.remote_paused == t.remote_paused && d.beaten == t.beaten
        }),
{
}

/// What stays as it was while a tick goes on: the worker that was seen, the settings
/// that were read, the judgement, and whether the controller heard.
pub proof fn ticks_remember(g: Facts, es: Seq<Event>, e: Event)
    requires
        es.len() > 0,
    ensures
        ({
            let s = asked(g, es);
            let t = reached(g, es);
            let u = reached(g, es.push(e));
            &&& u.worker == t.worker || s == Step::Inspect || s == Step::Note(Memory::NoWorker)
            &&& u.config == t.config || s == Step::Load || s == Step::ResolveInitialStorage
            &&& (u.allowed == t.allowed && u.remote_paused == t.remote_paused && u.judged
                == t.judged) || s == Step::Judge
            &&& u.beaten == t.beaten || s == Step::Heartbeat
            &&& u.was_draining == t.was_draining || (u.was_draining
                == t.config.draining_since.is_some() && (s == Step::Inspect || s == Step::Note(
                Memory::NoWorker,
            ) || s == Step::CleanCopies))
        }),
{
    lemma_run(g, es);
    lemma_push(g, es, e);
    let t = reached(g, es);
    let s = asked(g, es);
    reveal(moved);
    match t.at {
        At::Entry(at) => lemma_remembers_entry(t, at, s, e),
        At::Prepare(at) => lemma_remembers_prepare(t, at, s, e),
        At::Observe(at) => lemma_remembers_observe(t, at, s, e),
        At::Share(at) => lemma_remembers_share(t, at, s, e),
        At::Over => {},
    }
}

#[verifier::rlimit(100)]
#[verifier::spinoff_prover]
proof fn lemma_remembers_entry(t: Tick, at: Entry, s: Step, e: Event)
    requires
        t.at == At::Entry(at),
        entered(t, s),
    ensures
        ({
            let u = entry_after(t, at, e).0;
            &&& u.worker == t.worker || s == Step::Inspect || s == Step::Note(Memory::NoWorker)
            &&& u.config == t.config || s == Step::Load || s == Step::ResolveInitialStorage
            &&& (u.allowed == t.allowed && u.remote_paused == t.remote_paused && u.judged
                == t.judged) || s == Step::Judge
            &&& u.beaten == t.beaten || s == Step::Heartbeat
            &&& u.was_draining == t.was_draining || (u.was_draining
                == t.config.draining_since.is_some() && (s == Step::Inspect || s == Step::Note(
                Memory::NoWorker,
            ) || s == Step::CleanCopies))
        }),
{
}

#[verifier::rlimit(100)]
#[verifier::spinoff_prover]
proof fn lemma_remembers_prepare(t: Tick, at: Prepare, s: Step, e: Event)
    requires
        t.at == At::Prepare(at),
        entered(t, s),
    ensures
        ({
            let u = prepare_after(t, at, e).0;
            &&& u.worker == t.worker || s == Step::Inspect || s == Step::Note(Memory::NoWorker)
            &&& u.config == t.config || s == Step::Load || s == Step::ResolveInitialStorage
            &&& (u.allowed == t.allowed && u.remote_paused == t.remote_paused && u.judged
                == t.judged) || s == Step::Judge
            &&& u.beaten == t.beaten || s == Step::Heartbeat
            &&& u.was_draining == t.was_draining || (u.was_draining
                == t.config.draining_since.is_some() && (s == Step::Inspect || s == Step::Note(
                Memory::NoWorker,
            ) || s == Step::CleanCopies))
        }),
{
}

#[verifier::rlimit(100)]
#[verifier::spinoff_prover]
proof fn lemma_remembers_observe(t: Tick, at: Observe, s: Step, e: Event)
    requires
        t.at == At::Observe(at),
        entered(t, s),
    ensures
        ({
            let u = observe_after(t, at, e).0;
            &&& u.worker == t.worker || s == Step::Inspect || s == Step::Note(Memory::NoWorker)
            &&& u.config == t.config || s == Step::Load || s == Step::ResolveInitialStorage
            &&& (u.allowed == t.allowed && u.remote_paused == t.remote_paused && u.judged
                == t.judged) || s == Step::Judge
            &&& u.beaten == t.beaten || s == Step::Heartbeat
            &&& u.was_draining == t.was_draining || (u.was_draining
                == t.config.draining_since.is_some() && (s == Step::Inspect || s == Step::Note(
                Memory::NoWorker,
            ) || s == Step::CleanCopies))
        }),
{
}

#[verifier::rlimit(100)]
#[verifier::spinoff_prover]
proof fn lemma_remembers_share(t: Tick, at: Share, s: Step, e: Event)
    requires
        t.at == At::Share(at),
        entered(t, s),
    ensures
        ({
            let u = share_after(t, at, e).0;
            &&& u.worker == t.worker || s == Step::Inspect || s == Step::Note(Memory::NoWorker)
            &&& u.config == t.config || s == Step::Load || s == Step::ResolveInitialStorage
            &&& (u.allowed == t.allowed && u.remote_paused == t.remote_paused && u.judged
                == t.judged) || s == Step::Judge
            &&& u.beaten == t.beaten || s == Step::Heartbeat
            &&& u.was_draining == t.was_draining || (u.was_draining
                == t.config.draining_since.is_some() && (s == Step::Inspect || s == Step::Note(
                Memory::NoWorker,
            ) || s == Step::CleanCopies))
        }),
{
}

/// A step that fails ends the tick, but for those that a tick can do without: the
/// count of the workloads, the removal of old copies, a report that was not heard, a
/// drain that was not asked for in time, and storage that is not valid.
pub proof fn failures_end_the_tick(g: Facts, es: Seq<Event>)
    requires
        es.len() > 0,
        asked(g, es) != Step::Count,
        asked(g, es) != Step::CleanCopies,
        asked(g, es) != Step::Heartbeat,
        asked(g, es) != Step::Ask(Route::Drain),
        asked(g, es) != Step::ValidateStorage,
    ensures
        asked(g, es.push(Event::Failed)) == Step::Finish(Outcome::Failed),
{
    lemma_run(g, es);
    lemma_push(g, es, Event::Failed);
    let t = reached(g, es);
    let s = asked(g, es);
    reveal(moved);
    match t.at {
        At::Entry(at) => lemma_ends_entry(t, at, s),
        At::Prepare(at) => lemma_ends_prepare(t, at, s),
        At::Observe(at) => lemma_ends_observe(t, at, s),
        At::Share(at) => lemma_ends_share(t, at, s),
        At::Over => {},
    }
}

#[verifier::rlimit(60)]
#[verifier::spinoff_prover]
proof fn lemma_ends_entry(t: Tick, at: Entry, s: Step)
    requires
        t.at == At::Entry(at),
        entered(t, s),
        s != Step::Count,
        s != Step::CleanCopies,
        s != Step::Heartbeat,
        s != Step::Ask(Route::Drain),
        s != Step::ValidateStorage,
    ensures
        entry_after(t, at, Event::Failed).1 == Step::Finish(Outcome::Failed),
{
}

#[verifier::rlimit(60)]
#[verifier::spinoff_prover]
proof fn lemma_ends_prepare(t: Tick, at: Prepare, s: Step)
    requires
        t.at == At::Prepare(at),
        entered(t, s),
        s != Step::Count,
        s != Step::CleanCopies,
        s != Step::Heartbeat,
        s != Step::Ask(Route::Drain),
        s != Step::ValidateStorage,
    ensures
        prepare_after(t, at, Event::Failed).1 == Step::Finish(Outcome::Failed),
{
}

#[verifier::rlimit(60)]
#[verifier::spinoff_prover]
proof fn lemma_ends_observe(t: Tick, at: Observe, s: Step)
    requires
        t.at == At::Observe(at),
        entered(t, s),
        s != Step::Count,
        s != Step::CleanCopies,
        s != Step::Heartbeat,
        s != Step::Ask(Route::Drain),
        s != Step::ValidateStorage,
    ensures
        observe_after(t, at, Event::Failed).1 == Step::Finish(Outcome::Failed),
{
}

#[verifier::rlimit(60)]
#[verifier::spinoff_prover]
proof fn lemma_ends_share(t: Tick, at: Share, s: Step)
    requires
        t.at == At::Share(at),
        entered(t, s),
        s != Step::Count,
        s != Step::CleanCopies,
        s != Step::Heartbeat,
        s != Step::Ask(Route::Drain),
        s != Step::ValidateStorage,
    ensures
        share_after(t, at, Event::Failed).1 == Step::Finish(Outcome::Failed),
{
}

} // verus!
