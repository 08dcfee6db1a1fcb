//! Whole runs of the supervisor's routines, seen from outside: which step follows which
//! answer, whatever the answers were before.
use crate::agent::absence::{absence_after, fresh_absence, Absence, Gap, Stock};
use crate::agent::relocation::{
    clean_after, fresh_exit, fresh_move, fresh_sweep, move_after, retire_after, Exit, Leg, Moving,
    Retiring, Sweep, Sweeping, Trail, Trip,
};
use crate::agent::routines::{
    fresh_recreation, fresh_stop, recreate_after, stop_after, RecreateAt, Recreating, StopAt,
    Stopping,
};
use crate::agent::steps::{
    Event, Facts, Memory, Notice, Outcome, PoolTask, Refusal, Route, Save, Sight, Step,
    StorageSave, VmTask,
};
use crate::storage_lifecycle::RecoveryDecision;
use vstd::prelude::*;

verus! {

/// A move of the machine.
#[verifier::opaque]
spec fn stop_moved(t: Stopping, e: Event) -> (Stopping, Step) {
    stop_after(t, e)
}

/// What is reached after these answers.
#[verifier::opaque]
pub open spec fn stop_reached(es: Seq<Event>) -> Stopping
    decreases es.len(),
{
    if es.len() == 0 {
        fresh_stop()
    } else {
        stop_after(stop_reached(es.drop_last()), es.last()).0
    }
}

/// What is asked for after these answers.
#[verifier::opaque]
pub open spec fn stop_asked(es: Seq<Event>) -> Step
    recommends
        es.len() > 0,
{
    stop_after(stop_reached(es.drop_last()), es.last()).1
}

proof fn stop_lemma_push(es: Seq<Event>, e: Event)
    ensures
        stop_reached(es.push(e)) == stop_moved(stop_reached(es), e).0,
        stop_asked(es.push(e)) == stop_moved(stop_reached(es), e).1,
{
    reveal(stop_reached);
    reveal(stop_asked);
    reveal(stop_moved);
    assert(es.push(e).drop_last() =~= es);
}

proof fn stop_lemma_fresh()
    ensures
        stop_reached(Seq::empty()) == fresh_stop(),
{
    reveal(stop_reached);
}

/// What is kept through a run, and the step that was asked for where it stands.
spec fn stop_entered(t: Stopping, s: Step) -> bool {
    true && match t.at {
        StopAt::Start => false,
        StopAt::Loaded => s == Step::Load,
        StopAt::Marked => s == Step::Note(Memory::StoppingNow(true)) && t.marked,
        StopAt::Requested => s == Step::Save(Save::RequestStop) && t.marked,
        StopAt::Receipt => s == Step::Receipt && t.marked,
        StopAt::Seen => s == Step::Inspect && t.marked,
        StopAt::Stopped => s == Step::Run(VmTask::StopNow) && t.marked,
        StopAt::Saved => s == Step::Save(Save::FinishStop(t.explicit)) && t.marked,
        StopAt::Noted => s == Step::Note(Memory::WorkerEmptied) && t.marked,
        StopAt::Told => s == Step::Tell(Notice::WorkerStopped) && t.marked,
        StopAt::Unmarked => s == Step::Note(Memory::StoppingNow(false)),
        StopAt::Held => s == Step::Hold,
        StopAt::HeldUnmarked => s == Step::Note(Memory::StoppingNow(false)),
        StopAt::Over => s is Finish,
    }
}

/// What is kept through a run.
spec fn stop_kept(t: Stopping) -> bool {
    true
}

#[verifier::rlimit(40)]
#[verifier::spinoff_prover]
proof fn stop_lemma_enters(t: Stopping, s: Step, e: Event)
    requires
        stop_kept(t),
        t.at == StopAt::Start || stop_entered(t, s),
    ensures
        stop_entered(stop_moved(t, e).0, stop_moved(t, e).1),
{
    reveal(stop_moved);
}

proof fn stop_lemma_run(es: Seq<Event>)
    requires
        es.len() > 0,
    ensures
        stop_entered(stop_reached(es), stop_asked(es)),
    decreases es.len(),
{
    let less = es.drop_last();
    assert(es =~= less.push(es.last()));
    stop_lemma_push(less, es.last());
    if less.len() == 0 {
        stop_lemma_fresh();
        assert(less =~= Seq::empty());
    } else {
        stop_lemma_run(less);
    }
    stop_lemma_enters(stop_reached(less), stop_asked(less), es.last());
}

/// A stop reads first whether the owner asked for it.
pub proof fn stops_begin_with_the_settings()
    ensures
        stop_asked(seq![Event::Begin]) == (Step::Load),
{
    let none = Seq::<Event>::empty();
    assert(none.push(Event::Begin) =~= seq![Event::Begin]);
    stop_lemma_fresh();
    stop_lemma_push(none, Event::Begin);
    reveal(stop_moved);
}

proof fn lemma_stops_go_through_the_hypervisor_0(t: Stopping, f: Facts, h: Facts, here: bool,
    o: Sight)
    requires
        t.at == StopAt::Loaded,
        stop_kept(t),
    ensures
        ({
            &&& stop_moved(t, Event::Settings(f)).1 == (Step::Note(Memory::StoppingNow(true)))
            &&& stop_moved(t, Event::Settings(f)).0.explicit == f.stop_requested
        }),
{
    reveal(stop_moved);
}

proof fn lemma_stops_go_through_the_hypervisor_1(t: Stopping, f: Facts, h: Facts, here: bool,
    o: Sight)
    requires
        t.at == StopAt::Marked,
        stop_kept(t),
        t.marked,
    ensures
        ({
            &&& stop_moved(t, Event::Done).1 == (Step::Save(Save::RequestStop))
        }),
{
    reveal(stop_moved);
}

proof fn lemma_stops_go_through_the_hypervisor_2(t: Stopping, f: Facts, h: Facts, here: bool,
    o: Sight)
    requires
        t.at == StopAt::Requested,
        stop_kept(t),
        t.marked,
    ensures
        ({
            &&& stop_moved(t, Event::Settings(f)).1
                == (if f.vm_created { Step::Inspect } else { Step::Receipt })
        }),
{
    reveal(stop_moved);
}

proof fn lemma_stops_go_through_the_hypervisor_3(t: Stopping, f: Facts, h: Facts, here: bool,
    o: Sight)
    requires
        t.at == StopAt::Receipt,
        stop_kept(t),
        t.marked,
    ensures
        ({
            &&& stop_moved(t, Event::Answer(here)).1
                == (if here { Step::Inspect } else { Step::Save(Save::FinishStop(t.explicit)) })
        }),
{
    reveal(stop_moved);
}

proof fn lemma_stops_go_through_the_hypervisor_4(t: Stopping, f: Facts, h: Facts, here: bool,
    o: Sight)
    requires
        t.at == StopAt::Seen,
        stop_kept(t),
        t.marked,
    ensures
        ({
            &&& stop_moved(t, Event::Worker(o)).1
                == (if o.running { Step::Run(VmTask::StopNow) } else { Step::Save(Save::FinishStop(t.explicit)) })
        }),
{
    reveal(stop_moved);
}

proof fn lemma_stops_go_through_the_hypervisor_5(t: Stopping, f: Facts, h: Facts, here: bool,
    o: Sight)
    requires
        t.at == StopAt::Stopped,
        stop_kept(t),
        t.marked,
    ensures
        ({
            &&& stop_moved(t, Event::Done).1 == (Step::Save(Save::FinishStop(t.explicit)))
        }),
{
    reveal(stop_moved);
}

proof fn lemma_stops_go_through_the_hypervisor_6(t: Stopping, f: Facts, h: Facts, here: bool,
    o: Sight)
    requires
        t.at == StopAt::Saved,
        stop_kept(t),
        t.marked,
    ensures
        ({
            &&& stop_moved(t, Event::Settings(h)).1 == (Step::Note(Memory::WorkerEmptied))
        }),
{
    reveal(stop_moved);
}

proof fn lemma_stops_go_through_the_hypervisor_7(t: Stopping, f: Facts, h: Facts, here: bool,
    o: Sight)
    requires
        t.at == StopAt::Noted,
        stop_kept(t),
        t.marked,
    ensures
        ({
            &&& stop_moved(t, Event::Done).1 == (Step::Tell(Notice::WorkerStopped))
        }),
{
    reveal(stop_moved);
}

proof fn lemma_stops_go_through_the_hypervisor_8(t: Stopping, f: Facts, h: Facts, here: bool,
    o: Sight)
    requires
        t.at == StopAt::Told,
        stop_kept(t),
        t.marked,
    ensures
        ({
            &&& stop_moved(t, Event::Done).1 == (Step::Note(Memory::StoppingNow(false)))
            &&& stop_moved(stop_moved(t, Event::Done).0, Event::Done).1
                == (Step::Finish(Outcome::Done))
        }),
{
    reveal(stop_moved);
}

proof fn lemma_stops_go_through_the_hypervisor_9(t: Stopping, f: Facts, h: Facts, here: bool,
    o: Sight)
    requires
        t.at == StopAt::Held,
        stop_kept(t),
    ensures
        ({
            &&& stop_moved(t, Event::Done).1 == (Step::Note(Memory::StoppingNow(false)))
            &&& stop_moved(stop_moved(t, Event::Done).0, Event::Done).1
                == (Step::Finish(Outcome::Held))
        }),
{
    reveal(stop_moved);
}

/// A stop is marked and remembered before the worker is looked at; a worker that is here
/// and runs is stopped at once; and only then the request is done, as the one that it was,
/// the worker forgotten and the owner told.
pub proof fn stops_go_through_the_hypervisor(es: Seq<Event>, f: Facts, h: Facts, here: bool,
    o: Sight)
    requires
        es.len() > 0,
    ensures
        ({
            let s = stop_asked(es);
            let t = stop_reached(es);
            &&& s == Step::Load
                ==> stop_asked(es.push(Event::Settings(f)))
                    == (Step::Note(Memory::StoppingNow(true)))
            &&& s == Step::Load
                ==> stop_reached(es.push(Event::Settings(f))).explicit == f.stop_requested
            &&& s == Step::Note(Memory::StoppingNow(true))
                ==> stop_asked(es.push(Event::Done)) == (Step::Save(Save::RequestStop))
            &&& s == Step::Save(Save::RequestStop)
                ==> stop_asked(es.push(Event::Settings(f)))
                    == (if f.vm_created { Step::Inspect } else { Step::Receipt })
            &&& s == Step::Receipt
                ==> stop_asked(es.push(Event::Answer(here)))
                    == (if here { Step::Inspect } else { Step::Save(Save::FinishStop(t.explicit)) })
            &&& s == Step::Inspect
                ==> stop_asked(es.push(Event::Worker(o)))
                    == (if o.running { Step::Run(VmTask::StopNow) } else { Step::Save(Save::FinishStop(t.explicit)) })
            &&& s == Step::Run(VmTask::StopNow)
                ==> stop_asked(es.push(Event::Done)) == (Step::Save(Save::FinishStop(t.explicit)))
            &&& s == Step::Save(Save::FinishStop(t.explicit))
                ==> stop_asked(es.push(Event::Settings(h))) == (Step::Note(Memory::WorkerEmptied))
            &&& s == Step::Note(Memory::WorkerEmptied)
                ==> stop_asked(es.push(Event::Done)) == (Step::Tell(Notice::WorkerStopped))
            &&& s == Step::Tell(Notice::WorkerStopped)
                ==> stop_asked(es.push(Event::Done)) == (Step::Note(Memory::StoppingNow(false)))
            &&& s == Step::Tell(Notice::WorkerStopped)
                ==> stop_asked(es.push(Event::Done).push(Event::Done))
                    == (Step::Finish(Outcome::Done))
            &&& s == Step::Hold
                ==> stop_asked(es.push(Event::Done)) == (Step::Note(Memory::StoppingNow(false)))
            &&& s == Step::Hold
                ==> stop_asked(es.push(Event::Done).push(Event::Done))
                    == (Step::Finish(Outcome::Held))
        }),
{
    stop_lemma_run(es);
    let s = stop_asked(es);
    let t = stop_reached(es);
    if s == Step::Load {
        lemma_stops_go_through_the_hypervisor_0(t, f, h, here, o);
        stop_lemma_push(es, Event::Settings(f));
    }
    if s == Step::Note(Memory::StoppingNow(true)) {
        lemma_stops_go_through_the_hypervisor_1(t, f, h, here, o);
        stop_lemma_push(es, Event::Done);
    }
    if s == Step::Save(Save::RequestStop) {
        lemma_stops_go_through_the_hypervisor_2(t, f, h, here, o);
        stop_lemma_push(es, Event::Settings(f));
    }
    if s == Step::Receipt {
        lemma_stops_go_through_the_hypervisor_3(t, f, h, here, o);
        stop_lemma_push(es, Event::Answer(here));
    }
    if s == Step::Inspect {
        lemma_stops_go_through_the_hypervisor_4(t, f, h, here, o);
        stop_lemma_push(es, Event::Worker(o));
    }
    if s == Step::Run(VmTask::StopNow) {
        lemma_stops_go_through_the_hypervisor_5(t, f, h, here, o);
        stop_lemma_push(es, Event::Done);
    }
    if s == Step::Save(Save::FinishStop(t.explicit)) {
        lemma_stops_go_through_the_hypervisor_6(t, f, h, here, o);
        stop_lemma_push(es, Event::Settings(h));
    }
    if s == Step::Note(Memory::WorkerEmptied) {
        lemma_stops_go_through_the_hypervisor_7(t, f, h, here, o);
        stop_lemma_push(es, Event::Done);
    }
    if s == Step::Tell(Notice::WorkerStopped) {
        lemma_stops_go_through_the_hypervisor_8(t, f, h, here, o);
        stop_lemma_push(es, Event::Done);
        stop_lemma_push(es.push(Event::Done), Event::Done);
    }
    if s == Step::Hold {
        lemma_stops_go_through_the_hypervisor_9(t, f, h, here, o);
        stop_lemma_push(es, Event::Done);
        stop_lemma_push(es.push(Event::Done), Event::Done);
    }
}

#[verifier::rlimit(40)]
#[verifier::spinoff_prover]
proof fn lemma_failed_stops_are_kept(t: Stopping, s: Step)
    requires
        stop_entered(t, s),
        s == Step::Note(Memory::StoppingNow(true)) || s == Step::Save(Save::RequestStop) || s
            == Step::Receipt || s == Step::Inspect || s == Step::Run(VmTask::StopNow) || s
                == Step::Note(Memory::WorkerEmptied) || s == Step::Tell(Notice::WorkerStopped),
    ensures
        stop_moved(t, Event::Failed).1 == Step::Hold,
{
    reveal(stop_moved);
}

/// A stop that fails keeps its error and takes back its mark; it never counts as done.
pub proof fn failed_stops_are_kept(es: Seq<Event>)
    requires
        es.len() > 0,
        stop_asked(es) == Step::Note(Memory::StoppingNow(true)) || stop_asked(es)
            == Step::Save(Save::RequestStop) || stop_asked(es) == Step::Receipt || stop_asked(es)
                == Step::Inspect || stop_asked(es) == Step::Run(VmTask::StopNow) || stop_asked(es)
                    == Step::Note(Memory::WorkerEmptied) || stop_asked(es)
                        == Step::Tell(Notice::WorkerStopped),
    ensures
        stop_asked(es.push(Event::Failed)) == Step::Hold,
{
    stop_lemma_run(es);
    lemma_failed_stops_are_kept(stop_reached(es), stop_asked(es));
    stop_lemma_push(es, Event::Failed);
}

#[verifier::rlimit(40)]
#[verifier::spinoff_prover]
proof fn lemma_stops_remember_who_asked(t: Stopping, s: Step, e: Event)
    requires
        stop_entered(t, s),
    ensures
        ({
            let u = stop_moved(t, e).0;
            &&& u.explicit == t.explicit || s == Step::Load
        }),
{
    reveal(stop_moved);
}

/// Whether the owner asked for the stop stays as it was read.
pub proof fn stops_remember_who_asked(es: Seq<Event>, e: Event)
    requires
        es.len() > 0,
    ensures
        ({
            let t = stop_reached(es);
            let s = stop_asked(es);
            let u = stop_reached(es.push(e));
            &&& u.explicit == t.explicit || s == Step::Load
        }),
{
    stop_lemma_run(es);
    lemma_stops_remember_who_asked(stop_reached(es), stop_asked(es), e);
    stop_lemma_push(es, e);
}

/// A move of the machine.
#[verifier::opaque]
spec fn swap_moved(t: Recreating, e: Event) -> (Recreating, Step) {
    recreate_after(t, e)
}

/// What is reached after these answers.
#[verifier::opaque]
pub open spec fn swap_reached(g: Facts, es: Seq<Event>) -> Recreating
    decreases es.len(),
{
    if es.len() == 0 {
        fresh_recreation(g)
    } else {
        recreate_after(swap_reached(g, es.drop_last()), es.last()).0
    }
}

/// What is asked for after these answers.
#[verifier::opaque]
pub open spec fn swap_asked(g: Facts, es: Seq<Event>) -> Step
    recommends
        es.len() > 0,
{
    recreate_after(swap_reached(g, es.drop_last()), es.last()).1
}

proof fn swap_lemma_push(g: Facts, es: Seq<Event>, e: Event)
    ensures
        swap_reached(g, es.push(e)) == swap_moved(swap_reached(g, es), e).0,
        swap_asked(g, es.push(e)) == swap_moved(swap_reached(g, es), e).1,
{
    reveal(swap_reached);
    reveal(swap_asked);
    reveal(swap_moved);
    assert(es.push(e).drop_last() =~= es);
}

proof fn swap_lemma_fresh(g: Facts)
    ensures
        swap_reached(g, Seq::empty()) == fresh_recreation(g),
{
    reveal(swap_reached);
}

/// What is kept through a run, and the step that was asked for where it stands.
spec fn swap_entered(t: Recreating, g: Facts, s: Step) -> bool {
    t.config == g && match t.at {
        RecreateAt::Start => false,
        RecreateAt::Seen => s == Step::Inspect,
        RecreateAt::DrainTold => s == Step::Tell(Notice::DrainingForReplacement),
        RecreateAt::DrainAsked => s == Step::Ask(Route::Drain),
        RecreateAt::DrainHeld => s == Step::Hold && !t.drained,
        RecreateAt::Renewed => s == Step::Run(VmTask::RenewLease),
        RecreateAt::Counted => s == Step::CountReplied || s == Step::CountAll,
        RecreateAt::CountNoted => s == Step::Note(Memory::Counted),
        RecreateAt::Stopped => s == Step::Run(VmTask::Stop) && t.drained,
        RecreateAt::StopSaved => s == Step::Save(Save::ClearDrain) && t.drained,
        RecreateAt::StopNoted => s == Step::Note(Memory::WorkerEmptied) && t.drained,
        RecreateAt::DrainCleared => s == Step::Save(Save::ClearDrain),
        RecreateAt::ReplacingTold => s == Step::Tell(Notice::Replacing),
        RecreateAt::AccessReset => s == Step::Ask(Route::Reset),
        RecreateAt::AccessSaved => s == Step::Save(Save::AccessRemoved),
        RecreateAt::Removed => s == Step::Run(VmTask::Remove),
        RecreateAt::ReplacedSaved => s == Step::Save(Save::WorkerReplaced(t.config.next_provider)),
        RecreateAt::ReplacedNoted => s == Step::Note(Memory::WorkerRemoved),
        RecreateAt::ReplacedTold => s == Step::Tell(Notice::Replaced),
        RecreateAt::Over => s is Finish,
    }
}

/// What is kept through a run.
spec fn swap_kept(t: Recreating, g: Facts) -> bool {
    t.config == g
}

#[verifier::rlimit(40)]
#[verifier::spinoff_prover]
proof fn swap_lemma_enters(t: Recreating, g: Facts, s: Step, e: Event)
    requires
        swap_kept(t, g),
        t.at == RecreateAt::Start || swap_entered(t, g, s),
    ensures
        swap_entered(swap_moved(t, e).0, g, swap_moved(t, e).1),
{
    reveal(swap_moved);
}

proof fn swap_lemma_run(g: Facts, es: Seq<Event>)
    requires
        es.len() > 0,
    ensures
        swap_entered(swap_reached(g, es), g, swap_asked(g, es)),
    decreases es.len(),
{
    let less = es.drop_last();
    assert(es =~= less.push(es.last()));
    swap_lemma_push(g, less, es.last());
    if less.len() == 0 {
        swap_lemma_fresh(g);
        assert(less =~= Seq::empty());
    } else {
        swap_lemma_run(g, less);
    }
    swap_lemma_enters(swap_reached(g, less), g, swap_asked(g, less), es.last());
}

/// A replacement that is wanted begins with a look at the worker.
pub proof fn replacements_begin_with_a_look(g: Facts)
    ensures
        swap_asked(g, seq![Event::Begin])
            == (if g.recreation { Step::Inspect } else { Step::Finish(Outcome::Refused(Refusal::NoReplacement)) }),
{
    let none = Seq::<Event>::empty();
    assert(none.push(Event::Begin) =~= seq![Event::Begin]);
    swap_lemma_fresh(g);
    swap_lemma_push(g, none, Event::Begin);
    reveal(swap_moved);
}

proof fn lemma_replaced_workers_drain_first_0(t: Recreating, g: Facts, o: Sight, h: Facts, n: usize)
    requires
        t.at == RecreateAt::Seen,
        swap_kept(t, g),
    ensures
        ({
            &&& swap_moved(t, Event::Worker(o)).1
                == (if o.running { Step::Tell(Notice::DrainingForReplacement) } else { Step::Save(Save::ClearDrain) })
            &&& swap_moved(t, Event::Worker(o)).0.worker == o
            &&& !o.running
                ==> swap_moved(swap_moved(t, Event::Worker(o)).0, Event::Settings(h)).1
                    == (Step::Tell(Notice::Replacing))
        }),
{
    reveal(swap_moved);
}

proof fn lemma_replaced_workers_drain_first_1(t: Recreating, g: Facts, o: Sight, h: Facts, n: usize)
    requires
        t.at == RecreateAt::DrainTold,
        swap_kept(t, g),
    ensures
        ({
            &&& swap_moved(t, Event::Done).1 == (Step::Ask(Route::Drain))
        }),
{
    reveal(swap_moved);
}

proof fn lemma_replaced_workers_drain_first_2(t: Recreating, g: Facts, o: Sight, h: Facts, n: usize)
    requires
        t.at == RecreateAt::DrainAsked,
        swap_kept(t, g),
    ensures
        ({
            &&& swap_moved(t, Event::Done).1
                == (if t.worker.reachable { Step::Run(VmTask::RenewLease) } else { Step::Finish(Outcome::Done) })
            &&& swap_moved(t, Event::Failed).1 == (Step::Hold)
            &&& swap_moved(swap_moved(t, Event::Failed).0, Event::Done).1
                == (if t.worker.reachable { Step::Run(VmTask::RenewLease) } else { Step::Finish(Outcome::Held) })
            &&& t.worker.reachable
                ==> swap_moved(swap_moved(t, Event::Done).0, Event::Done).1 == (Step::CountReplied)
            &&& t.worker.reachable
                ==> swap_moved(swap_moved(swap_moved(t, Event::Done).0, Event::Done).0,
                    Event::Workloads(n)).1 == (Step::Note(Memory::Counted))
            &&& t.worker.reachable
                ==> swap_moved(swap_moved(swap_moved(swap_moved(t, Event::Done).0, Event::Done).0,
                    Event::Workloads(n)).0, Event::Done).1
                        == (if n
                            == 0 { Step::Run(VmTask::Stop) } else { Step::Finish(Outcome::Done) })
            &&& t.worker.reachable
                ==> swap_moved(swap_moved(swap_moved(t, Event::Failed).0, Event::Done).0,
                    Event::Done).1 == (Step::CountAll)
            &&& t.worker.reachable
                ==> swap_moved(swap_moved(swap_moved(swap_moved(t, Event::Failed).0, Event::Done).0,
                    Event::Done).0, Event::Workloads(n)).1 == (Step::Note(Memory::Counted))
            &&& t.worker.reachable
                ==> swap_moved(swap_moved(swap_moved(swap_moved(swap_moved(t, Event::Failed).0,
                    Event::Done).0, Event::Done).0, Event::Workloads(n)).0, Event::Done).1
                        == (Step::Finish(Outcome::Held))
        }),
{
    reveal(swap_moved);
}

proof fn lemma_replaced_workers_drain_first_3(t: Recreating, g: Facts, o: Sight, h: Facts, n: usize)
    requires
        t.at == RecreateAt::Stopped,
        swap_kept(t, g),
        t.drained,
    ensures
        ({
            &&& swap_moved(t, Event::Done).1 == (Step::Save(Save::ClearDrain))
            &&& swap_moved(swap_moved(t, Event::Done).0, Event::Settings(h)).1
                == (Step::Note(Memory::WorkerEmptied))
            &&& swap_moved(swap_moved(swap_moved(t, Event::Done).0, Event::Settings(h)).0,
                Event::Done).1 == (Step::Finish(Outcome::Done))
        }),
{
    reveal(swap_moved);
}

/// A worker that runs is drained before it is replaced: the controller is asked, the lease
/// of a reachable one is kept up, and it is stopped only once the controller heard and
/// nothing runs on it.
pub proof fn replaced_workers_drain_first(g: Facts, es: Seq<Event>, o: Sight, h: Facts, n: usize)
    requires
        es.len() > 0,
    ensures
        ({
            let s = swap_asked(g, es);
            let t = swap_reached(g, es);
            &&& s == Step::Inspect
                ==> swap_asked(g, es.push(Event::Worker(o)))
                    == (if o.running { Step::Tell(Notice::DrainingForReplacement) } else { Step::Save(Save::ClearDrain) })
            &&& s == Step::Inspect ==> swap_reached(g, es.push(Event::Worker(o))).worker == o
            &&& s == Step::Inspect && !o.running
                ==> swap_asked(g, es.push(Event::Worker(o)).push(Event::Settings(h)))
                    == (Step::Tell(Notice::Replacing))
            &&& s == Step::Tell(Notice::DrainingForReplacement)
                ==> swap_asked(g, es.push(Event::Done)) == (Step::Ask(Route::Drain))
            &&& s == Step::Ask(Route::Drain)
                ==> swap_asked(g, es.push(Event::Done))
                    == (if t.worker.reachable { Step::Run(VmTask::RenewLease) } else { Step::Finish(Outcome::Done) })
            &&& s == Step::Ask(Route::Drain)
                ==> swap_asked(g, es.push(Event::Failed)) == (Step::Hold)
            &&& s == Step::Ask(Route::Drain)
                ==> swap_asked(g, es.push(Event::Failed).push(Event::Done))
                    == (if t.worker.reachable { Step::Run(VmTask::RenewLease) } else { Step::Finish(Outcome::Held) })
            &&& s == Step::Ask(Route::Drain) && t.worker.reachable
                ==> swap_asked(g, es.push(Event::Done).push(Event::Done)) == (Step::CountReplied)
            &&& s == Step::Ask(Route::Drain) && t.worker.reachable
                ==> swap_asked(g, es.push(Event::Done).push(Event::Done).push(Event::Workloads(n)))
                    == (Step::Note(Memory::Counted))
            &&& s == Step::Ask(Route::Drain) && t.worker.reachable
                ==> swap_asked(g,
                    es.push(Event::Done).push(Event::Done).push(Event::Workloads(n)).push(Event::Done)) == (if n == 0 { Step::Run(VmTask::Stop) } else { Step::Finish(Outcome::Done) })
            &&& s == Step::Ask(Route::Drain) && t.worker.reachable
                ==> swap_asked(g, es.push(Event::Failed).push(Event::Done).push(Event::Done))
                    == (Step::CountAll)
            &&& s == Step::Ask(Route::Drain) && t.worker.reachable
                ==> swap_asked(g,
                    es.push(Event::Failed).push(Event::Done).push(Event::Done).push(Event::Workloads(n))) == (Step::Note(Memory::Counted))
            &&& s == Step::Ask(Route::Drain) && t.worker.reachable
                ==> swap_asked(g,
                    es.push(Event::Failed).push(Event::Done).push(Event::Done).push(Event::Workloads(n)).push(Event::Done)) == (Step::Finish(Outcome::Held))
            &&& s == Step::Run(VmTask::Stop)
                ==> swap_asked(g, es.push(Event::Done)) == (Step::Save(Save::ClearDrain))
            &&& s == Step::Run(VmTask::Stop)
                ==> swap_asked(g, es.push(Event::Done).push(Event::Settings(h)))
                    == (Step::Note(Memory::WorkerEmptied))
            &&& s == Step::Run(VmTask::Stop)
                ==> swap_asked(g, es.push(Event::Done).push(Event::Settings(h)).push(Event::Done))
                    == (Step::Finish(Outcome::Done))
        }),
{
    swap_lemma_run(g, es);
    let s = swap_asked(g, es);
    let t = swap_reached(g, es);
    if s == Step::Inspect {
        lemma_replaced_workers_drain_first_0(t, g, o, h, n);
        swap_lemma_push(g, es, Event::Worker(o));
        swap_lemma_push(g, es.push(Event::Worker(o)), Event::Settings(h));
    }
    if s == Step::Tell(Notice::DrainingForReplacement) {
        lemma_replaced_workers_drain_first_1(t, g, o, h, n);
        swap_lemma_push(g, es, Event::Done);
    }
    if s == Step::Ask(Route::Drain) {
        lemma_replaced_workers_drain_first_2(t, g, o, h, n);
        swap_lemma_push(g, es, Event::Done);
        swap_lemma_push(g, es, Event::Failed);
        swap_lemma_push(g, es.push(Event::Failed), Event::Done);
        swap_lemma_push(g, es.push(Event::Done), Event::Done);
        swap_lemma_push(g, es.push(Event::Done).push(Event::Done), Event::Workloads(n));
        swap_lemma_push(g, es.push(Event::Done).push(Event::Done).push(Event::Workloads(n)),
            Event::Done);
        swap_lemma_push(g, es.push(Event::Failed).push(Event::Done), Event::Done);
        swap_lemma_push(g, es.push(Event::Failed).push(Event::Done).push(Event::Done),
            Event::Workloads(n));
        swap_lemma_push(g,
            es.push(Event::Failed).push(Event::Done).push(Event::Done).push(Event::Workloads(n)), Event::Done);
    }
    if s == Step::Run(VmTask::Stop) {
        lemma_replaced_workers_drain_first_3(t, g, o, h, n);
        swap_lemma_push(g, es, Event::Done);
        swap_lemma_push(g, es.push(Event::Done), Event::Settings(h));
        swap_lemma_push(g, es.push(Event::Done).push(Event::Settings(h)), Event::Done);
    }
}

proof fn lemma_workers_lose_their_access_first_0(t: Recreating, g: Facts, h: Facts)
    requires
        t.at == RecreateAt::ReplacingTold,
        swap_kept(t, g),
    ensures
        ({
            &&& swap_moved(t, Event::Done).1
                == (if g.access_removed { Step::Run(VmTask::Remove) } else { Step::Ask(Route::Reset) })
        }),
{
    reveal(swap_moved);
}

proof fn lemma_workers_lose_their_access_first_1(t: Recreating, g: Facts, h: Facts)
    requires
        t.at == RecreateAt::AccessReset,
        swap_kept(t, g),
    ensures
        ({
            &&& swap_moved(t, Event::Done).1 == (Step::Save(Save::AccessRemoved))
        }),
{
    reveal(swap_moved);
}

proof fn lemma_workers_lose_their_access_first_2(t: Recreating, g: Facts, h: Facts)
    requires
        t.at == RecreateAt::AccessSaved,
        swap_kept(t, g),
    ensures
        ({
            &&& swap_moved(t, Event::Settings(h)).1 == (Step::Run(VmTask::Remove))
        }),
{
    reveal(swap_moved);
}

proof fn lemma_workers_lose_their_access_first_3(t: Recreating, g: Facts, h: Facts)
    requires
        t.at == RecreateAt::Removed,
        swap_kept(t, g),
    ensures
        ({
            &&& swap_moved(t, Event::Done).1 == (Step::Save(Save::WorkerReplaced(g.next_provider)))
        }),
{
    reveal(swap_moved);
}

proof fn lemma_workers_lose_their_access_first_4(t: Recreating, g: Facts, h: Facts)
    requires
        t.at == RecreateAt::ReplacedSaved,
        swap_kept(t, g),
    ensures
        ({
            &&& swap_moved(t, Event::Settings(h)).1 == (Step::Note(Memory::WorkerRemoved))
        }),
{
    reveal(swap_moved);
}

proof fn lemma_workers_lose_their_access_first_5(t: Recreating, g: Facts, h: Facts)
    requires
        t.at == RecreateAt::ReplacedNoted,
        swap_kept(t, g),
    ensures
        ({
            &&& swap_moved(t, Event::Done).1 == (Step::Tell(Notice::Replaced))
        }),
{
    reveal(swap_moved);
}

proof fn lemma_workers_lose_their_access_first_6(t: Recreating, g: Facts, h: Facts)
    requires
        t.at == RecreateAt::ReplacedTold,
        swap_kept(t, g),
    ensures
        ({
            &&& swap_moved(t, Event::Done).1 == (Step::Finish(Outcome::Done))
        }),
{
    reveal(swap_moved);
}

/// A worker is removed only after its access to the fleet is gone on record; then the
/// replacement's runtime is recorded and the owner told.
pub proof fn workers_lose_their_access_first(g: Facts, es: Seq<Event>, h: Facts)
    requires
        es.len() > 0,
    ensures
        ({
            let s = swap_asked(g, es);
            let t = swap_reached(g, es);
            &&& s == Step::Tell(Notice::Replacing)
                ==> swap_asked(g, es.push(Event::Done))
                    == (if g.access_removed { Step::Run(VmTask::Remove) } else { Step::Ask(Route::Reset) })
            &&& s == Step::Ask(Route::Reset)
                ==> swap_asked(g, es.push(Event::Done)) == (Step::Save(Save::AccessRemoved))
            &&& s == Step::Save(Save::AccessRemoved)
                ==> swap_asked(g, es.push(Event::Settings(h))) == (Step::Run(VmTask::Remove))
            &&& s == Step::Run(VmTask::Remove)
                ==> swap_asked(g, es.push(Event::Done))
                    == (Step::Save(Save::WorkerReplaced(g.next_provider)))
            &&& s == Step::Save(Save::WorkerReplaced(t.config.next_provider))
                ==> swap_asked(g, es.push(Event::Settings(h)))
                    == (Step::Note(Memory::WorkerRemoved))
            &&& s == Step::Note(Memory::WorkerRemoved)
                ==> swap_asked(g, es.push(Event::Done)) == (Step::Tell(Notice::Replaced))
            &&& s == Step::Tell(Notice::Replaced)
                ==> swap_asked(g, es.push(Event::Done)) == (Step::Finish(Outcome::Done))
        }),
{
    swap_lemma_run(g, es);
    let s = swap_asked(g, es);
    let t = swap_reached(g, es);
    if s == Step::Tell(Notice::Replacing) {
        lemma_workers_lose_their_access_first_0(t, g, h);
        swap_lemma_push(g, es, Event::Done);
    }
    if s == Step::Ask(Route::Reset) {
        lemma_workers_lose_their_access_first_1(t, g, h);
        swap_lemma_push(g, es, Event::Done);
    }
    if s == Step::Save(Save::AccessRemoved) {
        lemma_workers_lose_their_access_first_2(t, g, h);
        swap_lemma_push(g, es, Event::Settings(h));
    }
    if s == Step::Run(VmTask::Remove) {
        lemma_workers_lose_their_access_first_3(t, g, h);
        swap_lemma_push(g, es, Event::Done);
    }
    if s == Step::Save(Save::WorkerReplaced(t.config.next_provider)) {
        lemma_workers_lose_their_access_first_4(t, g, h);
        swap_lemma_push(g, es, Event::Settings(h));
    }
    if s == Step::Note(Memory::WorkerRemoved) {
        lemma_workers_lose_their_access_first_5(t, g, h);
        swap_lemma_push(g, es, Event::Done);
    }
    if s == Step::Tell(Notice::Replaced) {
        lemma_workers_lose_their_access_first_6(t, g, h);
        swap_lemma_push(g, es, Event::Done);
    }
}

#[verifier::rlimit(40)]
#[verifier::spinoff_prover]
proof fn lemma_failed_replacements_end(t: Recreating, g: Facts, s: Step)
    requires
        swap_entered(t, g, s),
        s == Step::Inspect || s == Step::Run(VmTask::RenewLease) || s == Step::CountReplied || s
            == Step::CountAll || s == Step::Run(VmTask::Stop) || s == Step::Ask(Route::Reset) || s
                == Step::Save(Save::AccessRemoved) || s == Step::Run(VmTask::Remove) || s
                    == Step::Tell(Notice::Replacing),
    ensures
        swap_moved(t, Event::Failed).1 == Step::Finish(Outcome::Failed),
{
    reveal(swap_moved);
}

/// A replacement ends at a step that fails.
pub proof fn failed_replacements_end(g: Facts, es: Seq<Event>)
    requires
        es.len() > 0,
        swap_asked(g, es) == Step::Inspect || swap_asked(g, es)
            == Step::Run(VmTask::RenewLease) || swap_asked(g, es)
                == Step::CountReplied || swap_asked(g, es) == Step::CountAll || swap_asked(g, es)
                    == Step::Run(VmTask::Stop) || swap_asked(g, es)
                        == Step::Ask(Route::Reset) || swap_asked(g, es)
                            == Step::Save(Save::AccessRemoved) || swap_asked(g, es)
                                == Step::Run(VmTask::Remove) || swap_asked(g, es)
                                    == Step::Tell(Notice::Replacing),
    ensures
        swap_asked(g, es.push(Event::Failed)) == Step::Finish(Outcome::Failed),
{
    swap_lemma_run(g, es);
    lemma_failed_replacements_end(swap_reached(g, es), g, swap_asked(g, es));
    swap_lemma_push(g, es, Event::Failed);
}

#[verifier::rlimit(40)]
#[verifier::spinoff_prover]
proof fn lemma_replacements_remember_the_worker(t: Recreating, g: Facts, s: Step, e: Event)
    requires
        swap_entered(t, g, s),
    ensures
        ({
            let u = swap_moved(t, e).0;
            &&& u.worker == t.worker || s == Step::Inspect
        }),
{
    reveal(swap_moved);
}

/// The worker stays as it was seen.
pub proof fn replacements_remember_the_worker(g: Facts, es: Seq<Event>, e: Event)
    requires
        es.len() > 0,
    ensures
        ({
            let t = swap_reached(g, es);
            let s = swap_asked(g, es);
            let u = swap_reached(g, es.push(e));
            &&& u.worker == t.worker || s == Step::Inspect
        }),
{
    swap_lemma_run(g, es);
    lemma_replacements_remember_the_worker(swap_reached(g, es), g, swap_asked(g, es), e);
    swap_lemma_push(g, es, e);
}

/// A move of the machine.
#[verifier::opaque]
spec fn gap_moved(t: Absence, e: Event) -> (Absence, Step) {
    absence_after(t, e)
}

/// What is reached after these answers.
#[verifier::opaque]
pub open spec fn gap_reached(g: Stock, es: Seq<Event>) -> Absence
    decreases es.len(),
{
    if es.len() == 0 {
        fresh_absence(g)
    } else {
        absence_after(gap_reached(g, es.drop_last()), es.last()).0
    }
}

/// What is asked for after these answers.
#[verifier::opaque]
pub open spec fn gap_asked(g: Stock, es: Seq<Event>) -> Step
    recommends
        es.len() > 0,
{
    absence_after(gap_reached(g, es.drop_last()), es.last()).1
}

proof fn gap_lemma_push(g: Stock, es: Seq<Event>, e: Event)
    ensures
        gap_reached(g, es.push(e)) == gap_moved(gap_reached(g, es), e).0,
        gap_asked(g, es.push(e)) == gap_moved(gap_reached(g, es), e).1,
{
    reveal(gap_reached);
    reveal(gap_asked);
    reveal(gap_moved);
    assert(es.push(e).drop_last() =~= es);
}

proof fn gap_lemma_fresh(g: Stock)
    ensures
        gap_reached(g, Seq::empty()) == fresh_absence(g),
{
    reveal(gap_reached);
}

/// What is kept through a run, and the step that was asked for where it stands.
spec fn gap_entered(t: Absence, g: Stock, s: Step) -> bool {
    t.stock == g && match t.at {
        Gap::Start => false,
        Gap::Found => s == Step::FindMissing,
        Gap::Receipt => s == Step::Receipt,
        Gap::Seen => s == Step::Look,
        Gap::Stopped => s == Step::Run(VmTask::StopNow),
        Gap::Noted => s == Step::Note(Memory::WorkerStopped),
        Gap::Told => s == Step::Tell(Notice::StorageMissing),
        Gap::Saved => s == Step::SaveStorage(StorageSave::StorageMissing),
        Gap::Beaten => s == Step::Heartbeat,
        Gap::Valid => s == Step::ValidateStorage,
        Gap::Started => s == Step::Run(VmTask::Start),
        Gap::GuestReady => s == Step::Run(VmTask::PrepareStorage),
        Gap::Activated => s == Step::Pool(PoolTask::Activate),
        Gap::PoolChecked => s == Step::CheckPool,
        Gap::Bootstrapped => s == Step::Ask(Route::Bootstrap),
        Gap::Configured => s == Step::Run(VmTask::Configure),
        Gap::Returned => s == Step::SaveStorage(StorageSave::StorageReturned),
        Gap::Failing => s == Step::Hold,
        Gap::FailureSeen => s == Step::Look,
        Gap::FailureStopped => s == Step::Run(VmTask::StopNow),
        Gap::FailureSaved => s == Step::SaveStorage(StorageSave::ReturnFailed),
        Gap::Decided => s == Step::DecideRecovery,
        Gap::Planned => s == Step::PlanRebuild,
        Gap::RecoverySaved => s == Step::SaveStorage(StorageSave::RecoveryBegun),
        Gap::RestTold => s == Step::TellInsufficient || s == Step::Tell(Notice::RecoveryPaused),
        Gap::Over => s is Finish,
    }
}

/// What is kept through a run.
spec fn gap_kept(t: Absence, g: Stock) -> bool {
    t.stock == g
}

#[verifier::rlimit(40)]
#[verifier::spinoff_prover]
proof fn gap_lemma_enters(t: Absence, g: Stock, s: Step, e: Event)
    requires
        gap_kept(t, g),
        t.at == Gap::Start || gap_entered(t, g, s),
    ensures
        gap_entered(gap_moved(t, e).0, g, gap_moved(t, e).1),
{
    reveal(gap_moved);
}

proof fn gap_lemma_run(g: Stock, es: Seq<Event>)
    requires
        es.len() > 0,
    ensures
        gap_entered(gap_reached(g, es), g, gap_asked(g, es)),
    decreases es.len(),
{
    let less = es.drop_last();
    assert(es =~= less.push(es.last()));
    gap_lemma_push(g, less, es.last());
    if less.len() == 0 {
        gap_lemma_fresh(g);
        assert(less =~= Seq::empty());
    } else {
        gap_lemma_run(g, less);
    }
    gap_lemma_enters(gap_reached(g, less), g, gap_asked(g, less), es.last());
}

/// Storage that is in use is looked for, but not again within ten seconds.
pub proof fn storage_in_use_is_looked_for(g: Stock)
    ensures
        !g.in_use ==> gap_asked(g, seq![Event::Begin]) == (Step::Finish(Outcome::Answer(false))),
        g.in_use && g.recorded && g.now < g.last_check + 10
            ==> gap_asked(g, seq![Event::Begin]) == (Step::Finish(Outcome::Answer(true))),
        g.in_use && !(g.recorded && g.now < g.last_check + 10)
            ==> gap_asked(g, seq![Event::Begin]) == (Step::FindMissing),
{
    let none = Seq::<Event>::empty();
    assert(none.push(Event::Begin) =~= seq![Event::Begin]);
    gap_lemma_fresh(g);
    gap_lemma_push(g, none, Event::Begin);
    reveal(gap_moved);
}

proof fn lemma_missing_storage_stops_the_worker_0(t: Absence, g: Stock, n: usize, here: bool,
    o: Sight)
    requires
        t.at == Gap::Found,
        gap_kept(t, g),
    ensures
        ({
            &&& gap_moved(t, Event::Found(n)).1 == (if n == 0
                && !g.recorded { Step::Finish(Outcome::Answer(false)) } else { Step::Receipt })
            &&& gap_moved(t, Event::Found(n)).0.missing == n
        }),
{
    reveal(gap_moved);
}

proof fn lemma_missing_storage_stops_the_worker_1(t: Absence, g: Stock, n: usize, here: bool,
    o: Sight)
    requires
        t.at == Gap::Receipt,
        gap_kept(t, g),
    ensures
        ({
            &&& gap_moved(t, Event::Answer(here)).1
                == (if here { Step::Look } else { Step::Note(Memory::WorkerStopped) })
            &&& gap_moved(gap_moved(t, Event::Answer(true)).0, Event::Worker(o)).1
                == (if o.running { Step::Run(VmTask::StopNow) } else { Step::Note(Memory::WorkerStopped) })
            &&& o.running
                ==> gap_moved(gap_moved(gap_moved(t, Event::Answer(true)).0, Event::Worker(o)).0,
                    Event::Done).1 == (Step::Note(Memory::WorkerStopped))
        }),
{
    reveal(gap_moved);
}

proof fn lemma_missing_storage_stops_the_worker_2(t: Absence, g: Stock, n: usize, here: bool,
    o: Sight)
    requires
        t.at == Gap::Noted,
        gap_kept(t, g),
    ensures
        ({
            &&& gap_moved(t, Event::Done).1 == (Step::Tell(Notice::StorageMissing))
        }),
{
    reveal(gap_moved);
}

proof fn lemma_missing_storage_stops_the_worker_3(t: Absence, g: Stock, n: usize, here: bool,
    o: Sight)
    requires
        t.at == Gap::Told,
        gap_kept(t, g),
    ensures
        ({
            &&& gap_moved(t, Event::Done).1 == (Step::SaveStorage(StorageSave::StorageMissing))
        }),
{
    reveal(gap_moved);
}

proof fn lemma_missing_storage_stops_the_worker_4(t: Absence, g: Stock, n: usize, here: bool,
    o: Sight)
    requires
        t.at == Gap::Saved,
        gap_kept(t, g),
    ensures
        ({
            &&& gap_moved(t, Event::Done).1 == (Step::Heartbeat)
        }),
{
    reveal(gap_moved);
}

proof fn lemma_missing_storage_stops_the_worker_5(t: Absence, g: Stock, n: usize, here: bool,
    o: Sight)
    requires
        t.at == Gap::Beaten,
        gap_kept(t, g),
    ensures
        ({
            &&& gap_moved(t, Event::Done).1
                == (if t.missing > 0 { Step::DecideRecovery } else { if !g.sharing || g.failed { Step::Finish(Outcome::Answer(true)) } else { Step::ValidateStorage } })
        }),
{
    reveal(gap_moved);
}

/// Where disks are missing, or were, a worker that is here and runs is stopped before
/// anything else; that is recorded and told. Then a recovery is decided on where disks are
/// still missing; otherwise storage that came back is tried, while the owner shares and no
/// try failed before.
pub proof fn missing_storage_stops_the_worker(g: Stock, es: Seq<Event>, n: usize, here: bool,
    o: Sight)
    requires
        es.len() > 0,
    ensures
        ({
            let s = gap_asked(g, es);
            let t = gap_reached(g, es);
            &&& s == Step::FindMissing
                ==> gap_asked(g, es.push(Event::Found(n))) == (if n == 0
                    && !g.recorded { Step::Finish(Outcome::Answer(false)) } else { Step::Receipt })
            &&& s == Step::FindMissing ==> gap_reached(g, es.push(Event::Found(n))).missing == n
            &&& s == Step::Receipt
                ==> gap_asked(g, es.push(Event::Answer(here)))
                    == (if here { Step::Look } else { Step::Note(Memory::WorkerStopped) })
            &&& s == Step::Receipt
                ==> gap_asked(g, es.push(Event::Answer(true)).push(Event::Worker(o)))
                    == (if o.running { Step::Run(VmTask::StopNow) } else { Step::Note(Memory::WorkerStopped) })
            &&& s == Step::Receipt && o.running
                ==> gap_asked(g,
                    es.push(Event::Answer(true)).push(Event::Worker(o)).push(Event::Done))
                        == (Step::Note(Memory::WorkerStopped))
            &&& s == Step::Note(Memory::WorkerStopped)
                ==> gap_asked(g, es.push(Event::Done)) == (Step::Tell(Notice::StorageMissing))
            &&& s == Step::Tell(Notice::StorageMissing)
                ==> gap_asked(g, es.push(Event::Done))
                    == (Step::SaveStorage(StorageSave::StorageMissing))
            &&& s == Step::SaveStorage(StorageSave::StorageMissing)
                ==> gap_asked(g, es.push(Event::Done)) == (Step::Heartbeat)
            &&& s == Step::Heartbeat
                ==> gap_asked(g, es.push(Event::Done))
                    == (if t.missing > 0 { Step::DecideRecovery } else { if !g.sharing || g.failed { Step::Finish(Outcome::Answer(true)) } else { Step::ValidateStorage } })
        }),
{
    gap_lemma_run(g, es);
    let s = gap_asked(g, es);
    let t = gap_reached(g, es);
    if s == Step::FindMissing {
        lemma_missing_storage_stops_the_worker_0(t, g, n, here, o);
        gap_lemma_push(g, es, Event::Found(n));
    }
    if s == Step::Receipt {
        lemma_missing_storage_stops_the_worker_1(t, g, n, here, o);
        gap_lemma_push(g, es, Event::Answer(here));
        gap_lemma_push(g, es, Event::Answer(true));
        gap_lemma_push(g, es.push(Event::Answer(true)), Event::Worker(o));
        gap_lemma_push(g, es.push(Event::Answer(true)).push(Event::Worker(o)), Event::Done);
    }
    if s == Step::Note(Memory::WorkerStopped) {
        lemma_missing_storage_stops_the_worker_2(t, g, n, here, o);
        gap_lemma_push(g, es, Event::Done);
    }
    if s == Step::Tell(Notice::StorageMissing) {
        lemma_missing_storage_stops_the_worker_3(t, g, n, here, o);
        gap_lemma_push(g, es, Event::Done);
    }
    if s == Step::SaveStorage(StorageSave::StorageMissing) {
        lemma_missing_storage_stops_the_worker_4(t, g, n, here, o);
        gap_lemma_push(g, es, Event::Done);
    }
    if s == Step::Heartbeat {
        lemma_missing_storage_stops_the_worker_5(t, g, n, here, o);
        gap_lemma_push(g, es, Event::Done);
    }
}

proof fn lemma_returned_storage_is_checked_before_use_0(t: Absence, g: Stock, o: Sight)
    requires
        t.at == Gap::Valid,
        gap_kept(t, g),
    ensures
        ({
            &&& gap_moved(t, Event::Done).1 == (Step::Run(VmTask::Start))
        }),
{
    reveal(gap_moved);
}

proof fn lemma_returned_storage_is_checked_before_use_1(t: Absence, g: Stock, o: Sight)
    requires
        t.at == Gap::Started,
        gap_kept(t, g),
    ensures
        ({
            &&& gap_moved(t, Event::Done).1 == (Step::Run(VmTask::PrepareStorage))
        }),
{
    reveal(gap_moved);
}

proof fn lemma_returned_storage_is_checked_before_use_2(t: Absence, g: Stock, o: Sight)
    requires
        t.at == Gap::GuestReady,
        gap_kept(t, g),
    ensures
        ({
            &&& gap_moved(t, Event::Done).1 == (Step::Pool(PoolTask::Activate))
        }),
{
    reveal(gap_moved);
}

proof fn lemma_returned_storage_is_checked_before_use_3(t: Absence, g: Stock, o: Sight)
    requires
        t.at == Gap::Activated,
        gap_kept(t, g),
    ensures
        ({
            &&& gap_moved(t, Event::Done).1 == (Step::CheckPool)
        }),
{
    reveal(gap_moved);
}

proof fn lemma_returned_storage_is_checked_before_use_4(t: Absence, g: Stock, o: Sight)
    requires
        t.at == Gap::PoolChecked,
        gap_kept(t, g),
    ensures
        ({
            &&& gap_moved(t, Event::Done).1 == (Step::Ask(Route::Bootstrap))
        }),
{
    reveal(gap_moved);
}

proof fn lemma_returned_storage_is_checked_before_use_5(t: Absence, g: Stock, o: Sight)
    requires
        t.at == Gap::Bootstrapped,
        gap_kept(t, g),
    ensures
        ({
            &&& gap_moved(t, Event::Done).1 == (Step::Run(VmTask::Configure))
        }),
{
    reveal(gap_moved);
}

proof fn lemma_returned_storage_is_checked_before_use_6(t: Absence, g: Stock, o: Sight)
    requires
        t.at == Gap::Configured,
        gap_kept(t, g),
    ensures
        ({
            &&& gap_moved(t, Event::Done).1 == (Step::SaveStorage(StorageSave::StorageReturned))
        }),
{
    reveal(gap_moved);
}

proof fn lemma_returned_storage_is_checked_before_use_7(t: Absence, g: Stock, o: Sight)
    requires
        t.at == Gap::Returned,
        gap_kept(t, g),
    ensures
        ({
            &&& gap_moved(t, Event::Done).1 == (Step::Finish(Outcome::Answer(true)))
        }),
{
    reveal(gap_moved);
}

proof fn lemma_returned_storage_is_checked_before_use_8(t: Absence, g: Stock, o: Sight)
    requires
        t.at == Gap::Failing,
        gap_kept(t, g),
    ensures
        ({
            &&& gap_moved(t, Event::Done).1 == (Step::Look)
            &&& gap_moved(gap_moved(t, Event::Done).0, Event::Worker(o)).1
                == (if o.running { Step::Run(VmTask::StopNow) } else { Step::SaveStorage(StorageSave::ReturnFailed) })
            &&& o.running
                ==> gap_moved(gap_moved(gap_moved(t, Event::Done).0, Event::Worker(o)).0,
                    Event::Done).1 == (Step::SaveStorage(StorageSave::ReturnFailed))
        }),
{
    reveal(gap_moved);
}

proof fn lemma_returned_storage_is_checked_before_use_9(t: Absence, g: Stock, o: Sight)
    requires
        t.at == Gap::FailureSaved,
        gap_kept(t, g),
    ensures
        ({
            &&& gap_moved(t, Event::Done).1 == (Step::Finish(Outcome::Held))
        }),
{
    reveal(gap_moved);
}

/// Storage that came back is used again only after it was found valid, the worker runs on
/// it, its pool was activated and checked, and the worker joined with fresh access. A try
/// that fails leaves the worker stopped and is recorded.
pub proof fn returned_storage_is_checked_before_use(g: Stock, es: Seq<Event>, o: Sight)
    requires
        es.len() > 0,
    ensures
        ({
            let s = gap_asked(g, es);
            let t = gap_reached(g, es);
            &&& s == Step::ValidateStorage
                ==> gap_asked(g, es.push(Event::Done)) == (Step::Run(VmTask::Start))
            &&& s == Step::Run(VmTask::Start)
                ==> gap_asked(g, es.push(Event::Done)) == (Step::Run(VmTask::PrepareStorage))
            &&& s == Step::Run(VmTask::PrepareStorage)
                ==> gap_asked(g, es.push(Event::Done)) == (Step::Pool(PoolTask::Activate))
            &&& s == Step::Pool(PoolTask::Activate)
                ==> gap_asked(g, es.push(Event::Done)) == (Step::CheckPool)
            &&& s == Step::CheckPool
                ==> gap_asked(g, es.push(Event::Done)) == (Step::Ask(Route::Bootstrap))
            &&& s == Step::Ask(Route::Bootstrap)
                ==> gap_asked(g, es.push(Event::Done)) == (Step::Run(VmTask::Configure))
            &&& s == Step::Run(VmTask::Configure)
                ==> gap_asked(g, es.push(Event::Done))
                    == (Step::SaveStorage(StorageSave::StorageReturned))
            &&& s == Step::SaveStorage(StorageSave::StorageReturned)
                ==> gap_asked(g, es.push(Event::Done)) == (Step::Finish(Outcome::Answer(true)))
            &&& s == Step::Hold ==> gap_asked(g, es.push(Event::Done)) == (Step::Look)
            &&& s == Step::Hold
                ==> gap_asked(g, es.push(Event::Done).push(Event::Worker(o)))
                    == (if o.running { Step::Run(VmTask::StopNow) } else { Step::SaveStorage(StorageSave::ReturnFailed) })
            &&& s == Step::Hold && o.running
                ==> gap_asked(g, es.push(Event::Done).push(Event::Worker(o)).push(Event::Done))
                    == (Step::SaveStorage(StorageSave::ReturnFailed))
            &&& s == Step::SaveStorage(StorageSave::ReturnFailed)
                ==> gap_asked(g, es.push(Event::Done)) == (Step::Finish(Outcome::Held))
        }),
{
    gap_lemma_run(g, es);
    let s = gap_asked(g, es);
    let t = gap_reached(g, es);
    if s == Step::ValidateStorage {
        lemma_returned_storage_is_checked_before_use_0(t, g, o);
        gap_lemma_push(g, es, Event::Done);
    }
    if s == Step::Run(VmTask::Start) {
        lemma_returned_storage_is_checked_before_use_1(t, g, o);
        gap_lemma_push(g, es, Event::Done);
    }
    if s == Step::Run(VmTask::PrepareStorage) {
        lemma_returned_storage_is_checked_before_use_2(t, g, o);
        gap_lemma_push(g, es, Event::Done);
    }
    if s == Step::Pool(PoolTask::Activate) {
        lemma_returned_storage_is_checked_before_use_3(t, g, o);
        gap_lemma_push(g, es, Event::Done);
    }
    if s == Step::CheckPool {
        lemma_returned_storage_is_checked_before_use_4(t, g, o);
        gap_lemma_push(g, es, Event::Done);
    }
    if s == Step::Ask(Route::Bootstrap) {
        lemma_returned_storage_is_checked_before_use_5(t, g, o);
        gap_lemma_push(g, es, Event::Done);
    }
    if s == Step::Run(VmTask::Configure) {
        lemma_returned_storage_is_checked_before_use_6(t, g, o);
        gap_lemma_push(g, es, Event::Done);
    }
    if s == Step::SaveStorage(StorageSave::StorageReturned) {
        lemma_returned_storage_is_checked_before_use_7(t, g, o);
        gap_lemma_push(g, es, Event::Done);
    }
    if s == Step::Hold {
        lemma_returned_storage_is_checked_before_use_8(t, g, o);
        gap_lemma_push(g, es, Event::Done);
        gap_lemma_push(g, es.push(Event::Done), Event::Worker(o));
        gap_lemma_push(g, es.push(Event::Done).push(Event::Worker(o)), Event::Done);
    }
    if s == Step::SaveStorage(StorageSave::ReturnFailed) {
        lemma_returned_storage_is_checked_before_use_9(t, g, o);
        gap_lemma_push(g, es, Event::Done);
    }
}

proof fn lemma_recoveries_follow_the_decision_0(t: Absence, g: Stock)
    requires
        t.at == Gap::Decided,
        gap_kept(t, g),
    ensures
        ({
            &&& gap_moved(t, Event::Recovery(RecoveryDecision::Rebuild)).1 == (Step::PlanRebuild)
            &&& gap_moved(t, Event::Recovery(RecoveryDecision::Insufficient)).1
                == (Step::TellInsufficient)
            &&& gap_moved(t, Event::Recovery(RecoveryDecision::Paused)).1
                == (Step::Tell(Notice::RecoveryPaused))
            &&& gap_moved(t, Event::Recovery(RecoveryDecision::Wait)).1
                == (Step::Finish(Outcome::Answer(true)))
            &&& gap_moved(t, Event::Recovery(RecoveryDecision::Failed)).1
                == (Step::Finish(Outcome::Answer(true)))
        }),
{
    reveal(gap_moved);
}

proof fn lemma_recoveries_follow_the_decision_1(t: Absence, g: Stock)
    requires
        t.at == Gap::Planned,
        gap_kept(t, g),
    ensures
        ({
            &&& gap_moved(t, Event::Done).1 == (Step::SaveStorage(StorageSave::RecoveryBegun))
        }),
{
    reveal(gap_moved);
}

proof fn lemma_recoveries_follow_the_decision_2(t: Absence, g: Stock)
    requires
        t.at == Gap::RecoverySaved,
        gap_kept(t, g),
    ensures
        ({
            &&& gap_moved(t, Event::Done).1 == (Step::Finish(Outcome::Answer(true)))
        }),
{
    reveal(gap_moved);
}

proof fn lemma_recoveries_follow_the_decision_3(t: Absence, g: Stock)
    requires
        t.at == Gap::RestTold,
        gap_kept(t, g),
    ensures
        ({
            &&& gap_moved(t, Event::Done).1 == (Step::Finish(Outcome::Answer(true)))
        }),
{
    reveal(gap_moved);
}

/// A worker is rebuilt only where that was decided; every other decision leaves it resting.
pub proof fn recoveries_follow_the_decision(g: Stock, es: Seq<Event>)
    requires
        es.len() > 0,
    ensures
        ({
            let s = gap_asked(g, es);
            let t = gap_reached(g, es);
            &&& s == Step::DecideRecovery
                ==> gap_asked(g, es.push(Event::Recovery(RecoveryDecision::Rebuild)))
                    == (Step::PlanRebuild)
            &&& s == Step::DecideRecovery
                ==> gap_asked(g, es.push(Event::Recovery(RecoveryDecision::Insufficient)))
                    == (Step::TellInsufficient)
            &&& s == Step::DecideRecovery
                ==> gap_asked(g, es.push(Event::Recovery(RecoveryDecision::Paused)))
                    == (Step::Tell(Notice::RecoveryPaused))
            &&& s == Step::DecideRecovery
                ==> gap_asked(g, es.push(Event::Recovery(RecoveryDecision::Wait)))
                    == (Step::Finish(Outcome::Answer(true)))
            &&& s == Step::DecideRecovery
                ==> gap_asked(g, es.push(Event::Recovery(RecoveryDecision::Failed)))
                    == (Step::Finish(Outcome::Answer(true)))
            &&& s == Step::PlanRebuild
                ==> gap_asked(g, es.push(Event::Done))
                    == (Step::SaveStorage(StorageSave::RecoveryBegun))
            &&& s == Step::SaveStorage(StorageSave::RecoveryBegun)
                ==> gap_asked(g, es.push(Event::Done)) == (Step::Finish(Outcome::Answer(true)))
            &&& (s == Step::TellInsufficient || s == Step::Tell(Notice::RecoveryPaused))
                ==> gap_asked(g, es.push(Event::Done)) == (Step::Finish(Outcome::Answer(true)))
        }),
{
    gap_lemma_run(g, es);
    let s = gap_asked(g, es);
    let t = gap_reached(g, es);
    if s == Step::DecideRecovery {
        lemma_recoveries_follow_the_decision_0(t, g);
        gap_lemma_push(g, es, Event::Recovery(RecoveryDecision::Rebuild));
        gap_lemma_push(g, es, Event::Recovery(RecoveryDecision::Insufficient));
        gap_lemma_push(g, es, Event::Recovery(RecoveryDecision::Paused));
        gap_lemma_push(g, es, Event::Recovery(RecoveryDecision::Wait));
        gap_lemma_push(g, es, Event::Recovery(RecoveryDecision::Failed));
    }
    if s == Step::PlanRebuild {
        lemma_recoveries_follow_the_decision_1(t, g);
        gap_lemma_push(g, es, Event::Done);
    }
    if s == Step::SaveStorage(StorageSave::RecoveryBegun) {
        lemma_recoveries_follow_the_decision_2(t, g);
        gap_lemma_push(g, es, Event::Done);
    }
    if s == Step::TellInsufficient || s == Step::Tell(Notice::RecoveryPaused) {
        lemma_recoveries_follow_the_decision_3(t, g);
        gap_lemma_push(g, es, Event::Done);
    }
}

#[verifier::rlimit(40)]
#[verifier::spinoff_prover]
proof fn lemma_failed_returns_are_kept(t: Absence, g: Stock, s: Step)
    requires
        gap_entered(t, g, s),
        s == Step::ValidateStorage || s == Step::Run(VmTask::Start) || s
            == Step::Run(VmTask::PrepareStorage) || s == Step::Pool(PoolTask::Activate) || s
                == Step::CheckPool || s == Step::Ask(Route::Bootstrap) || s
                    == Step::Run(VmTask::Configure),
    ensures
        gap_moved(t, Event::Failed).1 == Step::Hold,
{
    reveal(gap_moved);
}

/// A try of returned storage that fails is kept as its error.
pub proof fn failed_returns_are_kept(g: Stock, es: Seq<Event>)
    requires
        es.len() > 0,
        gap_asked(g, es) == Step::ValidateStorage || gap_asked(g, es)
            == Step::Run(VmTask::Start) || gap_asked(g, es)
                == Step::Run(VmTask::PrepareStorage) || gap_asked(g, es)
                    == Step::Pool(PoolTask::Activate) || gap_asked(g, es)
                        == Step::CheckPool || gap_asked(g, es)
                            == Step::Ask(Route::Bootstrap) || gap_asked(g, es)
                                == Step::Run(VmTask::Configure),
    ensures
        gap_asked(g, es.push(Event::Failed)) == Step::Hold,
{
    gap_lemma_run(g, es);
    lemma_failed_returns_are_kept(gap_reached(g, es), g, gap_asked(g, es));
    gap_lemma_push(g, es, Event::Failed);
}

#[verifier::rlimit(40)]
#[verifier::spinoff_prover]
proof fn lemma_failed_looks_end(t: Absence, g: Stock, s: Step)
    requires
        gap_entered(t, g, s),
        s == Step::FindMissing || s == Step::Receipt || s == Step::Note(Memory::WorkerStopped) || s
            == Step::SaveStorage(StorageSave::StorageMissing) || s == Step::Heartbeat || s
                == Step::DecideRecovery || s == Step::PlanRebuild || s
                    == Step::SaveStorage(StorageSave::RecoveryBegun) || s
                        == Step::SaveStorage(StorageSave::StorageReturned) || s
                            == Step::SaveStorage(StorageSave::ReturnFailed),
    ensures
        gap_moved(t, Event::Failed).1 == Step::Finish(Outcome::Failed),
{
    reveal(gap_moved);
}

/// Any other step that fails ends the look.
pub proof fn failed_looks_end(g: Stock, es: Seq<Event>)
    requires
        es.len() > 0,
        gap_asked(g, es) == Step::FindMissing || gap_asked(g, es)
            == Step::Receipt || gap_asked(g, es)
                == Step::Note(Memory::WorkerStopped) || gap_asked(g, es)
                    == Step::SaveStorage(StorageSave::StorageMissing) || gap_asked(g, es)
                        == Step::Heartbeat || gap_asked(g, es)
                            == Step::DecideRecovery || gap_asked(g, es)
                                == Step::PlanRebuild || gap_asked(g, es)
                                    == Step::SaveStorage(StorageSave::RecoveryBegun) || gap_asked(g,
                                        es) == Step::SaveStorage(StorageSave::StorageReturned) || gap_asked(g, es) == Step::SaveStorage(StorageSave::ReturnFailed),
    ensures
        gap_asked(g, es.push(Event::Failed)) == Step::Finish(Outcome::Failed),
{
    gap_lemma_run(g, es);
    lemma_failed_looks_end(gap_reached(g, es), g, gap_asked(g, es));
    gap_lemma_push(g, es, Event::Failed);
}

#[verifier::rlimit(40)]
#[verifier::spinoff_prover]
proof fn lemma_looks_remember_what_is_missing(t: Absence, g: Stock, s: Step, e: Event)
    requires
        gap_entered(t, g, s),
    ensures
        ({
            let u = gap_moved(t, e).0;
            &&& u.missing == t.missing || s == Step::FindMissing
        }),
{
    reveal(gap_moved);
}

/// How many disks are missing stays as it was found.
pub proof fn looks_remember_what_is_missing(g: Stock, es: Seq<Event>, e: Event)
    requires
        es.len() > 0,
    ensures
        ({
            let t = gap_reached(g, es);
            let s = gap_asked(g, es);
            let u = gap_reached(g, es.push(e));
            &&& u.missing == t.missing || s == Step::FindMissing
        }),
{
    gap_lemma_run(g, es);
    lemma_looks_remember_what_is_missing(gap_reached(g, es), g, gap_asked(g, es), e);
    gap_lemma_push(g, es, e);
}

/// A move of the machine.
#[verifier::opaque]
spec fn trip_moved(t: Moving, e: Event) -> (Moving, Step) {
    move_after(t, e)
}

/// What is reached after these answers.
#[verifier::opaque]
pub open spec fn trip_reached(g: Trip, es: Seq<Event>) -> Moving
    decreases es.len(),
{
    if es.len() == 0 {
        fresh_move(g)
    } else {
        move_after(trip_reached(g, es.drop_last()), es.last()).0
    }
}

/// What is asked for after these answers.
#[verifier::opaque]
pub open spec fn trip_asked(g: Trip, es: Seq<Event>) -> Step
    recommends
        es.len() > 0,
{
    move_after(trip_reached(g, es.drop_last()), es.last()).1
}

proof fn trip_lemma_push(g: Trip, es: Seq<Event>, e: Event)
    ensures
        trip_reached(g, es.push(e)) == trip_moved(trip_reached(g, es), e).0,
        trip_asked(g, es.push(e)) == trip_moved(trip_reached(g, es), e).1,
{
    reveal(trip_reached);
    reveal(trip_asked);
    reveal(trip_moved);
    assert(es.push(e).drop_last() =~= es);
}

proof fn trip_lemma_fresh(g: Trip)
    ensures
        trip_reached(g, Seq::empty()) == fresh_move(g),
{
    reveal(trip_reached);
}

/// What is kept through a run, and the step that was asked for where it stands.
spec fn trip_entered(t: Moving, g: Trip, s: Step) -> bool {
    t.trip == g && match t.at {
        Leg::Start => false,
        Leg::Receipt => s == Step::Receipt,
        Leg::Seen => s == Step::Look,
        Leg::HomeValid => s == Step::ValidateHome,
        Leg::HomeSaved => s == Step::SaveStorage(StorageSave::LayoutKept),
        Leg::SourceKnown => s == Step::SourceVolume,
        Leg::Begun => s == Step::SaveStorage(StorageSave::RelocationBegun),
        Leg::Prepared => s == Step::PrepareHome,
        Leg::DestinationSeen => s == Step::InspectDestination,
        Leg::Told => s == Step::Tell(Notice::MovingRuntime),
        Leg::Copied => s == Step::CopyRuntime,
        Leg::Verified => s == Step::VerifyPlacement,
        Leg::Authorized => s == Step::CheckAuthority,
        Leg::Switched => s == Step::SaveStorage(StorageSave::RelocationSwitched),
        Leg::Over => s is Finish,
    }
}

/// What is kept through a run.
spec fn trip_kept(t: Moving, g: Trip) -> bool {
    t.trip == g
}

#[verifier::rlimit(40)]
#[verifier::spinoff_prover]
proof fn trip_lemma_enters(t: Moving, g: Trip, s: Step, e: Event)
    requires
        trip_kept(t, g),
        t.at == Leg::Start || trip_entered(t, g, s),
    ensures
        trip_entered(trip_moved(t, e).0, g, trip_moved(t, e).1),
{
    reveal(trip_moved);
}

proof fn trip_lemma_run(g: Trip, es: Seq<Event>)
    requires
        es.len() > 0,
    ensures
        trip_entered(trip_reached(g, es), g, trip_asked(g, es)),
    decreases es.len(),
{
    let less = es.drop_last();
    assert(es =~= less.push(es.last()));
    trip_lemma_push(g, less, es.last());
    if less.len() == 0 {
        trip_lemma_fresh(g);
        assert(less =~= Seq::empty());
    } else {
        trip_lemma_run(g, less);
    }
    trip_lemma_enters(trip_reached(g, less), g, trip_asked(g, less), es.last());
}

/// A VM that its layout already has is left alone.
pub proof fn settled_vms_are_not_moved(g: Trip)
    ensures
        trip_asked(g, seq![Event::Begin])
            == (if g.settled { Step::Finish(Outcome::Answer(false)) } else { Step::Receipt }),
{
    let none = Seq::<Event>::empty();
    assert(none.push(Event::Begin) =~= seq![Event::Begin]);
    trip_lemma_fresh(g);
    trip_lemma_push(g, none, Event::Begin);
    reveal(trip_moved);
}

proof fn lemma_vms_are_used_where_they_were_verified_0(t: Moving, g: Trip, here: bool, o: Sight)
    requires
        t.at == Leg::Receipt,
        trip_kept(t, g),
    ensures
        ({
            &&& trip_moved(t, Event::Answer(here)).1
                == (if here { Step::Look } else { Step::Finish(Outcome::Refused(Refusal::RelocationNeedsStop)) })
        }),
{
    reveal(trip_moved);
}

proof fn lemma_vms_are_used_where_they_were_verified_1(t: Moving, g: Trip, here: bool, o: Sight)
    requires
        t.at == Leg::Seen,
        trip_kept(t, g),
    ensures
        ({
            &&& trip_moved(t, Event::Worker(o)).1
                == (if !o.stopped { Step::Finish(Outcome::Refused(Refusal::RelocationNeedsStop)) } else { if g.at_home { Step::ValidateHome } else { Step::SourceVolume } })
        }),
{
    reveal(trip_moved);
}

proof fn lemma_vms_are_used_where_they_were_verified_2(t: Moving, g: Trip, here: bool, o: Sight)
    requires
        t.at == Leg::HomeValid,
        trip_kept(t, g),
    ensures
        ({
            &&& trip_moved(t, Event::Done).1 == (Step::SaveStorage(StorageSave::LayoutKept))
        }),
{
    reveal(trip_moved);
}

proof fn lemma_vms_are_used_where_they_were_verified_3(t: Moving, g: Trip, here: bool, o: Sight)
    requires
        t.at == Leg::HomeSaved,
        trip_kept(t, g),
    ensures
        ({
            &&& trip_moved(t, Event::Done).1 == (Step::Finish(Outcome::Answer(true)))
        }),
{
    reveal(trip_moved);
}

proof fn lemma_vms_are_used_where_they_were_verified_4(t: Moving, g: Trip, here: bool, o: Sight)
    requires
        t.at == Leg::SourceKnown,
        trip_kept(t, g),
    ensures
        ({
            &&& trip_moved(t, Event::Done).1 == (Step::SaveStorage(StorageSave::RelocationBegun))
        }),
{
    reveal(trip_moved);
}

proof fn lemma_vms_are_used_where_they_were_verified_5(t: Moving, g: Trip, here: bool, o: Sight)
    requires
        t.at == Leg::Begun,
        trip_kept(t, g),
    ensures
        ({
            &&& trip_moved(t, Event::Done).1
                == (if g.native { Step::PrepareHome } else { Step::Tell(Notice::MovingRuntime) })
        }),
{
    reveal(trip_moved);
}

proof fn lemma_vms_are_used_where_they_were_verified_6(t: Moving, g: Trip, here: bool, o: Sight)
    requires
        t.at == Leg::Prepared,
        trip_kept(t, g),
    ensures
        ({
            &&& trip_moved(t, Event::Done).1 == (Step::InspectDestination)
        }),
{
    reveal(trip_moved);
}

proof fn lemma_vms_are_used_where_they_were_verified_7(t: Moving, g: Trip, here: bool, o: Sight)
    requires
        t.at == Leg::DestinationSeen,
        trip_kept(t, g),
    ensures
        ({
            &&& trip_moved(t, Event::Worker(o)).1 == (if o.installed
                && !o.stopped { Step::Finish(Outcome::Refused(Refusal::DestinationNeedsStop)) } else { Step::Tell(Notice::MovingRuntime) })
        }),
{
    reveal(trip_moved);
}

proof fn lemma_vms_are_used_where_they_were_verified_8(t: Moving, g: Trip, here: bool, o: Sight)
    requires
        t.at == Leg::Told,
        trip_kept(t, g),
    ensures
        ({
            &&& trip_moved(t, Event::Done).1 == (Step::CopyRuntime)
        }),
{
    reveal(trip_moved);
}

proof fn lemma_vms_are_used_where_they_were_verified_9(t: Moving, g: Trip, here: bool, o: Sight)
    requires
        t.at == Leg::Copied,
        trip_kept(t, g),
    ensures
        ({
            &&& trip_moved(t, Event::Done).1 == (Step::VerifyPlacement)
        }),
{
    reveal(trip_moved);
}

proof fn lemma_vms_are_used_where_they_were_verified_10(t: Moving, g: Trip, here: bool, o: Sight)
    requires
        t.at == Leg::Verified,
        trip_kept(t, g),
    ensures
        ({
            &&& trip_moved(t, Event::Done).1 == (Step::CheckAuthority)
        }),
{
    reveal(trip_moved);
}

proof fn lemma_vms_are_used_where_they_were_verified_11(t: Moving, g: Trip, here: bool, o: Sight)
    requires
        t.at == Leg::Authorized,
        trip_kept(t, g),
    ensures
        ({
            &&& trip_moved(t, Event::Done).1 == (Step::SaveStorage(StorageSave::RelocationSwitched))
        }),
{
    reveal(trip_moved);
}

proof fn lemma_vms_are_used_where_they_were_verified_12(t: Moving, g: Trip, here: bool, o: Sight)
    requires
        t.at == Leg::Switched,
        trip_kept(t, g),
    ensures
        ({
            &&& trip_moved(t, Event::Done).1 == (Step::Finish(Outcome::Answer(true)))
        }),
{
    reveal(trip_moved);
}

/// A VM is moved only where it is this computer's and stopped. It is used at its new place
/// only after the move was recorded, the copy made with the destination at rest, its
/// placement verified and the authority checked again.
pub proof fn vms_are_used_where_they_were_verified(g: Trip, es: Seq<Event>, here: bool, o: Sight)
    requires
        es.len() > 0,
    ensures
        ({
            let s = trip_asked(g, es);
            let t = trip_reached(g, es);
            &&& s == Step::Receipt
                ==> trip_asked(g, es.push(Event::Answer(here)))
                    == (if here { Step::Look } else { Step::Finish(Outcome::Refused(Refusal::RelocationNeedsStop)) })
            &&& s == Step::Look
                ==> trip_asked(g, es.push(Event::Worker(o)))
                    == (if !o.stopped { Step::Finish(Outcome::Refused(Refusal::RelocationNeedsStop)) } else { if g.at_home { Step::ValidateHome } else { Step::SourceVolume } })
            &&& s == Step::ValidateHome
                ==> trip_asked(g, es.push(Event::Done))
                    == (Step::SaveStorage(StorageSave::LayoutKept))
            &&& s == Step::SaveStorage(StorageSave::LayoutKept)
                ==> trip_asked(g, es.push(Event::Done)) == (Step::Finish(Outcome::Answer(true)))
            &&& s == Step::SourceVolume
                ==> trip_asked(g, es.push(Event::Done))
                    == (Step::SaveStorage(StorageSave::RelocationBegun))
            &&& s == Step::SaveStorage(StorageSave::RelocationBegun)
                ==> trip_asked(g, es.push(Event::Done))
                    == (if g.native { Step::PrepareHome } else { Step::Tell(Notice::MovingRuntime) })
            &&& s == Step::PrepareHome
                ==> trip_asked(g, es.push(Event::Done)) == (Step::InspectDestination)
            &&& s == Step::InspectDestination
                ==> trip_asked(g, es.push(Event::Worker(o))) == (if o.installed
                    && !o.stopped { Step::Finish(Outcome::Refused(Refusal::DestinationNeedsStop)) } else { Step::Tell(Notice::MovingRuntime) })
            &&& s == Step::Tell(Notice::MovingRuntime)
                ==> trip_asked(g, es.push(Event::Done)) == (Step::CopyRuntime)
            &&& s == Step::CopyRuntime
                ==> trip_asked(g, es.push(Event::Done)) == (Step::VerifyPlacement)
            &&& s == Step::VerifyPlacement
                ==> trip_asked(g, es.push(Event::Done)) == (Step::CheckAuthority)
            &&& s == Step::CheckAuthority
                ==> trip_asked(g, es.push(Event::Done))
                    == (Step::SaveStorage(StorageSave::RelocationSwitched))
            &&& s == Step::SaveStorage(StorageSave::RelocationSwitched)
                ==> trip_asked(g, es.push(Event::Done)) == (Step::Finish(Outcome::Answer(true)))
        }),
{
    trip_lemma_run(g, es);
    let s = trip_asked(g, es);
    let t = trip_reached(g, es);
    if s == Step::Receipt {
        lemma_vms_are_used_where_they_were_verified_0(t, g, here, o);
        trip_lemma_push(g, es, Event::Answer(here));
    }
    if s == Step::Look {
        lemma_vms_are_used_where_they_were_verified_1(t, g, here, o);
        trip_lemma_push(g, es, Event::Worker(o));
    }
    if s == Step::ValidateHome {
        lemma_vms_are_used_where_they_were_verified_2(t, g, here, o);
        trip_lemma_push(g, es, Event::Done);
    }
    if s == Step::SaveStorage(StorageSave::LayoutKept) {
        lemma_vms_are_used_where_they_were_verified_3(t, g, here, o);
        trip_lemma_push(g, es, Event::Done);
    }
    if s == Step::SourceVolume {
        lemma_vms_are_used_where_they_were_verified_4(t, g, here, o);
        trip_lemma_push(g, es, Event::Done);
    }
    if s == Step::SaveStorage(StorageSave::RelocationBegun) {
        lemma_vms_are_used_where_they_were_verified_5(t, g, here, o);
        trip_lemma_push(g, es, Event::Done);
    }
    if s == Step::PrepareHome {
        lemma_vms_are_used_where_they_were_verified_6(t, g, here, o);
        trip_lemma_push(g, es, Event::Done);
    }
    if s == Step::InspectDestination {
        lemma_vms_are_used_where_they_were_verified_7(t, g, here, o);
        trip_lemma_push(g, es, Event::Worker(o));
    }
    if s == Step::Tell(Notice::MovingRuntime) {
        lemma_vms_are_used_where_they_were_verified_8(t, g, here, o);
        trip_lemma_push(g, es, Event::Done);
    }
    if s == Step::CopyRuntime {
        lemma_vms_are_used_where_they_were_verified_9(t, g, here, o);
        trip_lemma_push(g, es, Event::Done);
    }
    if s == Step::VerifyPlacement {
        lemma_vms_are_used_where_they_were_verified_10(t, g, here, o);
        trip_lemma_push(g, es, Event::Done);
    }
    if s == Step::CheckAuthority {
        lemma_vms_are_used_where_they_were_verified_11(t, g, here, o);
        trip_lemma_push(g, es, Event::Done);
    }
    if s == Step::SaveStorage(StorageSave::RelocationSwitched) {
        lemma_vms_are_used_where_they_were_verified_12(t, g, here, o);
        trip_lemma_push(g, es, Event::Done);
    }
}

#[verifier::rlimit(40)]
#[verifier::spinoff_prover]
proof fn lemma_failed_moves_end(t: Moving, g: Trip, s: Step)
    requires
        trip_entered(t, g, s),
        s == Step::Receipt || s == Step::Look || s == Step::ValidateHome || s
            == Step::SourceVolume || s == Step::SaveStorage(StorageSave::RelocationBegun) || s
                == Step::PrepareHome || s == Step::InspectDestination || s
                    == Step::CopyRuntime || s == Step::VerifyPlacement || s
                        == Step::CheckAuthority || s
                            == Step::SaveStorage(StorageSave::RelocationSwitched),
    ensures
        trip_moved(t, Event::Failed).1 == Step::Finish(Outcome::Failed),
{
    reveal(trip_moved);
}

/// A move ends at a step that fails, and the VM stays where it was.
pub proof fn failed_moves_end(g: Trip, es: Seq<Event>)
    requires
        es.len() > 0,
        trip_asked(g, es) == Step::Receipt || trip_asked(g, es) == Step::Look || trip_asked(g, es)
            == Step::ValidateHome || trip_asked(g, es) == Step::SourceVolume || trip_asked(g, es)
                == Step::SaveStorage(StorageSave::RelocationBegun) || trip_asked(g, es)
                    == Step::PrepareHome || trip_asked(g, es)
                        == Step::InspectDestination || trip_asked(g, es)
                            == Step::CopyRuntime || trip_asked(g, es)
                                == Step::VerifyPlacement || trip_asked(g, es)
                                    == Step::CheckAuthority || trip_asked(g, es)
                                        == Step::SaveStorage(StorageSave::RelocationSwitched),
    ensures
        trip_asked(g, es.push(Event::Failed)) == Step::Finish(Outcome::Failed),
{
    trip_lemma_run(g, es);
    lemma_failed_moves_end(trip_reached(g, es), g, trip_asked(g, es));
    trip_lemma_push(g, es, Event::Failed);
}

/// A move of the machine.
#[verifier::opaque]
spec fn sweep_moved(t: Sweeping, e: Event) -> (Sweeping, Step) {
    clean_after(t, e)
}

/// What is reached after these answers.
#[verifier::opaque]
pub open spec fn sweep_reached(g: Trail, es: Seq<Event>) -> Sweeping
    decreases es.len(),
{
    if es.len() == 0 {
        fresh_sweep(g)
    } else {
        clean_after(sweep_reached(g, es.drop_last()), es.last()).0
    }
}

/// What is asked for after these answers.
#[verifier::opaque]
pub open spec fn sweep_asked(g: Trail, es: Seq<Event>) -> Step
    recommends
        es.len() > 0,
{
    clean_after(sweep_reached(g, es.drop_last()), es.last()).1
}

proof fn sweep_lemma_push(g: Trail, es: Seq<Event>, e: Event)
    ensures
        sweep_reached(g, es.push(e)) == sweep_moved(sweep_reached(g, es), e).0,
        sweep_asked(g, es.push(e)) == sweep_moved(sweep_reached(g, es), e).1,
{
    reveal(sweep_reached);
    reveal(sweep_asked);
    reveal(sweep_moved);
    assert(es.push(e).drop_last() =~= es);
}

proof fn sweep_lemma_fresh(g: Trail)
    ensures
        sweep_reached(g, Seq::empty()) == fresh_sweep(g),
{
    reveal(sweep_reached);
}

/// What is kept through a run, and the step that was asked for where it stands.
spec fn sweep_entered(t: Sweeping, g: Trail, s: Step) -> bool {
    t.trail == g && match t.at {
        Sweep::Start => false,
        Sweep::Receipt => s == Step::Receipt,
        Sweep::Seen => s == Step::Look,
        Sweep::Verified => s == Step::VerifyPlacement,
        Sweep::SourceSeen => s == Step::SourceExists,
        Sweep::VolumeSeen => s == Step::SourceVolumeMatches,
        Sweep::ReceiptVerified => s == Step::VerifySourceReceipt,
        Sweep::WorkerSeen => s == Step::SourceWorkerExists,
        Sweep::SourceVerified => s == Step::VerifySource,
        Sweep::OriginalSeen => s == Step::InspectSource,
        Sweep::Authorized => s == Step::CheckAuthority,
        Sweep::Deleted => s == Step::DeleteSource,
        Sweep::HomeRemoved => s == Step::RemoveSourceHome,
        Sweep::Saved => s == Step::SaveStorage(StorageSave::RelocationFinished),
        Sweep::Over => s is Finish,
    }
}

/// What is kept through a run.
spec fn sweep_kept(t: Sweeping, g: Trail) -> bool {
    t.trail == g
}

#[verifier::rlimit(40)]
#[verifier::spinoff_prover]
proof fn sweep_lemma_enters(t: Sweeping, g: Trail, s: Step, e: Event)
    requires
        sweep_kept(t, g),
        t.at == Sweep::Start || sweep_entered(t, g, s),
    ensures
        sweep_entered(sweep_moved(t, e).0, g, sweep_moved(t, e).1),
{
    reveal(sweep_moved);
}

proof fn sweep_lemma_run(g: Trail, es: Seq<Event>)
    requires
        es.len() > 0,
    ensures
        sweep_entered(sweep_reached(g, es), g, sweep_asked(g, es)),
    decreases es.len(),
{
    let less = es.drop_last();
    assert(es =~= less.push(es.last()));
    sweep_lemma_push(g, less, es.last());
    if less.len() == 0 {
        sweep_lemma_fresh(g);
        assert(less =~= Seq::empty());
    } else {
        sweep_lemma_run(g, less);
    }
    sweep_lemma_enters(sweep_reached(g, less), g, sweep_asked(g, less), es.last());
}

/// An original goes only where a move was recorded and its copy is in use.
pub proof fn only_used_copies_replace_originals(g: Trail)
    ensures
        (!g.recorded || !g.native)
            ==> sweep_asked(g, seq![Event::Begin]) == (Step::Finish(Outcome::Done)),
        g.recorded && g.native && !g.switched
            ==> sweep_asked(g, seq![Event::Begin])
                == (Step::Finish(Outcome::Refused(Refusal::RelocationUnfinished))),
        g.recorded && g.native && g.switched
            ==> sweep_asked(g, seq![Event::Begin]) == (Step::Receipt),
{
    let none = Seq::<Event>::empty();
    assert(none.push(Event::Begin) =~= seq![Event::Begin]);
    sweep_lemma_fresh(g);
    sweep_lemma_push(g, none, Event::Begin);
    reveal(sweep_moved);
}

proof fn lemma_originals_go_after_their_copy_was_verified_0(t: Sweeping, g: Trail, here: bool,
    o: Sight)
    requires
        t.at == Sweep::Receipt,
        sweep_kept(t, g),
    ensures
        ({
            &&& sweep_moved(t, Event::Answer(here)).1
                == (if here { Step::Look } else { Step::Finish(Outcome::Refused(Refusal::RelocationUnfinished)) })
        }),
{
    reveal(sweep_moved);
}

proof fn lemma_originals_go_after_their_copy_was_verified_1(t: Sweeping, g: Trail, here: bool,
    o: Sight)
    requires
        t.at == Sweep::Seen,
        sweep_kept(t, g),
    ensures
        ({
            &&& sweep_moved(t, Event::Worker(o)).1
                == (if o.stopped { Step::VerifyPlacement } else { Step::Finish(Outcome::Refused(Refusal::RelocationUnfinished)) })
        }),
{
    reveal(sweep_moved);
}

proof fn lemma_originals_go_after_their_copy_was_verified_2(t: Sweeping, g: Trail, here: bool,
    o: Sight)
    requires
        t.at == Sweep::Verified,
        sweep_kept(t, g),
    ensures
        ({
            &&& sweep_moved(t, Event::Done).1 == (Step::SourceExists)
        }),
{
    reveal(sweep_moved);
}

proof fn lemma_originals_go_after_their_copy_was_verified_3(t: Sweeping, g: Trail, here: bool,
    o: Sight)
    requires
        t.at == Sweep::SourceSeen,
        sweep_kept(t, g),
    ensures
        ({
            &&& sweep_moved(t, Event::Answer(here)).1 == (Step::SourceVolumeMatches)
            &&& sweep_moved(sweep_moved(t, Event::Answer(here)).0, Event::Answer(false)).1
                == (Step::Finish(Outcome::Refused(Refusal::OriginalVolumeMissing)))
            &&& sweep_moved(sweep_moved(t, Event::Answer(here)).0, Event::Answer(true)).1
                == (if here { Step::VerifySourceReceipt } else { Step::SaveStorage(StorageSave::RelocationFinished) })
        }),
{
    reveal(sweep_moved);
}

proof fn lemma_originals_go_after_their_copy_was_verified_4(t: Sweeping, g: Trail, here: bool,
    o: Sight)
    requires
        t.at == Sweep::ReceiptVerified,
        sweep_kept(t, g),
    ensures
        ({
            &&& sweep_moved(t, Event::Done).1 == (Step::SourceWorkerExists)
        }),
{
    reveal(sweep_moved);
}

proof fn lemma_originals_go_after_their_copy_was_verified_5(t: Sweeping, g: Trail, here: bool,
    o: Sight)
    requires
        t.at == Sweep::WorkerSeen,
        sweep_kept(t, g),
    ensures
        ({
            &&& sweep_moved(t, Event::Answer(here)).1
                == (if here { Step::VerifySource } else { Step::RemoveSourceHome })
        }),
{
    reveal(sweep_moved);
}

proof fn lemma_originals_go_after_their_copy_was_verified_6(t: Sweeping, g: Trail, here: bool,
    o: Sight)
    requires
        t.at == Sweep::SourceVerified,
        sweep_kept(t, g),
    ensures
        ({
            &&& sweep_moved(t, Event::Done).1 == (Step::InspectSource)
        }),
{
    reveal(sweep_moved);
}

proof fn lemma_originals_go_after_their_copy_was_verified_7(t: Sweeping, g: Trail, here: bool,
    o: Sight)
    requires
        t.at == Sweep::OriginalSeen,
        sweep_kept(t, g),
    ensures
        ({
            &&& sweep_moved(t, Event::Worker(o)).1
                == (if o.stopped { Step::CheckAuthority } else { Step::Finish(Outcome::Refused(Refusal::OriginalNeedsStop)) })
        }),
{
    reveal(sweep_moved);
}

proof fn lemma_originals_go_after_their_copy_was_verified_8(t: Sweeping, g: Trail, here: bool,
    o: Sight)
    requires
        t.at == Sweep::Authorized,
        sweep_kept(t, g),
    ensures
        ({
            &&& sweep_moved(t, Event::Done).1 == (Step::DeleteSource)
        }),
{
    reveal(sweep_moved);
}

proof fn lemma_originals_go_after_their_copy_was_verified_9(t: Sweeping, g: Trail, here: bool,
    o: Sight)
    requires
        t.at == Sweep::Deleted,
        sweep_kept(t, g),
    ensures
        ({
            &&& sweep_moved(t, Event::Done).1 == (Step::RemoveSourceHome)
        }),
{
    reveal(sweep_moved);
}

proof fn lemma_originals_go_after_their_copy_was_verified_10(t: Sweeping, g: Trail, here: bool,
    o: Sight)
    requires
        t.at == Sweep::HomeRemoved,
        sweep_kept(t, g),
    ensures
        ({
            &&& sweep_moved(t, Event::Done).1
                == (Step::SaveStorage(StorageSave::RelocationFinished))
        }),
{
    reveal(sweep_moved);
}

proof fn lemma_originals_go_after_their_copy_was_verified_11(t: Sweeping, g: Trail, here: bool,
    o: Sight)
    requires
        t.at == Sweep::Saved,
        sweep_kept(t, g),
    ensures
        ({
            &&& sweep_moved(t, Event::Done).1 == (Step::Finish(Outcome::Done))
        }),
{
    reveal(sweep_moved);
}

/// The original of a moved VM is deleted only where the copy is this computer's, stopped
/// and verified; where the original stands on its own volume, is this computer's, is as it
/// was recorded and does not run; and while the authority holds.
pub proof fn originals_go_after_their_copy_was_verified(g: Trail, es: Seq<Event>, here: bool,
    o: Sight)
    requires
        es.len() > 0,
    ensures
        ({
            let s = sweep_asked(g, es);
            let t = sweep_reached(g, es);
            &&& s == Step::Receipt
                ==> sweep_asked(g, es.push(Event::Answer(here)))
                    == (if here { Step::Look } else { Step::Finish(Outcome::Refused(Refusal::RelocationUnfinished)) })
            &&& s == Step::Look
                ==> sweep_asked(g, es.push(Event::Worker(o)))
                    == (if o.stopped { Step::VerifyPlacement } else { Step::Finish(Outcome::Refused(Refusal::RelocationUnfinished)) })
            &&& s == Step::VerifyPlacement
                ==> sweep_asked(g, es.push(Event::Done)) == (Step::SourceExists)
            &&& s == Step::SourceExists
                ==> sweep_asked(g, es.push(Event::Answer(here))) == (Step::SourceVolumeMatches)
            &&& s == Step::SourceExists
                ==> sweep_asked(g, es.push(Event::Answer(here)).push(Event::Answer(false)))
                    == (Step::Finish(Outcome::Refused(Refusal::OriginalVolumeMissing)))
            &&& s == Step::SourceExists
                ==> sweep_asked(g, es.push(Event::Answer(here)).push(Event::Answer(true)))
                    == (if here { Step::VerifySourceReceipt } else { Step::SaveStorage(StorageSave::RelocationFinished) })
            &&& s == Step::VerifySourceReceipt
                ==> sweep_asked(g, es.push(Event::Done)) == (Step::SourceWorkerExists)
            &&& s == Step::SourceWorkerExists
                ==> sweep_asked(g, es.push(Event::Answer(here)))
                    == (if here { Step::VerifySource } else { Step::RemoveSourceHome })
            &&& s == Step::VerifySource
                ==> sweep_asked(g, es.push(Event::Done)) == (Step::InspectSource)
            &&& s == Step::InspectSource
                ==> sweep_asked(g, es.push(Event::Worker(o)))
                    == (if o.stopped { Step::CheckAuthority } else { Step::Finish(Outcome::Refused(Refusal::OriginalNeedsStop)) })
            &&& s == Step::CheckAuthority
                ==> sweep_asked(g, es.push(Event::Done)) == (Step::DeleteSource)
            &&& s == Step::DeleteSource
                ==> sweep_asked(g, es.push(Event::Done)) == (Step::RemoveSourceHome)
            &&& s == Step::RemoveSourceHome
                ==> sweep_asked(g, es.push(Event::Done))
                    == (Step::SaveStorage(StorageSave::RelocationFinished))
            &&& s == Step::SaveStorage(StorageSave::RelocationFinished)
                ==> sweep_asked(g, es.push(Event::Done)) == (Step::Finish(Outcome::Done))
        }),
{
    sweep_lemma_run(g, es);
    let s = sweep_asked(g, es);
    let t = sweep_reached(g, es);
    if s == Step::Receipt {
        lemma_originals_go_after_their_copy_was_verified_0(t, g, here, o);
        sweep_lemma_push(g, es, Event::Answer(here));
    }
    if s == Step::Look {
        lemma_originals_go_after_their_copy_was_verified_1(t, g, here, o);
        sweep_lemma_push(g, es, Event::Worker(o));
    }
    if s == Step::VerifyPlacement {
        lemma_originals_go_after_their_copy_was_verified_2(t, g, here, o);
        sweep_lemma_push(g, es, Event::Done);
    }
    if s == Step::SourceExists {
        lemma_originals_go_after_their_copy_was_verified_3(t, g, here, o);
        sweep_lemma_push(g, es, Event::Answer(here));
        sweep_lemma_push(g, es.push(Event::Answer(here)), Event::Answer(false));
        sweep_lemma_push(g, es.push(Event::Answer(here)), Event::Answer(true));
    }
    if s == Step::VerifySourceReceipt {
        lemma_originals_go_after_their_copy_was_verified_4(t, g, here, o);
        sweep_lemma_push(g, es, Event::Done);
    }
    if s == Step::SourceWorkerExists {
        lemma_originals_go_after_their_copy_was_verified_5(t, g, here, o);
        sweep_lemma_push(g, es, Event::Answer(here));
    }
    if s == Step::VerifySource {
        lemma_originals_go_after_their_copy_was_verified_6(t, g, here, o);
        sweep_lemma_push(g, es, Event::Done);
    }
    if s == Step::InspectSource {
        lemma_originals_go_after_their_copy_was_verified_7(t, g, here, o);
        sweep_lemma_push(g, es, Event::Worker(o));
    }
    if s == Step::CheckAuthority {
        lemma_originals_go_after_their_copy_was_verified_8(t, g, here, o);
        sweep_lemma_push(g, es, Event::Done);
    }
    if s == Step::DeleteSource {
        lemma_originals_go_after_their_copy_was_verified_9(t, g, here, o);
        sweep_lemma_push(g, es, Event::Done);
    }
    if s == Step::RemoveSourceHome {
        lemma_originals_go_after_their_copy_was_verified_10(t, g, here, o);
        sweep_lemma_push(g, es, Event::Done);
    }
    if s == Step::SaveStorage(StorageSave::RelocationFinished) {
        lemma_originals_go_after_their_copy_was_verified_11(t, g, here, o);
        sweep_lemma_push(g, es, Event::Done);
    }
}

#[verifier::rlimit(40)]
#[verifier::spinoff_prover]
proof fn lemma_failed_sweeps_end(t: Sweeping, g: Trail, s: Step)
    requires
        sweep_entered(t, g, s),
        s == Step::Receipt || s == Step::Look || s == Step::VerifyPlacement || s
            == Step::SourceExists || s == Step::SourceVolumeMatches || s
                == Step::VerifySourceReceipt || s == Step::SourceWorkerExists || s
                    == Step::VerifySource || s == Step::InspectSource || s
                        == Step::CheckAuthority || s == Step::DeleteSource || s
                            == Step::RemoveSourceHome || s
                                == Step::SaveStorage(StorageSave::RelocationFinished),
    ensures
        sweep_moved(t, Event::Failed).1 == Step::Finish(Outcome::Failed),
{
    reveal(sweep_moved);
}

/// A cleanup ends at a step that fails, with the original as it is.
pub proof fn failed_sweeps_end(g: Trail, es: Seq<Event>)
    requires
        es.len() > 0,
        sweep_asked(g, es) == Step::Receipt || sweep_asked(g, es)
            == Step::Look || sweep_asked(g, es) == Step::VerifyPlacement || sweep_asked(g, es)
                == Step::SourceExists || sweep_asked(g, es)
                    == Step::SourceVolumeMatches || sweep_asked(g, es)
                        == Step::VerifySourceReceipt || sweep_asked(g, es)
                            == Step::SourceWorkerExists || sweep_asked(g, es)
                                == Step::VerifySource || sweep_asked(g, es)
                                    == Step::InspectSource || sweep_asked(g, es)
                                        == Step::CheckAuthority || sweep_asked(g, es)
                                            == Step::DeleteSource || sweep_asked(g, es)
                                                == Step::RemoveSourceHome || sweep_asked(g, es)
                                                    == Step::SaveStorage(StorageSave::RelocationFinished),
    ensures
        sweep_asked(g, es.push(Event::Failed)) == Step::Finish(Outcome::Failed),
{
    sweep_lemma_run(g, es);
    lemma_failed_sweeps_end(sweep_reached(g, es), g, sweep_asked(g, es));
    sweep_lemma_push(g, es, Event::Failed);
}

/// A move of the machine.
#[verifier::opaque]
spec fn exit_moved(t: Retiring, e: Event) -> (Retiring, Step) {
    retire_after(t, e)
}

/// What is reached after these answers.
#[verifier::opaque]
pub open spec fn exit_reached(g: bool, es: Seq<Event>) -> Retiring
    decreases es.len(),
{
    if es.len() == 0 {
        fresh_exit(g)
    } else {
        retire_after(exit_reached(g, es.drop_last()), es.last()).0
    }
}

/// What is asked for after these answers.
#[verifier::opaque]
pub open spec fn exit_asked(g: bool, es: Seq<Event>) -> Step
    recommends
        es.len() > 0,
{
    retire_after(exit_reached(g, es.drop_last()), es.last()).1
}

proof fn exit_lemma_push(g: bool, es: Seq<Event>, e: Event)
    ensures
        exit_reached(g, es.push(e)) == exit_moved(exit_reached(g, es), e).0,
        exit_asked(g, es.push(e)) == exit_moved(exit_reached(g, es), e).1,
{
    reveal(exit_reached);
    reveal(exit_asked);
    reveal(exit_moved);
    assert(es.push(e).drop_last() =~= es);
}

proof fn exit_lemma_fresh(g: bool)
    ensures
        exit_reached(g, Seq::empty()) == fresh_exit(g),
{
    reveal(exit_reached);
}

/// What is kept through a run, and the step that was asked for where it stands.
spec fn exit_entered(t: Retiring, g: bool, s: Step) -> bool {
    t.active == g && match t.at {
        Exit::Start => false,
        Exit::HomeSeen => s == Step::SourceExists,
        Exit::HomeValid => s == Step::ValidateHome,
        Exit::Seen => s == Step::InspectSource,
        Exit::StopAuthorized => s == Step::CheckAuthority,
        Exit::Stopped => s == Step::StopSource,
        Exit::DeleteAuthorized => s == Step::CheckAuthority,
        Exit::Deleted => s == Step::DeleteSource,
        Exit::HomeRemoved => s == Step::RemoveSourceHome,
        Exit::VolumeSeen => s == Step::SourceVolumeMatches,
        Exit::Saved => s == Step::SaveStorage(StorageSave::RuntimeForgotten),
        Exit::Over => s is Finish,
    }
}

/// What is kept through a run.
spec fn exit_kept(t: Retiring, g: bool) -> bool {
    t.active == g
}

#[verifier::rlimit(40)]
#[verifier::spinoff_prover]
proof fn exit_lemma_enters(t: Retiring, g: bool, s: Step, e: Event)
    requires
        exit_kept(t, g),
        t.at == Exit::Start || exit_entered(t, g, s),
    ensures
        exit_entered(exit_moved(t, e).0, g, exit_moved(t, e).1),
{
    reveal(exit_moved);
}

proof fn exit_lemma_run(g: bool, es: Seq<Event>)
    requires
        es.len() > 0,
    ensures
        exit_entered(exit_reached(g, es), g, exit_asked(g, es)),
    decreases es.len(),
{
    let less = es.drop_last();
    assert(es =~= less.push(es.last()));
    exit_lemma_push(g, less, es.last());
    if less.len() == 0 {
        exit_lemma_fresh(g);
        assert(less =~= Seq::empty());
    } else {
        exit_lemma_run(g, less);
    }
    exit_lemma_enters(exit_reached(g, less), g, exit_asked(g, less), es.last());
}

/// The runtime directory of the VM in use is never retired.
pub proof fn active_runtimes_are_not_retired(g: bool)
    ensures
        exit_asked(g, seq![Event::Begin])
            == (if g { Step::Finish(Outcome::Refused(Refusal::RetiredIsActive)) } else { Step::SourceExists }),
{
    let none = Seq::<Event>::empty();
    assert(none.push(Event::Begin) =~= seq![Event::Begin]);
    exit_lemma_fresh(g);
    exit_lemma_push(g, none, Event::Begin);
    reveal(exit_moved);
}

proof fn lemma_retired_runtimes_go_in_order_0(t: Retiring, g: bool, here: bool, o: Sight)
    requires
        t.at == Exit::HomeSeen,
        exit_kept(t, g),
    ensures
        ({
            &&& exit_moved(t, Event::Answer(here)).1
                == (if here { Step::ValidateHome } else { Step::SourceVolumeMatches })
        }),
{
    reveal(exit_moved);
}

proof fn lemma_retired_runtimes_go_in_order_1(t: Retiring, g: bool, here: bool, o: Sight)
    requires
        t.at == Exit::HomeValid,
        exit_kept(t, g),
    ensures
        ({
            &&& exit_moved(t, Event::Done).1 == (Step::InspectSource)
        }),
{
    reveal(exit_moved);
}

proof fn lemma_retired_runtimes_go_in_order_2(t: Retiring, g: bool, here: bool, o: Sight)
    requires
        t.at == Exit::Seen,
        exit_kept(t, g),
    ensures
        ({
            &&& exit_moved(t, Event::Worker(o)).1
                == (if !o.installed { Step::RemoveSourceHome } else { Step::CheckAuthority })
            &&& o.installed
                ==> exit_moved(exit_moved(t, Event::Worker(o)).0, Event::Done).1
                    == (if o.stopped { Step::DeleteSource } else { Step::StopSource })
        }),
{
    reveal(exit_moved);
}

proof fn lemma_retired_runtimes_go_in_order_3(t: Retiring, g: bool, here: bool, o: Sight)
    requires
        t.at == Exit::Stopped,
        exit_kept(t, g),
    ensures
        ({
            &&& exit_moved(t, Event::Done).1 == (Step::CheckAuthority)
            &&& exit_moved(exit_moved(t, Event::Done).0, Event::Done).1 == (Step::DeleteSource)
        }),
{
    reveal(exit_moved);
}

proof fn lemma_retired_runtimes_go_in_order_4(t: Retiring, g: bool, here: bool, o: Sight)
    requires
        t.at == Exit::Deleted,
        exit_kept(t, g),
    ensures
        ({
            &&& exit_moved(t, Event::Done).1 == (Step::RemoveSourceHome)
        }),
{
    reveal(exit_moved);
}

proof fn lemma_retired_runtimes_go_in_order_5(t: Retiring, g: bool, here: bool, o: Sight)
    requires
        t.at == Exit::HomeRemoved,
        exit_kept(t, g),
    ensures
        ({
            &&& exit_moved(t, Event::Done).1 == (Step::SaveStorage(StorageSave::RuntimeForgotten))
        }),
{
    reveal(exit_moved);
}

proof fn lemma_retired_runtimes_go_in_order_6(t: Retiring, g: bool, here: bool, o: Sight)
    requires
        t.at == Exit::VolumeSeen,
        exit_kept(t, g),
    ensures
        ({
            &&& exit_moved(t, Event::Answer(here)).1
                == (if here { Step::SaveStorage(StorageSave::RuntimeForgotten) } else { Step::Finish(Outcome::Refused(Refusal::RetiredVolumeMissing)) })
        }),
{
    reveal(exit_moved);
}

proof fn lemma_retired_runtimes_go_in_order_7(t: Retiring, g: bool, here: bool, o: Sight)
    requires
        t.at == Exit::Saved,
        exit_kept(t, g),
    ensures
        ({
            &&& exit_moved(t, Event::Done).1 == (Step::Finish(Outcome::Done))
        }),
{
    reveal(exit_moved);
}

/// A retired runtime directory goes only where it is this computer's and its VM is stopped,
/// each under authority; one that is not there is forgotten only while its volume is.
pub proof fn retired_runtimes_go_in_order(g: bool, es: Seq<Event>, here: bool, o: Sight)
    requires
        es.len() > 0,
    ensures
        ({
            let s = exit_asked(g, es);
            let t = exit_reached(g, es);
            &&& s == Step::SourceExists
                ==> exit_asked(g, es.push(Event::Answer(here)))
                    == (if here { Step::ValidateHome } else { Step::SourceVolumeMatches })
            &&& s == Step::ValidateHome
                ==> exit_asked(g, es.push(Event::Done)) == (Step::InspectSource)
            &&& s == Step::InspectSource
                ==> exit_asked(g, es.push(Event::Worker(o)))
                    == (if !o.installed { Step::RemoveSourceHome } else { Step::CheckAuthority })
            &&& s == Step::InspectSource && o.installed
                ==> exit_asked(g, es.push(Event::Worker(o)).push(Event::Done))
                    == (if o.stopped { Step::DeleteSource } else { Step::StopSource })
            &&& s == Step::StopSource
                ==> exit_asked(g, es.push(Event::Done)) == (Step::CheckAuthority)
            &&& s == Step::StopSource
                ==> exit_asked(g, es.push(Event::Done).push(Event::Done)) == (Step::DeleteSource)
            &&& s == Step::DeleteSource
                ==> exit_asked(g, es.push(Event::Done)) == (Step::RemoveSourceHome)
            &&& s == Step::RemoveSourceHome
                ==> exit_asked(g, es.push(Event::Done))
                    == (Step::SaveStorage(StorageSave::RuntimeForgotten))
            &&& s == Step::SourceVolumeMatches
                ==> exit_asked(g, es.push(Event::Answer(here)))
                    == (if here { Step::SaveStorage(StorageSave::RuntimeForgotten) } else { Step::Finish(Outcome::Refused(Refusal::RetiredVolumeMissing)) })
            &&& s == Step::SaveStorage(StorageSave::RuntimeForgotten)
                ==> exit_asked(g, es.push(Event::Done)) == (Step::Finish(Outcome::Done))
        }),
{
    exit_lemma_run(g, es);
    let s = exit_asked(g, es);
    let t = exit_reached(g, es);
    if s == Step::SourceExists {
        lemma_retired_runtimes_go_in_order_0(t, g, here, o);
        exit_lemma_push(g, es, Event::Answer(here));
    }
    if s == Step::ValidateHome {
        lemma_retired_runtimes_go_in_order_1(t, g, here, o);
        exit_lemma_push(g, es, Event::Done);
    }
    if s == Step::InspectSource {
        lemma_retired_runtimes_go_in_order_2(t, g, here, o);
        exit_lemma_push(g, es, Event::Worker(o));
        exit_lemma_push(g, es.push(Event::Worker(o)), Event::Done);
    }
    if s == Step::StopSource {
        lemma_retired_runtimes_go_in_order_3(t, g, here, o);
        exit_lemma_push(g, es, Event::Done);
        exit_lemma_push(g, es.push(Event::Done), Event::Done);
    }
    if s == Step::DeleteSource {
        lemma_retired_runtimes_go_in_order_4(t, g, here, o);
        exit_lemma_push(g, es, Event::Done);
    }
    if s == Step::RemoveSourceHome {
        lemma_retired_runtimes_go_in_order_5(t, g, here, o);
        exit_lemma_push(g, es, Event::Done);
    }
    if s == Step::SourceVolumeMatches {
        lemma_retired_runtimes_go_in_order_6(t, g, here, o);
        exit_lemma_push(g, es, Event::Answer(here));
    }
    if s == Step::SaveStorage(StorageSave::RuntimeForgotten) {
        lemma_retired_runtimes_go_in_order_7(t, g, here, o);
        exit_lemma_push(g, es, Event::Done);
    }
}

#[verifier::rlimit(40)]
#[verifier::spinoff_prover]
proof fn lemma_failed_retirements_end(t: Retiring, g: bool, s: Step)
    requires
        exit_entered(t, g, s),
        s == Step::SourceExists || s == Step::ValidateHome || s == Step::InspectSource || s
            == Step::CheckAuthority || s == Step::StopSource || s == Step::DeleteSource || s
                == Step::RemoveSourceHome || s == Step::SourceVolumeMatches || s
                    == Step::SaveStorage(StorageSave::RuntimeForgotten),
    ensures
        exit_moved(t, Event::Failed).1 == Step::Finish(Outcome::Failed),
{
    reveal(exit_moved);
}

/// A retirement ends at a step that fails.
pub proof fn failed_retirements_end(g: bool, es: Seq<Event>)
    requires
        es.len() > 0,
        exit_asked(g, es) == Step::SourceExists || exit_asked(g, es)
            == Step::ValidateHome || exit_asked(g, es) == Step::InspectSource || exit_asked(g, es)
                == Step::CheckAuthority || exit_asked(g, es)
                    == Step::StopSource || exit_asked(g, es)
                        == Step::DeleteSource || exit_asked(g, es)
                            == Step::RemoveSourceHome || exit_asked(g, es)
                                == Step::SourceVolumeMatches || exit_asked(g, es)
                                    == Step::SaveStorage(StorageSave::RuntimeForgotten),
    ensures
        exit_asked(g, es.push(Event::Failed)) == Step::Finish(Outcome::Failed),
{
    exit_lemma_run(g, es);
    lemma_failed_retirements_end(exit_reached(g, es), g, exit_asked(g, es));
    exit_lemma_push(g, es, Event::Failed);
}

} // verus!
