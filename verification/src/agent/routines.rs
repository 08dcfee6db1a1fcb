//! Stopping and replacing the worker, as machines.
use crate::agent::steps::{
    no_sight, nothing, Event, Facts, Memory, Notice, Outcome, Refusal, Route, Save, Sight, Step,
    VmTask,
};
use vstd::prelude::*;

verus! {

/// Where an immediate stop stands.
#[derive(Clone, Copy, Debug, PartialEq, Eq, Structural)]
pub enum StopAt {
    Start,
    Loaded,
    Marked,
    Requested,
    Receipt,
    Seen,
    Stopped,
    Saved,
    Noted,
    Told,
    Unmarked,
    Held,
    HeldUnmarked,
    Over,
}

/// An immediate stop under way.
#[derive(Clone, Copy, Debug, PartialEq, Eq, Structural)]
pub struct Stopping {
    pub at: StopAt,
    /// Whether the owner asked for the stop.
    pub explicit: bool,
    /// Whether the worker may still run.
    pub running: bool,
    /// Whether others are told that a stop is under way.
    pub marked: bool,
}

/// The stop is over.
pub open spec fn stop_end(s: Stopping, outcome: Outcome) -> (Stopping, Step) {
    (Stopping { at: StopAt::Over, ..s }, Step::Finish(outcome))
}

/// The stop is over.
fn stop_finish(s: Stopping, outcome: Outcome) -> (r: (Stopping, Step))
    ensures
        r == stop_end(s, outcome),
{
    (Stopping { at: StopAt::Over, ..s }, Step::Finish(outcome))
}

/// The stop failed; whatever it marked is taken back first.
pub open spec fn stop_failed(s: Stopping) -> (Stopping, Step) {
    if s.marked {
        (Stopping { at: StopAt::Held, ..s }, Step::Hold)
    } else {
        stop_end(s, Outcome::Failed)
    }
}

/// The stop failed; whatever it marked is taken back first.
fn stop_failing(s: Stopping) -> (r: (Stopping, Step))
    ensures
        r == stop_failed(s),
{
    if s.marked {
        (Stopping { at: StopAt::Held, ..s }, Step::Hold)
    } else {
        stop_finish(s, Outcome::Failed)
    }
}

/// The worker does not run; the request is done.
pub open spec fn stop_finished(s: Stopping) -> (Stopping, Step) {
    (
        Stopping { at: StopAt::Saved, running: false, ..s },
        Step::Save(Save::FinishStop(s.explicit)),
    )
}

/// The worker does not run; the request is done.
fn stop_finishing(s: Stopping) -> (r: (Stopping, Step))
    ensures
        r == stop_finished(s),
{
    (
        Stopping { at: StopAt::Saved, running: false, ..s },
        Step::Save(Save::FinishStop(s.explicit)),
    )
}

/// What an immediate stop makes of an answer. The request is kept until the
/// worker is down: a failed shutdown is retried even after a restart.
pub open spec fn stop_after(s: Stopping, e: Event) -> (Stopping, Step) {
    match (s.at, e) {
        (StopAt::Start, Event::Begin) => (Stopping { at: StopAt::Loaded, ..s }, Step::Load),
        (StopAt::Loaded, Event::Settings(f)) => {
            (
                Stopping { at: StopAt::Marked, explicit: f.stop_requested, marked: true, ..s },
                Step::Note(Memory::StoppingNow(true)),
            )
        },
        (StopAt::Marked, Event::Done) => {
            (Stopping { at: StopAt::Requested, ..s }, Step::Save(Save::RequestStop))
        },
        (StopAt::Requested, Event::Settings(f)) => {
            if f.vm_created {
                (Stopping { at: StopAt::Seen, ..s }, Step::Inspect)
            } else {
                (Stopping { at: StopAt::Receipt, ..s }, Step::Receipt)
            }
        },
        (StopAt::Receipt, Event::Answer(receipt)) => {
            if receipt {
                (Stopping { at: StopAt::Seen, ..s }, Step::Inspect)
            } else {
                stop_finished(s)
            }
        },
        (StopAt::Seen, Event::Worker(w)) => {
            if w.running {
                (
                    Stopping { at: StopAt::Stopped, running: true, ..s },
                    Step::Run(VmTask::StopNow),
                )
            } else {
                stop_finished(s)
            }
        },
        (StopAt::Stopped, Event::Done) => stop_finished(s),
        (StopAt::Saved, Event::Settings(_)) => {
            (Stopping { at: StopAt::Noted, ..s }, Step::Note(Memory::WorkerEmptied))
        },
        (StopAt::Noted, Event::Done) => {
            (Stopping { at: StopAt::Told, ..s }, Step::Tell(Notice::WorkerStopped))
        },
        (StopAt::Told, Event::Done) => {
            (
                Stopping { at: StopAt::Unmarked, marked: false, ..s },
                Step::Note(Memory::StoppingNow(false)),
            )
        },
        (StopAt::Unmarked, Event::Done) => stop_end(s, Outcome::Done),
        (StopAt::Held, Event::Done) => {
            (
                Stopping { at: StopAt::HeldUnmarked, marked: false, ..s },
                Step::Note(Memory::StoppingNow(false)),
            )
        },
        (StopAt::HeldUnmarked, Event::Done) => stop_end(s, Outcome::Held),
        (StopAt::Held, _) => stop_end(s, Outcome::Failed),
        _ => stop_failed(s),
    }
}

/// What an immediate stop makes of an answer. The request is kept until the
/// worker is down: a failed shutdown is retried even after a restart.
fn next_stop(s: Stopping, e: Event) -> (r: (Stopping, Step))
    ensures
        r == stop_after(s, e),
{
    match (s.at, e) {
        (StopAt::Start, Event::Begin) => (Stopping { at: StopAt::Loaded, ..s }, Step::Load),
        (StopAt::Loaded, Event::Settings(f)) => {
            (
                Stopping { at: StopAt::Marked, explicit: f.stop_requested, marked: true, ..s },
                Step::Note(Memory::StoppingNow(true)),
            )
        },
        (StopAt::Marked, Event::Done) => {
            (Stopping { at: StopAt::Requested, ..s }, Step::Save(Save::RequestStop))
        },
        (StopAt::Requested, Event::Settings(f)) => {
            if f.vm_created {
                (Stopping { at: StopAt::Seen, ..s }, Step::Inspect)
            } else {
                (Stopping { at: StopAt::Receipt, ..s }, Step::Receipt)
            }
        },
        (StopAt::Receipt, Event::Answer(receipt)) => {
            if receipt {
                (Stopping { at: StopAt::Seen, ..s }, Step::Inspect)
            } else {
                stop_finishing(s)
            }
        },
        (StopAt::Seen, Event::Worker(w)) => {
            if w.running {
                (
                    Stopping { at: StopAt::Stopped, running: true, ..s },
                    Step::Run(VmTask::StopNow),
                )
            } else {
                stop_finishing(s)
            }
        },
        (StopAt::Stopped, Event::Done) => stop_finishing(s),
        (StopAt::Saved, Event::Settings(_)) => {
            (Stopping { at: StopAt::Noted, ..s }, Step::Note(Memory::WorkerEmptied))
        },
        (StopAt::Noted, Event::Done) => {
            (Stopping { at: StopAt::Told, ..s }, Step::Tell(Notice::WorkerStopped))
        },
        (StopAt::Told, Event::Done) => {
            (
                Stopping { at: StopAt::Unmarked, marked: false, ..s },
                Step::Note(Memory::StoppingNow(false)),
            )
        },
        (StopAt::Unmarked, Event::Done) => stop_finish(s, Outcome::Done),
        (StopAt::Held, Event::Done) => {
            (
                Stopping { at: StopAt::HeldUnmarked, marked: false, ..s },
                Step::Note(Memory::StoppingNow(false)),
            )
        },
        (StopAt::HeldUnmarked, Event::Done) => stop_finish(s, Outcome::Held),
        (StopAt::Held, _) => stop_finish(s, Outcome::Failed),
        _ => stop_failing(s),
    }
}

impl Stopping {
    /// A stop that has not begun.
    pub fn new() -> (r: Self)
        ensures
            r == fresh_stop(),
    {
        Stopping { at: StopAt::Start, explicit: false, running: true, marked: false }
    }

    /// What an immediate stop makes of an answer, and what it asks for next.
    pub fn next(self, e: Event) -> (r: (Stopping, Step))
        ensures
            r == stop_after(self, e),
    {
        next_stop(self, e)
    }
}

/// A stop that has not begun.
pub open spec fn fresh_stop() -> Stopping {
    Stopping { at: StopAt::Start, explicit: false, running: true, marked: false }
}

/// What is known of the worker at each point of a stop.
pub open spec fn stop_sound(s: Stopping) -> bool {
    match s.at {
        StopAt::Saved | StopAt::Noted | StopAt::Told | StopAt::Unmarked => !s.running,
        _ => true,
    }
}

/// The request is given up only when the worker is seen not to run or its stop
/// succeeded, or when there is no worker of this computer; and only then the
/// stop ends well.
pub proof fn stop_requests_last_until_stopped(s: Stopping, e: Event)
    requires
        stop_sound(s),
    ensures
        stop_sound(stop_after(s, e).0),
        stop_after(s, e).1 is Save && stop_after(s, e).1->Save_0 is FinishStop ==> (s.at
            == StopAt::Stopped && e == Event::Done) || (s.at == StopAt::Receipt && e
            == Event::Answer(false)) || (s.at == StopAt::Seen && (e matches Event::Worker(w)
            && !w.running)),
        stop_after(s, e).1 == Step::Finish(Outcome::Done) ==> !s.running,
{
}

/// A worker that runs is never reported stopped without the hypervisor's stop.
pub proof fn running_workers_are_stopped_at_once(s: Stopping, w: Sight)
    requires
        s.at == StopAt::Seen,
        w.running,
    ensures
        stop_after(s, Event::Worker(w)).1 == Step::Run(VmTask::StopNow),
{
}

/// Where the replacement of a worker stands.
#[derive(Clone, Copy, Debug, PartialEq, Eq, Structural)]
pub enum RecreateAt {
    Start,
    Seen,
    DrainTold,
    DrainAsked,
    DrainHeld,
    Renewed,
    Counted,
    CountNoted,
    Stopped,
    StopSaved,
    StopNoted,
    DrainCleared,
    ReplacingTold,
    AccessReset,
    AccessSaved,
    Removed,
    ReplacedSaved,
    ReplacedNoted,
    ReplacedTold,
    Over,
}

/// The replacement of a worker under way.
#[derive(Clone, Copy, Debug, PartialEq, Eq, Structural)]
pub struct Recreating {
    pub at: RecreateAt,
    pub config: Facts,
    pub worker: Sight,
    pub drained: bool,
    pub empty: bool,
    /// Whether the previous worker's access is gone.
    pub access_removed: bool,
}

/// The routine is over.
pub open spec fn recreate_end(s: Recreating, outcome: Outcome) -> (Recreating, Step) {
    (Recreating { at: RecreateAt::Over, ..s }, Step::Finish(outcome))
}

/// The routine is over.
fn recreate_finish(s: Recreating, outcome: Outcome) -> (r: (Recreating, Step))
    ensures
        r == recreate_end(s, outcome),
{
    (Recreating { at: RecreateAt::Over, ..s }, Step::Finish(outcome))
}

/// The drain goes on in the next tick.
pub open spec fn drain_end(s: Recreating) -> (Recreating, Step) {
    if s.drained {
        recreate_end(s, Outcome::Done)
    } else {
        recreate_end(s, Outcome::Held)
    }
}

/// The drain goes on in the next tick.
fn drain_finish(s: Recreating) -> (r: (Recreating, Step))
    ensures
        r == drain_end(s),
{
    if s.drained {
        recreate_finish(s, Outcome::Done)
    } else {
        recreate_finish(s, Outcome::Held)
    }
}

/// A worker that can be reached keeps its lease while it is drained.
pub open spec fn renewed_after(s: Recreating) -> (Recreating, Step) {
    if s.worker.reachable {
        (Recreating { at: RecreateAt::Renewed, ..s }, Step::Run(VmTask::RenewLease))
    } else {
        drain_end(s)
    }
}

/// A worker that can be reached keeps its lease while it is drained.
fn renewed(s: Recreating) -> (r: (Recreating, Step))
    ensures
        r == renewed_after(s),
{
    if s.worker.reachable {
        (Recreating { at: RecreateAt::Renewed, ..s }, Step::Run(VmTask::RenewLease))
    } else {
        drain_finish(s)
    }
}

/// What a replacement makes of an answer: the running worker is drained and
/// stopped; then its access goes, and then its disk.
pub open spec fn recreate_after(s: Recreating, e: Event) -> (Recreating, Step) {
    match (s.at, e) {
        (RecreateAt::Start, Event::Begin) => {
            if s.config.recreation {
                (Recreating { at: RecreateAt::Seen, ..s }, Step::Inspect)
            } else {
                recreate_end(s, Outcome::Refused(Refusal::NoReplacement))
            }
        },
        (RecreateAt::Seen, Event::Worker(w)) => {
            if w.running {
                (
                    Recreating { at: RecreateAt::DrainTold, worker: w, ..s },
                    Step::Tell(Notice::DrainingForReplacement),
                )
            } else {
                (
                    Recreating { at: RecreateAt::DrainCleared, worker: w, ..s },
                    Step::Save(Save::ClearDrain),
                )
            }
        },
        (RecreateAt::DrainTold, Event::Done) => {
            (Recreating { at: RecreateAt::DrainAsked, ..s }, Step::Ask(Route::Drain))
        },
        (RecreateAt::DrainAsked, Event::Done) => renewed_after(Recreating { drained: true, ..s }),
        (RecreateAt::DrainAsked, Event::Failed) => {
            (Recreating { at: RecreateAt::DrainHeld, drained: false, ..s }, Step::Hold)
        },
        (RecreateAt::DrainHeld, Event::Done) => renewed_after(s),
        (RecreateAt::Renewed, Event::Done) => {
            if s.drained {
                (Recreating { at: RecreateAt::Counted, ..s }, Step::CountReplied)
            } else {
                (Recreating { at: RecreateAt::Counted, ..s }, Step::CountAll)
            }
        },
        (RecreateAt::Counted, Event::Workloads(n)) => {
            (
                Recreating { at: RecreateAt::CountNoted, empty: n == 0, ..s },
                Step::Note(Memory::Counted),
            )
        },
        (RecreateAt::CountNoted, Event::Done) => {
            if s.empty && s.drained {
                (Recreating { at: RecreateAt::Stopped, ..s }, Step::Run(VmTask::Stop))
            } else {
                drain_end(s)
            }
        },
        (RecreateAt::Stopped, Event::Done) => {
            (Recreating { at: RecreateAt::StopSaved, ..s }, Step::Save(Save::ClearDrain))
        },
        (RecreateAt::StopSaved, Event::Settings(_)) => {
            (Recreating { at: RecreateAt::StopNoted, ..s }, Step::Note(Memory::WorkerEmptied))
        },
        (RecreateAt::StopNoted, Event::Done) => drain_end(s),
        (RecreateAt::DrainCleared, Event::Settings(_)) => {
            (Recreating { at: RecreateAt::ReplacingTold, ..s }, Step::Tell(Notice::Replacing))
        },
        (RecreateAt::ReplacingTold, Event::Done) => {
            if s.config.access_removed {
                (
                    Recreating { at: RecreateAt::Removed, access_removed: true, ..s },
                    Step::Run(VmTask::Remove),
                )
            } else {
                (Recreating { at: RecreateAt::AccessReset, ..s }, Step::Ask(Route::Reset))
            }
        },
        (RecreateAt::AccessReset, Event::Done) => {
            (
                Recreating { at: RecreateAt::AccessSaved, access_removed: true, ..s },
                Step::Save(Save::AccessRemoved),
            )
        },
        (RecreateAt::AccessSaved, Event::Settings(_)) => {
            (Recreating { at: RecreateAt::Removed, ..s }, Step::Run(VmTask::Remove))
        },
        (RecreateAt::Removed, Event::Done) => {
            (
                Recreating { at: RecreateAt::ReplacedSaved, ..s },
                Step::Save(Save::WorkerReplaced(s.config.next_provider)),
            )
        },
        (RecreateAt::ReplacedSaved, Event::Settings(_)) => {
            (Recreating { at: RecreateAt::ReplacedNoted, ..s }, Step::Note(Memory::WorkerRemoved))
        },
        (RecreateAt::ReplacedNoted, Event::Done) => {
            (Recreating { at: RecreateAt::ReplacedTold, ..s }, Step::Tell(Notice::Replaced))
        },
        (RecreateAt::ReplacedTold, Event::Done) => recreate_end(s, Outcome::Done),
        _ => recreate_end(s, Outcome::Failed),
    }
}

/// What a replacement makes of an answer: the running worker is drained and
/// stopped; then its access goes, and then its disk.
fn next_recreate(s: Recreating, e: Event) -> (r: (Recreating, Step))
    ensures
        r == recreate_after(s, e),
{
    match (s.at, e) {
        (RecreateAt::Start, Event::Begin) => {
            if s.config.recreation {
                (Recreating { at: RecreateAt::Seen, ..s }, Step::Inspect)
            } else {
                recreate_finish(s, Outcome::Refused(Refusal::NoReplacement))
            }
        },
        (RecreateAt::Seen, Event::Worker(w)) => {
            if w.running {
                (
                    Recreating { at: RecreateAt::DrainTold, worker: w, ..s },
                    Step::Tell(Notice::DrainingForReplacement),
                )
            } else {
                (
                    Recreating { at: RecreateAt::DrainCleared, worker: w, ..s },
                    Step::Save(Save::ClearDrain),
                )
            }
        },
        (RecreateAt::DrainTold, Event::Done) => {
            (Recreating { at: RecreateAt::DrainAsked, ..s }, Step::Ask(Route::Drain))
        },
        (RecreateAt::DrainAsked, Event::Done) => renewed(Recreating { drained: true, ..s }),
        (RecreateAt::DrainAsked, Event::Failed) => {
            (Recreating { at: RecreateAt::DrainHeld, drained: false, ..s }, Step::Hold)
        },
        (RecreateAt::DrainHeld, Event::Done) => renewed(s),
        (RecreateAt::Renewed, Event::Done) => {
            if s.drained {
                (Recreating { at: RecreateAt::Counted, ..s }, Step::CountReplied)
            } else {
                (Recreating { at: RecreateAt::Counted, ..s }, Step::CountAll)
            }
        },
        (RecreateAt::Counted, Event::Workloads(n)) => {
            (
                Recreating { at: RecreateAt::CountNoted, empty: n == 0, ..s },
                Step::Note(Memory::Counted),
            )
        },
        (RecreateAt::CountNoted, Event::Done) => {
            if s.empty && s.drained {
                (Recreating { at: RecreateAt::Stopped, ..s }, Step::Run(VmTask::Stop))
            } else {
                drain_finish(s)
            }
        },
        (RecreateAt::Stopped, Event::Done) => {
            (Recreating { at: RecreateAt::StopSaved, ..s }, Step::Save(Save::ClearDrain))
        },
        (RecreateAt::StopSaved, Event::Settings(_)) => {
            (Recreating { at: RecreateAt::StopNoted, ..s }, Step::Note(Memory::WorkerEmptied))
        },
        (RecreateAt::StopNoted, Event::Done) => drain_finish(s),
        (RecreateAt::DrainCleared, Event::Settings(_)) => {
            (Recreating { at: RecreateAt::ReplacingTold, ..s }, Step::Tell(Notice::Replacing))
        },
        (RecreateAt::ReplacingTold, Event::Done) => {
            if s.config.access_removed {
                (
                    Recreating { at: RecreateAt::Removed, access_removed: true, ..s },
                    Step::Run(VmTask::Remove),
                )
            } else {
                (Recreating { at: RecreateAt::AccessReset, ..s }, Step::Ask(Route::Reset))
            }
        },
        (RecreateAt::AccessReset, Event::Done) => {
            (
                Recreating { at: RecreateAt::AccessSaved, access_removed: true, ..s },
                Step::Save(Save::AccessRemoved),
            )
        },
        (RecreateAt::AccessSaved, Event::Settings(_)) => {
            (Recreating { at: RecreateAt::Removed, ..s }, Step::Run(VmTask::Remove))
        },
        (RecreateAt::Removed, Event::Done) => {
            (
                Recreating { at: RecreateAt::ReplacedSaved, ..s },
                Step::Save(Save::WorkerReplaced(s.config.next_provider)),
            )
        },
        (RecreateAt::ReplacedSaved, Event::Settings(_)) => {
            (Recreating { at: RecreateAt::ReplacedNoted, ..s }, Step::Note(Memory::WorkerRemoved))
        },
        (RecreateAt::ReplacedNoted, Event::Done) => {
            (Recreating { at: RecreateAt::ReplacedTold, ..s }, Step::Tell(Notice::Replaced))
        },
        (RecreateAt::ReplacedTold, Event::Done) => recreate_finish(s, Outcome::Done),
        _ => recreate_finish(s, Outcome::Failed),
    }
}

/// A replacement that has not begun.
pub open spec fn fresh_recreation(config: Facts) -> Recreating {
    Recreating {
        at: RecreateAt::Start,
        config,
        worker: nothing(),
        drained: false,
        empty: false,
        access_removed: false,
    }
}

impl Recreating {
    /// A replacement that has not begun.
    pub fn new(config: Facts) -> (r: Self)
        ensures
            r == fresh_recreation(config),
    {
        Recreating {
            at: RecreateAt::Start,
            config,
            worker: no_sight(),
            drained: false,
            empty: false,
            access_removed: false,
        }
    }

    /// What a replacement makes of an answer, and what it asks for next.
    pub fn next(self, e: Event) -> (r: (Recreating, Step))
        ensures
            r == recreate_after(self, e),
    {
        next_recreate(self, e)
    }
}

/// What holds at each point of a replacement.
pub open spec fn recreation_sound(s: Recreating) -> bool {
    match s.at {
        RecreateAt::DrainCleared | RecreateAt::ReplacingTold | RecreateAt::AccessReset => {
            !s.worker.running
        },
        RecreateAt::AccessSaved | RecreateAt::Removed | RecreateAt::ReplacedSaved
        | RecreateAt::ReplacedNoted | RecreateAt::ReplacedTold => !s.worker.running
            && s.access_removed,
        _ => true,
    }
}

/// The worker's disk is deleted only while the worker does not run and after
/// its access was removed; and a running worker is stopped only when it is
/// drained and empty.
pub proof fn disks_go_after_access(s: Recreating, e: Event)
    requires
        recreation_sound(s),
    ensures
        recreation_sound(recreate_after(s, e).0),
        recreate_after(s, e).1 == Step::Run(VmTask::Remove) ==> !s.worker.running && (
        s.config.access_removed || s.access_removed),
        recreate_after(s, e).1 == Step::Run(VmTask::Stop) ==> s.drained && s.empty,
{
}

} // verus!
