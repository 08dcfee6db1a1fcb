//! One step of a storage operation, as a machine: the worker is drained, its
//! disks are created, grown or moved, and the pool on them is applied and checked.
use crate::agent::steps::{
    expired, has_expired, no_sight, nothing, DiskPlan, Event, Memory, Notice, Outcome, PoolTask,
    Refusal, Route, Save, Sight, Stage, Step, StorageSave, VmTask,
};
use crate::storage::{location_views, position, rank, Location, LocationView};
use crate::store::{Configuration, ConfigurationView};
use crate::text;
use crate::values::options_alike;
use vstd::prelude::*;

verus! {

/// An operation, as far as its steps decide on it.
#[derive(Clone, Copy, Debug, PartialEq, Eq, Structural)]
pub struct Change {
    /// Nothing for a stage that is unknown.
    pub stage: Option<Stage>,
    pub paused: bool,
    pub previous: usize,
    pub targets: usize,
    pub has_layout: bool,
    /// The VM itself stands elsewhere than the operation wants it.
    pub moves_vm: bool,
}

/// The stage of that name.
pub open spec fn stage_named(name: Seq<char>) -> Option<Stage> {
    if name == "pending"@ {
        Some(Stage::Pending)
    } else if name == "disks"@ {
        Some(Stage::Disks)
    } else if name == "guest"@ {
        Some(Stage::Guest)
    } else if name == "verified"@ {
        Some(Stage::Verified)
    } else {
        None
    }
}

/// The stage of that name.
pub fn named_stage(name: &str) -> (r: Option<Stage>)
    ensures
        r == stage_named(name@),
{
    if text::same(name, "pending") {
        Some(Stage::Pending)
    } else if text::same(name, "disks") {
        Some(Stage::Disks)
    } else if text::same(name, "guest") {
        Some(Stage::Guest)
    } else if text::same(name, "verified") {
        Some(Stage::Verified)
    } else {
        None
    }
}

/// The name of a stage.
pub open spec fn stage_name(s: Stage) -> Seq<char> {
    match s {
        Stage::Pending => "pending"@,
        Stage::Disks => "disks"@,
        Stage::Guest => "guest"@,
        Stage::Verified => "verified"@,
    }
}

/// The name of a stage.
pub fn stage_text(s: Stage) -> (r: &'static str)
    ensures
        r@ == stage_name(s),
{
    match s {
        Stage::Pending => "pending",
        Stage::Disks => "disks",
        Stage::Guest => "guest",
        Stage::Verified => "verified",
    }
}

/// A stage is found again under its name.
pub proof fn stages_keep_their_names(s: Stage)
    ensures
        stage_named(stage_name(s)) == Some(s),
{
    reveal_strlit("pending");
    reveal_strlit("disks");
    reveal_strlit("guest");
    reveal_strlit("verified");
    assert("pending"@.len() == 7 && "disks"@.len() == 5 && "guest"@.len() == 5
        && "verified"@.len() == 8);
    assert("disks"@[0] == 'd' && "guest"@[0] == 'g');
}

pub open spec fn change_of(c: ConfigurationView) -> Option<Change> {
    match c.storage_operation {
        None => None,
        Some(op) => Some(
            Change {
                stage: stage_named(op.phase),
                paused: op.paused,
                previous: op.previous.len() as usize,
                targets: op.target.len() as usize,
                has_layout: op.layout is Some,
                moves_vm: op.layout is Some && c.storage_layout != op.layout,
            },
        ),
    }
}

/// The operation under the settings, as far as its steps decide on it.
pub fn change(config: &Configuration) -> (r: Option<Change>)
    ensures
        r == change_of(config@),
{
    match &config.storage_operation {
        None => None,
        Some(op) => Some(
            Change {
                stage: named_stage(op.phase.as_str()),
                paused: op.paused,
                previous: op.previous.len(),
                targets: op.target.len(),
                has_layout: op.layout.is_some(),
                moves_vm: op.layout.is_some() && !options_alike(
                    &config.storage_layout,
                    &op.layout,
                ),
            },
        ),
    }
}

/// How a wanted disk comes about: new where no previous disk has its identifier.
pub open spec fn plan_for(previous: Seq<LocationView>, target: LocationView) -> DiskPlan {
    let i = rank(previous, target.id);
    if i == previous.len() {
        DiskPlan::New
    } else if previous[i].directory == target.directory {
        DiskPlan::Kept
    } else {
        DiskPlan::Moved(previous[i].allocation_gib != target.allocation_gib)
    }
}

/// How a wanted disk comes about.
pub fn disk_plan(previous: &[Location], target: &Location) -> (r: DiskPlan)
    ensures
        r == plan_for(location_views(previous@), target@),
{
    let ghost v = location_views(previous@);
    let i = position(previous, target.id.as_str());
    if i == previous.len() {
        return DiskPlan::New;
    }
    assert(v[i as int] == previous@[i as int]@);
    if text::same(previous[i].directory.as_str(), target.directory.as_str()) {
        DiskPlan::Kept
    } else {
        DiskPlan::Moved(previous[i].allocation_gib != target.allocation_gib)
    }
}

/// Where a step of an operation stands.
#[derive(Clone, Copy, Debug, PartialEq, Eq, Structural)]
pub enum Point {
    Start,
    Receipt,
    Ready,
    Seen,
    PausedTold,
    PausedBeat,
    PausedCut,
    PausedBegun,
    PausedAsked,
    PausedLease,
    PausedCounted,
    PausedLoaded,
    PausedStopped,
    PausedCleared,
    PausedEnd,
    Told,
    Beaten,
    Unheard,
    UnheardStopped,
    UnheardNoted,
    DiskValid,
    StorageValid,
    DrainAsked,
    PodsNoted,
    WaitTold,
    DrainBegun,
    DrainLease,
    DrainCounted,
    CountNoted,
    DrainLoaded,
    Quiesced,
    Stopped,
    DrainCleared,
    FilesTold,
    TargetsValid,
    Relocated,
    DiskSeen,
    DiskRelated,
    DiskMade,
    MovedSeen,
    MoveStaged,
    MoveCommitted,
    Configured,
    ApplyTold,
    ChangedValid,
    GuestDiskSeen,
    GuestStarted,
    GuestReady,
    Applied,
    Migrated,
    PoolRead,
    PoolChecked,
    Bootstrapped,
    Joined,
    Rechecked,
    GuestStopped,
    Placed,
    RelocationCleaned,
    Saved,
    CopiesCleaned,
    EndTold,
    StageSaved,
    Over,
}

/// A step of an operation under way.
#[derive(Clone, Copy, Debug, PartialEq, Eq, Structural)]
pub struct Changing {
    pub at: Point,
    pub change: Option<Change>,
    pub worker: Sight,
    pub beaten: bool,
    pub busy: bool,
    /// The disk that is next.
    pub disk: usize,
    /// Whether the moved disk grows.
    pub grows: bool,
}

/// The step is over.
pub open spec fn change_end(c: Changing, outcome: Outcome) -> (Changing, Step) {
    (Changing { at: Point::Over, ..c }, Step::Finish(outcome))
}

/// The step is over.
fn do_change_end(c: Changing, outcome: Outcome) -> (r: (Changing, Step))
    ensures
        r == change_end(c, outcome),
{
    (Changing { at: Point::Over, ..c }, Step::Finish(outcome))
}

/// The step is refused.
pub open spec fn change_refused(c: Changing, refusal: Refusal) -> (Changing, Step) {
    change_end(c, Outcome::Refused(refusal))
}

/// The step is refused.
fn do_change_refused(c: Changing, refusal: Refusal) -> (r: (Changing, Step))
    ensures
        r == change_refused(c, refusal),
{
    do_change_end(c, Outcome::Refused(refusal))
}

/// The operation stays paused.
pub open spec fn paused_told(c: Changing) -> (Changing, Step) {
    (Changing { at: Point::PausedEnd, ..c }, Step::Tell(Notice::StorageChangePaused))
}

/// The operation stays paused.
fn do_paused_told(c: Changing) -> (r: (Changing, Step))
    ensures
        r == paused_told(c),
{
    (Changing { at: Point::PausedEnd, ..c }, Step::Tell(Notice::StorageChangePaused))
}

/// The worker of a paused operation stops.
pub open spec fn paused_stop(c: Changing) -> (Changing, Step) {
    (Changing { at: Point::PausedStopped, ..c }, Step::Run(VmTask::Stop))
}

/// The worker of a paused operation stops.
fn do_paused_stop(c: Changing) -> (r: (Changing, Step))
    ensures
        r == paused_stop(c),
{
    (Changing { at: Point::PausedStopped, ..c }, Step::Run(VmTask::Stop))
}

/// A paused operation. A controller outage cannot prevent the owner from stopping
/// work.
pub open spec fn paused_after(c: Changing, j: Change, e: Event) -> (Changing, Step) {
    match (c.at, e) {
        (Point::PausedTold, Event::Done) => (
            Changing { at: Point::PausedBeat, ..c },
            Step::Heartbeat,
        ),
        (Point::PausedBeat, Event::Done) => if !c.worker.running {
            paused_told(c)
        } else if j.stage == Some(Stage::Pending) {
            (Changing { at: Point::PausedBegun, ..c }, Step::Save(Save::BeginDrain))
        } else {
            paused_stop(c)
        },
        (Point::PausedBeat, Event::Failed) => if !c.worker.running {
            paused_told(c)
        } else if j.stage == Some(Stage::Pending) {
            (Changing { at: Point::PausedCut, ..c }, Step::Run(VmTask::StopNow))
        } else {
            paused_stop(c)
        },
        (Point::PausedCut, Event::Done) => change_end(c, Outcome::Done),
        (Point::PausedBegun, Event::Settings(_)) => (
            Changing { at: Point::PausedAsked, ..c },
            Step::Ask(Route::Drain),
        ),
        (Point::PausedAsked, Event::Done) => if c.worker.reachable {
            (Changing { at: Point::PausedLease, ..c }, Step::Run(VmTask::RenewLease))
        } else {
            change_end(c, Outcome::Done)
        },
        (Point::PausedLease, Event::Done) => (
            Changing { at: Point::PausedCounted, ..c },
            Step::CountReplied,
        ),
        (Point::PausedCounted, Event::Workloads(n)) => if n == 0 {
            paused_stop(c)
        } else {
            (Changing { at: Point::PausedLoaded, ..c }, Step::Load)
        },
        (Point::PausedLoaded, Event::Settings(f)) => if expired(f) {
            paused_stop(c)
        } else {
            change_end(c, Outcome::Done)
        },
        (Point::PausedStopped, Event::Done) => {
            (Changing { at: Point::PausedCleared, ..c }, Step::Save(Save::ClearDrain))
        },
        (Point::PausedCleared, Event::Settings(_)) => paused_told(c),
        (Point::PausedEnd, Event::Done) => change_end(c, Outcome::Done),
        _ => change_end(c, Outcome::Failed),
    }
}

/// A paused operation. A controller outage cannot prevent the owner from stopping
/// work.
fn do_paused_after(c: Changing, j: Change, e: Event) -> (r: (Changing, Step))
    ensures
        r == paused_after(c, j, e),
{
    match (c.at, e) {
        (Point::PausedTold, Event::Done) => (
            Changing { at: Point::PausedBeat, ..c },
            Step::Heartbeat,
        ),
        (Point::PausedBeat, Event::Done) => if !c.worker.running {
            do_paused_told(c)
        } else if j.stage == Some(Stage::Pending) {
            (Changing { at: Point::PausedBegun, ..c }, Step::Save(Save::BeginDrain))
        } else {
            do_paused_stop(c)
        },
        (Point::PausedBeat, Event::Failed) => if !c.worker.running {
            do_paused_told(c)
        } else if j.stage == Some(Stage::Pending) {
            (Changing { at: Point::PausedCut, ..c }, Step::Run(VmTask::StopNow))
        } else {
            do_paused_stop(c)
        },
        (Point::PausedCut, Event::Done) => do_change_end(c, Outcome::Done),
        (Point::PausedBegun, Event::Settings(_)) => (
            Changing { at: Point::PausedAsked, ..c },
            Step::Ask(Route::Drain),
        ),
        (Point::PausedAsked, Event::Done) => if c.worker.reachable {
            (Changing { at: Point::PausedLease, ..c }, Step::Run(VmTask::RenewLease))
        } else {
            do_change_end(c, Outcome::Done)
        },
        (Point::PausedLease, Event::Done) => (
            Changing { at: Point::PausedCounted, ..c },
            Step::CountReplied,
        ),
        (Point::PausedCounted, Event::Workloads(n)) => if n == 0 {
            do_paused_stop(c)
        } else {
            (Changing { at: Point::PausedLoaded, ..c }, Step::Load)
        },
        (Point::PausedLoaded, Event::Settings(f)) => if has_expired(f) {
            do_paused_stop(c)
        } else {
            do_change_end(c, Outcome::Done)
        },
        (Point::PausedStopped, Event::Done) => {
            (Changing { at: Point::PausedCleared, ..c }, Step::Save(Save::ClearDrain))
        },
        (Point::PausedCleared, Event::Settings(_)) => do_paused_told(c),
        (Point::PausedEnd, Event::Done) => do_change_end(c, Outcome::Done),
        _ => do_change_end(c, Outcome::Failed),
    }
}

/// A stopped worker must also be cordoned before it can boot for maintenance.
pub open spec fn pending_ready(c: Changing) -> (Changing, Step) {
    (Changing { at: Point::DrainAsked, ..c }, Step::Ask(Route::Drain))
}

/// A stopped worker must also be cordoned before it can boot for maintenance.
fn do_pending_ready(c: Changing) -> (r: (Changing, Step))
    ensures
        r == pending_ready(c),
{
    (Changing { at: Point::DrainAsked, ..c }, Step::Ask(Route::Drain))
}

/// The next of the previous disks, or the drain.
pub open spec fn checked_next(c: Changing, j: Change) -> (Changing, Step) {
    if c.disk < j.previous {
        (Changing { at: Point::DiskValid, ..c }, Step::ValidateDisk(c.disk))
    } else {
        pending_ready(c)
    }
}

/// The next of the previous disks, or the drain.
fn do_checked_next(c: Changing, j: Change) -> (r: (Changing, Step))
    ensures
        r == checked_next(c, j),
{
    if c.disk < j.previous {
        (Changing { at: Point::DiskValid, ..c }, Step::ValidateDisk(c.disk))
    } else {
        do_pending_ready(c)
    }
}

/// Nothing runs any longer, or its grace period is over.
pub open spec fn pending_drained(c: Changing) -> (Changing, Step) {
    (Changing { at: Point::Quiesced, ..c }, Step::Run(VmTask::QuiesceStorage))
}

/// Nothing runs any longer, or its grace period is over.
fn do_pending_drained(c: Changing) -> (r: (Changing, Step))
    ensures
        r == pending_drained(c),
{
    (Changing { at: Point::Quiesced, ..c }, Step::Run(VmTask::QuiesceStorage))
}

/// The storage is valid, and the worker is drained and stopped.
pub open spec fn pending_after(c: Changing, j: Change, e: Event) -> (Changing, Step) {
    match (c.at, e) {
        (Point::DiskValid, Event::Done) => if c.disk < j.previous {
            checked_next(Changing { disk: (c.disk + 1) as usize, ..c }, j)
        } else {
            change_end(c, Outcome::Failed)
        },
        (Point::StorageValid, Event::Done) => pending_ready(c),
        (Point::DrainAsked, Event::Done) => {
            (Changing { at: Point::PodsNoted, ..c }, Step::Note(Memory::SystemPods))
        },
        (Point::PodsNoted, Event::Done) => if c.worker.running {
            (Changing { at: Point::WaitTold, ..c }, Step::Tell(Notice::StorageWaiting))
        } else {
            (Changing { at: Point::DrainCleared, ..c }, Step::Save(Save::ClearDrain))
        },
        (Point::WaitTold, Event::Done) => (
            Changing { at: Point::DrainBegun, ..c },
            Step::Save(Save::BeginDrain),
        ),
        (Point::DrainBegun, Event::Settings(_)) => if c.worker.reachable {
            (Changing { at: Point::DrainLease, ..c }, Step::Run(VmTask::RenewLease))
        } else {
            change_refused(c, Refusal::UninspectedChange)
        },
        (Point::DrainLease, Event::Done) => (
            Changing { at: Point::DrainCounted, ..c },
            Step::CountReplied,
        ),
        (Point::DrainCounted, Event::Workloads(n)) => {
            (
                Changing { at: Point::CountNoted, busy: n > 0, ..c },
                Step::Note(Memory::Counted),
            )
        },
        (Point::CountNoted, Event::Done) => if c.busy {
            (Changing { at: Point::DrainLoaded, ..c }, Step::Load)
        } else {
            pending_drained(c)
        },
        (Point::DrainLoaded, Event::Settings(f)) => if expired(f) {
            pending_drained(c)
        } else {
            change_end(c, Outcome::Done)
        },
        (Point::Quiesced, Event::Done) => (
            Changing { at: Point::Stopped, ..c },
            Step::Run(VmTask::Stop),
        ),
        (Point::Stopped, Event::Done) => (
            Changing { at: Point::DrainCleared, ..c },
            Step::Save(Save::ClearDrain),
        ),
        (Point::DrainCleared, Event::Settings(_)) => {
            (Changing { at: Point::StageSaved, ..c }, Step::SaveStorage(StorageSave::OperationStage(Stage::Disks)))
        },
        (Point::StageSaved, Event::Done) => change_end(c, Outcome::Done),
        _ => change_end(c, Outcome::Failed),
    }
}

/// The storage is valid, and the worker is drained and stopped.
fn do_pending_after(c: Changing, j: Change, e: Event) -> (r: (Changing, Step))
    ensures
        r == pending_after(c, j, e),
{
    match (c.at, e) {
        (Point::DiskValid, Event::Done) => if c.disk < j.previous {
            do_checked_next(Changing { disk: (c.disk + 1) as usize, ..c }, j)
        } else {
            do_change_end(c, Outcome::Failed)
        },
        (Point::StorageValid, Event::Done) => do_pending_ready(c),
        (Point::DrainAsked, Event::Done) => {
            (Changing { at: Point::PodsNoted, ..c }, Step::Note(Memory::SystemPods))
        },
        (Point::PodsNoted, Event::Done) => if c.worker.running {
            (Changing { at: Point::WaitTold, ..c }, Step::Tell(Notice::StorageWaiting))
        } else {
            (Changing { at: Point::DrainCleared, ..c }, Step::Save(Save::ClearDrain))
        },
        (Point::WaitTold, Event::Done) => (
            Changing { at: Point::DrainBegun, ..c },
            Step::Save(Save::BeginDrain),
        ),
        (Point::DrainBegun, Event::Settings(_)) => if c.worker.reachable {
            (Changing { at: Point::DrainLease, ..c }, Step::Run(VmTask::RenewLease))
        } else {
            do_change_refused(c, Refusal::UninspectedChange)
        },
        (Point::DrainLease, Event::Done) => (
            Changing { at: Point::DrainCounted, ..c },
            Step::CountReplied,
        ),
        (Point::DrainCounted, Event::Workloads(n)) => {
            (
                Changing { at: Point::CountNoted, busy: n > 0, ..c },
                Step::Note(Memory::Counted),
            )
        },
        (Point::CountNoted, Event::Done) => if c.busy {
            (Changing { at: Point::DrainLoaded, ..c }, Step::Load)
        } else {
            do_pending_drained(c)
        },
        (Point::DrainLoaded, Event::Settings(f)) => if has_expired(f) {
            do_pending_drained(c)
        } else {
            do_change_end(c, Outcome::Done)
        },
        (Point::Quiesced, Event::Done) => (
            Changing { at: Point::Stopped, ..c },
            Step::Run(VmTask::Stop),
        ),
        (Point::Stopped, Event::Done) => (
            Changing { at: Point::DrainCleared, ..c },
            Step::Save(Save::ClearDrain),
        ),
        (Point::DrainCleared, Event::Settings(_)) => {
            (Changing { at: Point::StageSaved, ..c }, Step::SaveStorage(StorageSave::OperationStage(Stage::Disks)))
        },
        (Point::StageSaved, Event::Done) => do_change_end(c, Outcome::Done),
        _ => do_change_end(c, Outcome::Failed),
    }
}

/// The next of the wanted disks, or the worker's configuration.
pub open spec fn placed_next(c: Changing, j: Change) -> (Changing, Step) {
    if c.disk < j.targets {
        (Changing { at: Point::DiskSeen, ..c }, Step::InspectDisk(c.disk))
    } else {
        (Changing { at: Point::Configured, ..c }, Step::ConfigureStorage)
    }
}

/// The next of the wanted disks, or the worker's configuration.
fn do_placed_next(c: Changing, j: Change) -> (r: (Changing, Step))
    ensures
        r == placed_next(c, j),
{
    if c.disk < j.targets {
        (Changing { at: Point::DiskSeen, ..c }, Step::InspectDisk(c.disk))
    } else {
        (Changing { at: Point::Configured, ..c }, Step::ConfigureStorage)
    }
}

/// The wanted disks come about while the worker is stopped: a disk that is already
/// as wanted is left alone, so an interrupted step can be repeated.
pub open spec fn disks_after(c: Changing, j: Change, e: Event) -> (Changing, Step) {
    match (c.at, e) {
        (Point::FilesTold, Event::Done) => (
            Changing { at: Point::TargetsValid, ..c },
            Step::ValidateTargets,
        ),
        (Point::TargetsValid, Event::Done) => if j.has_layout {
            (Changing { at: Point::Relocated, ..c }, Step::RelocateRuntime)
        } else {
            placed_next(Changing { disk: 0, ..c }, j)
        },
        (Point::Relocated, Event::Answer(moved)) => if moved {
            change_end(c, Outcome::Done)
        } else {
            placed_next(Changing { disk: 0, ..c }, j)
        },
        (Point::DiskSeen, Event::Done) => if c.disk < j.targets {
            placed_next(Changing { disk: (c.disk + 1) as usize, ..c }, j)
        } else {
            change_end(c, Outcome::Failed)
        },
        (Point::DiskSeen, Event::Failed) => (
            Changing { at: Point::DiskRelated, ..c },
            Step::RelateDisk(c.disk),
        ),
        (Point::DiskRelated, Event::Disk(plan)) => match plan {
            DiskPlan::New => (Changing { at: Point::DiskMade, ..c }, Step::CreateDisk(c.disk)),
            DiskPlan::Kept => (Changing { at: Point::DiskMade, ..c }, Step::GrowDisk(c.disk)),
            DiskPlan::Moved(grows) => {
                (Changing { at: Point::MovedSeen, grows, ..c }, Step::InspectMoved(c.disk))
            },
        },
        (Point::DiskMade, Event::Done) => if c.disk < j.targets {
            placed_next(Changing { disk: (c.disk + 1) as usize, ..c }, j)
        } else {
            change_end(c, Outcome::Failed)
        },
        (Point::MovedSeen, Event::Failed) => (
            Changing { at: Point::MoveStaged, ..c },
            Step::StageMove(c.disk),
        ),
        (Point::MoveStaged, Event::Done) => (
            Changing { at: Point::MoveCommitted, ..c },
            Step::CommitMove(c.disk),
        ),
        (Point::MovedSeen, Event::Done) | (Point::MoveCommitted, Event::Done) => if c.grows {
            (Changing { at: Point::DiskMade, ..c }, Step::GrowMoved(c.disk))
        } else if c.disk < j.targets {
            placed_next(Changing { disk: (c.disk + 1) as usize, ..c }, j)
        } else {
            change_end(c, Outcome::Failed)
        },
        (Point::Configured, Event::Done) => {
            (Changing { at: Point::StageSaved, ..c }, Step::SaveStorage(StorageSave::OperationStage(Stage::Guest)))
        },
        _ => change_end(c, Outcome::Failed),
    }
}

/// The wanted disks come about while the worker is stopped: a disk that is already
/// as wanted is left alone, so an interrupted step can be repeated.
fn do_disks_after(c: Changing, j: Change, e: Event) -> (r: (Changing, Step))
    ensures
        r == disks_after(c, j, e),
{
    match (c.at, e) {
        (Point::FilesTold, Event::Done) => (
            Changing { at: Point::TargetsValid, ..c },
            Step::ValidateTargets,
        ),
        (Point::TargetsValid, Event::Done) => if j.has_layout {
            (Changing { at: Point::Relocated, ..c }, Step::RelocateRuntime)
        } else {
            do_placed_next(Changing { disk: 0, ..c }, j)
        },
        (Point::Relocated, Event::Answer(moved)) => if moved {
            do_change_end(c, Outcome::Done)
        } else {
            do_placed_next(Changing { disk: 0, ..c }, j)
        },
        (Point::DiskSeen, Event::Done) => if c.disk < j.targets {
            do_placed_next(Changing { disk: (c.disk + 1) as usize, ..c }, j)
        } else {
            do_change_end(c, Outcome::Failed)
        },
        (Point::DiskSeen, Event::Failed) => (
            Changing { at: Point::DiskRelated, ..c },
            Step::RelateDisk(c.disk),
        ),
        (Point::DiskRelated, Event::Disk(plan)) => match plan {
            DiskPlan::New => (Changing { at: Point::DiskMade, ..c }, Step::CreateDisk(c.disk)),
            DiskPlan::Kept => (Changing { at: Point::DiskMade, ..c }, Step::GrowDisk(c.disk)),
            DiskPlan::Moved(grows) => {
                (Changing { at: Point::MovedSeen, grows, ..c }, Step::InspectMoved(c.disk))
            },
        },
        (Point::DiskMade, Event::Done) => if c.disk < j.targets {
            do_placed_next(Changing { disk: (c.disk + 1) as usize, ..c }, j)
        } else {
            do_change_end(c, Outcome::Failed)
        },
        (Point::MovedSeen, Event::Failed) => (
            Changing { at: Point::MoveStaged, ..c },
            Step::StageMove(c.disk),
        ),
        (Point::MoveStaged, Event::Done) => (
            Changing { at: Point::MoveCommitted, ..c },
            Step::CommitMove(c.disk),
        ),
        (Point::MovedSeen, Event::Done) | (Point::MoveCommitted, Event::Done) => if c.grows {
            (Changing { at: Point::DiskMade, ..c }, Step::GrowMoved(c.disk))
        } else if c.disk < j.targets {
            do_placed_next(Changing { disk: (c.disk + 1) as usize, ..c }, j)
        } else {
            do_change_end(c, Outcome::Failed)
        },
        (Point::Configured, Event::Done) => {
            (Changing { at: Point::StageSaved, ..c }, Step::SaveStorage(StorageSave::OperationStage(Stage::Guest)))
        },
        _ => do_change_end(c, Outcome::Failed),
    }
}

/// The worker runs on the wanted disks.
pub open spec fn guest_ready(c: Changing) -> (Changing, Step) {
    (Changing { at: Point::GuestReady, ..c }, Step::Run(VmTask::PrepareStorage))
}

/// The worker runs on the wanted disks.
fn do_guest_ready(c: Changing) -> (r: (Changing, Step))
    ensures
        r == guest_ready(c),
{
    (Changing { at: Point::GuestReady, ..c }, Step::Run(VmTask::PrepareStorage))
}

/// The next of the wanted disks, or the worker on them.
pub open spec fn guest_next(c: Changing, j: Change) -> (Changing, Step) {
    if c.disk < j.targets {
        (Changing { at: Point::GuestDiskSeen, ..c }, Step::InspectDisk(c.disk))
    } else if c.worker.running {
        guest_ready(c)
    } else {
        (Changing { at: Point::GuestStarted, ..c }, Step::Run(VmTask::Start))
    }
}

/// The next of the wanted disks, or the worker on them.
fn do_guest_next(c: Changing, j: Change) -> (r: (Changing, Step))
    ensures
        r == guest_next(c, j),
{
    if c.disk < j.targets {
        (Changing { at: Point::GuestDiskSeen, ..c }, Step::InspectDisk(c.disk))
    } else if c.worker.running {
        do_guest_ready(c)
    } else {
        (Changing { at: Point::GuestStarted, ..c }, Step::Run(VmTask::Start))
    }
}

/// The pool on the wanted disks is applied and checked, before and after the
/// worker joined the fleet again.
pub open spec fn guest_after(c: Changing, j: Change, e: Event) -> (Changing, Step) {
    match (c.at, e) {
        (Point::ApplyTold, Event::Done) => (
            Changing { at: Point::ChangedValid, ..c },
            Step::ValidateChanged,
        ),
        (Point::ChangedValid, Event::Done) => guest_next(Changing { disk: 0, ..c }, j),
        (Point::GuestDiskSeen, Event::Done) => if c.disk < j.targets {
            guest_next(Changing { disk: (c.disk + 1) as usize, ..c }, j)
        } else {
            change_end(c, Outcome::Failed)
        },
        (Point::GuestStarted, Event::Done) => guest_ready(c),
        (Point::GuestReady, Event::Done) => (
            Changing { at: Point::Applied, ..c },
            Step::Pool(PoolTask::Apply),
        ),
        (Point::Applied, Event::Done) => (
            Changing { at: Point::Migrated, ..c },
            Step::Pool(PoolTask::Migrate),
        ),
        (Point::Migrated, Event::Done) => (
            Changing { at: Point::PoolRead, ..c },
            Step::Pool(PoolTask::Check),
        ),
        (Point::PoolRead, Event::Done) => (
            Changing { at: Point::PoolChecked, ..c },
            Step::CheckPool,
        ),
        (Point::PoolChecked, Event::Done) => (
            Changing { at: Point::Bootstrapped, ..c },
            Step::Ask(Route::Bootstrap),
        ),
        (Point::Bootstrapped, Event::Done) => (
            Changing { at: Point::Joined, ..c },
            Step::Run(VmTask::Configure),
        ),
        (Point::Joined, Event::Done) => (
            Changing { at: Point::Rechecked, ..c },
            Step::Pool(PoolTask::Check),
        ),
        (Point::Rechecked, Event::Done) => (
            Changing { at: Point::GuestStopped, ..c },
            Step::Run(VmTask::Stop),
        ),
        (Point::GuestStopped, Event::Done) => {
            (Changing { at: Point::StageSaved, ..c }, Step::SaveStorage(StorageSave::OperationStage(Stage::Verified)))
        },
        _ => change_end(c, Outcome::Failed),
    }
}

/// The pool on the wanted disks is applied and checked, before and after the
/// worker joined the fleet again.
fn do_guest_after(c: Changing, j: Change, e: Event) -> (r: (Changing, Step))
    ensures
        r == guest_after(c, j, e),
{
    match (c.at, e) {
        (Point::ApplyTold, Event::Done) => (
            Changing { at: Point::ChangedValid, ..c },
            Step::ValidateChanged,
        ),
        (Point::ChangedValid, Event::Done) => do_guest_next(Changing { disk: 0, ..c }, j),
        (Point::GuestDiskSeen, Event::Done) => if c.disk < j.targets {
            do_guest_next(Changing { disk: (c.disk + 1) as usize, ..c }, j)
        } else {
            do_change_end(c, Outcome::Failed)
        },
        (Point::GuestStarted, Event::Done) => do_guest_ready(c),
        (Point::GuestReady, Event::Done) => (
            Changing { at: Point::Applied, ..c },
            Step::Pool(PoolTask::Apply),
        ),
        (Point::Applied, Event::Done) => (
            Changing { at: Point::Migrated, ..c },
            Step::Pool(PoolTask::Migrate),
        ),
        (Point::Migrated, Event::Done) => (
            Changing { at: Point::PoolRead, ..c },
            Step::Pool(PoolTask::Check),
        ),
        (Point::PoolRead, Event::Done) => (
            Changing { at: Point::PoolChecked, ..c },
            Step::CheckPool,
        ),
        (Point::PoolChecked, Event::Done) => (
            Changing { at: Point::Bootstrapped, ..c },
            Step::Ask(Route::Bootstrap),
        ),
        (Point::Bootstrapped, Event::Done) => (
            Changing { at: Point::Joined, ..c },
            Step::Run(VmTask::Configure),
        ),
        (Point::Joined, Event::Done) => (
            Changing { at: Point::Rechecked, ..c },
            Step::Pool(PoolTask::Check),
        ),
        (Point::Rechecked, Event::Done) => (
            Changing { at: Point::GuestStopped, ..c },
            Step::Run(VmTask::Stop),
        ),
        (Point::GuestStopped, Event::Done) => {
            (Changing { at: Point::StageSaved, ..c }, Step::SaveStorage(StorageSave::OperationStage(Stage::Verified)))
        },
        _ => do_change_end(c, Outcome::Failed),
    }
}

/// The verified operation is completed.
pub open spec fn finish_after(c: Changing, e: Event) -> (Changing, Step) {
    match (c.at, e) {
        (Point::Placed, Event::Done) => (
            Changing { at: Point::RelocationCleaned, ..c },
            Step::CleanRelocation,
        ),
        (Point::RelocationCleaned, Event::Done) => {
            (Changing { at: Point::Saved, ..c }, Step::SaveStorage(StorageSave::OperationFinished))
        },
        (Point::Saved, Event::Done) => (
            Changing { at: Point::CopiesCleaned, ..c },
            Step::CleanCopies,
        ),
        (Point::CopiesCleaned, _) => (
            Changing { at: Point::EndTold, ..c },
            Step::Tell(Notice::StorageUpdated),
        ),
        (Point::EndTold, Event::Done) => change_end(c, Outcome::Done),
        _ => change_end(c, Outcome::Failed),
    }
}

/// The verified operation is completed.
fn do_finish_after(c: Changing, e: Event) -> (r: (Changing, Step))
    ensures
        r == finish_after(c, e),
{
    match (c.at, e) {
        (Point::Placed, Event::Done) => (
            Changing { at: Point::RelocationCleaned, ..c },
            Step::CleanRelocation,
        ),
        (Point::RelocationCleaned, Event::Done) => {
            (Changing { at: Point::Saved, ..c }, Step::SaveStorage(StorageSave::OperationFinished))
        },
        (Point::Saved, Event::Done) => (
            Changing { at: Point::CopiesCleaned, ..c },
            Step::CleanCopies,
        ),
        (Point::CopiesCleaned, _) => (
            Changing { at: Point::EndTold, ..c },
            Step::Tell(Notice::StorageUpdated),
        ),
        (Point::EndTold, Event::Done) => do_change_end(c, Outcome::Done),
        _ => do_change_end(c, Outcome::Failed),
    }
}

/// What a stage begins with.
pub open spec fn stage_begin(c: Changing, j: Change) -> (Changing, Step) {
    match j.stage {
        Some(Stage::Pending) => if j.moves_vm {
            checked_next(Changing { disk: 0, ..c }, j)
        } else {
            (Changing { at: Point::StorageValid, ..c }, Step::ValidateStorage)
        },
        Some(Stage::Disks) => if c.worker.stopped {
            (Changing { at: Point::FilesTold, ..c }, Step::Tell(Notice::StorageFiles))
        } else {
            change_refused(c, Refusal::FilesNeedStop)
        },
        Some(Stage::Guest) => (
            Changing { at: Point::ApplyTold, ..c },
            Step::Tell(Notice::StorageApplying),
        ),
        Some(Stage::Verified) => if !c.worker.stopped {
            change_refused(c, Refusal::CompletionNeedsStop)
        } else if j.has_layout {
            (Changing { at: Point::Placed, ..c }, Step::VerifyPlacement)
        } else {
            (Changing { at: Point::RelocationCleaned, ..c }, Step::CleanRelocation)
        },
        None => change_refused(c, Refusal::InvalidOperation),
    }
}

/// What a stage begins with.
fn do_stage_begin(c: Changing, j: Change) -> (r: (Changing, Step))
    ensures
        r == stage_begin(c, j),
{
    match j.stage {
        Some(Stage::Pending) => if j.moves_vm {
            do_checked_next(Changing { disk: 0, ..c }, j)
        } else {
            (Changing { at: Point::StorageValid, ..c }, Step::ValidateStorage)
        },
        Some(Stage::Disks) => if c.worker.stopped {
            (Changing { at: Point::FilesTold, ..c }, Step::Tell(Notice::StorageFiles))
        } else {
            do_change_refused(c, Refusal::FilesNeedStop)
        },
        Some(Stage::Guest) => (
            Changing { at: Point::ApplyTold, ..c },
            Step::Tell(Notice::StorageApplying),
        ),
        Some(Stage::Verified) => if !c.worker.stopped {
            do_change_refused(c, Refusal::CompletionNeedsStop)
        } else if j.has_layout {
            (Changing { at: Point::Placed, ..c }, Step::VerifyPlacement)
        } else {
            (Changing { at: Point::RelocationCleaned, ..c }, Step::CleanRelocation)
        },
        None => do_change_refused(c, Refusal::InvalidOperation),
    }
}

/// The beginning of every step: without the controller's ear the worker stops.
pub open spec fn open_after(c: Changing, j: Change, e: Event) -> (Changing, Step) {
    match (c.at, e) {
        (Point::Receipt, Event::Answer(receipt)) => if !receipt {
            change_refused(c, Refusal::NoReceipt)
        } else if j.targets == 0 || j.targets > 16 || j.stage.is_none() {
            change_refused(c, Refusal::InvalidOperation)
        } else {
            (Changing { at: Point::Ready, ..c }, Step::Preflight)
        },
        (Point::Ready, Event::Done) => (Changing { at: Point::Seen, ..c }, Step::Inspect),
        (Point::Seen, Event::Worker(w)) => if !w.installed {
            change_refused(Changing { worker: w, ..c }, Refusal::WorkerUnavailable)
        } else if j.paused {
            (
                Changing { at: Point::PausedTold, worker: w, ..c },
                Step::Tell(Notice::MaintenancePaused),
            )
        } else {
            (
                Changing { at: Point::Told, worker: w, ..c },
                Step::Tell(Notice::StorageMaintenance),
            )
        },
        (Point::Told, Event::Done) => (Changing { at: Point::Beaten, ..c }, Step::Heartbeat),
        (Point::Beaten, Event::Done) => stage_begin(Changing { beaten: true, ..c }, j),
        (Point::Beaten, Event::Failed) => (Changing { at: Point::Unheard, ..c }, Step::Hold),
        (Point::Unheard, Event::Done) => if c.worker.running {
            (Changing { at: Point::UnheardStopped, ..c }, Step::Run(VmTask::StopNow))
        } else {
            change_end(c, Outcome::Held)
        },
        (Point::UnheardStopped, Event::Done) => {
            (Changing { at: Point::UnheardNoted, ..c }, Step::Note(Memory::WorkerStopped))
        },
        (Point::UnheardNoted, Event::Done) => change_end(c, Outcome::Held),
        _ => change_end(c, Outcome::Failed),
    }
}

/// The beginning of every step: without the controller's ear the worker stops.
fn do_open_after(c: Changing, j: Change, e: Event) -> (r: (Changing, Step))
    ensures
        r == open_after(c, j, e),
{
    match (c.at, e) {
        (Point::Receipt, Event::Answer(receipt)) => if !receipt {
            do_change_refused(c, Refusal::NoReceipt)
        } else if j.targets == 0 || j.targets > 16 || j.stage.is_none() {
            do_change_refused(c, Refusal::InvalidOperation)
        } else {
            (Changing { at: Point::Ready, ..c }, Step::Preflight)
        },
        (Point::Ready, Event::Done) => (Changing { at: Point::Seen, ..c }, Step::Inspect),
        (Point::Seen, Event::Worker(w)) => if !w.installed {
            do_change_refused(Changing { worker: w, ..c }, Refusal::WorkerUnavailable)
        } else if j.paused {
            (
                Changing { at: Point::PausedTold, worker: w, ..c },
                Step::Tell(Notice::MaintenancePaused),
            )
        } else {
            (
                Changing { at: Point::Told, worker: w, ..c },
                Step::Tell(Notice::StorageMaintenance),
            )
        },
        (Point::Told, Event::Done) => (Changing { at: Point::Beaten, ..c }, Step::Heartbeat),
        (Point::Beaten, Event::Done) => do_stage_begin(Changing { beaten: true, ..c }, j),
        (Point::Beaten, Event::Failed) => (Changing { at: Point::Unheard, ..c }, Step::Hold),
        (Point::Unheard, Event::Done) => if c.worker.running {
            (Changing { at: Point::UnheardStopped, ..c }, Step::Run(VmTask::StopNow))
        } else {
            do_change_end(c, Outcome::Held)
        },
        (Point::UnheardStopped, Event::Done) => {
            (Changing { at: Point::UnheardNoted, ..c }, Step::Note(Memory::WorkerStopped))
        },
        (Point::UnheardNoted, Event::Done) => do_change_end(c, Outcome::Held),
        _ => do_change_end(c, Outcome::Failed),
    }
}

/// What a step of an operation makes of an answer.
pub open spec fn change_after(c: Changing, e: Event) -> (Changing, Step) {
    match (c.at, e, c.change) {
        (Point::Start, Event::Begin, _) => (Changing { at: Point::Receipt, ..c }, Step::Receipt),
        (Point::Start, _, _) => change_end(c, Outcome::Failed),
        (Point::Receipt, Event::Answer(receipt), None) => if receipt {
            change_refused(c, Refusal::NoStorageChange)
        } else {
            change_refused(c, Refusal::NoReceipt)
        },
        (_, _, None) => change_end(c, Outcome::Failed),
        (_, _, Some(j)) => match c.at {
            Point::Receipt | Point::Ready | Point::Seen | Point::Told | Point::Beaten
            | Point::Unheard | Point::UnheardStopped | Point::UnheardNoted => open_after(c, j, e),
            Point::PausedTold | Point::PausedBeat | Point::PausedCut | Point::PausedBegun
            | Point::PausedAsked | Point::PausedLease | Point::PausedCounted | Point::PausedLoaded
            | Point::PausedStopped | Point::PausedCleared | Point::PausedEnd => paused_after(
                c,
                j,
                e,
            ),
            Point::DiskValid | Point::StorageValid | Point::DrainAsked | Point::PodsNoted
            | Point::WaitTold | Point::DrainBegun | Point::DrainLease | Point::DrainCounted
            | Point::CountNoted | Point::DrainLoaded | Point::Quiesced | Point::Stopped
            | Point::DrainCleared | Point::StageSaved => pending_after(c, j, e),
            Point::FilesTold | Point::TargetsValid | Point::Relocated | Point::DiskSeen
            | Point::DiskRelated | Point::DiskMade | Point::MovedSeen | Point::MoveStaged
            | Point::MoveCommitted | Point::Configured => disks_after(c, j, e),
            Point::ApplyTold | Point::ChangedValid | Point::GuestDiskSeen | Point::GuestStarted
            | Point::GuestReady | Point::Applied | Point::Migrated | Point::PoolRead
            | Point::PoolChecked | Point::Bootstrapped | Point::Joined | Point::Rechecked
            | Point::GuestStopped => guest_after(c, j, e),
            _ => finish_after(c, e),
        },
    }
}

/// What a step of an operation makes of an answer.
fn do_change_after(c: Changing, e: Event) -> (r: (Changing, Step))
    ensures
        r == change_after(c, e),
{
    match (c.at, e, c.change) {
        (Point::Start, Event::Begin, _) => (Changing { at: Point::Receipt, ..c }, Step::Receipt),
        (Point::Start, _, _) => do_change_end(c, Outcome::Failed),
        (Point::Receipt, Event::Answer(receipt), None) => if receipt {
            do_change_refused(c, Refusal::NoStorageChange)
        } else {
            do_change_refused(c, Refusal::NoReceipt)
        },
        (_, _, None) => do_change_end(c, Outcome::Failed),
        (_, _, Some(j)) => match c.at {
            Point::Receipt | Point::Ready | Point::Seen | Point::Told | Point::Beaten
            | Point::Unheard | Point::UnheardStopped | Point::UnheardNoted => do_open_after(
                c,
                j,
                e,
            ),
            Point::PausedTold | Point::PausedBeat | Point::PausedCut | Point::PausedBegun
            | Point::PausedAsked | Point::PausedLease | Point::PausedCounted | Point::PausedLoaded
            | Point::PausedStopped | Point::PausedCleared | Point::PausedEnd => do_paused_after(
                c,
                j,
                e,
            ),
            Point::DiskValid | Point::StorageValid | Point::DrainAsked | Point::PodsNoted
            | Point::WaitTold | Point::DrainBegun | Point::DrainLease | Point::DrainCounted
            | Point::CountNoted | Point::DrainLoaded | Point::Quiesced | Point::Stopped
            | Point::DrainCleared | Point::StageSaved => do_pending_after(c, j, e),
            Point::FilesTold | Point::TargetsValid | Point::Relocated | Point::DiskSeen
            | Point::DiskRelated | Point::DiskMade | Point::MovedSeen | Point::MoveStaged
            | Point::MoveCommitted | Point::Configured => do_disks_after(c, j, e),
            Point::ApplyTold | Point::ChangedValid | Point::GuestDiskSeen | Point::GuestStarted
            | Point::GuestReady | Point::Applied | Point::Migrated | Point::PoolRead
            | Point::PoolChecked | Point::Bootstrapped | Point::Joined | Point::Rechecked
            | Point::GuestStopped => do_guest_after(c, j, e),
            _ => do_finish_after(c, e),
        },
    }
}

/// A step that has not begun.
pub open spec fn fresh_change(change: Option<Change>) -> Changing {
    Changing {
        at: Point::Start,
        change,
        worker: nothing(),
        beaten: false,
        busy: false,
        disk: 0,
        grows: false,
    }
}

impl Changing {
    /// A step of the operation, which has not begun.
    pub fn new(change: Option<Change>) -> (r: Self)
        ensures
            r == fresh_change(change),
    {
        Changing {
            at: Point::Start,
            change,
            worker: no_sight(),
            beaten: false,
            busy: false,
            disk: 0,
            grows: false,
        }
    }

    /// What a step of an operation makes of an answer, and what it asks for next.
    pub fn next(self, e: Event) -> (r: (Changing, Step))
        ensures
            r == change_after(self, e),
    {
        do_change_after(self, e)
    }
}

/// Whether a step touches a disk.
pub open spec fn touches_disks(s: Step) -> bool {
    s is CreateDisk || s is GrowDisk || s is StageMove || s is CommitMove || s is GrowMoved
        || s is ConfigureStorage || s is RelocateRuntime
}

/// The points at which disks are worked on.
pub open spec fn at_disks(at: Point) -> bool {
    match at {
        Point::FilesTold | Point::TargetsValid | Point::Relocated | Point::DiskSeen
        | Point::DiskRelated | Point::DiskMade | Point::MovedSeen | Point::MoveStaged
        | Point::MoveCommitted | Point::Configured => true,
        _ => false,
    }
}

/// What holds at each point: disks are worked on with the worker stopped and
/// the controller told.
pub open spec fn orderly(c: Changing) -> bool {
    at_disks(c.at) ==> c.worker.stopped && c.beaten
}

/// Disks are created, grown and moved only while the worker is stopped and
/// after the controller heard that it takes no work.
#[verifier::rlimit(80)]
#[verifier::spinoff_prover]
pub proof fn disks_change_under_a_stopped_worker(c: Changing, e: Event)
    requires
        orderly(c),
    ensures
        orderly(change_after(c, e).0),
        touches_disks(change_after(c, e).1) ==> c.worker.stopped && c.beaten,
{
    match c.at {
        Point::Receipt | Point::Ready | Point::Seen | Point::Told | Point::Beaten | Point::Unheard
        | Point::UnheardStopped | Point::UnheardNoted => {},
        Point::PausedTold | Point::PausedBeat | Point::PausedCut | Point::PausedBegun
        | Point::PausedAsked | Point::PausedLease | Point::PausedCounted | Point::PausedLoaded
        | Point::PausedStopped | Point::PausedCleared | Point::PausedEnd => {},
        Point::DiskValid | Point::StorageValid | Point::DrainAsked | Point::PodsNoted
        | Point::WaitTold | Point::DrainBegun | Point::DrainLease | Point::DrainCounted
        | Point::CountNoted | Point::DrainLoaded | Point::Quiesced | Point::Stopped
        | Point::DrainCleared | Point::StageSaved => {},
        Point::FilesTold | Point::TargetsValid | Point::Relocated | Point::DiskSeen
        | Point::DiskRelated | Point::DiskMade | Point::MovedSeen | Point::MoveStaged
        | Point::MoveCommitted | Point::Configured => {},
        Point::ApplyTold | Point::ChangedValid | Point::GuestDiskSeen | Point::GuestStarted
        | Point::GuestReady | Point::Applied | Point::Migrated | Point::PoolRead
        | Point::PoolChecked | Point::Bootstrapped | Point::Joined | Point::Rechecked
        | Point::GuestStopped => {},
        _ => {},
    }
}

/// A step begins in order.
pub proof fn changes_begin_in_order(change: Option<Change>)
    ensures
        orderly(fresh_change(change)),
{
}

/// The operation is recorded as finished only from its verified stage, and with
/// the worker stopped.
pub open spec fn finishing(c: Changing) -> bool {
    match c.at {
        Point::Placed | Point::RelocationCleaned => c.worker.stopped && (c.change matches Some(j)
            && j.stage == Some(Stage::Verified)),
        _ => true,
    }
}

/// Only a verified operation is completed.
#[verifier::rlimit(80)]
#[verifier::spinoff_prover]
pub proof fn only_verified_changes_complete(c: Changing, e: Event)
    requires
        finishing(c),
    ensures
        finishing(change_after(c, e).0),
        change_after(c, e).1 == Step::SaveStorage(StorageSave::OperationFinished)
            ==> c.worker.stopped && (c.change matches Some(j) && j.stage == Some(Stage::Verified)),
{
    match c.at {
        Point::Receipt | Point::Ready | Point::Seen | Point::Told | Point::Beaten | Point::Unheard
        | Point::UnheardStopped | Point::UnheardNoted => {},
        Point::PausedTold | Point::PausedBeat | Point::PausedCut | Point::PausedBegun
        | Point::PausedAsked | Point::PausedLease | Point::PausedCounted | Point::PausedLoaded
        | Point::PausedStopped | Point::PausedCleared | Point::PausedEnd => {},
        Point::DiskValid | Point::StorageValid | Point::DrainAsked | Point::PodsNoted
        | Point::WaitTold | Point::DrainBegun | Point::DrainLease | Point::DrainCounted
        | Point::CountNoted | Point::DrainLoaded | Point::Quiesced | Point::Stopped
        | Point::DrainCleared | Point::StageSaved => {},
        Point::FilesTold | Point::TargetsValid | Point::Relocated | Point::DiskSeen
        | Point::DiskRelated | Point::DiskMade | Point::MovedSeen | Point::MoveStaged
        | Point::MoveCommitted | Point::Configured => {},
        Point::ApplyTold | Point::ChangedValid | Point::GuestDiskSeen | Point::GuestStarted
        | Point::GuestReady | Point::Applied | Point::Migrated | Point::PoolRead
        | Point::PoolChecked | Point::Bootstrapped | Point::Joined | Point::Rechecked
        | Point::GuestStopped => {},
        _ => {},
    }
}

} // verus!
