//! Storage that disappears, as a machine: the worker stops, and goes on only on
//! its original pool or, where the owner wants that, on a rebuilt one.
use crate::agent::steps::{
    Event, Memory, Notice, Outcome, PoolTask, Route, Step, StorageSave, VmTask,
};
use crate::failure::{fail, refusal, Failure};
use crate::storage::{
    holds_location, location_views, Location, LocationStatus, LocationStatusView, LocationView,
};
use crate::storage_lifecycle::{lemma_filter_push, recovery_decision, RecoveryDecision};
use crate::store::{Configuration, ConfigurationView};
use crate::text;
use crate::values::contents;
use vstd::prelude::*;

verus! {

/// The settings, as far as missing storage is decided on them, at a time.
#[derive(Clone, Copy, Debug, PartialEq, Eq, Structural)]
pub struct Stock {
    /// The worker has disks of its own that were in use.
    pub in_use: bool,
    pub recorded: bool,
    pub last_check: u64,
    pub failed: bool,
    pub sharing: bool,
    pub now: u64,
}

pub open spec fn stock_of(c: ConfigurationView, now: u64) -> Stock {
    Stock {
        in_use: c.storage_generation != 0 && c.storage_locations.len() > 0
            && !c.storage_lifecycle.initializing,
        recorded: c.storage_lifecycle.missing is Some,
        last_check: match c.storage_lifecycle.missing {
            Some(m) => m.last_check,
            None => 0,
        },
        failed: match c.storage_lifecycle.missing {
            Some(m) => m.error is Some,
            None => false,
        },
        sharing: c.policy.enabled,
        now,
    }
}

/// The settings, as far as missing storage is decided on them, at a time.
pub fn stock(config: &Configuration, now: u64) -> (r: Stock)
    ensures
        r == stock_of(config@, now),
{
    Stock {
        in_use: config.storage_generation != 0 && config.storage_locations.len() > 0
            && !config.storage_lifecycle.initializing,
        recorded: config.storage_lifecycle.missing.is_some(),
        last_check: match &config.storage_lifecycle.missing {
            Some(m) => m.last_check,
            None => 0,
        },
        failed: match &config.storage_lifecycle.missing {
            Some(m) => m.error.is_some(),
            None => false,
        },
        sharing: config.policy.enabled,
        now,
    }
}

/// Whether the storage was looked for a moment ago.
pub open spec fn too_soon(s: Stock) -> bool {
    s.recorded && s.now < s.last_check + 10
}

/// Whether the storage was looked for a moment ago.
pub fn is_too_soon(s: Stock) -> (r: bool)
    ensures
        r == too_soon(s),
{
    s.recorded && s.now.saturating_sub(s.last_check) < 10
}

/// Where the look for missing storage stands.
#[derive(Clone, Copy, Debug, PartialEq, Eq, Structural)]
pub enum Gap {
    Start,
    Found,
    Receipt,
    Seen,
    Stopped,
    Noted,
    Told,
    Saved,
    Beaten,
    Valid,
    Started,
    GuestReady,
    Activated,
    PoolChecked,
    Bootstrapped,
    Configured,
    Returned,
    Failing,
    FailureSeen,
    FailureStopped,
    FailureSaved,
    Decided,
    Planned,
    RecoverySaved,
    RestTold,
    Over,
}

/// The look for missing storage under way.
#[derive(Clone, Copy, Debug, PartialEq, Eq, Structural)]
pub struct Absence {
    pub at: Gap,
    pub stock: Stock,
    /// How many disks are not there.
    pub missing: usize,
    /// Whether the worker is known not to run.
    pub stopped: bool,
}

/// The look is over; the answer tells whether the tick is.
pub open spec fn absence_end(a: Absence, outcome: Outcome) -> (Absence, Step) {
    (Absence { at: Gap::Over, ..a }, Step::Finish(outcome))
}

/// The look is over; the answer tells whether the tick is.
fn do_absence_end(a: Absence, outcome: Outcome) -> (r: (Absence, Step))
    ensures
        r == absence_end(a, outcome),
{
    (Absence { at: Gap::Over, ..a }, Step::Finish(outcome))
}

/// The worker does not run.
pub open spec fn absence_stopped(a: Absence) -> (Absence, Step) {
    (Absence { at: Gap::Noted, stopped: true, ..a }, Step::Note(Memory::WorkerStopped))
}

/// The worker does not run.
fn do_absence_stopped(a: Absence) -> (r: (Absence, Step))
    ensures
        r == absence_stopped(a),
{
    (Absence { at: Gap::Noted, stopped: true, ..a }, Step::Note(Memory::WorkerStopped))
}

/// The returned pool is not valid. It is left stopped for the owner's inspection.
pub open spec fn return_failed(a: Absence) -> (Absence, Step) {
    (Absence { at: Gap::Failing, ..a }, Step::Hold)
}

/// The returned pool is not valid. It is left stopped for the owner's inspection.
fn do_return_failed(a: Absence) -> (r: (Absence, Step))
    ensures
        r == return_failed(a),
{
    (Absence { at: Gap::Failing, ..a }, Step::Hold)
}

/// All disks are back: the original pool is started and checked, with no forced
/// activation and no repair.
pub open spec fn return_after(a: Absence, e: Event) -> (Absence, Step) {
    match (a.at, e) {
        (Gap::Valid, Event::Done) => (Absence { at: Gap::Started, ..a }, Step::Run(VmTask::Start)),
        (Gap::Started, Event::Done) => (
            Absence { at: Gap::GuestReady, ..a },
            Step::Run(VmTask::PrepareStorage),
        ),
        (Gap::GuestReady, Event::Done) => (
            Absence { at: Gap::Activated, ..a },
            Step::Pool(PoolTask::Activate),
        ),
        (Gap::Activated, Event::Done) => (Absence { at: Gap::PoolChecked, ..a }, Step::CheckPool),
        (Gap::PoolChecked, Event::Done) => (
            Absence { at: Gap::Bootstrapped, ..a },
            Step::Ask(Route::Bootstrap),
        ),
        (Gap::Bootstrapped, Event::Done) => (
            Absence { at: Gap::Configured, ..a },
            Step::Run(VmTask::Configure),
        ),
        (Gap::Configured, Event::Done) => {
            (Absence { at: Gap::Returned, ..a }, Step::SaveStorage(StorageSave::StorageReturned))
        },
        _ => return_failed(a),
    }
}

/// All disks are back: the original pool is started and checked, with no forced
/// activation and no repair.
fn do_return_after(a: Absence, e: Event) -> (r: (Absence, Step))
    ensures
        r == return_after(a, e),
{
    match (a.at, e) {
        (Gap::Valid, Event::Done) => (Absence { at: Gap::Started, ..a }, Step::Run(VmTask::Start)),
        (Gap::Started, Event::Done) => (
            Absence { at: Gap::GuestReady, ..a },
            Step::Run(VmTask::PrepareStorage),
        ),
        (Gap::GuestReady, Event::Done) => (
            Absence { at: Gap::Activated, ..a },
            Step::Pool(PoolTask::Activate),
        ),
        (Gap::Activated, Event::Done) => (Absence { at: Gap::PoolChecked, ..a }, Step::CheckPool),
        (Gap::PoolChecked, Event::Done) => (
            Absence { at: Gap::Bootstrapped, ..a },
            Step::Ask(Route::Bootstrap),
        ),
        (Gap::Bootstrapped, Event::Done) => (
            Absence { at: Gap::Configured, ..a },
            Step::Run(VmTask::Configure),
        ),
        (Gap::Configured, Event::Done) => {
            (Absence { at: Gap::Returned, ..a }, Step::SaveStorage(StorageSave::StorageReturned))
        },
        _ => do_return_failed(a),
    }
}

/// What is done about disks that stay away.
pub open spec fn recovery_after(a: Absence, decision: RecoveryDecision) -> (Absence, Step) {
    match decision {
        RecoveryDecision::Rebuild => (Absence { at: Gap::Planned, ..a }, Step::PlanRebuild),
        RecoveryDecision::Insufficient => (
            Absence { at: Gap::RestTold, ..a },
            Step::TellInsufficient,
        ),
        RecoveryDecision::Paused => (
            Absence { at: Gap::RestTold, ..a },
            Step::Tell(Notice::RecoveryPaused),
        ),
        RecoveryDecision::Wait => absence_end(a, Outcome::Answer(true)),
        RecoveryDecision::Failed => absence_end(a, Outcome::Answer(true)),
    }
}

/// What is done about disks that stay away.
fn do_recovery_after(a: Absence, decision: RecoveryDecision) -> (r: (Absence, Step))
    ensures
        r == recovery_after(a, decision),
{
    match decision {
        RecoveryDecision::Rebuild => (Absence { at: Gap::Planned, ..a }, Step::PlanRebuild),
        RecoveryDecision::Insufficient => (
            Absence { at: Gap::RestTold, ..a },
            Step::TellInsufficient,
        ),
        RecoveryDecision::Paused => (
            Absence { at: Gap::RestTold, ..a },
            Step::Tell(Notice::RecoveryPaused),
        ),
        RecoveryDecision::Wait => do_absence_end(a, Outcome::Answer(true)),
        RecoveryDecision::Failed => do_absence_end(a, Outcome::Answer(true)),
    }
}

/// What the look for missing storage makes of an answer. The stopped worker stays
/// stopped until the controller heard that it takes no work.
pub open spec fn absence_after(a: Absence, e: Event) -> (Absence, Step) {
    match (a.at, e) {
        (Gap::Start, Event::Begin) => if !a.stock.in_use {
            absence_end(a, Outcome::Answer(false))
        } else if too_soon(a.stock) {
            absence_end(a, Outcome::Answer(true))
        } else {
            (Absence { at: Gap::Found, ..a }, Step::FindMissing)
        },
        (Gap::Found, Event::Found(n)) => if n == 0 && !a.stock.recorded {
            absence_end(Absence { missing: n, ..a }, Outcome::Answer(false))
        } else {
            (Absence { at: Gap::Receipt, missing: n, ..a }, Step::Receipt)
        },
        (Gap::Receipt, Event::Answer(receipt)) => if receipt {
            (Absence { at: Gap::Seen, ..a }, Step::Look)
        } else {
            absence_stopped(a)
        },
        (Gap::Seen, Event::Worker(w)) => if w.running {
            (Absence { at: Gap::Stopped, ..a }, Step::Run(VmTask::StopNow))
        } else {
            absence_stopped(a)
        },
        (Gap::Stopped, Event::Done) => absence_stopped(a),
        (Gap::Noted, Event::Done) => (
            Absence { at: Gap::Told, ..a },
            Step::Tell(Notice::StorageMissing),
        ),
        (Gap::Told, Event::Done) => {
            (Absence { at: Gap::Saved, ..a }, Step::SaveStorage(StorageSave::StorageMissing))
        },
        (Gap::Saved, Event::Done) => (Absence { at: Gap::Beaten, ..a }, Step::Heartbeat),
        (Gap::Beaten, Event::Done) => if a.missing > 0 {
            (Absence { at: Gap::Decided, ..a }, Step::DecideRecovery)
        } else if !a.stock.sharing || a.stock.failed {
            absence_end(a, Outcome::Answer(true))
        } else {
            (Absence { at: Gap::Valid, ..a }, Step::ValidateStorage)
        },
        (Gap::Valid, _) => return_after(a, e),
        (Gap::Started, _) => return_after(a, e),
        (Gap::GuestReady, _) => return_after(a, e),
        (Gap::Activated, _) => return_after(a, e),
        (Gap::PoolChecked, _) => return_after(a, e),
        (Gap::Bootstrapped, _) => return_after(a, e),
        (Gap::Configured, _) => return_after(a, e),
        (Gap::Returned, Event::Done) => absence_end(a, Outcome::Answer(true)),
        (Gap::Failing, Event::Done) => (Absence { at: Gap::FailureSeen, ..a }, Step::Look),
        (Gap::FailureSeen, Event::Worker(w)) => if w.running {
            (Absence { at: Gap::FailureStopped, ..a }, Step::Run(VmTask::StopNow))
        } else {
            (Absence { at: Gap::FailureSaved, ..a }, Step::SaveStorage(StorageSave::ReturnFailed))
        },
        (Gap::FailureStopped, Event::Done) => {
            (Absence { at: Gap::FailureSaved, ..a }, Step::SaveStorage(StorageSave::ReturnFailed))
        },
        (Gap::FailureSaved, Event::Done) => absence_end(a, Outcome::Held),
        (Gap::Decided, Event::Recovery(decision)) => recovery_after(a, decision),
        (Gap::Planned, Event::Done) => {
            (Absence { at: Gap::RecoverySaved, ..a }, Step::SaveStorage(StorageSave::RecoveryBegun))
        },
        (Gap::RecoverySaved, Event::Done) => absence_end(a, Outcome::Answer(true)),
        (Gap::RestTold, Event::Done) => absence_end(a, Outcome::Answer(true)),
        _ => absence_end(a, Outcome::Failed),
    }
}

/// What the look for missing storage makes of an answer. The stopped worker stays
/// stopped until the controller heard that it takes no work.
fn do_absence_after(a: Absence, e: Event) -> (r: (Absence, Step))
    ensures
        r == absence_after(a, e),
{
    match (a.at, e) {
        (Gap::Start, Event::Begin) => if !a.stock.in_use {
            do_absence_end(a, Outcome::Answer(false))
        } else if is_too_soon(a.stock) {
            do_absence_end(a, Outcome::Answer(true))
        } else {
            (Absence { at: Gap::Found, ..a }, Step::FindMissing)
        },
        (Gap::Found, Event::Found(n)) => if n == 0 && !a.stock.recorded {
            do_absence_end(Absence { missing: n, ..a }, Outcome::Answer(false))
        } else {
            (Absence { at: Gap::Receipt, missing: n, ..a }, Step::Receipt)
        },
        (Gap::Receipt, Event::Answer(receipt)) => if receipt {
            (Absence { at: Gap::Seen, ..a }, Step::Look)
        } else {
            do_absence_stopped(a)
        },
        (Gap::Seen, Event::Worker(w)) => if w.running {
            (Absence { at: Gap::Stopped, ..a }, Step::Run(VmTask::StopNow))
        } else {
            do_absence_stopped(a)
        },
        (Gap::Stopped, Event::Done) => do_absence_stopped(a),
        (Gap::Noted, Event::Done) => (
            Absence { at: Gap::Told, ..a },
            Step::Tell(Notice::StorageMissing),
        ),
        (Gap::Told, Event::Done) => {
            (Absence { at: Gap::Saved, ..a }, Step::SaveStorage(StorageSave::StorageMissing))
        },
        (Gap::Saved, Event::Done) => (Absence { at: Gap::Beaten, ..a }, Step::Heartbeat),
        (Gap::Beaten, Event::Done) => if a.missing > 0 {
            (Absence { at: Gap::Decided, ..a }, Step::DecideRecovery)
        } else if !a.stock.sharing || a.stock.failed {
            do_absence_end(a, Outcome::Answer(true))
        } else {
            (Absence { at: Gap::Valid, ..a }, Step::ValidateStorage)
        },
        (Gap::Valid, _) => do_return_after(a, e),
        (Gap::Started, _) => do_return_after(a, e),
        (Gap::GuestReady, _) => do_return_after(a, e),
        (Gap::Activated, _) => do_return_after(a, e),
        (Gap::PoolChecked, _) => do_return_after(a, e),
        (Gap::Bootstrapped, _) => do_return_after(a, e),
        (Gap::Configured, _) => do_return_after(a, e),
        (Gap::Returned, Event::Done) => do_absence_end(a, Outcome::Answer(true)),
        (Gap::Failing, Event::Done) => (Absence { at: Gap::FailureSeen, ..a }, Step::Look),
        (Gap::FailureSeen, Event::Worker(w)) => if w.running {
            (Absence { at: Gap::FailureStopped, ..a }, Step::Run(VmTask::StopNow))
        } else {
            (Absence { at: Gap::FailureSaved, ..a }, Step::SaveStorage(StorageSave::ReturnFailed))
        },
        (Gap::FailureStopped, Event::Done) => {
            (Absence { at: Gap::FailureSaved, ..a }, Step::SaveStorage(StorageSave::ReturnFailed))
        },
        (Gap::FailureSaved, Event::Done) => do_absence_end(a, Outcome::Held),
        (Gap::Decided, Event::Recovery(decision)) => do_recovery_after(a, decision),
        (Gap::Planned, Event::Done) => {
            (Absence { at: Gap::RecoverySaved, ..a }, Step::SaveStorage(StorageSave::RecoveryBegun))
        },
        (Gap::RecoverySaved, Event::Done) => do_absence_end(a, Outcome::Answer(true)),
        (Gap::RestTold, Event::Done) => do_absence_end(a, Outcome::Answer(true)),
        _ => do_absence_end(a, Outcome::Failed),
    }
}

/// A look that has not begun.
pub open spec fn fresh_absence(stock: Stock) -> Absence {
    Absence { at: Gap::Start, stock, missing: 0, stopped: false }
}

impl Absence {
    /// A look that has not begun.
    pub fn new(stock: Stock) -> (r: Self)
        ensures
            r == fresh_absence(stock),
    {
        Absence { at: Gap::Start, stock, missing: 0, stopped: false }
    }

    /// What the look for missing storage makes of an answer, and what it asks for
    /// next.
    pub fn next(self, e: Event) -> (r: (Absence, Step))
        ensures
            r == absence_after(self, e),
    {
        do_absence_after(self, e)
    }
}

/// What holds at each point of the look.
pub open spec fn careful(a: Absence) -> bool {
    match a.at {
        Gap::Noted | Gap::Told | Gap::Saved | Gap::Beaten => a.stopped,
        Gap::Valid | Gap::Started | Gap::GuestReady | Gap::Activated | Gap::PoolChecked
        | Gap::Bootstrapped | Gap::Configured => a.missing == 0 && a.stock.sharing
            && !a.stock.failed,
        Gap::Decided => a.stopped && a.missing > 0,
        Gap::Planned => a.stopped && a.missing > 0,
        _ => true,
    }
}

/// The worker is started again only when every disk is back, the owner shares
/// and no earlier return failed; and a rebuild is begun only with the worker
/// stopped, disks missing and the decision to rebuild.
pub proof fn workers_return_on_whole_storage(a: Absence, e: Event)
    requires
        careful(a),
    ensures
        careful(absence_after(a, e).0),
        absence_after(a, e).1 == Step::Run(VmTask::Start) ==> a.missing == 0 && a.stock.sharing
            && !a.stock.failed,
        absence_after(a, e).1 is PlanRebuild ==> a.stopped && a.missing > 0 && e
            == Event::Recovery(RecoveryDecision::Rebuild),
        absence_after(a, e).1 == Step::SaveStorage(StorageSave::RecoveryBegun) ==> a.at
            == Gap::Planned && e == Event::Done,
{
}

/// A look begins carefully.
pub proof fn looks_begin_carefully(stock: Stock)
    ensures
        careful(fresh_absence(stock)),
{
}

/// The first `n` disks without those that are available and in order. There is an
/// answer for each whether it is in order.
pub open spec fn missing_upto(statuses: Seq<LocationStatusView>, sound: Seq<bool>, n: int) -> Seq<
    LocationView,
>
    decreases n,
{
    if n <= 0 {
        Seq::empty()
    } else if statuses[n - 1].available && sound[n - 1] {
        missing_upto(statuses, sound, n - 1)
    } else {
        missing_upto(statuses, sound, n - 1).push(statuses[n - 1].location)
    }
}

/// The worker's disks that are missing: not available, or not in order.
pub fn missing_disks(statuses: &[LocationStatus], sound: &[bool]) -> (r: Vec<Location>)
    requires
        sound@.len() == statuses@.len(),
    ensures
        location_views(r@) == missing_upto(
            contents(statuses@),
            sound@,
            statuses@.len() as int,
        ),
{
    let ghost v = contents(statuses@);
    let mut r: Vec<Location> = Vec::new();
    assert(location_views(r@) =~= Seq::<LocationView>::empty());
    for i in 0..statuses.len()
        invariant
            v == contents(statuses@),
            sound@.len() == statuses@.len(),
            location_views(r@) == missing_upto(v, sound@, i as int),
    {
        assert(v[i as int] == statuses@[i as int]@);
        if !(statuses[i].available && sound[i]) {
            let ghost before = location_views(r@);
            r.push(statuses[i].location.clone());
            assert(location_views(r@) =~= before.push(v[i as int].location));
        }
    }
    r
}

/// The worker's disks without those that are missing.
pub open spec fn remaining_of(c: ConfigurationView, missing: Seq<LocationView>) -> Seq<
    LocationView,
> {
    c.storage_locations.filter(|l: LocationView| !missing.contains(l))
}

/// The worker's disks without those that are missing.
pub fn remaining_disks(config: &Configuration, missing: &[Location]) -> (r: Vec<Location>)
    ensures
        location_views(r@) == remaining_of(config@, location_views(missing@)),
{
    let ghost gone = location_views(missing@);
    let ghost keep = |l: LocationView| !gone.contains(l);
    let ghost c = config@.storage_locations;
    let mut r: Vec<Location> = Vec::new();
    assert(c.take(0).filter(keep) == Seq::<LocationView>::empty()) by {
        reveal(Seq::filter);
    }
    assert(location_views(r@) =~= c.take(0).filter(keep));
    for i in 0..config.storage_locations.len()
        invariant
            gone == location_views(missing@),
            keep == (|l: LocationView| !gone.contains(l)),
            c == location_views(config.storage_locations@),
            location_views(r@) == c.take(i as int).filter(keep),
    {
        assert(c.take(i + 1) =~= c.take(i as int).push(c[i as int]));
        assert(c[i as int] == config.storage_locations@[i as int]@);
        proof {
            lemma_filter_push(c.take(i as int), c[i as int], keep);
        }
        if !holds_location(missing, &config.storage_locations[i]) {
            let ghost before = location_views(r@);
            r.push(config.storage_locations[i].clone());
            assert(location_views(r@) =~= before.push(c[i as int]));
        }
    }
    assert(c.take(c.len() as int) =~= c);
    assert(remaining_of(config@, gone) == c.filter(keep));
    r
}

/// What is done about missing storage with what remains of it, in GiB.
pub fn decide_recovery(config: &Configuration, remaining_gib: u64, now: u64) -> (r: Result<
    RecoveryDecision,
    Failure,
>)
    ensures
        match config@.storage_lifecycle.missing {
            None => refusal(r) == Some("Missing recovery timing"@),
            Some(m) => r matches Ok(d) && {
                let allowed = config@.policy.enabled && !config@.application_update_pending;
                let waits = !config@.storage_lifecycle.recovery_enabled || now - m.since < 120;
                &&& d == RecoveryDecision::Paused <==> !allowed
                &&& d == RecoveryDecision::Failed <==> allowed && m.error is Some
                &&& d == RecoveryDecision::Wait <==> allowed && m.error is None && waits
                &&& d == RecoveryDecision::Insufficient <==> allowed && m.error is None && !waits
                    && remaining_gib < 15
                &&& d == RecoveryDecision::Rebuild <==> allowed && m.error is None && !waits
                    && remaining_gib >= 15
            },
        },
{
    match &config.storage_lifecycle.missing {
        None => Err(fail("Missing recovery timing")),
        Some(m) => Ok(
            recovery_decision(
                config.storage_lifecycle.recovery_enabled,
                config.policy.enabled && !config.application_update_pending,
                m.since,
                now,
                remaining_gib,
                m.error.is_some(),
            ),
        ),
    }
}

/// What the owner is told where too little storage remains.
pub fn insufficient_text(total: u64) -> (r: String)
    ensures
        r@ == "Only "@ + text::decimal(total as nat)
            + " GiB remains on selected disks; at least 15 GiB plus the host reserve is required. Reconnect the original storage."@,
{
    let number = text::decimal_text(total);
    text::join3(
        "Only ",
        number.as_str(),
        " GiB remains on selected disks; at least 15 GiB plus the host reserve is required. Reconnect the original storage.",
    )
}

} // verus!
