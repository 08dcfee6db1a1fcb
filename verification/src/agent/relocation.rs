//! Moves of the VM's runtime directory, as machines: the copy is verified before
//! it is used, and the original is removed only after that.
use crate::agent::steps::{Event, Notice, Outcome, Refusal, Step, StorageSave};
use crate::paths;
use crate::storage_layout::{runtime_home_of, Layout, LayoutView};
use crate::store::{Configuration, ConfigurationView};
use crate::values::Plain;
use vstd::prelude::*;

verus! {

/// A wanted move, as far as it is decided on.
#[derive(Clone, Copy, Debug, PartialEq, Eq, Structural)]
pub struct Trip {
    /// The layout is already in use.
    pub settled: bool,
    /// The VM already stands where the layout wants it.
    pub at_home: bool,
    /// The VM runtime is the host's own.
    pub native: bool,
}

pub open spec fn trip_of(
    c: ConfigurationView,
    target: LayoutView,
    settings: Seq<char>,
    native: bool,
) -> Trip {
    Trip {
        settled: c.storage_layout == Some(target),
        at_home: paths::same_path(runtime_home_of(c, settings), target.runtime_directory),
        native,
    }
}

/// The wanted move to a layout.
pub fn trip(config: &Configuration, target: &Layout, settings: &str, native: bool) -> (r: Trip)
    ensures
        r == trip_of(config@, target@, settings@, native),
{
    let settled = match &config.storage_layout {
        Some(layout) => layout.alike(target),
        None => false,
    };
    let home = config.runtime_home(settings);
    Trip {
        settled,
        at_home: paths::path_eq(home.as_str(), target.runtime_directory.as_str()),
        native,
    }
}

/// Where a move stands.
#[derive(Clone, Copy, Debug, PartialEq, Eq, Structural)]
pub enum Leg {
    Start,
    Receipt,
    Seen,
    HomeValid,
    HomeSaved,
    SourceKnown,
    Begun,
    Prepared,
    DestinationSeen,
    Told,
    Copied,
    Verified,
    Authorized,
    Switched,
    Over,
}

/// A move under way.
#[derive(Clone, Copy, Debug, PartialEq, Eq, Structural)]
pub struct Moving {
    pub at: Leg,
    pub trip: Trip,
    /// Whether the VM is known to be stopped.
    pub stopped: bool,
    /// Whether the copy was verified.
    pub verified: bool,
}

/// The move is over; the answer tells whether anything was moved.
pub open spec fn move_end(v: Moving, outcome: Outcome) -> (Moving, Step) {
    (Moving { at: Leg::Over, ..v }, Step::Finish(outcome))
}

/// The move is over; the answer tells whether anything was moved.
fn do_move_end(v: Moving, outcome: Outcome) -> (r: (Moving, Step))
    ensures
        r == move_end(v, outcome),
{
    (Moving { at: Leg::Over, ..v }, Step::Finish(outcome))
}

/// The copy: the original remains intact until it is verified.
pub open spec fn moved_after(v: Moving, e: Event) -> (Moving, Step) {
    match (v.at, e) {
        (Leg::SourceKnown, Event::Done) => {
            (Moving { at: Leg::Begun, ..v }, Step::SaveStorage(StorageSave::RelocationBegun))
        },
        (Leg::Begun, Event::Done) => if v.trip.native {
            (Moving { at: Leg::Prepared, ..v }, Step::PrepareHome)
        } else {
            (Moving { at: Leg::Told, ..v }, Step::Tell(Notice::MovingRuntime))
        },
        (Leg::Prepared, Event::Done) => (
            Moving { at: Leg::DestinationSeen, ..v },
            Step::InspectDestination,
        ),
        (Leg::DestinationSeen, Event::Worker(w)) => if w.installed && !w.stopped {
            move_end(v, Outcome::Refused(Refusal::DestinationNeedsStop))
        } else {
            (Moving { at: Leg::Told, ..v }, Step::Tell(Notice::MovingRuntime))
        },
        (Leg::Told, Event::Done) => (Moving { at: Leg::Copied, ..v }, Step::CopyRuntime),
        (Leg::Copied, Event::Done) => (Moving { at: Leg::Verified, ..v }, Step::VerifyPlacement),
        (Leg::Verified, Event::Done) => {
            (Moving { at: Leg::Authorized, verified: true, ..v }, Step::CheckAuthority)
        },
        (Leg::Authorized, Event::Done) => {
            (Moving { at: Leg::Switched, ..v }, Step::SaveStorage(StorageSave::RelocationSwitched))
        },
        (Leg::Switched, Event::Done) => move_end(v, Outcome::Answer(true)),
        _ => move_end(v, Outcome::Failed),
    }
}

/// The copy: the original remains intact until it is verified.
fn do_moved_after(v: Moving, e: Event) -> (r: (Moving, Step))
    ensures
        r == moved_after(v, e),
{
    match (v.at, e) {
        (Leg::SourceKnown, Event::Done) => {
            (Moving { at: Leg::Begun, ..v }, Step::SaveStorage(StorageSave::RelocationBegun))
        },
        (Leg::Begun, Event::Done) => if v.trip.native {
            (Moving { at: Leg::Prepared, ..v }, Step::PrepareHome)
        } else {
            (Moving { at: Leg::Told, ..v }, Step::Tell(Notice::MovingRuntime))
        },
        (Leg::Prepared, Event::Done) => (
            Moving { at: Leg::DestinationSeen, ..v },
            Step::InspectDestination,
        ),
        (Leg::DestinationSeen, Event::Worker(w)) => if w.installed && !w.stopped {
            do_move_end(v, Outcome::Refused(Refusal::DestinationNeedsStop))
        } else {
            (Moving { at: Leg::Told, ..v }, Step::Tell(Notice::MovingRuntime))
        },
        (Leg::Told, Event::Done) => (Moving { at: Leg::Copied, ..v }, Step::CopyRuntime),
        (Leg::Copied, Event::Done) => (Moving { at: Leg::Verified, ..v }, Step::VerifyPlacement),
        (Leg::Verified, Event::Done) => {
            (Moving { at: Leg::Authorized, verified: true, ..v }, Step::CheckAuthority)
        },
        (Leg::Authorized, Event::Done) => {
            (Moving { at: Leg::Switched, ..v }, Step::SaveStorage(StorageSave::RelocationSwitched))
        },
        (Leg::Switched, Event::Done) => do_move_end(v, Outcome::Answer(true)),
        _ => do_move_end(v, Outcome::Failed),
    }
}

/// What a move makes of an answer.
pub open spec fn move_after(v: Moving, e: Event) -> (Moving, Step) {
    match (v.at, e) {
        (Leg::Start, Event::Begin) => if v.trip.settled {
            move_end(v, Outcome::Answer(false))
        } else {
            (Moving { at: Leg::Receipt, ..v }, Step::Receipt)
        },
        (Leg::Receipt, Event::Answer(receipt)) => if receipt {
            (Moving { at: Leg::Seen, ..v }, Step::Look)
        } else {
            move_end(v, Outcome::Refused(Refusal::RelocationNeedsStop))
        },
        (Leg::Seen, Event::Worker(w)) => if !w.stopped {
            move_end(v, Outcome::Refused(Refusal::RelocationNeedsStop))
        } else if v.trip.at_home {
            (Moving { at: Leg::HomeValid, stopped: true, ..v }, Step::ValidateHome)
        } else {
            (Moving { at: Leg::SourceKnown, stopped: true, ..v }, Step::SourceVolume)
        },
        (Leg::HomeValid, Event::Done) => {
            (Moving { at: Leg::HomeSaved, ..v }, Step::SaveStorage(StorageSave::LayoutKept))
        },
        (Leg::HomeSaved, Event::Done) => move_end(v, Outcome::Answer(true)),
        _ => moved_after(v, e),
    }
}

/// What a move makes of an answer.
fn do_move_after(v: Moving, e: Event) -> (r: (Moving, Step))
    ensures
        r == move_after(v, e),
{
    match (v.at, e) {
        (Leg::Start, Event::Begin) => if v.trip.settled {
            do_move_end(v, Outcome::Answer(false))
        } else {
            (Moving { at: Leg::Receipt, ..v }, Step::Receipt)
        },
        (Leg::Receipt, Event::Answer(receipt)) => if receipt {
            (Moving { at: Leg::Seen, ..v }, Step::Look)
        } else {
            do_move_end(v, Outcome::Refused(Refusal::RelocationNeedsStop))
        },
        (Leg::Seen, Event::Worker(w)) => if !w.stopped {
            do_move_end(v, Outcome::Refused(Refusal::RelocationNeedsStop))
        } else if v.trip.at_home {
            (Moving { at: Leg::HomeValid, stopped: true, ..v }, Step::ValidateHome)
        } else {
            (Moving { at: Leg::SourceKnown, stopped: true, ..v }, Step::SourceVolume)
        },
        (Leg::HomeValid, Event::Done) => {
            (Moving { at: Leg::HomeSaved, ..v }, Step::SaveStorage(StorageSave::LayoutKept))
        },
        (Leg::HomeSaved, Event::Done) => do_move_end(v, Outcome::Answer(true)),
        _ => do_moved_after(v, e),
    }
}

/// A move that has not begun.
pub open spec fn fresh_move(trip: Trip) -> Moving {
    Moving { at: Leg::Start, trip, stopped: false, verified: false }
}

impl Moving {
    /// A move that has not begun.
    pub fn new(trip: Trip) -> (r: Self)
        ensures
            r == fresh_move(trip),
    {
        Moving { at: Leg::Start, trip, stopped: false, verified: false }
    }

    /// What a move makes of an answer, and what it asks for next.
    pub fn next(self, e: Event) -> (r: (Moving, Step))
        ensures
            r == move_after(self, e),
    {
        do_move_after(self, e)
    }
}

/// What holds at each point of a move.
pub open spec fn movable(v: Moving) -> bool {
    match v.at {
        Leg::HomeValid | Leg::HomeSaved | Leg::SourceKnown | Leg::Begun | Leg::Prepared
        | Leg::DestinationSeen | Leg::Told | Leg::Copied | Leg::Verified => v.stopped,
        Leg::Authorized | Leg::Switched => v.stopped && v.verified,
        _ => true,
    }
}

/// The VM is copied only while it is stopped, and used at its new place only
/// after that copy was verified.
pub proof fn copies_are_verified_before_use(v: Moving, e: Event)
    requires
        movable(v),
    ensures
        movable(move_after(v, e).0),
        move_after(v, e).1 is CopyRuntime ==> v.stopped,
        move_after(v, e).1 == Step::SaveStorage(StorageSave::RelocationSwitched) ==> v.stopped
            && v.verified,
{
}

/// A finished move, as far as its cleanup is decided on.
#[derive(Clone, Copy, Debug, PartialEq, Eq, Structural)]
pub struct Trail {
    pub recorded: bool,
    pub native: bool,
    /// The VM at its new place is in use.
    pub switched: bool,
}

pub open spec fn trail_of(c: ConfigurationView, native: bool) -> Trail {
    Trail {
        recorded: c.runtime_relocation is Some,
        native,
        switched: match c.runtime_relocation {
            Some(saved) => saved.switched && c.storage_layout == Some(saved.target),
            None => false,
        },
    }
}

/// The finished move under the settings.
pub fn trail(config: &Configuration, native: bool) -> (r: Trail)
    ensures
        r == trail_of(config@, native),
{
    Trail {
        recorded: config.runtime_relocation.is_some(),
        native,
        switched: match &config.runtime_relocation {
            Some(saved) => saved.switched && match &config.storage_layout {
                Some(layout) => layout.alike(&saved.target),
                None => false,
            },
            None => false,
        },
    }
}

/// Where the cleanup of a move stands.
#[derive(Clone, Copy, Debug, PartialEq, Eq, Structural)]
pub enum Sweep {
    Start,
    Receipt,
    Seen,
    Verified,
    SourceSeen,
    VolumeSeen,
    ReceiptVerified,
    WorkerSeen,
    SourceVerified,
    OriginalSeen,
    Authorized,
    Deleted,
    HomeRemoved,
    Saved,
    Over,
}

/// The cleanup of a move under way.
#[derive(Clone, Copy, Debug, PartialEq, Eq, Structural)]
pub struct Sweeping {
    pub at: Sweep,
    pub trail: Trail,
    /// Whether the VM at its new place was verified.
    pub verified: bool,
    /// Whether the original is still there.
    pub source: bool,
    /// Whether the original's own receipt was verified.
    pub owned: bool,
}

/// The cleanup is over.
pub open spec fn clean_end(s: Sweeping, outcome: Outcome) -> (Sweeping, Step) {
    (Sweeping { at: Sweep::Over, ..s }, Step::Finish(outcome))
}

/// The cleanup is over.
fn do_clean_end(s: Sweeping, outcome: Outcome) -> (r: (Sweeping, Step))
    ensures
        r == clean_end(s, outcome),
{
    (Sweeping { at: Sweep::Over, ..s }, Step::Finish(outcome))
}

/// The original is gone.
pub open spec fn clean_gone(s: Sweeping) -> (Sweeping, Step) {
    (Sweeping { at: Sweep::Saved, ..s }, Step::SaveStorage(StorageSave::RelocationFinished))
}

/// The original is gone.
fn do_clean_gone(s: Sweeping) -> (r: (Sweeping, Step))
    ensures
        r == clean_gone(s),
{
    (Sweeping { at: Sweep::Saved, ..s }, Step::SaveStorage(StorageSave::RelocationFinished))
}

/// What the cleanup of a move makes of an answer.
pub open spec fn clean_after(s: Sweeping, e: Event) -> (Sweeping, Step) {
    match (s.at, e) {
        (Sweep::Start, Event::Begin) => if !s.trail.recorded || !s.trail.native {
            clean_end(s, Outcome::Done)
        } else if !s.trail.switched {
            clean_end(s, Outcome::Refused(Refusal::RelocationUnfinished))
        } else {
            (Sweeping { at: Sweep::Receipt, ..s }, Step::Receipt)
        },
        (Sweep::Receipt, Event::Answer(receipt)) => if receipt {
            (Sweeping { at: Sweep::Seen, ..s }, Step::Look)
        } else {
            clean_end(s, Outcome::Refused(Refusal::RelocationUnfinished))
        },
        (Sweep::Seen, Event::Worker(w)) => if w.stopped {
            (Sweeping { at: Sweep::Verified, ..s }, Step::VerifyPlacement)
        } else {
            clean_end(s, Outcome::Refused(Refusal::RelocationUnfinished))
        },
        (Sweep::Verified, Event::Done) => {
            (Sweeping { at: Sweep::SourceSeen, verified: true, ..s }, Step::SourceExists)
        },
        (Sweep::SourceSeen, Event::Answer(exists)) => {
            (Sweeping { at: Sweep::VolumeSeen, source: exists, ..s }, Step::SourceVolumeMatches)
        },
        (Sweep::VolumeSeen, Event::Answer(matches)) => if !matches {
            clean_end(s, Outcome::Refused(Refusal::OriginalVolumeMissing))
        } else if s.source {
            (Sweeping { at: Sweep::ReceiptVerified, ..s }, Step::VerifySourceReceipt)
        } else {
            clean_gone(s)
        },
        (Sweep::ReceiptVerified, Event::Done) => {
            (Sweeping { at: Sweep::WorkerSeen, owned: true, ..s }, Step::SourceWorkerExists)
        },
        (Sweep::WorkerSeen, Event::Answer(exists)) => if exists {
            (Sweeping { at: Sweep::SourceVerified, ..s }, Step::VerifySource)
        } else {
            (Sweeping { at: Sweep::HomeRemoved, ..s }, Step::RemoveSourceHome)
        },
        (Sweep::SourceVerified, Event::Done) => (
            Sweeping { at: Sweep::OriginalSeen, ..s },
            Step::InspectSource,
        ),
        (Sweep::OriginalSeen, Event::Worker(w)) => if w.stopped {
            (Sweeping { at: Sweep::Authorized, ..s }, Step::CheckAuthority)
        } else {
            clean_end(s, Outcome::Refused(Refusal::OriginalNeedsStop))
        },
        (Sweep::Authorized, Event::Done) => (
            Sweeping { at: Sweep::Deleted, ..s },
            Step::DeleteSource,
        ),
        (Sweep::Deleted, Event::Done) => (
            Sweeping { at: Sweep::HomeRemoved, ..s },
            Step::RemoveSourceHome,
        ),
        (Sweep::HomeRemoved, Event::Done) => clean_gone(s),
        (Sweep::Saved, Event::Done) => clean_end(s, Outcome::Done),
        _ => clean_end(s, Outcome::Failed),
    }
}

/// What the cleanup of a move makes of an answer.
fn do_clean_after(s: Sweeping, e: Event) -> (r: (Sweeping, Step))
    ensures
        r == clean_after(s, e),
{
    match (s.at, e) {
        (Sweep::Start, Event::Begin) => if !s.trail.recorded || !s.trail.native {
            do_clean_end(s, Outcome::Done)
        } else if !s.trail.switched {
            do_clean_end(s, Outcome::Refused(Refusal::RelocationUnfinished))
        } else {
            (Sweeping { at: Sweep::Receipt, ..s }, Step::Receipt)
        },
        (Sweep::Receipt, Event::Answer(receipt)) => if receipt {
            (Sweeping { at: Sweep::Seen, ..s }, Step::Look)
        } else {
            do_clean_end(s, Outcome::Refused(Refusal::RelocationUnfinished))
        },
        (Sweep::Seen, Event::Worker(w)) => if w.stopped {
            (Sweeping { at: Sweep::Verified, ..s }, Step::VerifyPlacement)
        } else {
            do_clean_end(s, Outcome::Refused(Refusal::RelocationUnfinished))
        },
        (Sweep::Verified, Event::Done) => {
            (Sweeping { at: Sweep::SourceSeen, verified: true, ..s }, Step::SourceExists)
        },
        (Sweep::SourceSeen, Event::Answer(exists)) => {
            (Sweeping { at: Sweep::VolumeSeen, source: exists, ..s }, Step::SourceVolumeMatches)
        },
        (Sweep::VolumeSeen, Event::Answer(matches)) => if !matches {
            do_clean_end(s, Outcome::Refused(Refusal::OriginalVolumeMissing))
        } else if s.source {
            (Sweeping { at: Sweep::ReceiptVerified, ..s }, Step::VerifySourceReceipt)
        } else {
            do_clean_gone(s)
        },
        (Sweep::ReceiptVerified, Event::Done) => {
            (Sweeping { at: Sweep::WorkerSeen, owned: true, ..s }, Step::SourceWorkerExists)
        },
        (Sweep::WorkerSeen, Event::Answer(exists)) => if exists {
            (Sweeping { at: Sweep::SourceVerified, ..s }, Step::VerifySource)
        } else {
            (Sweeping { at: Sweep::HomeRemoved, ..s }, Step::RemoveSourceHome)
        },
        (Sweep::SourceVerified, Event::Done) => (
            Sweeping { at: Sweep::OriginalSeen, ..s },
            Step::InspectSource,
        ),
        (Sweep::OriginalSeen, Event::Worker(w)) => if w.stopped {
            (Sweeping { at: Sweep::Authorized, ..s }, Step::CheckAuthority)
        } else {
            do_clean_end(s, Outcome::Refused(Refusal::OriginalNeedsStop))
        },
        (Sweep::Authorized, Event::Done) => (
            Sweeping { at: Sweep::Deleted, ..s },
            Step::DeleteSource,
        ),
        (Sweep::Deleted, Event::Done) => (
            Sweeping { at: Sweep::HomeRemoved, ..s },
            Step::RemoveSourceHome,
        ),
        (Sweep::HomeRemoved, Event::Done) => do_clean_gone(s),
        (Sweep::Saved, Event::Done) => do_clean_end(s, Outcome::Done),
        _ => do_clean_end(s, Outcome::Failed),
    }
}

/// A cleanup that has not begun.
pub open spec fn fresh_sweep(trail: Trail) -> Sweeping {
    Sweeping { at: Sweep::Start, trail, verified: false, source: false, owned: false }
}

impl Sweeping {
    /// A cleanup that has not begun.
    pub fn new(trail: Trail) -> (r: Self)
        ensures
            r == fresh_sweep(trail),
    {
        Sweeping { at: Sweep::Start, trail, verified: false, source: false, owned: false }
    }

    /// What the cleanup of a move makes of an answer, and what it asks for next.
    pub fn next(self, e: Event) -> (r: (Sweeping, Step))
        ensures
            r == clean_after(self, e),
    {
        do_clean_after(self, e)
    }
}

/// What holds at each point of a cleanup.
pub open spec fn sweepable(s: Sweeping) -> bool {
    match s.at {
        Sweep::Receipt | Sweep::Seen | Sweep::Verified => s.trail.switched,
        Sweep::SourceSeen | Sweep::VolumeSeen | Sweep::ReceiptVerified => s.trail.switched
            && s.verified,
        Sweep::WorkerSeen | Sweep::SourceVerified | Sweep::OriginalSeen | Sweep::Authorized
        | Sweep::Deleted | Sweep::HomeRemoved => s.trail.switched && s.verified && s.owned,
        _ => true,
    }
}

/// The original VM is deleted only after the VM at its new place is in use and
/// verified, and only where its own receipt shows that it is this computer's.
pub proof fn originals_outlive_unverified_copies(s: Sweeping, e: Event)
    requires
        sweepable(s),
    ensures
        sweepable(clean_after(s, e).0),
        clean_after(s, e).1 is DeleteSource || clean_after(s, e).1 is RemoveSourceHome
            ==> s.trail.switched && s.verified && (s.owned || (s.at == Sweep::ReceiptVerified && e
            == Event::Done)),
{
}

/// Where the removal of a retired runtime directory stands.
#[derive(Clone, Copy, Debug, PartialEq, Eq, Structural)]
pub enum Exit {
    Start,
    HomeSeen,
    HomeValid,
    Seen,
    StopAuthorized,
    Stopped,
    DeleteAuthorized,
    Deleted,
    HomeRemoved,
    VolumeSeen,
    Saved,
    Over,
}

/// The removal of a retired runtime directory under way.
#[derive(Clone, Copy, Debug, PartialEq, Eq, Structural)]
pub struct Retiring {
    pub at: Exit,
    /// Whether the directory is that of the VM in use.
    pub active: bool,
    /// Whether the directory was shown to be this computer's.
    pub valid: bool,
}

/// The removal is over.
pub open spec fn retire_end(x: Retiring, outcome: Outcome) -> (Retiring, Step) {
    (Retiring { at: Exit::Over, ..x }, Step::Finish(outcome))
}

/// The removal is over.
fn do_retire_end(x: Retiring, outcome: Outcome) -> (r: (Retiring, Step))
    ensures
        r == retire_end(x, outcome),
{
    (Retiring { at: Exit::Over, ..x }, Step::Finish(outcome))
}

/// The retired VM is stopped.
pub open spec fn retire_deleted(x: Retiring) -> (Retiring, Step) {
    (Retiring { at: Exit::DeleteAuthorized, ..x }, Step::CheckAuthority)
}

/// The retired VM is stopped.
fn do_retire_deleted(x: Retiring) -> (r: (Retiring, Step))
    ensures
        r == retire_deleted(x),
{
    (Retiring { at: Exit::DeleteAuthorized, ..x }, Step::CheckAuthority)
}

/// What the removal of a retired runtime directory makes of an answer.
pub open spec fn retire_after(x: Retiring, e: Event) -> (Retiring, Step) {
    match (x.at, e) {
        (Exit::Start, Event::Begin) => if x.active {
            retire_end(x, Outcome::Refused(Refusal::RetiredIsActive))
        } else {
            (Retiring { at: Exit::HomeSeen, ..x }, Step::SourceExists)
        },
        (Exit::HomeSeen, Event::Answer(exists)) => if exists {
            (Retiring { at: Exit::HomeValid, ..x }, Step::ValidateHome)
        } else {
            (Retiring { at: Exit::VolumeSeen, ..x }, Step::SourceVolumeMatches)
        },
        (Exit::HomeValid, Event::Done) => (
            Retiring { at: Exit::Seen, valid: true, ..x },
            Step::InspectSource,
        ),
        (Exit::Seen, Event::Worker(w)) => if !w.installed {
            (Retiring { at: Exit::HomeRemoved, ..x }, Step::RemoveSourceHome)
        } else if w.stopped {
            retire_deleted(x)
        } else {
            (Retiring { at: Exit::StopAuthorized, ..x }, Step::CheckAuthority)
        },
        (Exit::StopAuthorized, Event::Done) => (
            Retiring { at: Exit::Stopped, ..x },
            Step::StopSource,
        ),
        (Exit::Stopped, Event::Done) => retire_deleted(x),
        (Exit::DeleteAuthorized, Event::Done) => (
            Retiring { at: Exit::Deleted, ..x },
            Step::DeleteSource,
        ),
        (Exit::Deleted, Event::Done) => (
            Retiring { at: Exit::HomeRemoved, ..x },
            Step::RemoveSourceHome,
        ),
        (Exit::HomeRemoved, Event::Done) => {
            (Retiring { at: Exit::Saved, ..x }, Step::SaveStorage(StorageSave::RuntimeForgotten))
        },
        (Exit::VolumeSeen, Event::Answer(matches)) => if matches {
            (Retiring { at: Exit::Saved, ..x }, Step::SaveStorage(StorageSave::RuntimeForgotten))
        } else {
            retire_end(x, Outcome::Refused(Refusal::RetiredVolumeMissing))
        },
        (Exit::Saved, Event::Done) => retire_end(x, Outcome::Done),
        _ => retire_end(x, Outcome::Failed),
    }
}

/// What the removal of a retired runtime directory makes of an answer.
fn do_retire_after(x: Retiring, e: Event) -> (r: (Retiring, Step))
    ensures
        r == retire_after(x, e),
{
    match (x.at, e) {
        (Exit::Start, Event::Begin) => if x.active {
            do_retire_end(x, Outcome::Refused(Refusal::RetiredIsActive))
        } else {
            (Retiring { at: Exit::HomeSeen, ..x }, Step::SourceExists)
        },
        (Exit::HomeSeen, Event::Answer(exists)) => if exists {
            (Retiring { at: Exit::HomeValid, ..x }, Step::ValidateHome)
        } else {
            (Retiring { at: Exit::VolumeSeen, ..x }, Step::SourceVolumeMatches)
        },
        (Exit::HomeValid, Event::Done) => (
            Retiring { at: Exit::Seen, valid: true, ..x },
            Step::InspectSource,
        ),
        (Exit::Seen, Event::Worker(w)) => if !w.installed {
            (Retiring { at: Exit::HomeRemoved, ..x }, Step::RemoveSourceHome)
        } else if w.stopped {
            do_retire_deleted(x)
        } else {
            (Retiring { at: Exit::StopAuthorized, ..x }, Step::CheckAuthority)
        },
        (Exit::StopAuthorized, Event::Done) => (
            Retiring { at: Exit::Stopped, ..x },
            Step::StopSource,
        ),
        (Exit::Stopped, Event::Done) => do_retire_deleted(x),
        (Exit::DeleteAuthorized, Event::Done) => (
            Retiring { at: Exit::Deleted, ..x },
            Step::DeleteSource,
        ),
        (Exit::Deleted, Event::Done) => (
            Retiring { at: Exit::HomeRemoved, ..x },
            Step::RemoveSourceHome,
        ),
        (Exit::HomeRemoved, Event::Done) => {
            (Retiring { at: Exit::Saved, ..x }, Step::SaveStorage(StorageSave::RuntimeForgotten))
        },
        (Exit::VolumeSeen, Event::Answer(matches)) => if matches {
            (Retiring { at: Exit::Saved, ..x }, Step::SaveStorage(StorageSave::RuntimeForgotten))
        } else {
            do_retire_end(x, Outcome::Refused(Refusal::RetiredVolumeMissing))
        },
        (Exit::Saved, Event::Done) => do_retire_end(x, Outcome::Done),
        _ => do_retire_end(x, Outcome::Failed),
    }
}

/// A removal that has not begun.
pub open spec fn fresh_exit(active: bool) -> Retiring {
    Retiring { at: Exit::Start, active, valid: false }
}

/// Whether a retired layout's directory is the one in use.
pub open spec fn is_active(c: ConfigurationView, layout: LayoutView) -> bool {
    match c.storage_layout {
        Some(active) => paths::same_path(active.runtime_directory, layout.runtime_directory),
        None => false,
    }
}

impl Retiring {
    /// The removal of a retired layout's directory, which has not begun.
    pub fn new(config: &Configuration, layout: &Layout) -> (r: Self)
        ensures
            r == fresh_exit(is_active(config@, layout@)),
    {
        let active = match &config.storage_layout {
            Some(active) => paths::path_eq(
                active.runtime_directory.as_str(),
                layout.runtime_directory.as_str(),
            ),
            None => false,
        };
        Retiring { at: Exit::Start, active, valid: false }
    }

    /// What the removal makes of an answer, and what it asks for next.
    pub fn next(self, e: Event) -> (r: (Retiring, Step))
        ensures
            r == retire_after(self, e),
    {
        do_retire_after(self, e)
    }
}

/// What holds at each point of a removal.
pub open spec fn removable(x: Retiring) -> bool {
    match x.at {
        Exit::Start | Exit::Over => true,
        Exit::HomeSeen | Exit::HomeValid | Exit::VolumeSeen | Exit::Saved => !x.active,
        _ => !x.active && x.valid,
    }
}

/// A runtime directory in use is never removed, nor is one that was not shown to
/// be this computer's.
pub proof fn active_runtimes_stay(x: Retiring, e: Event)
    requires
        removable(x),
    ensures
        removable(retire_after(x, e).0),
        retire_after(x, e).1 is DeleteSource || retire_after(x, e).1 is RemoveSourceHome
            || retire_after(x, e).1 is StopSource ==> !x.active && (x.valid),
{
}

} // verus!
