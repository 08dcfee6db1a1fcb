//! Changes of the storage records that the supervisor saves.
use crate::agent::steps::Stage;
use crate::agent::storage_operations::{stage_name, stage_text};
use crate::failure::{fail, refusal, Failure};
use crate::policy::{PolicyView, Resources};
use crate::runtime_storage::{Relocation, RelocationView};
use crate::storage::{
    copy_locations, holds_location, total_gib, Location, LocationView, Operation, OperationView,
};
use crate::storage_layout::{granted_gib, Layout, LayoutView};
use crate::storage_lifecycle::{
    configured_after_change, configured_next, lemma_filter_push, Backup, BackupView, Kind,
    Lifecycle, LifecycleView, Maintenance, MaintenanceView, Missing, MissingView, Phase,
};
use crate::store::{Configuration, ConfigurationView};
use crate::text;
use crate::values::{contents, copy_list, copy_option, Plain};
use vstd::prelude::*;

verus! {

/// The locations without every occurrence of one.
pub open spec fn without(s: Seq<LocationView>, l: LocationView) -> Seq<LocationView> {
    s.filter(|x: LocationView| x != l)
}

/// The locations without every occurrence of one.
pub fn remaining_without(s: &[Location], l: &Location) -> (r: Vec<Location>)
    ensures
        contents(r@) == without(contents(s@), l@),
{
    let ghost keep = |x: LocationView| x != l@;
    let ghost v = contents(s@);
    let mut r: Vec<Location> = Vec::new();
    assert(v.take(0).filter(keep) == Seq::<LocationView>::empty()) by {
        reveal(Seq::filter);
    }
    assert(contents(r@) =~= v.take(0).filter(keep));
    for i in 0..s.len()
        invariant
            v == contents(s@),
            keep == (|x: LocationView| x != l@),
            contents(r@) == v.take(i as int).filter(keep),
    {
        assert(v.take(i + 1) == v.take(i as int).push(v[i as int]));
        assert(v[i as int] == s@[i as int]@);
        proof {
            lemma_filter_push(v.take(i as int), v[i as int], keep);
        }
        if !s[i].alike(l) {
            let ghost before = contents(r@);
            r.push(s[i].clone());
            assert(contents(r@) =~= before.push(v[i as int]));
        }
    }
    assert(v.take(s@.len() as int) =~= v);
    r
}

/// The locations with those of another list that they do not hold yet, in order.
pub open spec fn joined(s: Seq<LocationView>, more: Seq<LocationView>) -> Seq<LocationView>
    decreases more.len(),
{
    if more.len() == 0 {
        s
    } else {
        let before = joined(s, more.drop_last());
        if before.contains(more.last()) {
            before
        } else {
            before.push(more.last())
        }
    }
}

/// The locations with those of another list that they do not hold yet, in order.
pub fn joined_with(s: &[Location], more: &[Location]) -> (r: Vec<Location>)
    ensures
        contents(r@) == joined(contents(s@), contents(more@)),
{
    let ghost v = contents(more@);
    let mut r = copy_locations(s);
    assert(v.take(0) =~= Seq::<LocationView>::empty());
    for i in 0..more.len()
        invariant
            v == contents(more@),
            contents(r@) == joined(contents(s@), v.take(i as int)),
    {
        assert(v.take(i + 1).drop_last() =~= v.take(i as int));
        assert(v.take(i + 1).last() == v[i as int]);
        assert(v[i as int] == more@[i as int]@);
        if !holds_location(r.as_slice(), &more[i]) {
            let ghost before = contents(r@);
            r.push(more[i].clone());
            assert(contents(r@) =~= before.push(v[i as int]));
        }
    }
    assert(v.take(more@.len() as int) =~= v);
    r
}

/// Every location of both lists is held.
pub proof fn joined_holds_both(s: Seq<LocationView>, more: Seq<LocationView>, l: LocationView)
    requires
        s.contains(l) || more.contains(l),
    ensures
        joined(s, more).contains(l),
    decreases more.len(),
{
    if more.len() > 0 {
        let before = joined(s, more.drop_last());
        if s.contains(l) || more.drop_last().contains(l) {
            joined_holds_both(s, more.drop_last(), l);
            let k = choose|k: int| 0 <= k < before.len() && before[k] == l;
            assert(before.push(more.last())[k] == l);
        } else {
            let i = choose|i: int| 0 <= i < more.len() && more[i] == l;
            if i < more.len() - 1 {
                assert(more.drop_last()[i] == l);
            }
            assert(more.last() == l);
            assert(before.push(l)[before.len() as int] == l);
        }
    }
}

pub open spec fn with_lifecycle(c: ConfigurationView, l: LifecycleView) -> ConfigurationView {
    ConfigurationView { storage_lifecycle: l, ..c }
}

/// The settings with another maintenance record.
pub open spec fn with_maintenance(c: ConfigurationView, op: MaintenanceView) -> ConfigurationView {
    with_lifecycle(c, LifecycleView { maintenance: Some(op), ..c.storage_lifecycle })
}

/// A change of the maintenance record, which must be there.
pub open spec fn maintained(
    c: ConfigurationView,
    change: spec_fn(MaintenanceView) -> Result<MaintenanceView, Seq<char>>,
) -> Result<ConfigurationView, Seq<char>> {
    match c.storage_lifecycle.maintenance {
        None => Err("Storage maintenance was interrupted"@),
        Some(op) => match change(op) {
            Ok(next) => Ok(with_maintenance(c, next)),
            Err(message) => Err(message),
        },
    }
}

/// What the owner is told of a maintenance that stopped.
pub open spec fn stopped_text(error: Seq<char>) -> Seq<char> {
    "Storage maintenance stopped: "@ + error
        + ". Resolve the problem, then Retry storage maintenance to resume this phase."@
}

fn current_maintenance(config: &Configuration) -> (r: Result<Maintenance, Failure>)
    ensures
        match config@.storage_lifecycle.maintenance {
            Some(op) => r matches Ok(m) && m@ == op,
            None => refusal(r) == Some("Storage maintenance was interrupted"@),
        },
{
    match &config.storage_lifecycle.maintenance {
        Some(op) => Ok(op.duplicate()),
        None => Err(fail("Storage maintenance was interrupted")),
    }
}

/// Record that the maintenance stopped with an error.
pub fn maintenance_failed(config: &mut Configuration, error: &str) -> (r: Result<(), Failure>)
    ensures
        match maintained(
            old(config)@,
            |op: MaintenanceView|
                Ok(MaintenanceView { error: Some(stopped_text(error@)), ..op }),
        ) {
            Ok(next) => r is Ok && final(config)@ == next,
            Err(message) => refusal(r) == Some(message) && final(config)@ == old(config)@,
        },
{
    match current_maintenance(config) {
        Err(e) => Err(e),
        Ok(op) => {
            let message = text::join3(
                "Storage maintenance stopped: ",
                error,
                ". Resolve the problem, then Retry storage maintenance to resume this phase.",
            );
            config.storage_lifecycle.maintenance = Some(op.with_error(Some(message)));
            Ok(())
        },
    }
}

/// Record the phase at which the maintenance stands.
pub fn maintenance_phase(config: &mut Configuration, phase: Phase) -> (r: Result<(), Failure>)
    ensures
        match maintained(
            old(config)@,
            |op: MaintenanceView| Ok(MaintenanceView { phase, ..op }),
        ) {
            Ok(next) => r is Ok && final(config)@ == next,
            Err(message) => refusal(r) == Some(message) && final(config)@ == old(config)@,
        },
{
    match current_maintenance(config) {
        Err(e) => Err(e),
        Ok(op) => {
            config.storage_lifecycle.maintenance = Some(op.with_phase(phase));
            Ok(())
        },
    }
}

/// Record the backup file that was made.
pub fn backup_made(config: &mut Configuration, backup: &Backup) -> (r: Result<(), Failure>)
    ensures
        match maintained(
            old(config)@,
            |op: MaintenanceView| Ok(MaintenanceView { backup: Some(backup@), ..op }),
        ) {
            Ok(next) => r is Ok && final(config)@ == next,
            Err(message) => refusal(r) == Some(message) && final(config)@ == old(config)@,
        },
{
    match current_maintenance(config) {
        Err(e) => Err(e),
        Ok(op) => {
            let mut op = op;
            op.backup = Some(backup.duplicate());
            config.storage_lifecycle.maintenance = Some(op);
            Ok(())
        },
    }
}

/// The maintenance with its backup verified: only then the next phase is due.
pub open spec fn with_verified_backup(
    op: MaintenanceView,
    hash: Seq<char>,
    bytes: u64,
) -> Result<MaintenanceView, Seq<char>> {
    match op.backup {
        None => Err("Backup record disappeared"@),
        Some(backup) => Ok(
            MaintenanceView {
                backup: Some(
                    BackupView { sha256: Some(hash), bytes, verified: true, ..backup },
                ),
                phase: Phase::BackupVerified,
                ..op
            },
        ),
    }
}

/// Record what was verified of the backup.
pub fn backup_verified(config: &mut Configuration, hash: &str, bytes: u64) -> (r: Result<
    (),
    Failure,
>)
    ensures
        match maintained(
            old(config)@,
            |op: MaintenanceView| with_verified_backup(op, hash@, bytes),
        ) {
            Ok(next) => r is Ok && final(config)@ == next,
            Err(message) => refusal(r) == Some(message) && final(config)@ == old(config)@,
        },
{
    match current_maintenance(config) {
        Err(e) => Err(e),
        Ok(op) => {
            let mut backup = match &op.backup {
                None => {
                    return Err(fail("Backup record disappeared"));
                },
                Some(backup) => backup.duplicate(),
            };
            backup.sha256 = Some(hash.to_owned());
            backup.bytes = bytes;
            backup.verified = true;
            let mut op = op;
            op.backup = Some(backup);
            op.phase = Phase::BackupVerified;
            config.storage_lifecycle.maintenance = Some(op);
            Ok(())
        },
    }
}

/// Record that the previous disks await removal.
pub fn previous_retired(config: &mut Configuration, previous: &[Location])
    ensures
        final(config)@ == with_lifecycle(
            old(config)@,
            LifecycleView {
                retired: joined(
                    old(config)@.storage_lifecycle.retired,
                    contents(previous@),
                ),
                ..old(config)@.storage_lifecycle
            },
        ),
{
    let retired = joined_with(config.storage_lifecycle.retired.as_slice(), previous);
    config.storage_lifecycle.retired = retired;
}

/// Record that a previous disk is gone.
pub fn disk_removed(config: &mut Configuration, gone: &Location)
    ensures
        final(config)@ == (ConfigurationView {
            storage_lifecycle: LifecycleView {
                retired: without(old(config)@.storage_lifecycle.retired, gone@),
                ..old(config)@.storage_lifecycle
            },
            storage_retained: without(old(config)@.storage_retained, gone@),
            ..old(config)@
        }),
{
    let retired = remaining_without(config.storage_lifecycle.retired.as_slice(), gone);
    let retained = remaining_without(config.storage_retained.as_slice(), gone);
    config.storage_lifecycle.retired = retired;
    config.storage_retained = retained;
}

/// The configured locations after a maintenance.
pub open spec fn configured_after(c: ConfigurationView, op: MaintenanceView) -> Seq<LocationView> {
    let known = if c.storage_lifecycle.configured_locations.len() == 0 {
        op.previous
    } else {
        c.storage_lifecycle.configured_locations
    };
    match op.review.kind {
        Kind::DeleteAll => Seq::empty(),
        Kind::FailureRecovery => known,
        Kind::ResizeRemove => configured_next(known, c.storage_locations, op.target),
    }
}

/// The storage state after a maintenance.
pub open spec fn lifecycle_after(c: ConfigurationView, op: MaintenanceView) -> LifecycleView {
    let deleting = op.review.kind == Kind::DeleteAll;
    LifecycleView {
        configured_locations: configured_after(c, op),
        pool_id: if deleting {
            None
        } else {
            Some(op.pool_id)
        },
        disabled: deleting,
        missing: None,
        cleanup: match op.backup {
            Some(backup) => c.storage_lifecycle.cleanup.push(backup),
            None => c.storage_lifecycle.cleanup,
        },
        maintenance: None,
        ..c.storage_lifecycle
    }
}

/// The settings after a maintenance: sharing stays off where the storage was
/// deleted, and the granted disk is the new one where it was not.
pub open spec fn finished_maintenance(c: ConfigurationView, op: MaintenanceView) -> ConfigurationView {
    let deleting = op.review.kind == Kind::DeleteAll;
    let resources = Resources { disk_gib: op.total_gib, ..c.policy.resources };
    ConfigurationView {
        storage_locations: op.target,
        storage_generation: op.generation,
        storage_lifecycle: lifecycle_after(c, op),
        vm_created: !deleting,
        vm_configured: !deleting,
        prepare_requested: false,
        policy: if deleting {
            PolicyView { enabled: false, ..c.policy }
        } else {
            PolicyView { resources, ..c.policy }
        },
        allocated_resources: if deleting {
            None
        } else {
            Some(resources)
        },
        storage_revision: (c.storage_revision + 1) as u64,
        draining_since: None,
        ..c
    }
}

fn configured_by(config: &Configuration, op: &Maintenance) -> (r: Vec<Location>)
    ensures
        contents(r@) == configured_after(config@, op@),
{
    let known = if config.storage_lifecycle.configured_locations.len() == 0 {
        copy_locations(op.previous.as_slice())
    } else {
        copy_locations(config.storage_lifecycle.configured_locations.as_slice())
    };
    match op.review.kind {
        Kind::DeleteAll => {
            let none: Vec<Location> = Vec::new();
            assert(contents(none@) =~= Seq::<LocationView>::empty());
            none
        },
        Kind::FailureRecovery => known,
        Kind::ResizeRemove => configured_after_change(
            known.as_slice(),
            config.storage_locations.as_slice(),
            op.target.as_slice(),
        ),
    }
}

fn lifecycle_by(config: &Configuration, op: &Maintenance) -> (r: Lifecycle)
    ensures
        r@ == lifecycle_after(config@, op@),
{
    let deleting = op.review.kind == Kind::DeleteAll;
    let mut cleanup = copy_list(config.storage_lifecycle.cleanup.as_slice());
    if let Some(backup) = &op.backup {
        let ghost before = contents(cleanup@);
        cleanup.push(backup.duplicate());
        assert(contents(cleanup@) =~= before.push(backup@));
    }
    Lifecycle {
        initializing: config.storage_lifecycle.initializing,
        disabled: deleting,
        recovery_enabled: config.storage_lifecycle.recovery_enabled,
        configured_locations: configured_by(config, op),
        pool_id: if deleting {
            None
        } else {
            Some(op.pool_id)
        },
        maintenance: None,
        missing: None,
        retired: copy_list(config.storage_lifecycle.retired.as_slice()),
        cleanup,
    }
}

/// Record that a maintenance is finished.
pub fn finish_maintenance(config: &mut Configuration, op: &Maintenance)
    requires
        old(config)@.storage_revision < u64::MAX,
    ensures
        final(config)@ == finished_maintenance(old(config)@, op@),
{
    let deleting = op.review.kind == Kind::DeleteAll;
    let lifecycle = lifecycle_by(config, op);
    config.storage_lifecycle = lifecycle;
    config.storage_locations = copy_locations(op.target.as_slice());
    config.storage_generation = op.generation;
    config.vm_created = !deleting;
    config.vm_configured = !deleting;
    config.prepare_requested = false;
    config.storage_revision = config.storage_revision + 1;
    config.draining_since = None;
    if deleting {
        config.policy.enabled = false;
        config.allocated_resources = None;
    } else {
        config.policy.resources.disk_gib = op.total_gib;
        config.allocated_resources = Some(config.policy.resources);
    }
}

/// Record the stage at which the operation stands.
pub fn operation_stage(config: &mut Configuration, stage: Stage) -> (r: Result<(), Failure>)
    ensures
        match old(config)@.storage_operation {
            Some(op) => r is Ok && final(config)@ == (ConfigurationView {
                storage_operation: Some(OperationView { phase: stage_name(stage), ..op }),
                ..old(config)@
            }),
            None => refusal(r) == Some("Storage operation was interrupted"@) && final(config)@
                == old(config)@,
        },
{
    let operation = match &config.storage_operation {
        Some(op) => {
            let mut next = op.duplicate();
            next.phase = stage_text(stage).to_owned();
            next
        },
        None => {
            return Err(fail("Storage operation was interrupted"));
        },
    };
    config.storage_operation = Some(operation);
    Ok(())
}

/// The previous disks that moved elsewhere.
pub open spec fn left_behind(previous: Seq<LocationView>, target: Seq<LocationView>) -> Seq<
    LocationView,
> {
    previous.filter(
        |old: LocationView|
            exists|i: int|
                0 <= i < target.len() && (#[trigger] target[i]).id == old.id
                    && target[i].directory != old.directory,
    )
}

fn moved_from(old: &Location, target: &[Location]) -> (r: bool)
    ensures
        r == exists|i: int|
            0 <= i < contents(target@).len() && (#[trigger] contents(target@)[i]).id == old@.id
                && contents(target@)[i].directory != old@.directory,
{
    let ghost v = contents(target@);
    for i in 0..target.len()
        invariant
            v == contents(target@),
            forall|k: int|
                0 <= k < i ==> !((#[trigger] v[k]).id == old@.id && v[k].directory
                    != old@.directory),
    {
        assert(v[i as int] == target@[i as int]@);
        if text::same(target[i].id.as_str(), old.id.as_str()) && !text::same(
            target[i].directory.as_str(),
            old.directory.as_str(),
        ) {
            return true;
        }
    }
    false
}

/// The previous disks that moved elsewhere.
pub fn moved_disks(previous: &[Location], target: &[Location]) -> (r: Vec<Location>)
    ensures
        contents(r@) == left_behind(contents(previous@), contents(target@)),
{
    let ghost t = contents(target@);
    let ghost keep = |old: LocationView|
        exists|i: int|
            0 <= i < t.len() && (#[trigger] t[i]).id == old.id && t[i].directory != old.directory;
    let ghost v = contents(previous@);
    let mut r: Vec<Location> = Vec::new();
    assert(v.take(0).filter(keep) == Seq::<LocationView>::empty()) by {
        reveal(Seq::filter);
    }
    assert(contents(r@) =~= v.take(0).filter(keep));
    for i in 0..previous.len()
        invariant
            v == contents(previous@),
            t == contents(target@),
            keep == (|old: LocationView|
                exists|i: int|
                    0 <= i < t.len() && (#[trigger] t[i]).id == old.id && t[i].directory
                        != old.directory),
            contents(r@) == v.take(i as int).filter(keep),
    {
        assert(v.take(i + 1) == v.take(i as int).push(v[i as int]));
        assert(v[i as int] == previous@[i as int]@);
        proof {
            lemma_filter_push(v.take(i as int), v[i as int], keep);
        }
        if moved_from(&previous[i], target) {
            let ghost before = contents(r@);
            r.push(previous[i].clone());
            assert(contents(r@) =~= before.push(v[i as int]));
        }
    }
    assert(v.take(previous@.len() as int) =~= v);
    r
}

/// The settings on the disks of an operation, without what follows from them.
pub open spec fn on_new_disks(c: ConfigurationView, op: OperationView) -> ConfigurationView {
    ConfigurationView {
        storage_lifecycle: LifecycleView {
            configured_locations: configured_next(
                c.storage_lifecycle.configured_locations,
                c.storage_locations,
                op.target,
            ),
            ..c.storage_lifecycle
        },
        storage_locations: op.target,
        storage_generation: op.generation,
        format_version: 7,
        ..c
    }
}

/// The settings after an operation, or why it cannot be completed: it must still
/// be the one that was verified.
pub open spec fn finished_operation(c: ConfigurationView, op: OperationView) -> Result<
    ConfigurationView,
    Seq<char>,
> {
    match c.storage_operation {
        None => Err("Storage operation was interrupted"@),
        Some(pending) => if pending.generation != op.generation || pending.phase != "verified"@ {
            Err("Storage operation changed"@)
        } else if c.storage_revision == u64::MAX {
            Err("Storage revision overflow"@)
        } else {
            let moved = on_new_disks(c, op);
            let gib = granted_gib(moved);
            Ok(
                ConfigurationView {
                    policy: PolicyView {
                        resources: Resources { disk_gib: gib, ..c.policy.resources },
                        ..c.policy
                    },
                    allocated_resources: match c.allocated_resources {
                        Some(resources) => Some(Resources { disk_gib: gib, ..resources }),
                        None => None,
                    },
                    storage_operation: None,
                    storage_retained: joined(
                        c.storage_retained,
                        left_behind(op.previous, op.target),
                    ),
                    storage_revision: (c.storage_revision + 1) as u64,
                    draining_since: None,
                    ..moved
                },
            )
        },
    }
}

fn operation_current(config: &Configuration, op: &Operation) -> (r: Result<(), Failure>)
    ensures
        match finished_operation(config@, op@) {
            Ok(_) => r is Ok,
            Err(message) => refusal(r) == Some(message),
        },
{
    match &config.storage_operation {
        None => Err(fail("Storage operation was interrupted")),
        Some(pending) => if pending.generation != op.generation || !text::same(
            pending.phase.as_str(),
            "verified",
        ) {
            Err(fail("Storage operation changed"))
        } else if config.storage_revision == u64::MAX {
            Err(fail("Storage revision overflow"))
        } else {
            Ok(())
        },
    }
}

fn settle_on_disks(config: &mut Configuration, op: &Operation)
    ensures
        final(config)@ == on_new_disks(old(config)@, op@),
{
    let configured = configured_after_change(
        config.storage_lifecycle.configured_locations.as_slice(),
        config.storage_locations.as_slice(),
        op.target.as_slice(),
    );
    config.storage_lifecycle.configured_locations = configured;
    config.storage_locations = copy_locations(op.target.as_slice());
    config.storage_generation = op.generation;
    config.format_version = 7;
}

fn grant_disk(config: &mut Configuration, gib: u64)
    ensures
        final(config)@ == (ConfigurationView {
            policy: PolicyView {
                resources: Resources { disk_gib: gib, ..old(config)@.policy.resources },
                ..old(config)@.policy
            },
            allocated_resources: match old(config)@.allocated_resources {
                Some(resources) => Some(Resources { disk_gib: gib, ..resources }),
                None => None,
            },
            ..old(config)@
        }),
{
    let allocated = match config.allocated_resources {
        Some(resources) => Some(
            Resources {
                cpus: resources.cpus,
                memory_mib: resources.memory_mib,
                disk_gib: gib,
            },
        ),
        None => None,
    };
    config.policy.resources.disk_gib = gib;
    config.allocated_resources = allocated;
}

/// Record that an operation is finished.
pub fn finish_operation(config: &mut Configuration, op: &Operation) -> (r: Result<(), Failure>)
    requires
        total_gib(op@.target) <= u64::MAX,
    ensures
        match finished_operation(old(config)@, op@) {
            Ok(next) => r is Ok && final(config)@ == next,
            Err(message) => refusal(r) == Some(message) && final(config)@ == old(config)@,
        },
{
    match operation_current(config, op) {
        Err(e) => {
            return Err(e);
        },
        Ok(()) => {},
    }
    let moved = moved_disks(op.previous.as_slice(), op.target.as_slice());
    let retained = joined_with(config.storage_retained.as_slice(), moved.as_slice());
    let revision = config.storage_revision + 1;
    settle_on_disks(config, op);
    let gib = config.total_storage_gib();
    grant_disk(config, gib);
    config.storage_operation = None;
    config.storage_retained = retained;
    config.storage_revision = revision;
    config.draining_since = None;
    Ok(())
}

/// The record of missing storage after another look.
pub open spec fn seen_missing(
    before: Option<MissingView>,
    missing: Seq<LocationView>,
    now: u64,
) -> MissingView {
    match before {
        None => MissingView { since: now, last_check: now, locations: missing, error: None },
        Some(m) => MissingView {
            last_check: now,
            locations: if missing.len() > 0 {
                missing
            } else {
                m.locations
            },
            ..m
        },
    }
}

/// Record which storage is missing, and that it was looked for.
pub fn storage_missing(config: &mut Configuration, missing: &[Location], now: u64)
    ensures
        final(config)@ == with_lifecycle(
            old(config)@,
            LifecycleView {
                missing: Some(
                    seen_missing(
                        old(config)@.storage_lifecycle.missing,
                        contents(missing@),
                        now,
                    ),
                ),
                ..old(config)@.storage_lifecycle
            },
        ),
{
    let record = match &config.storage_lifecycle.missing {
        None => Missing {
            since: now,
            last_check: now,
            locations: copy_locations(missing),
            error: None,
        },
        Some(m) => Missing {
            since: m.since,
            last_check: now,
            locations: if missing.len() > 0 {
                copy_locations(missing)
            } else {
                copy_locations(m.locations.as_slice())
            },
            error: copy_option(&m.error),
        },
    };
    config.storage_lifecycle.missing = Some(record);
}

/// What the owner is told of a returned pool that is not valid.
pub open spec fn return_text(error: Seq<char>) -> Seq<char> {
    "Returned pool could not be validated: "@ + error
        + ". Inspect the original storage before retrying."@
}

/// Record why the returned storage is not valid.
pub fn return_failed(config: &mut Configuration, error: &str) -> (r: Result<(), Failure>)
    ensures
        match old(config)@.storage_lifecycle.missing {
            Some(m) => r is Ok && final(config)@ == with_lifecycle(
                old(config)@,
                LifecycleView {
                    missing: Some(MissingView { error: Some(return_text(error@)), ..m }),
                    ..old(config)@.storage_lifecycle
                },
            ),
            None => refusal(r) == Some("Missing recovery record"@) && final(config)@ == old(
                config,
            )@,
        },
{
    let record = match &config.storage_lifecycle.missing {
        None => {
            return Err(fail("Missing recovery record"));
        },
        Some(m) => {
            let mut record = m.duplicate();
            record.error = Some(
                text::join3(
                    "Returned pool could not be validated: ",
                    error,
                    ". Inspect the original storage before retrying.",
                ),
            );
            record
        },
    };
    config.storage_lifecycle.missing = Some(record);
    Ok(())
}

/// Record that the missing storage is back.
pub fn storage_returned(config: &mut Configuration)
    ensures
        final(config)@ == with_lifecycle(
            old(config)@,
            LifecycleView { missing: None, ..old(config)@.storage_lifecycle },
        ),
{
    config.storage_lifecycle.missing = None;
}

/// Record the layout of a VM that already stands there.
pub fn layout_kept(config: &mut Configuration, layout: &Layout)
    ensures
        final(config)@ == (ConfigurationView {
            storage_layout: Some(layout@),
            ..old(config)@
        }),
{
    config.storage_layout = Some(layout.duplicate());
}

/// Record a move that begins; one that was begun already must be the same.
pub fn relocation_begun(config: &mut Configuration, relocation: &Relocation) -> (r: Result<
    (),
    Failure,
>)
    ensures
        match old(config)@.runtime_relocation {
            None => r is Ok && final(config)@ == (ConfigurationView {
                runtime_relocation: Some(relocation@),
                ..old(config)@
            }),
            Some(saved) => final(config)@ == old(config)@ && refusal(r)
                == crate::failure::unless(
                !saved.switched && saved.source == relocation@.source && saved.source_volume_id
                    == relocation@.source_volume_id && saved.target == relocation@.target,
                "Finish the previous VM relocation before moving it again"@,
            ),
        },
{
    match &config.runtime_relocation {
        Some(saved) => if !saved.switched && saved.source.alike(&relocation.source)
            && saved.source_volume_id.alike(&relocation.source_volume_id) && saved.target.alike(
            &relocation.target,
        ) {
            return Ok(());
        } else {
            return Err(fail("Finish the previous VM relocation before moving it again"));
        },
        None => {},
    }
    config.runtime_relocation = Some(relocation.duplicate());
    Ok(())
}

/// Whether the owner stopped or paused what is under way.
pub open spec fn owner_halts(c: ConfigurationView) -> bool {
    c.stop_requested || (match c.storage_operation {
        Some(op) => op.paused,
        None => false,
    }) || (match c.storage_lifecycle.maintenance {
        Some(op) => op.paused,
        None => false,
    })
}

/// Whether the owner stopped or paused what is under way.
pub fn halted(config: &Configuration) -> (r: bool)
    ensures
        r == owner_halts(config@),
{
    let operation = match &config.storage_operation {
        Some(op) => op.paused,
        None => false,
    };
    let maintenance = match &config.storage_lifecycle.maintenance {
        Some(op) => op.paused,
        None => false,
    };
    config.stop_requested || operation || maintenance
}

/// Why a copy under way may not go on.
pub open spec fn copying_refusal(c: ConfigurationView, target: LayoutView) -> Option<Seq<char>> {
    crate::failure::unless(
        !owner_halts(c) && (match c.runtime_relocation {
            Some(r) => !r.switched && r.target == target,
            None => false,
        }),
        "VM relocation paused by owner; the original storage is preserved"@,
    )
}

/// Whether a copy under way may go on.
pub fn copying_continues(config: &Configuration, target: &Layout) -> (r: Result<(), Failure>)
    ensures
        refusal(r) == copying_refusal(config@, target@),
{
    let wanted = match &config.runtime_relocation {
        Some(r) => !r.switched && r.target.alike(target),
        None => false,
    };
    if !halted(config) && wanted {
        Ok(())
    } else {
        Err(fail("VM relocation paused by owner; the original storage is preserved"))
    }
}

/// The settings with the VM used at its new place, or why it is not.
pub open spec fn switched(c: ConfigurationView, target: LayoutView) -> Result<
    ConfigurationView,
    Seq<char>,
> {
    if owner_halts(c) {
        Err("VM relocation paused by owner"@)
    } else {
        match c.runtime_relocation {
            None => Err("VM relocation was canceled"@),
            Some(saved) => if saved.target != target || saved.switched {
                Err("VM relocation changed"@)
            } else {
                Ok(
                    ConfigurationView {
                        runtime_relocation: Some(RelocationView { switched: true, ..saved }),
                        storage_layout: Some(target),
                        storage_boot_gib: target.system_gib,
                        format_version: 7,
                        ..c
                    },
                )
            },
        }
    }
}

/// Use the VM at its new place.
pub fn relocation_switched(config: &mut Configuration, target: &Layout) -> (r: Result<(), Failure>)
    ensures
        match switched(old(config)@, target@) {
            Ok(next) => r is Ok && final(config)@ == next,
            Err(message) => refusal(r) == Some(message) && final(config)@ == old(config)@,
        },
{
    if halted(config) {
        return Err(fail("VM relocation paused by owner"));
    }
    let record = match &config.runtime_relocation {
        None => {
            return Err(fail("VM relocation was canceled"));
        },
        Some(saved) => if !saved.target.alike(target) || saved.switched {
            return Err(fail("VM relocation changed"));
        } else {
            let mut record = saved.duplicate();
            record.switched = true;
            record
        },
    };
    config.runtime_relocation = Some(record);
    config.storage_layout = Some(target.duplicate());
    config.storage_boot_gib = target.system_gib;
    config.format_version = 7;
    Ok(())
}

/// Forget a move whose original is gone; it must still be that move.
pub fn relocation_finished(config: &mut Configuration, saved: &Relocation) -> (r: Result<
    (),
    Failure,
>)
    ensures
        ({
            let same = match old(config)@.runtime_relocation {
                Some(r) => r.switched && r.target == saved@.target && r.source == saved@.source,
                None => false,
            };
            if same {
                r is Ok && final(config)@ == (ConfigurationView {
                    runtime_relocation: None,
                    ..old(config)@
                })
            } else {
                refusal(r) == Some("VM relocation changed during cleanup"@) && final(config)@
                    == old(config)@
            }
        }),
{
    let same = match &config.runtime_relocation {
        Some(r) => r.switched && r.target.alike(&saved.target) && r.source.alike(&saved.source),
        None => false,
    };
    if !same {
        return Err(fail("VM relocation changed during cleanup"));
    }
    config.runtime_relocation = None;
    Ok(())
}

/// Forget a runtime directory that is gone.
pub fn runtime_forgotten(config: &mut Configuration, gone: &Layout)
    ensures
        final(config)@ == (ConfigurationView {
            runtime_retained: old(config)@.runtime_retained.filter(
                |l: LayoutView| l != gone@,
            ),
            ..old(config)@
        }),
{
    let ghost keep = |l: LayoutView| l != gone@;
    let ghost v = contents(config.runtime_retained@);
    let mut r: Vec<Layout> = Vec::new();
    assert(v.take(0).filter(keep) == Seq::<LayoutView>::empty()) by {
        reveal(Seq::filter);
    }
    assert(contents(r@) =~= v.take(0).filter(keep));
    let count = config.runtime_retained.len();
    for i in 0..count
        invariant
            count == config.runtime_retained@.len(),
            *config == *old(config),
            v == contents(config.runtime_retained@),
            keep == (|l: LayoutView| l != gone@),
            contents(r@) == v.take(i as int).filter(keep),
    {
        assert(v.take(i + 1) == v.take(i as int).push(v[i as int]));
        assert(v[i as int] == config.runtime_retained@[i as int]@);
        proof {
            lemma_filter_push(v.take(i as int), v[i as int], keep);
        }
        if !config.runtime_retained[i].alike(gone) {
            let ghost before = contents(r@);
            r.push(config.runtime_retained[i].duplicate());
            assert(contents(r@) =~= before.push(v[i as int]));
        }
    }
    assert(v.take(count as int) =~= v);
    config.runtime_retained = r;
}

/// Forget a backup whose file is gone.
pub fn backup_forgotten(config: &mut Configuration, path: &str)
    ensures
        final(config)@ == with_lifecycle(
            old(config)@,
            LifecycleView {
                cleanup: old(config)@.storage_lifecycle.cleanup.filter(
                    |b: BackupView| b.path != path@,
                ),
                ..old(config)@.storage_lifecycle
            },
        ),
{
    let ghost keep = |b: BackupView| b.path != path@;
    let ghost v = contents(config.storage_lifecycle.cleanup@);
    let mut r: Vec<Backup> = Vec::new();
    assert(v.take(0).filter(keep) == Seq::<BackupView>::empty()) by {
        reveal(Seq::filter);
    }
    assert(contents(r@) =~= v.take(0).filter(keep));
    let count = config.storage_lifecycle.cleanup.len();
    for i in 0..count
        invariant
            count == config.storage_lifecycle.cleanup@.len(),
            *config == *old(config),
            v == contents(config.storage_lifecycle.cleanup@),
            keep == (|b: BackupView| b.path != path@),
            contents(r@) == v.take(i as int).filter(keep),
    {
        assert(v.take(i + 1) == v.take(i as int).push(v[i as int]));
        assert(v[i as int] == config.storage_lifecycle.cleanup@[i as int]@);
        proof {
            lemma_filter_push(v.take(i as int), v[i as int], keep);
        }
        if !text::same(config.storage_lifecycle.cleanup[i].path.as_str(), path) {
            let ghost before = contents(r@);
            r.push(config.storage_lifecycle.cleanup[i].duplicate());
            assert(contents(r@) =~= before.push(v[i as int]));
        }
    }
    assert(v.take(count as int) =~= v);
    config.storage_lifecycle.cleanup = r;
}

/// Forget an old copy that is gone.
pub fn copy_forgotten(config: &mut Configuration, gone: &Location)
    ensures
        final(config)@ == (ConfigurationView {
            storage_retained: without(old(config)@.storage_retained, gone@),
            ..old(config)@
        }),
{
    let retained = remaining_without(config.storage_retained.as_slice(), gone);
    config.storage_retained = retained;
}

/// A worker whose storage was deleted does not share, and has none.
pub proof fn deleted_storage_is_not_shared(c: ConfigurationView, op: MaintenanceView)
    requires
        op.review.kind == Kind::DeleteAll,
    ensures
        !finished_maintenance(c, op).policy.enabled,
        !finished_maintenance(c, op).vm_created,
        finished_maintenance(c, op).storage_lifecycle.disabled,
        finished_maintenance(c, op).storage_lifecycle.configured_locations.len() == 0,
{
}

/// A finished maintenance leaves the worker with exactly the disk that the owner
/// grants, and its backup to be removed.
pub proof fn finished_maintenance_grants_its_total(c: ConfigurationView, op: MaintenanceView)
    requires
        op.review.kind != Kind::DeleteAll,
    ensures
        ({
            let next = finished_maintenance(c, op);
            &&& next.allocated_resources == Some(next.policy.resources)
            &&& next.policy.resources.disk_gib == op.total_gib
            &&& next.storage_lifecycle.maintenance is None
            &&& op.backup matches Some(b) ==> next.storage_lifecycle.cleanup.last() == b
        }),
{
}

} // verus!
