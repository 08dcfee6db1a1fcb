//! What the steps of the supervisor's routines are about: the disks, the pool
//! and what is remembered.
use crate::agent::apply::{pool_name, pool_text, rebuild, recovering};
use crate::agent::controller::{system_pod_uids, system_pods};
use crate::agent::inventory::{
    pool_refusal, replacement_pool_refusal, verify_pool_identity, verify_replacement_pool,
};
use crate::agent::owner::{Runtime, RuntimeView};
use crate::agent::steps::{Memory, StorageSave};
use crate::agent::storage_operations::stage_name;
use crate::agent::storage_saves::{
    backup_made, backup_verified, disk_removed, finish_maintenance, finish_operation,
    finished_maintenance, finished_operation, joined, layout_kept, maintained, maintenance_failed,
    maintenance_phase, operation_stage, previous_retired, relocation_begun, relocation_finished,
    relocation_switched, return_failed, return_text, runtime_forgotten, seen_missing, stopped_text,
    storage_missing, storage_returned, switched, with_lifecycle, with_verified_backup, without,
};
use crate::failure::{fail, first_of, refusal, unless, Failure};
use crate::identity;
use crate::json::{json_views, Json, JsonView};
use crate::runtime_storage::Relocation;
use crate::storage::{
    checked_total, copy_locations, location_views, position, rank, total_gib, Location, LocationView,
    Operation, OperationView, GIB,
};
use crate::storage_layout::{Layout, LayoutView};
use crate::storage_lifecycle::{
    Backup, LifecycleView, Maintenance, MaintenanceView, MissingView,
};
use crate::store::{Configuration, ConfigurationView};
use crate::values::{contents, copy_option, Plain};
use crate::vm::{no_vm, VmInfo, VmInfoView, WorkloadInventory};
use vstd::prelude::*;

verus! {

/// The workloads that the owner sees of those that were counted.
pub open spec fn shown_workloads(counted: Option<WorkloadInventory>) -> Seq<JsonView> {
    match counted {
        Some(c) => json_views(c.workloads@) + json_views(c.system_components@),
        None => Seq::empty(),
    }
}

/// What is remembered after a change, or why the controller's reply cannot be.
pub open spec fn noted(
    r: RuntimeView,
    memory: Memory,
    counted: Option<WorkloadInventory>,
    reply: JsonView,
) -> Result<RuntimeView, Seq<char>> {
    let stopped = VmInfoView { running: false, ..r.worker };
    match memory {
        Memory::UpdateReady(ready) => Ok(RuntimeView { application_update_ready: ready, ..r }),
        Memory::Starting(starting) => Ok(RuntimeView { starting, ..r }),
        Memory::NoWorker => Ok(RuntimeView { worker: no_vm(), ..r }),
        Memory::WorkerRemoved => Ok(
            RuntimeView { worker: no_vm(), workloads: Seq::empty(), ..r },
        ),
        Memory::StoppingNow(stopping) => Ok(RuntimeView { stopping_now: stopping, ..r }),
        Memory::WorkerStopped => Ok(RuntimeView { worker: stopped, ..r }),
        Memory::WorkerEmptied => Ok(
            RuntimeView { worker: stopped, workloads: Seq::empty(), ..r },
        ),
        Memory::UpdateStopped => Ok(
            RuntimeView {
                worker: stopped,
                workloads: Seq::empty(),
                application_update_ready: true,
                ..r
            },
        ),
        Memory::Workloads => Ok(
            RuntimeView {
                workloads: if r.worker.running {
                    shown_workloads(counted)
                } else {
                    Seq::empty()
                },
                ..r
            },
        ),
        Memory::Counted => Ok(RuntimeView { workloads: shown_workloads(counted), ..r }),
        Memory::SystemPods => match system_pods(reply) {
            Ok(uids) => Ok(RuntimeView { system_pod_uids: uids, ..r }),
            Err(message) => Err(message),
        },
    }
}

fn visible(counted: Option<WorkloadInventory>) -> (r: Vec<Json>)
    ensures
        contents(r@) == shown_workloads(counted),
{
    let r = match counted {
        Some(c) => c.into_visible(),
        None => Vec::new(),
    };
    assert(contents(r@) =~= json_views(r@));
    assert(contents(r@) =~= shown_workloads(counted));
    r
}

/// Change what is remembered. The workloads are those that were counted last,
/// the reply is the controller's last one.
pub fn note(
    runtime: &mut Runtime,
    memory: Memory,
    counted: Option<WorkloadInventory>,
    reply: &Json,
) -> (r: Result<(), Failure>)
    ensures
        match noted(old(runtime)@, memory, counted, reply@) {
            Ok(next) => r is Ok && final(runtime)@ == next,
            Err(message) => refusal(r) == Some(message) && final(runtime)@ == old(runtime)@,
        },
{
    match memory {
        Memory::UpdateReady(ready) => runtime.application_update_ready = ready,
        Memory::Starting(starting) => runtime.starting = starting,
        Memory::NoWorker => runtime.worker = VmInfo::default(),
        Memory::WorkerRemoved => {
            runtime.worker_stopped();
            runtime.worker = VmInfo::default();
        },
        Memory::StoppingNow(stopping) => runtime.stopping_now = stopping,
        Memory::WorkerStopped => runtime.worker.running = false,
        Memory::WorkerEmptied => runtime.worker_stopped(),
        Memory::UpdateStopped => {
            runtime.worker_stopped();
            runtime.application_update_ready = true;
        },
        Memory::Workloads => {
            let shown = if runtime.worker.running {
                counted
            } else {
                None
            };
            runtime.workloads = visible(shown);
        },
        Memory::Counted => runtime.workloads = visible(counted),
        Memory::SystemPods => match system_pod_uids(reply) {
            Ok(uids) => runtime.system_pod_uids = uids,
            Err(e) => {
                return Err(e);
            },
        },
    }
    Ok(())
}

/// The pool that the guest is asked about: its disks, those that it had, its
/// identity and its generation.
#[derive(Debug)]
pub struct PoolWork {
    pub target: Vec<Location>,
    pub previous: Vec<Location>,
    pub pool: String,
    pub generation: u64,
    /// The data of the old disks goes to the new ones.
    pub migrate: bool,
}

/// The content of a `PoolWork`.
#[verifier::ext_equal]
pub struct PoolWorkView {
    pub target: Seq<LocationView>,
    pub previous: Seq<LocationView>,
    pub pool: Seq<char>,
    pub generation: u64,
    pub migrate: bool,
}

impl View for PoolWork {
    type V = PoolWorkView;

    open spec fn view(&self) -> PoolWorkView {
        PoolWorkView {
            target: location_views(self.target@),
            previous: location_views(self.previous@),
            pool: self.pool@,
            generation: self.generation,
            migrate: self.migrate,
        }
    }
}

/// The pool that the settings call for: that of a maintenance, which has no
/// disks from before, that of a change, or the one in use.
pub open spec fn wanted_pool(c: ConfigurationView) -> PoolWorkView {
    match c.storage_lifecycle.maintenance {
        Some(op) => PoolWorkView {
            target: op.target,
            previous: Seq::empty(),
            pool: identity::hyphenated_form(op.pool_id),
            generation: op.generation,
            migrate: false,
        },
        None => match c.storage_operation {
            Some(op) => PoolWorkView {
                target: op.target,
                previous: op.previous,
                pool: pool_name(c),
                generation: op.generation,
                migrate: true,
            },
            None => PoolWorkView {
                target: c.storage_locations,
                previous: Seq::empty(),
                pool: pool_name(c),
                generation: c.storage_generation,
                migrate: true,
            },
        },
    }
}

/// The pool that the settings call for.
pub fn pool_work(config: &Configuration) -> (r: PoolWork)
    ensures
        r@ == wanted_pool(config@),
{
    let r = match &config.storage_lifecycle.maintenance {
        Some(op) => PoolWork {
            target: copy_locations(op.target.as_slice()),
            previous: Vec::new(),
            pool: identity::hyphenated_text(op.pool_id),
            generation: op.generation,
            migrate: false,
        },
        None => match &config.storage_operation {
            Some(op) => PoolWork {
                target: copy_locations(op.target.as_slice()),
                previous: copy_locations(op.previous.as_slice()),
                pool: pool_text(config),
                generation: op.generation,
                migrate: true,
            },
            None => PoolWork {
                target: copy_locations(config.storage_locations.as_slice()),
                previous: Vec::new(),
                pool: pool_text(config),
                generation: config.storage_generation,
                migrate: true,
            },
        },
    };
    assert(r@ =~= wanted_pool(config@));
    r
}

/// Why the pool in the guest is not the one that the settings call for.
pub open spec fn wanted_pool_refusal(c: ConfigurationView, state: JsonView) -> Option<Seq<char>> {
    let w = wanted_pool(c);
    first_of(
        unless(
            total_gib(w.target) * GIB <= u64::MAX,
            "The worker's storage allocation is too large"@,
        ),
        if c.storage_lifecycle.maintenance is Some {
            replacement_pool_refusal(c.device_id, w.pool, w.generation, w.target, state)
        } else {
            pool_refusal(c.device_id, w.pool, w.generation, w.target, state)
        },
    )
}

/// Whether the pool in the guest is the one that the settings call for.
pub fn check_pool(config: &Configuration, state: &Json) -> (r: Result<(), Failure>)
    ensures
        refusal(r) == wanted_pool_refusal(config@, state@),
{
    let work = pool_work(config);
    let fits = match checked_total(work.target.as_slice()) {
        Some(total) => total.checked_mul(GIB).is_some(),
        None => false,
    };
    if !fits {
        return Err(fail("The worker's storage allocation is too large"));
    }
    if config.storage_lifecycle.maintenance.is_some() {
        verify_replacement_pool(
            config.device_id.as_str(),
            work.pool.as_str(),
            work.generation,
            work.target.as_slice(),
            state,
        )
    } else {
        verify_pool_identity(
            config.device_id.as_str(),
            work.pool.as_str(),
            work.generation,
            work.target.as_slice(),
            state,
        )
    }
}

/// A disk of a list, or why there is none.
pub open spec fn disk_at(s: Option<Seq<LocationView>>, index: usize) -> Result<
    LocationView,
    Seq<char>,
> {
    match s {
        None => Err("Storage operation was interrupted"@),
        Some(disks) => if index < disks.len() {
            Ok(disks[index as int])
        } else {
            Err("Storage operation changed"@)
        },
    }
}

/// The disks from before a maintenance or a change.
pub open spec fn old_disks(c: ConfigurationView) -> Option<Seq<LocationView>> {
    match c.storage_lifecycle.maintenance {
        Some(op) => Some(op.previous),
        None => match c.storage_operation {
            Some(op) => Some(op.previous),
            None => None,
        },
    }
}

fn pick(disks: &[Location], index: usize) -> (r: Result<Location, Failure>)
    ensures
        match disk_at(Some(location_views(disks@)), index) {
            Ok(disk) => r matches Ok(l) && l@ == disk,
            Err(message) => refusal(r) == Some(message),
        },
{
    if index < disks.len() {
        Ok(disks[index].duplicate())
    } else {
        Err(fail("Storage operation changed"))
    }
}

/// The disk of that index from before a maintenance or a change.
pub fn previous_disk(config: &Configuration, index: usize) -> (r: Result<Location, Failure>)
    ensures
        match disk_at(old_disks(config@), index) {
            Ok(disk) => r matches Ok(l) && l@ == disk,
            Err(message) => refusal(r) == Some(message),
        },
{
    match &config.storage_lifecycle.maintenance {
        Some(op) => pick(op.previous.as_slice(), index),
        None => match &config.storage_operation {
            Some(op) => pick(op.previous.as_slice(), index),
            None => Err(fail("Storage operation was interrupted")),
        },
    }
}

/// The disk of that index that the settings call for.
pub fn target_disk(config: &Configuration, index: usize) -> (r: Result<Location, Failure>)
    ensures
        match disk_at(Some(wanted_pool(config@).target), index) {
            Ok(disk) => r matches Ok(l) && l@ == disk,
            Err(message) => refusal(r) == Some(message),
        },
{
    pick(pool_work(config).target.as_slice(), index)
}

/// A disk as it was before a change, and as it is once it has moved: where the
/// change wants it, with its old size.
pub open spec fn moved_of(c: ConfigurationView, index: usize) -> Result<
    (LocationView, LocationView),
    Seq<char>,
> {
    match disk_at(Some(wanted_pool(c).target), index) {
        Err(message) => Err(message),
        Ok(target) => match c.storage_operation {
            None => Err("Storage operation was interrupted"@),
            Some(op) => {
                let i = rank(op.previous, target.id);
                if i < op.previous.len() {
                    let old = op.previous[i];
                    Ok((old, LocationView { allocation_gib: old.allocation_gib, ..target }))
                } else {
                    Err("Storage operation changed"@)
                }
            },
        },
    }
}

/// A disk as it was before a change, and as it is once it has moved.
pub fn moved_disk(config: &Configuration, index: usize) -> (r: Result<
    (Location, Location),
    Failure,
>)
    ensures
        match moved_of(config@, index) {
            Ok(disks) => r matches Ok(l) && l.0@ == disks.0 && l.1@ == disks.1,
            Err(message) => refusal(r) == Some(message),
        },
{
    let target = match target_disk(config, index) {
        Ok(target) => target,
        Err(e) => {
            return Err(e);
        },
    };
    match &config.storage_operation {
        None => Err(fail("Storage operation was interrupted")),
        Some(op) => {
            let i = position(op.previous.as_slice(), target.id.as_str());
            if i < op.previous.len() {
                let old = op.previous[i].duplicate();
                let mut moved = target;
                moved.allocation_gib = old.allocation_gib;
                Ok((old, moved))
            } else {
                Err(fail("Storage operation changed"))
            }
        },
    }
}

/// What a reset of the worker's access is requested by, or why there is no
/// request. A maintenance goes before a replacement.
pub open spec fn reset_of(c: ConfigurationView) -> Result<u128, Seq<char>> {
    match c.storage_lifecycle.maintenance {
        Some(op) => Ok(op.request_id),
        None => match c.recreation {
            Some(recreation) => Ok(recreation.request_id),
            None => Err("No worker replacement is pending"@),
        },
    }
}

/// What a reset of the worker's access is requested by.
pub fn reset_request(config: &Configuration) -> (r: Result<u128, Failure>)
    ensures
        match reset_of(config@) {
            Ok(id) => r == Ok::<u128, Failure>(id),
            Err(message) => refusal(r) == Some(message),
        },
{
    match &config.storage_lifecycle.maintenance {
        Some(op) => Ok(op.request_id),
        None => match &config.recreation {
            Some(recreation) => Ok(recreation.request_id),
            None => Err(fail("No worker replacement is pending")),
        },
    }
}

/// The settings as a change leaves them: with its disks and their generation.
pub open spec fn after_change(c: ConfigurationView) -> ConfigurationView {
    match c.storage_operation {
        Some(op) => ConfigurationView {
            storage_locations: op.target,
            storage_generation: op.generation,
            ..c
        },
        None => c,
    }
}

/// The settings as a change leaves them.
pub fn changed_settings(config: &Configuration) -> (r: Configuration)
    ensures
        r@ == after_change(config@),
{
    let mut r = config.clone();
    if let Some(op) = &config.storage_operation {
        r.storage_locations = copy_locations(op.target.as_slice());
        r.storage_generation = op.generation;
    }
    assert(r@ =~= after_change(config@));
    r
}

/// The settings with the disks that a change wants, and where it wants the VM.
pub open spec fn before_change(c: ConfigurationView) -> ConfigurationView {
    match c.storage_operation {
        Some(op) => ConfigurationView {
            storage_locations: op.target,
            storage_layout: if op.layout is Some {
                op.layout
            } else {
                c.storage_layout
            },
            ..c
        },
        None => c,
    }
}

/// The settings with the disks that a change wants, and where it wants the VM.
pub fn wanted_settings(config: &Configuration) -> (r: Configuration)
    ensures
        r@ == before_change(config@),
{
    let mut r = config.clone();
    if let Some(op) = &config.storage_operation {
        r.storage_locations = copy_locations(op.target.as_slice());
        if op.layout.is_some() {
            r.storage_layout = copy_option(&op.layout);
        }
    }
    assert(r@ =~= before_change(config@));
    r
}

/// What a routine found out that its records are about.
#[derive(Debug)]
pub struct Findings {
    /// The error that was kept.
    pub error: String,
    pub maintenance: Option<Maintenance>,
    pub operation: Option<Operation>,
    /// The backup file that was made.
    pub backup: Option<Backup>,
    pub hash: String,
    pub bytes: u64,
    /// The disks that are not there, and those that are.
    pub missing: Vec<Location>,
    pub remaining: Vec<Location>,
    /// Where the VM goes, or what is left of it.
    pub layout: Option<Layout>,
    pub relocation: Option<Relocation>,
}

/// The settings after a change of the storage records, or why it is refused. A
/// rebuild draws its identities by chance, and is not among these.
pub open spec fn storage_saved(
    c: ConfigurationView,
    change: StorageSave,
    found: Findings,
    now: u64,
) -> Result<ConfigurationView, Seq<char>> {
    let lifecycle = c.storage_lifecycle;
    match change {
        StorageSave::MaintenanceFailed => maintained(
            c,
            |op: MaintenanceView|
                Ok(MaintenanceView { error: Some(stopped_text(found.error@)), ..op }),
        ),
        StorageSave::MaintenancePhase(phase) => maintained(
            c,
            |op: MaintenanceView| Ok(MaintenanceView { phase, ..op }),
        ),
        StorageSave::BackupMade => match found.backup {
            Some(backup) => maintained(
                c,
                |op: MaintenanceView| Ok(MaintenanceView { backup: Some(backup@), ..op }),
            ),
            None => Err("Backup record disappeared"@),
        },
        StorageSave::BackupVerified => maintained(
            c,
            |op: MaintenanceView| with_verified_backup(op, found.hash@, found.bytes),
        ),
        StorageSave::PreviousRetired => match found.maintenance {
            Some(op) => Ok(
                with_lifecycle(
                    c,
                    LifecycleView { retired: joined(lifecycle.retired, op@.previous), ..lifecycle },
                ),
            ),
            None => Err("Storage maintenance was interrupted"@),
        },
        StorageSave::DiskRemoved(index) => match disk_at(old_disks(c), index) {
            Ok(gone) => Ok(
                ConfigurationView {
                    storage_lifecycle: LifecycleView {
                        retired: without(lifecycle.retired, gone),
                        ..lifecycle
                    },
                    storage_retained: without(c.storage_retained, gone),
                    ..c
                },
            ),
            Err(message) => Err(message),
        },
        StorageSave::MaintenanceFinished => match found.maintenance {
            Some(op) => if c.storage_revision < u64::MAX {
                Ok(finished_maintenance(c, op@))
            } else {
                Err("Storage revision overflow"@)
            },
            None => Err("Storage maintenance was interrupted"@),
        },
        StorageSave::OperationStage(stage) => match c.storage_operation {
            Some(op) => Ok(
                ConfigurationView {
                    storage_operation: Some(OperationView { phase: stage_name(stage), ..op }),
                    ..c
                },
            ),
            None => Err("Storage operation was interrupted"@),
        },
        StorageSave::OperationFinished => match found.operation {
            Some(op) => if total_gib(op@.target) <= u64::MAX {
                finished_operation(c, op@)
            } else {
                Err("The worker's storage allocation is too large"@)
            },
            None => Err("Storage operation was interrupted"@),
        },
        StorageSave::StorageMissing => Ok(
            with_lifecycle(
                c,
                LifecycleView {
                    missing: Some(
                        seen_missing(lifecycle.missing, location_views(found.missing@), now),
                    ),
                    ..lifecycle
                },
            ),
        ),
        StorageSave::ReturnFailed => match lifecycle.missing {
            Some(m) => Ok(
                with_lifecycle(
                    c,
                    LifecycleView {
                        missing: Some(
                            MissingView { error: Some(return_text(found.error@)), ..m },
                        ),
                        ..lifecycle
                    },
                ),
            ),
            None => Err("Missing recovery record"@),
        },
        StorageSave::StorageReturned => Ok(
            with_lifecycle(c, LifecycleView { missing: None, ..lifecycle }),
        ),
        StorageSave::RecoveryBegun => Ok(c),
        StorageSave::LayoutKept => match found.layout {
            Some(layout) => Ok(ConfigurationView { storage_layout: Some(layout@), ..c }),
            None => Err("VM relocation was canceled"@),
        },
        StorageSave::RelocationBegun => match found.relocation {
            Some(relocation) => match c.runtime_relocation {
                None => Ok(ConfigurationView { runtime_relocation: Some(relocation@), ..c }),
                Some(saved) => if !saved.switched && saved.source == relocation@.source
                    && saved.source_volume_id == relocation@.source_volume_id && saved.target
                    == relocation@.target {
                    Ok(c)
                } else {
                    Err("Finish the previous VM relocation before moving it again"@)
                },
            },
            None => Err("VM relocation was canceled"@),
        },
        StorageSave::RelocationSwitched => match found.layout {
            Some(layout) => switched(c, layout@),
            None => Err("VM relocation was canceled"@),
        },
        StorageSave::RelocationFinished => match (found.relocation, c.runtime_relocation) {
            (Some(wanted), Some(saved)) => if saved.switched && saved.target == wanted@.target
                && saved.source == wanted@.source {
                Ok(ConfigurationView { runtime_relocation: None, ..c })
            } else {
                Err("VM relocation changed during cleanup"@)
            },
            (Some(_), None) => Err("VM relocation changed during cleanup"@),
            (None, _) => Err("VM relocation was canceled"@),
        },
        StorageSave::RuntimeForgotten => match found.layout {
            Some(layout) => Ok(
                ConfigurationView {
                    runtime_retained: c.runtime_retained.filter(|l: LayoutView| l != layout@),
                    ..c
                },
            ),
            None => Err("VM relocation was canceled"@),
        },
    }
}

/// Whether a rebuild on the remaining disks was begun as the owner permits it.
pub open spec fn rebuild_begun(
    before: ConfigurationView,
    after: ConfigurationView,
    remaining: Seq<LocationView>,
    r: Result<(), Failure>,
) -> bool {
    if before.storage_revision == u64::MAX || before.storage_generation == u64::MAX {
        refusal(r) == Some("Storage revision overflow"@) && after == before
    } else if total_gib(remaining) > u64::MAX {
        refusal(r) == Some("The worker's storage allocation is too large"@) && after == before
    } else if before.policy.enabled && before.storage_lifecycle.recovery_enabled {
        r is Ok && exists|request: u128, pool: u128, fresh: Seq<u128>|
            fresh.len() == remaining.len() && after == #[trigger] recovering(
                before,
                remaining,
                total_gib(remaining) as u64,
                request,
                pool,
                fresh,
            )
    } else {
        refusal(r) == Some("Owner paused automatic recovery"@) && after == before
    }
}

fn begin_rebuild(config: &mut Configuration, remaining: &[Location]) -> (r: Result<(), Failure>)
    ensures
        rebuild_begun(old(config)@, final(config)@, location_views(remaining@), r),
{
    if config.storage_revision == u64::MAX || config.storage_generation == u64::MAX {
        return Err(fail("Storage revision overflow"));
    }
    match checked_total(remaining) {
        Some(total) => rebuild(config, remaining, total),
        None => Err(fail("The worker's storage allocation is too large")),
    }
}

fn save_maintenance(
    config: &mut Configuration,
    change: StorageSave,
    found: &Findings,
) -> (r: Result<(), Failure>)
    requires
        change is MaintenanceFailed || change is MaintenancePhase || change is BackupMade
            || change is BackupVerified || change is PreviousRetired || change is DiskRemoved
            || change is MaintenanceFinished,
    ensures
        match storage_saved(old(config)@, change, *found, 0) {
            Ok(next) => r is Ok && final(config)@ == next,
            Err(message) => refusal(r) == Some(message) && final(config)@ == old(config)@,
        },
{
    match change {
        StorageSave::MaintenanceFailed => maintenance_failed(config, found.error.as_str()),
        StorageSave::MaintenancePhase(phase) => maintenance_phase(config, phase),
        StorageSave::BackupMade => match &found.backup {
            Some(backup) => backup_made(config, backup),
            None => Err(fail("Backup record disappeared")),
        },
        StorageSave::BackupVerified => backup_verified(config, found.hash.as_str(), found.bytes),
        StorageSave::PreviousRetired => match &found.maintenance {
            Some(op) => {
                previous_retired(config, op.previous.as_slice());
                Ok(())
            },
            None => Err(fail("Storage maintenance was interrupted")),
        },
        StorageSave::DiskRemoved(index) => match previous_disk(config, index) {
            Ok(gone) => {
                disk_removed(config, &gone);
                Ok(())
            },
            Err(e) => Err(e),
        },
        _ => match &found.maintenance {
            Some(op) => if config.storage_revision < u64::MAX {
                finish_maintenance(config, op);
                Ok(())
            } else {
                Err(fail("Storage revision overflow"))
            },
            None => Err(fail("Storage maintenance was interrupted")),
        },
    }
}

fn save_relocation(
    config: &mut Configuration,
    change: StorageSave,
    found: &Findings,
) -> (r: Result<(), Failure>)
    requires
        change is LayoutKept || change is RelocationBegun || change is RelocationSwitched
            || change is RelocationFinished || change is RuntimeForgotten,
    ensures
        match storage_saved(old(config)@, change, *found, 0) {
            Ok(next) => r is Ok && final(config)@ == next,
            Err(message) => refusal(r) == Some(message) && final(config)@ == old(config)@,
        },
{
    match (change, &found.layout, &found.relocation) {
        (StorageSave::LayoutKept, Some(layout), _) => {
            layout_kept(config, layout);
            Ok(())
        },
        (StorageSave::RelocationBegun, _, Some(relocation)) => relocation_begun(
            config,
            relocation,
        ),
        (StorageSave::RelocationSwitched, Some(layout), _) => relocation_switched(config, layout),
        (StorageSave::RelocationFinished, _, Some(saved)) => relocation_finished(config, saved),
        (StorageSave::RuntimeForgotten, Some(layout), _) => {
            runtime_forgotten(config, layout);
            Ok(())
        },
        _ => Err(fail("VM relocation was canceled")),
    }
}

/// Change the storage records as a routine asks for it.
pub fn save_storage(
    config: &mut Configuration,
    change: StorageSave,
    found: &Findings,
    now: u64,
) -> (r: Result<(), Failure>)
    ensures
        change is RecoveryBegun ==> rebuild_begun(
            old(config)@,
            final(config)@,
            location_views(found.remaining@),
            r,
        ),
        !(change is RecoveryBegun) ==> match storage_saved(old(config)@, change, *found, now) {
            Ok(next) => r is Ok && final(config)@ == next,
            Err(message) => refusal(r) == Some(message) && final(config)@ == old(config)@,
        },
{
    match change {
        StorageSave::OperationStage(stage) => operation_stage(config, stage),
        StorageSave::OperationFinished => match &found.operation {
            Some(op) => if checked_total(op.target.as_slice()).is_some() {
                finish_operation(config, op)
            } else {
                Err(fail("The worker's storage allocation is too large"))
            },
            None => Err(fail("Storage operation was interrupted")),
        },
        StorageSave::StorageMissing => {
            storage_missing(config, found.missing.as_slice(), now);
            Ok(())
        },
        StorageSave::ReturnFailed => return_failed(config, found.error.as_str()),
        StorageSave::StorageReturned => {
            storage_returned(config);
            Ok(())
        },
        StorageSave::RecoveryBegun => begin_rebuild(config, found.remaining.as_slice()),
        StorageSave::LayoutKept
        | StorageSave::RelocationBegun
        | StorageSave::RelocationSwitched
        | StorageSave::RelocationFinished
        | StorageSave::RuntimeForgotten => save_relocation(config, change, found),
        _ => save_maintenance(config, change, found),
    }
}

} // verus!
