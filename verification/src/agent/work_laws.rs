//! What the steps of the routines are about, what their saves change, and what the
//! supervisor remembers of them.
use crate::agent::apply::pool_name;
use crate::agent::controller::system_pods;
use crate::agent::owner::RuntimeView;
use crate::agent::steps::{
    expired, facts_of, notice_state, resize_pending, route_path, sight_of, Memory, Notice, Route,
    Stage, StorageSave,
};
use crate::agent::storage_operations::stage_name;
use crate::agent::storage_saves::{joined_holds_both, without};
use crate::agent::work::{
    after_change, before_change, moved_of, noted, old_disks, reset_of, storage_saved, wanted_pool,
    wanted_pool_refusal, Findings,
};
use crate::identity;
use crate::json::{json_views, JsonView};
use crate::storage::{lemma_rank, total_gib, LocationView, OperationView};
use crate::storage_layout::LayoutView;
use crate::storage_lifecycle::{LifecycleView, MaintenanceView, MissingView, Phase};
use crate::store::ConfigurationView;
use crate::vm::{no_vm, VmInfoView, WorkloadInventory};
use vstd::prelude::*;

verus! {

/// What is remembered is only what was learned: a worker that stopped, or went, or holds no
/// work any longer, and nothing else.
pub proof fn memories_change_what_was_learned(
    r: RuntimeView,
    counted: Option<WorkloadInventory>,
    reply: JsonView,
    on: bool,
)
    ensures
        noted(r, Memory::UpdateReady(on), counted, reply) == Ok::<RuntimeView, Seq<char>>(
            RuntimeView { application_update_ready: on, ..r },
        ),
        noted(r, Memory::StoppingNow(on), counted, reply) == Ok::<RuntimeView, Seq<char>>(
            RuntimeView { stopping_now: on, ..r },
        ),
        noted(r, Memory::NoWorker, counted, reply) == Ok::<RuntimeView, Seq<char>>(
            RuntimeView { worker: no_vm(), ..r },
        ),
        noted(r, Memory::WorkerRemoved, counted, reply) matches Ok(n) && n.workloads.len() == 0 && n
            == (RuntimeView { worker: no_vm(), workloads: n.workloads, ..r }),
        noted(r, Memory::WorkerStopped, counted, reply) matches Ok(n) && !n.worker.running && n
            == (RuntimeView { worker: VmInfoView { running: false, ..r.worker }, ..r }),
        noted(r, Memory::WorkerEmptied, counted, reply) matches Ok(n) && !n.worker.running
            && n.workloads.len() == 0 && n == (RuntimeView {
            worker: VmInfoView { running: false, ..r.worker },
            workloads: n.workloads,
            ..r
        }),
        noted(r, Memory::UpdateStopped, counted, reply) matches Ok(n) && !n.worker.running
            && n.workloads.len() == 0 && n.application_update_ready && n == (RuntimeView {
            worker: VmInfoView { running: false, ..r.worker },
            workloads: n.workloads,
            application_update_ready: true,
            ..r
        }),
{
}

/// The workloads that are shown are those that were counted with the system's, and of a
/// worker that does not run none; the controller's system pods are taken where its reply
/// can be read.
pub proof fn shown_workloads_are_the_counted_ones(
    r: RuntimeView,
    counted: WorkloadInventory,
    reply: JsonView,
    i: int,
)
    ensures
        noted(r, Memory::Counted, Some(counted), reply) matches Ok(n) && n == (RuntimeView {
            workloads: n.workloads,
            ..r
        }) && n.workloads.len() == counted.workloads@.len() + counted.system_components@.len() && (
        0 <= i < counted.workloads@.len() ==> n.workloads[i] == json_views(counted.workloads@)[i])
            && (0 <= i < counted.system_components@.len() ==> n.workloads[counted.workloads@.len()
            + i] == json_views(counted.system_components@)[i]),
        r.worker.running ==> noted(r, Memory::Workloads, Some(counted), reply) == noted(
            r,
            Memory::Counted,
            Some(counted),
            reply,
        ),
        !r.worker.running ==> (noted(r, Memory::Workloads, Some(counted), reply) matches Ok(n)
            && n.workloads.len() == 0 && n == (RuntimeView { workloads: n.workloads, ..r })),
        noted(r, Memory::Counted, None, reply) matches Ok(n) && n.workloads.len() == 0,
        system_pods(reply) matches Ok(uids) ==> noted(r, Memory::SystemPods, Some(counted), reply)
            == Ok::<RuntimeView, Seq<char>>(RuntimeView { system_pod_uids: uids, ..r }),
        system_pods(reply) is Err ==> noted(r, Memory::SystemPods, Some(counted), reply) is Err,
{
}

/// The pool that a worker must have is the maintenance's new one, which nothing is moved
/// into; else the change's next generation over the old disks; else the one in use.
pub proof fn pools_are_wanted_as_the_work_says(c: ConfigurationView)
    ensures
        ({
            let w = wanted_pool(c);
            &&& c.storage_lifecycle.maintenance matches Some(op) ==> w.target == op.target
                && w.previous.len() == 0 && w.pool == identity::hyphenated_form(op.pool_id)
                && w.generation == op.generation && !w.migrate && old_disks(c) == Some(op.previous)
            &&& c.storage_lifecycle.maintenance is None ==> w.pool == pool_name(c) && w.migrate
            &&& c.storage_lifecycle.maintenance is None ==> (c.storage_operation matches Some(op)
                ==> w.target == op.target && w.previous == op.previous && w.generation
                == op.generation && old_disks(c) == Some(op.previous))
            &&& c.storage_lifecycle.maintenance is None && c.storage_operation is None ==> w.target
                == c.storage_locations && w.previous.len() == 0 && w.generation
                == c.storage_generation && old_disks(c) is None
        }),
{
}

/// A wanted pool passes only where it is this device's, in its generation and with its
/// disks, and where its size can be told in bytes.
pub proof fn wanted_pools_are_checked_whole(c: ConfigurationView, state: JsonView)
    ensures
        wanted_pool_refusal(c, state) is None <==> total_gib(wanted_pool(c).target) * 1_073_741_824
            <= u64::MAX && crate::agent::inventory::pool_refusal(
            c.device_id,
            wanted_pool(c).pool,
            wanted_pool(c).generation,
            wanted_pool(c).target,
            state,
        ) is None,
{
}

/// A disk is moved from where the change found it to its new place in its old size; it is
/// the disk of that identity.
pub proof fn moved_disks_keep_their_size(c: ConfigurationView, index: usize)
    ensures
        moved_of(c, index) matches Ok(m) ==> {
            let target = wanted_pool(c).target[index as int];
            let op = c.storage_operation->0;
            &&& index < wanted_pool(c).target.len()
            &&& c.storage_operation is Some
            &&& m.0.id == target.id
            &&& op.previous.contains(m.0)
            &&& m.1.id == target.id
            &&& m.1.directory == target.directory
            &&& m.1.volume_id == target.volume_id
            &&& m.1.allocation_gib == m.0.allocation_gib
        },
        moved_of(c, index) is Err ==> index >= wanted_pool(c).target.len() || c.storage_operation
            is None || forall|k: int|
            0 <= k < c.storage_operation->0.previous.len() ==> (
            #[trigger] c.storage_operation->0.previous[k]).id != wanted_pool(
                c,
            ).target[index as int].id,
{
    if c.storage_operation is Some && index < wanted_pool(c).target.len() {
        let s = c.storage_operation->0.previous;
        lemma_rank(s, wanted_pool(c).target[index as int].id, 0);
    }
}

/// Access is reset for the request that replaces the worker: the maintenance's, else the
/// replacement's.
pub proof fn resets_are_for_their_request(c: ConfigurationView)
    ensures
        c.storage_lifecycle.maintenance matches Some(op) ==> reset_of(c) == Ok::<u128, Seq<char>>(
            op.request_id,
        ),
        c.storage_lifecycle.maintenance is None ==> (c.recreation matches Some(r) ==> reset_of(c)
            == Ok::<u128, Seq<char>>(r.request_id)),
        c.storage_lifecycle.maintenance is None && c.recreation is None ==> reset_of(c) is Err,
{
}

/// The worker is looked at with the disks that a change brings, under its layout before it
/// is done and in its generation after.
pub proof fn changes_are_looked_at_with_their_disks(c: ConfigurationView)
    ensures
        c.storage_operation is None ==> after_change(c) == c && before_change(c) == c,
        c.storage_operation matches Some(op) ==> {
            let a = after_change(c);
            let b = before_change(c);
            &&& a == ConfigurationView {
                storage_locations: op.target,
                storage_generation: op.generation,
                ..c
            }
            &&& b == ConfigurationView {
                storage_locations: op.target,
                storage_layout: b.storage_layout,
                ..c
            }
            &&& op.layout is Some ==> b.storage_layout == op.layout
            &&& op.layout is None ==> b.storage_layout == c.storage_layout
        },
{
}

/// A failed maintenance keeps its phase with the error, a finished phase moves on without
/// touching anything else, and a backup is written down where it was made.
pub proof fn maintenance_saves_change_their_record(
    c: ConfigurationView,
    phase: Phase,
    found: Findings,
    now: u64,
)
    ensures
        c.storage_lifecycle.maintenance is None ==> storage_saved(
            c,
            StorageSave::MaintenanceFailed,
            found,
            now,
        ) is Err && storage_saved(c, StorageSave::MaintenancePhase(phase), found, now) is Err
            && storage_saved(c, StorageSave::BackupMade, found, now) is Err,
        c.storage_lifecycle.maintenance matches Some(op) ==> {
            let failed = storage_saved(c, StorageSave::MaintenanceFailed, found, now)->Ok_0;
            let moved = storage_saved(c, StorageSave::MaintenancePhase(phase), found, now)->Ok_0;
            let made = storage_saved(c, StorageSave::BackupMade, found, now)->Ok_0;
            &&& storage_saved(c, StorageSave::MaintenanceFailed, found, now) is Ok
            &&& storage_saved(c, StorageSave::MaintenancePhase(phase), found, now) is Ok
            &&& storage_saved(c, StorageSave::BackupMade, found, now) is Ok <==> found.backup is Some
            &&& failed == ConfigurationView {
                storage_lifecycle: LifecycleView {
                    maintenance: Some(
                        MaintenanceView {
                            error: failed.storage_lifecycle.maintenance->0.error,
                            ..op
                        },
                    ),
                    ..c.storage_lifecycle
                },
                ..c
            }
            &&& failed.storage_lifecycle.maintenance->0.error is Some
            &&& moved == ConfigurationView {
                storage_lifecycle: LifecycleView {
                    maintenance: Some(MaintenanceView { phase, ..op }),
                    ..c.storage_lifecycle
                },
                ..c
            }
            &&& found.backup matches Some(b) ==> made == (ConfigurationView {
                storage_lifecycle: LifecycleView {
                    maintenance: Some(MaintenanceView { backup: Some(b@), ..op }),
                    ..c.storage_lifecycle
                },
                ..c
            })
        },
{
}

/// Disks are kept as retired before they are deleted, and a disk that was deleted is
/// forgotten alone.
pub proof fn disks_are_forgotten_when_they_are_gone(
    c: ConfigurationView,
    index: usize,
    found: Findings,
    now: u64,
    l: LocationView,
)
    ensures
        storage_saved(c, StorageSave::PreviousRetired, found, now) is Ok <==> found.maintenance
            is Some,
        storage_saved(c, StorageSave::PreviousRetired, found, now) matches Ok(n) ==> n == (
        ConfigurationView {
            storage_lifecycle: LifecycleView {
                retired: n.storage_lifecycle.retired,
                ..c.storage_lifecycle
            },
            ..c
        }) && (found.maintenance->0@.previous.contains(l) || c.storage_lifecycle.retired.contains(l)
            ==> n.storage_lifecycle.retired.contains(l)),
        storage_saved(c, StorageSave::DiskRemoved(index), found, now) is Ok <==> (old_disks(
            c,
        ) matches Some(disks) && index < disks.len()),
        storage_saved(c, StorageSave::DiskRemoved(index), found, now) matches Ok(n) ==> {
            let gone = old_disks(c)->0[index as int];
            &&& n == ConfigurationView {
                storage_lifecycle: LifecycleView {
                    retired: n.storage_lifecycle.retired,
                    ..c.storage_lifecycle
                },
                storage_retained: n.storage_retained,
                ..c
            }
            &&& n.storage_lifecycle.retired.contains(l) <==> l != gone
                && c.storage_lifecycle.retired.contains(l)
            &&& n.storage_retained.contains(l) <==> l != gone && c.storage_retained.contains(l)
        },
{
    if found.maintenance is Some && (found.maintenance->0@.previous.contains(l)
        || c.storage_lifecycle.retired.contains(l)) {
        joined_holds_both(c.storage_lifecycle.retired, found.maintenance->0@.previous, l);
    }
    if storage_saved(c, StorageSave::DiskRemoved(index), found, now) is Ok {
        let gone = old_disks(c)->0[index as int];
        lemma_without(c.storage_lifecycle.retired, gone, l);
        lemma_without(c.storage_retained, gone, l);
    }
}

proof fn lemma_without(s: Seq<LocationView>, gone: LocationView, l: LocationView)
    ensures
        without(s, gone).contains(l) <==> l != gone && s.contains(l),
    decreases s.len(),
{
    reveal(Seq::filter);
    if s.len() > 0 {
        let first = s.drop_last();
        lemma_without(first, gone, l);
        let before = without(first, gone);
        let now = without(s, gone);
        assert(now == if s.last() != gone {
            before.push(s.last())
        } else {
            before
        });
        if before.contains(l) {
            let i = choose|i: int| 0 <= i < before.len() && before[i] == l;
            assert(now[i] == l);
        }
        if l == s.last() && l != gone {
            assert(now[now.len() - 1] == l);
        }
        if now.contains(l) && l != s.last() {
            let i = choose|i: int| 0 <= i < now.len() && now[i] == l;
            assert(before[i] == l);
        }
        if s.contains(l) && l != s.last() {
            let i = choose|i: int| 0 <= i < s.len() && s[i] == l;
            assert(first[i] == l);
        }
        if first.contains(l) {
            let i = choose|i: int| 0 <= i < first.len() && first[i] == l;
            assert(s[i] == l);
        }
    }
}

/// A change moves on by its stage alone; missing storage is noted, keeps the reason why it
/// did not return, and is forgotten once it did.
pub proof fn storage_saves_note_what_was_seen(
    c: ConfigurationView,
    stage: Stage,
    found: Findings,
    now: u64,
)
    ensures
        storage_saved(c, StorageSave::OperationStage(stage), found, now) is Ok <==> c.storage_operation
            is Some,
        storage_saved(c, StorageSave::OperationStage(stage), found, now) matches Ok(n) ==> n == (
        ConfigurationView {
            storage_operation: Some(
                OperationView { phase: stage_name(stage), ..c.storage_operation->0 },
            ),
            ..c
        }),
        storage_saved(c, StorageSave::StorageMissing, found, now) matches Ok(n)
            && n.storage_lifecycle.missing is Some && n == (ConfigurationView {
            storage_lifecycle: LifecycleView {
                missing: n.storage_lifecycle.missing,
                ..c.storage_lifecycle
            },
            ..c
        }),
        storage_saved(c, StorageSave::ReturnFailed, found, now) is Ok <==> c.storage_lifecycle.missing
            is Some,
        storage_saved(c, StorageSave::ReturnFailed, found, now) matches Ok(n)
            ==> n.storage_lifecycle.missing->0.error is Some && n == (ConfigurationView {
            storage_lifecycle: LifecycleView {
                missing: Some(
                    MissingView {
                        error: n.storage_lifecycle.missing->0.error,
                        ..c.storage_lifecycle.missing->0
                    },
                ),
                ..c.storage_lifecycle
            },
            ..c
        }),
        storage_saved(c, StorageSave::StorageReturned, found, now) == Ok::<
            ConfigurationView,
            Seq<char>,
        >(
            ConfigurationView {
                storage_lifecycle: LifecycleView { missing: None, ..c.storage_lifecycle },
                ..c
            },
        ),
{
}

/// The VM's place is kept as it was found; a move is written down once, goes on only as the
/// same one, and is forgotten only when it was switched; a runtime that was removed is
/// forgotten alone.
pub proof fn moves_are_written_down_once(
    c: ConfigurationView,
    found: Findings,
    now: u64,
    l: LayoutView,
)
    ensures
        found.layout matches Some(layout) ==> storage_saved(c, StorageSave::LayoutKept, found, now)
            == Ok::<ConfigurationView, Seq<char>>(
            ConfigurationView { storage_layout: Some(layout@), ..c },
        ),
        found.relocation matches Some(r) ==> {
            let begun = storage_saved(c, StorageSave::RelocationBegun, found, now);
            let ended = storage_saved(c, StorageSave::RelocationFinished, found, now);
            &&& c.runtime_relocation is None ==> begun == Ok::<ConfigurationView, Seq<char>>(
                ConfigurationView { runtime_relocation: Some(r@), ..c },
            ) && ended is Err
            &&& c.runtime_relocation matches Some(saved) ==> (begun is Ok <==> !saved.switched
                && saved.source == r@.source && saved.source_volume_id == r@.source_volume_id
                && saved.target == r@.target) && (begun is Ok ==> begun == Ok::<
                ConfigurationView,
                Seq<char>,
            >(c)) && (ended is Ok <==> saved.switched && saved.source == r@.source && saved.target
                == r@.target) && (ended is Ok ==> ended == Ok::<ConfigurationView, Seq<char>>(
                ConfigurationView { runtime_relocation: None, ..c },
            ))
        },
        found.layout matches Some(layout) ==> (storage_saved(
            c,
            StorageSave::RuntimeForgotten,
            found,
            now,
        ) matches Ok(n) && n == (ConfigurationView { runtime_retained: n.runtime_retained, ..c })
            && (n.runtime_retained.contains(l) <==> l != layout@ && c.runtime_retained.contains(
            l,
        ))),
{
    if found.layout is Some {
        let layout = found.layout->0;
        let gone = layout@;
        let keep = |x: LayoutView| x != layout@;
        let s = c.runtime_retained;
        let r = s.filter(keep);
        let n = storage_saved(c, StorageSave::RuntimeForgotten, found, now)->Ok_0;
        assert(n.runtime_retained == r);
        if r.contains(l) {
            let i = choose|i: int| 0 <= i < r.len() && r[i] == l;
            s.lemma_filter_pred(keep, i);
            s.lemma_filter_contains_rev(keep, l);
        }
        if s.contains(l) && l != gone {
            let i = choose|i: int| 0 <= i < s.len() && s[i] == l;
            s.lemma_filter_contains(keep, i);
        }
    }
}

/// What a tick goes by is what the settings say.
pub proof fn facts_are_those_of_the_settings(c: ConfigurationView, now: u64)
    ensures
        ({
            let f = facts_of(c, now);
            &&& f.enrolled <==> c.device_token is Some
            &&& f.update_pending <==> c.application_update_pending
            &&& f.pending <==> c.remote.pending is Some
            &&& f.storage_request <==> c.remote.pending is Some
                && c.remote.pending->0.edit.operation is Some
            &&& f.stop_requested <==> c.stop_requested
            &&& f.prepare_requested <==> c.prepare_requested
            &&& f.vm_created <==> c.vm_created
            &&& f.vm_configured <==> c.vm_configured
            &&& f.maintenance <==> c.storage_lifecycle.maintenance is Some
            &&& f.disabled <==> c.storage_lifecycle.disabled
            &&& f.operation <==> c.storage_operation is Some
            &&& f.recreation <==> c.recreation is Some
            &&& f.access_removed <==> c.recreation is Some && c.recreation->0.access_removed
            &&& f.repair <==> c.remote.repair_required
            &&& f.placed <==> c.storage_locations.len() != 0
            &&& f.resources == c.policy.resources
            &&& f.allocated == c.allocated_resources
            &&& f.draining_since == c.draining_since
            &&& f.drain_seconds == c.policy.drain_seconds
            &&& f.now == now
            &&& f.next_provider == if c.recreation is Some
                && c.recreation->0.target_provider is Some {
                c.recreation->0.target_provider->0
            } else {
                c.vm_provider
            }
        }),
{
}

/// A worker is to be resized where it is configured and what it has is not what is shared; a
/// drain is over once its time has passed since it began, at once where none is given, and
/// never before it begins.
pub proof fn drains_have_their_time(c: ConfigurationView, now: u64)
    ensures
        resize_pending(facts_of(c, now)) <==> c.vm_configured && c.allocated_resources != Some(
            c.policy.resources,
        ),
        c.draining_since is None ==> !expired(facts_of(c, now)),
        c.draining_since matches Some(since) ==> (c.policy.drain_seconds == 0 ==> expired(
            facts_of(c, now),
        )) && (c.policy.drain_seconds > 0 ==> (expired(facts_of(c, now)) <==> now - since
            >= c.policy.drain_seconds)),
{
}

/// What is seen of a worker is what its VM reports.
pub proof fn sights_are_what_was_reported(v: VmInfoView)
    ensures
        sight_of(v).installed == v.installed,
        sight_of(v).running == v.running,
        sight_of(v).reachable == v.reachable,
        sight_of(v).stopped == v.stopped,
{
}

/// Each request has a way of its own to the controller.
pub proof fn requests_go_their_own_way(a: Route, b: Route)
    ensures
        route_path(a) == route_path(b) ==> a == b,
        route_path(Route::Drain) == "/device/drain"@,
        route_path(Route::Resume) == "/device/resume"@,
        route_path(Route::Reset) == "/device/reset"@,
        route_path(Route::Maintenance) == "/device/maintenance"@,
        route_path(Route::Bootstrap) == "/device/bootstrap"@,
{
    reveal_strlit("/device/bootstrap");
    reveal_strlit("/device/maintenance");
    reveal_strlit("/device/drain");
    reveal_strlit("/device/resume");
    reveal_strlit("/device/reset");
    assert("/device/bootstrap"@[8] == 'b');
    assert("/device/maintenance"@[8] == 'm');
    assert("/device/drain"@[8] == 'd');
    assert("/device/resume"@[10] == 's' && "/device/resume"@.len() == 14);
    assert("/device/reset"@[8] == 'r' && "/device/reset"@.len() == 13);
}

/// A worker is shown as sharing only when it shares; an error is shown for a worker out of
/// reach and for missing storage, a drain where work is waited for, and work on the worker
/// as its preparation.
pub proof fn states_are_shown_as_they_are(n: Notice)
    ensures
        n is Sharing ==> notice_state(n) == "sharing"@,
        n is Connecting ==> notice_state(n) == "connecting"@,
        n is Replacing ==> notice_state(n) == "replacing"@,
        n is Unreachable || n is StorageMissing ==> notice_state(n) == "error"@,
        n is WaitingForUpdate || n is DrainingForResize || n is Draining || n is WaitingForWork
            || n is DrainingForReplacement || n is PreparingUpdate || n is StorageWaiting
            ==> notice_state(n) == "draining"@,
        n is Preparing || n is StorageMaintenance || n is StorageFiles || n is StorageApplying
            || n is MovingRuntime || n is DownloadingImage || n is AtPhase ==> notice_state(n)
            == "preparing"@,
        n is ConnectFirst || n is StorageDisabled || n is StoppedForUpdate || n is Incomplete
            || n is PrepareFirst || n is ResourcesUpdated || n is PausedFromFleet
            || n is WorkerStopped || n is Replaced || n is MaintenancePaused
            || n is StorageChangePaused || n is StorageUpdated || n is RecoveryPaused
            || n is StorageDeleted || n is StorageVerified ==> notice_state(n) == "paused"@,
{
}

} // verus!
