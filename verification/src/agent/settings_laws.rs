//! What the supervisor's changes of the settings come to: what each of them sets, and
//! that it leaves everything else alone.
use crate::agent::configuration::{
    claimed, committed, effective, failure_text, given_up, may_commit, receipt_for, received,
    remote_storage_ended, remote_storage_failed, remote_work, rules_refusal, runtime_refusal,
    storage_work, was_reviewed, RemoteWork,
};
use crate::agent::saves::{interrupted_receipt, recovered, saved};
use crate::agent::steps::Save;
use crate::agent::storage_saves::{
    copying_refusal, finished_maintenance, finished_operation, left_behind, seen_missing, switched,
    with_verified_backup,
};
use crate::lima::VmProvider;
use crate::policy::{PolicyView, Resources};
use crate::remote::{
    ConfigurationCommandView, ConfigurationEditView, ConfigurationOperationView,
    RemoteConfigurationView,
};
use crate::storage::{LocationView, OperationView};
use crate::storage_layout::LayoutView;
use crate::storage_lifecycle::{Kind, LifecycleView, MaintenanceView, MissingView, Phase};
use crate::store::{ConfigurationView, WorkerRecreationView};
use vstd::prelude::*;

verus! {

/// What a request commits is its own rules, all of them: they become the owner's, the
/// worker that is there counts as having their resources, and the fleet is told that
/// they are in effect. Nothing else changes.
pub proof fn commits_adopt_the_request(
    c: ConfigurationView,
    edit: ConfigurationEditView,
    revision: u64,
    at: Seq<char>,
)
    ensures
        ({
            let n = committed(c, edit);
            let r = receipt_for(n, edit.request_id, "applied"@, revision, None, at);
            &&& n.policy == edit.policy
            &&& n.policy.enabled == edit.policy.enabled && n.policy.resources
                == edit.policy.resources && n.policy.drain_seconds == edit.policy.drain_seconds
                && n.policy.allow_ci == edit.policy.allow_ci && n.policy.allow_services
                == edit.policy.allow_services && n.policy.rules == edit.policy.rules
            &&& n.allocated_resources == if c.vm_created {
                Some(edit.policy.resources)
            } else {
                c.allocated_resources
            }
            &&& n.remote.pending is None && !n.remote.applying && !n.remote.repair_required
            &&& n == (ConfigurationView {
                policy: n.policy,
                allocated_resources: n.allocated_resources,
                remote: n.remote,
                ..c
            })
            &&& n.remote == (RemoteConfigurationView {
                pending: n.remote.pending,
                applying: n.remote.applying,
                repair_required: n.remote.repair_required,
                ..c.remote
            })
            &&& r.effective_policy == Some(edit.policy)
            &&& r.request_id == edit.request_id && r.status == "applied"@ && r.revision
                == revision && r.at == at && r.error is None && r.result is None
                && r.effective_storage is None
            &&& r.effective_resources == effective(n)
        }),
{
}

/// A request is committed exactly while the owner consents, nothing was changed since
/// the revision that it was made for, and it is the one that is pending.
pub proof fn commits_need_the_owner(c: ConfigurationView, edit: ConfigurationEditView)
    ensures
        may_commit(c, edit) <==> c.remote.consent && c.remote.revision == edit.expected_revision
            && c.remote.pending is Some && c.remote.pending->0.edit == edit,
{
}

/// A request that arrives is taken only where nothing else is pending, the fleet was not
/// told of it before, the rules find it valid and the state of this computer allows it.
/// Then it is pending as it came, and the fleet is told so; the rules stay as they were.
pub proof fn requests_are_taken_as_they_came(
    c: ConfigurationView,
    command: ConfigurationCommandView,
    invalid: Option<Seq<char>>,
    unreadable: Option<Seq<char>>,
    at: Seq<char>,
)
    ensures
        ({
            let r = received(c, command, invalid, unreadable, at);
            let fresh = forall|i: int|
                0 <= i < c.remote.receipts.len() ==> (#[trigger] c.remote.receipts[i]).request_id
                    != command.edit.request_id;
            &&& c.remote.pending is None && fresh && invalid is None && runtime_refusal(
                c,
                command.edit,
                unreadable,
            ) is None ==> r is Ok
            &&& c.remote.pending is None && r is Ok ==> invalid is None && runtime_refusal(
                c,
                command.edit,
                unreadable,
            ) is None
            &&& c.remote.pending is Some && r is Ok ==> c.remote.pending->0.edit == command.edit
                && r->Ok_0.0 == c && r->Ok_0.1 is None
            &&& c.remote.pending is None && r is Ok ==> {
                let n = r->Ok_0.0;
                let told = r->Ok_0.1;
                &&& n.remote.pending == Some(command)
                &&& n.remote.execution_revision is None && !n.remote.storage_started
                &&& n == (ConfigurationView { remote: n.remote, ..c })
                &&& n.remote == (RemoteConfigurationView {
                    pending: n.remote.pending,
                    execution_revision: n.remote.execution_revision,
                    storage_started: n.remote.storage_started,
                    ..c.remote
                })
                &&& told is Some && told->0.request_id == command.edit.request_id
                    && told->0.status == "pending"@ && told->0.revision == c.remote.revision
                    && told->0.effective_policy == Some(c.policy) && told->0.error is None
            }
        }),
{
    lemma_none_found(c.remote.receipts, command.edit.request_id, 0);
}

proof fn lemma_none_found(
    receipts: Seq<crate::remote::ConfigurationReceiptView>,
    id: Seq<char>,
    i: int,
)
    requires
        0 <= i <= receipts.len(),
    ensures
        (forall|k: int| 0 <= k < receipts.len() ==> (#[trigger] receipts[k]).request_id != id)
            ==> crate::agent::configuration::receipt_of(receipts, id, i) is None,
    decreases receipts.len() - i,
{
    if i < receipts.len() {
        lemma_none_found(receipts, id, i + 1);
        assert(receipts[i].request_id != id || receipts[i].request_id == id);
    }
}

/// Rules from the fleet are refused while storage is being changed, while the disk
/// would change in a way that only the owner may approve, and where they would share a
/// worker that is not prepared. Other rules are allowed.
pub proof fn remote_rules_leave_the_disk(c: ConfigurationView, p: PolicyView)
    ensures
        rules_refusal(c, p) is None <==> {
            &&& c.storage_operation is None && c.storage_lifecycle.maintenance is None
            &&& p.resources.disk_gib != c.policy.resources.disk_gib ==> c.storage_locations.len()
                == 0 && c.vm_provider == VmProvider::Lima
            &&& c.allocated_resources matches Some(a) ==> p.resources.disk_gib >= a.disk_gib
            &&& p.enabled ==> c.vm_configured
        },
{
}

/// Requests wait for the owner: none is allowed while the worker needs repair, or while
/// the owner replaces, prepares, updates or stops it. A storage plan is applied only as
/// this computer showed it under the current settings.
pub proof fn local_work_goes_before_requests(
    c: ConfigurationView,
    edit: ConfigurationEditView,
    unreadable: Option<Seq<char>>,
)
    ensures
        runtime_refusal(c, edit, unreadable) is None ==> !c.remote.repair_required
            && c.recreation is None && !c.prepare_requested && !c.application_update_pending
            && !c.stop_requested,
        runtime_refusal(c, edit, unreadable) is None ==> (edit.operation matches Some(
            ConfigurationOperationView::StorageApply { plan },
        ) ==> unreadable is None && exists|i: int|
            0 <= i < c.remote.receipts.len() && (#[trigger] c.remote.receipts[i]).status
                == "reviewed"@ && c.remote.receipts[i].revision == c.remote.revision
                && c.remote.receipts[i].result == Some(plan)),
        runtime_refusal(c, edit, unreadable) is None ==> (edit.operation matches Some(
            ConfigurationOperationView::StoragePreview { .. },
        ) ==> unreadable is None),
        runtime_refusal(c, edit, unreadable) is None && edit.operation is None ==> rules_refusal(
            c,
            edit.policy,
        ) is None,
        !c.remote.repair_required && c.recreation is None && !c.prepare_requested
            && !c.application_update_pending && !c.stop_requested && unreadable is None ==> (
        match edit.operation {
            None => runtime_refusal(c, edit, unreadable) == rules_refusal(c, edit.policy),
            Some(ConfigurationOperationView::StorageApply { plan }) => runtime_refusal(
                c,
                edit,
                unreadable,
            ) is None <==> was_reviewed(c, plan),
            _ => runtime_refusal(c, edit, unreadable) is None,
        }),
{
}

/// Before the worker is touched the settings say that a change is under way, and that
/// the worker needs repair where its resources are about to change. A change that fails
/// is given up: nothing is pending, the rules stay, and an allocation that was in
/// question is known no longer.
pub proof fn claims_and_failures_are_marked(
    c: ConfigurationView,
    edit: ConfigurationEditView,
    error: Seq<char>,
)
    ensures
        ({
            let n = claimed(c, edit);
            &&& n.remote.applying
            &&& n.remote.repair_required == (c.remote.repair_required || (c.vm_created
                && c.allocated_resources != Some(edit.policy.resources)))
            &&& n == (ConfigurationView { remote: n.remote, ..c })
            &&& n.remote == (RemoteConfigurationView {
                applying: n.remote.applying,
                repair_required: n.remote.repair_required,
                ..c.remote
            })
        }),
        ({
            let n = given_up(c);
            &&& !n.remote.applying && n.remote.pending is None
            &&& n.allocated_resources == if c.remote.repair_required {
                None
            } else {
                c.allocated_resources
            }
            &&& n == (ConfigurationView {
                remote: n.remote,
                allocated_resources: n.allocated_resources,
                ..c
            })
            &&& n.remote == (RemoteConfigurationView {
                applying: n.remote.applying,
                pending: n.remote.pending,
                ..c.remote
            })
        }),
        !c.remote.repair_required ==> failure_text(c, error) == error,
        c.remote.repair_required ==> failure_text(c, error).len() > error.len()
            && error.is_prefix_of(failure_text(c, error)),
{
    reveal_strlit(
        ". Allocation is unverified; inspect the stopped worker locally or replace it. Sharing is blocked.",
    );
    if c.remote.repair_required {
        let t = failure_text(c, error);
        assert(t.subrange(0, error.len() as int) =~= error);
    }
}

/// What is done of a request about the storage: a review or a switch of the recovery at
/// once; a plan once, and after that what it began; a retry once, and after that what
/// goes on. Nothing goes on that is paused or stopped with an error.
pub proof fn storage_requests_do_what_they_say(
    c: ConfigurationView,
    edit: ConfigurationEditView,
    unreadable: Option<Seq<char>>,
    enabled: bool,
)
    ensures
        ({
            let w = remote_work(c, edit, unreadable);
            let going = storage_work(c);
            &&& edit.operation is None ==> w is Err
            &&& (edit.operation matches Some(ConfigurationOperationView::StoragePreview { .. }))
                ==> w == Ok::<RemoteWork, Seq<char>>(RemoteWork::Preview)
            &&& edit.operation == Some(ConfigurationOperationView::StorageRecovery { enabled })
                ==> w == Ok::<RemoteWork, Seq<char>>(RemoteWork::Recovery(enabled))
            &&& (edit.operation matches Some(ConfigurationOperationView::StorageApply { .. }))
                && !c.remote.storage_started ==> (w == Ok::<RemoteWork, Seq<char>>(
                RemoteWork::Apply,
            ) <==> runtime_refusal(c, edit, unreadable) is None) && (w is Ok ==> w->Ok_0
                == RemoteWork::Apply)
            &&& (edit.operation matches Some(ConfigurationOperationView::StorageRetry))
                && !c.remote.storage_started ==> w == Ok::<RemoteWork, Seq<char>>(
                RemoteWork::Retry,
            )
            &&& c.remote.storage_started && ((edit.operation matches Some(
                ConfigurationOperationView::StorageApply { .. },
            )) || (edit.operation matches Some(ConfigurationOperationView::StorageRetry))) ==> w
                == going
            &&& c.storage_operation matches Some(op) ==> (if op.paused {
                going is Err
            } else {
                going == Ok::<RemoteWork, Seq<char>>(RemoteWork::Change)
            })
            &&& c.storage_operation is None ==> (c.storage_lifecycle.maintenance matches Some(op)
                ==> (if op.paused || op.error is Some {
                going is Err
            } else {
                going == Ok::<RemoteWork, Seq<char>>(RemoteWork::Maintain)
            }))
            &&& c.storage_operation is None && c.storage_lifecycle.maintenance is None ==> going
                == Ok::<RemoteWork, Seq<char>>(
                if c.storage_lifecycle.missing is Some {
                    RemoteWork::LookForStorage
                } else {
                    RemoteWork::Nothing
                },
            )
        }),
{
}

/// A request about the storage that ended is pending no longer, unless another one took
/// its place; one that failed leaves what it began paused, or drops it where nothing was
/// done yet.
pub proof fn ended_storage_requests_are_forgotten(c: ConfigurationView, edit: ConfigurationEditView)
    ensures
        ({
            let wanted = c.remote.pending is Some && c.remote.pending->0.edit == edit;
            let n = remote_storage_ended(c, edit);
            let f = remote_storage_failed(c, edit);
            &&& wanted ==> n.remote.pending is None && !n.remote.storage_started
                && n.remote.execution_revision is None && n == (ConfigurationView {
                remote: n.remote,
                ..c
            }) && n.remote == (RemoteConfigurationView {
                pending: None,
                storage_started: false,
                execution_revision: None,
                ..c.remote
            })
            &&& !wanted ==> n == c && f == c
            &&& wanted && !c.remote.storage_started ==> f == c
            &&& wanted && c.remote.storage_started ==> {
                &&& c.storage_operation is None ==> f.storage_operation is None
                &&& c.storage_operation matches Some(op) ==> f.storage_operation == if op.phase
                    == "pending"@ {
                    None
                } else {
                    Some(OperationView { paused: true, ..op })
                }
                &&& c.storage_lifecycle.maintenance is None
                    ==> f.storage_lifecycle.maintenance is None
                &&& c.storage_lifecycle.maintenance matches Some(op)
                    ==> f.storage_lifecycle.maintenance == if op.phase == Phase::Drain {
                    None
                } else {
                    Some(MaintenanceView { paused: true, ..op })
                }
                &&& f == (ConfigurationView {
                    storage_operation: f.storage_operation,
                    storage_lifecycle: f.storage_lifecycle,
                    ..c
                })
                &&& f.storage_lifecycle == (LifecycleView {
                    maintenance: f.storage_lifecycle.maintenance,
                    ..c.storage_lifecycle
                })
            }
        }),
{
}

/// What the supervisor saves sets what it is for and leaves the rest: preparations,
/// allocations, drains and stops change nothing of the rules, the disks or the fleet's
/// requests.
pub proof fn saves_set_what_they_are_for(c: ConfigurationView, now: u64, drain: bool, r: Resources)
    ensures
        saved(c, Save::ClearPreparation, now, drain) matches Ok(n) && !n.prepare_requested && n
            == (ConfigurationView { prepare_requested: n.prepare_requested, ..c }),
        saved(c, Save::RecordWorker(r), now, drain) matches Ok(n) && n.vm_created
            && n.allocated_resources == Some(r) && n == (ConfigurationView {
            vm_created: n.vm_created,
            allocated_resources: n.allocated_resources,
            ..c
        }),
        saved(c, Save::RecordAllocation(r), now, drain) matches Ok(n) && n.allocated_resources
            == Some(r) && n == (ConfigurationView {
            allocated_resources: n.allocated_resources,
            ..c
        }),
        saved(c, Save::BeginDrain, now, drain) matches Ok(n) && n.draining_since == (if
            c.draining_since is Some {
            c.draining_since
        } else {
            Some(now)
        }) && n == (ConfigurationView { draining_since: n.draining_since, ..c }),
        saved(c, Save::ClearDrain, now, drain) matches Ok(n) && n.draining_since is None && n == (
        ConfigurationView { draining_since: n.draining_since, ..c }),
        saved(c, Save::ClearDrainIfPermitted, now, drain) matches Ok(n) && n.draining_since == (if
            c.stop_requested || drain {
            c.draining_since
        } else {
            None
        }) && n == (ConfigurationView { draining_since: n.draining_since, ..c }),
        saved(c, Save::RequestStop, now, drain) matches Ok(n) && n.stop_requested && n == (
        ConfigurationView { stop_requested: n.stop_requested, ..c }),
{
}

/// A stop that is done is asked for no longer and ends the drain; one that the owner
/// asked for pauses a storage change, and no other touches it.
pub proof fn finished_stops_pause_storage_changes(
    c: ConfigurationView,
    now: u64,
    drain: bool,
    explicit: bool,
)
    ensures
        saved(c, Save::FinishStop(explicit), now, drain) matches Ok(n) && !n.stop_requested
            && n.draining_since is None && (n.storage_operation is Some <==> c.storage_operation
            is Some) && (c.storage_operation matches Some(op) ==> n.storage_operation->0 == (
        OperationView { paused: explicit || op.paused, ..op })) && n == (ConfigurationView {
            stop_requested: n.stop_requested,
            draining_since: n.draining_since,
            storage_operation: n.storage_operation,
            ..c
        }),
{
}

/// A preparation that is done is asked for no longer and leaves a configured worker; a
/// first single disk counts as a new generation of the storage.
pub proof fn finished_preparations_are_configured(c: ConfigurationView, now: u64, drain: bool)
    ensures
        ({
            let first = c.vm_provider == VmProvider::Multipass
                && c.storage_lifecycle.initializing;
            let r = saved(c, Save::FinishPreparation, now, drain);
            &&& r is Err <==> first && c.storage_generation == u64::MAX
            &&& r matches Ok(n) ==> {
                &&& !n.prepare_requested && n.vm_configured
                &&& n.storage_generation == c.storage_generation + (if first {
                    1int
                } else {
                    0
                })
                &&& first ==> !n.storage_lifecycle.initializing
                &&& n.storage_lifecycle == (LifecycleView {
                    initializing: c.storage_lifecycle.initializing && !first,
                    ..c.storage_lifecycle
                })
                &&& n == (ConfigurationView {
                    prepare_requested: n.prepare_requested,
                    vm_configured: n.vm_configured,
                    storage_generation: n.storage_generation,
                    storage_lifecycle: n.storage_lifecycle,
                    ..c
                })
            }
        }),
{
}

/// A replacement remembers that the old worker's access is gone, and ends with no
/// worker, no allocation and sharing off; the disks, the consent and the other rules
/// stay.
pub proof fn replacements_leave_a_clean_slate(
    c: ConfigurationView,
    now: u64,
    drain: bool,
    provider: VmProvider,
)
    ensures
        saved(c, Save::AccessRemoved, now, drain) is Ok <==> c.recreation is Some,
        saved(c, Save::AccessRemoved, now, drain) matches Ok(n) ==> n.recreation == Some(
            WorkerRecreationView { access_removed: true, ..c.recreation->0 },
        ) && n == (ConfigurationView { recreation: n.recreation, ..c }),
        saved(c, Save::WorkerReplaced(provider), now, drain) matches Ok(n) && {
            &&& n.vm_provider == provider && !n.vm_created && !n.vm_configured
            &&& n.allocated_resources is None && !n.prepare_requested && n.recreation is None
            &&& n.draining_since is None && !n.policy.enabled
            &&& n.policy == (PolicyView { enabled: n.policy.enabled, ..c.policy })
            &&& n.format_version >= c.format_version && (provider == VmProvider::Lima
                ==> n.format_version >= 2) && (n.format_version == c.format_version
                || n.format_version == 2)
            &&& n == (ConfigurationView {
                vm_provider: n.vm_provider,
                format_version: n.format_version,
                vm_created: n.vm_created,
                vm_configured: n.vm_configured,
                allocated_resources: n.allocated_resources,
                prepare_requested: n.prepare_requested,
                policy: n.policy,
                recreation: n.recreation,
                draining_since: n.draining_since,
                ..c
            })
        },
{
}

/// A change that was interrupted leaves the worker to be repaired, with nothing known of
/// its allocation, and whoever asked for it is told; nothing else is touched.
pub proof fn interrupted_changes_need_repair(
    c: ConfigurationView,
    now: u64,
    drain: bool,
    at: Seq<char>,
)
    ensures
        saved(c, Save::Recover, now, drain) == Ok::<ConfigurationView, Seq<char>>(recovered(c)),
        !c.remote.applying ==> recovered(c) == c && interrupted_receipt(c, at) is None,
        c.remote.applying ==> {
            let n = recovered(c);
            &&& !n.remote.applying && n.remote.repair_required && n.remote.pending is None
            &&& n.allocated_resources is None
            &&& n == (ConfigurationView {
                remote: n.remote,
                allocated_resources: n.allocated_resources,
                ..c
            })
            &&& n.remote == (RemoteConfigurationView {
                applying: n.remote.applying,
                repair_required: n.remote.repair_required,
                pending: n.remote.pending,
                ..c.remote
            })
            &&& interrupted_receipt(c, at) is Some <==> c.remote.pending is Some
            &&& interrupted_receipt(c, at) matches Some(r) ==> r.request_id
                == c.remote.pending->0.edit.request_id && r.status == "rejected"@
                && r.effective_policy == Some(c.policy) && r.effective_resources is None
                && r.error is Some && r.revision == c.remote.revision && r.at == at
        },
{
}

/// A backup counts as verified with the sum and the size that were found, and only then
/// is the phase behind it due.
pub proof fn verified_backups_carry_their_sum(op: MaintenanceView, hash: Seq<char>, bytes: u64)
    ensures
        with_verified_backup(op, hash, bytes) is Ok <==> op.backup is Some,
        with_verified_backup(op, hash, bytes) matches Ok(n) ==> {
            &&& n.phase == Phase::BackupVerified
            &&& n.backup is Some && n.backup->0.verified && n.backup->0.sha256 == Some(hash)
                && n.backup->0.bytes == bytes && n.backup->0.path == op.backup->0.path
            &&& n == (MaintenanceView { backup: n.backup, phase: n.phase, ..op })
        },
{
}

/// A finished maintenance leaves the worker on exactly the new disks, with the disk
/// that was granted for them; one that deleted the storage leaves neither worker nor
/// sharing. Its backup is left to be removed, and nothing is under way or missing.
pub proof fn finished_maintenance_leaves_the_new_disks(c: ConfigurationView, op: MaintenanceView)
    requires
        c.storage_revision < u64::MAX,
    ensures
        ({
            let n = finished_maintenance(c, op);
            let deleting = op.review.kind == Kind::DeleteAll;
            let l = n.storage_lifecycle;
            &&& n.storage_locations == op.target && n.storage_generation == op.generation
            &&& n.storage_revision == c.storage_revision + 1
            &&& n.draining_since is None && !n.prepare_requested
            &&& n.vm_created == !deleting && n.vm_configured == !deleting
            &&& deleting ==> !n.policy.enabled && n.allocated_resources is None && l.pool_id
                is None && l.disabled && l.configured_locations.len() == 0
                && n.policy.resources == c.policy.resources
            &&& !deleting ==> n.policy.enabled == c.policy.enabled
                && n.policy.resources.disk_gib == op.total_gib && n.policy.resources.cpus
                == c.policy.resources.cpus && n.policy.resources.memory_mib
                == c.policy.resources.memory_mib && n.allocated_resources == Some(
                n.policy.resources,
            ) && l.pool_id == Some(op.pool_id) && !l.disabled
            &&& n.policy == (PolicyView {
                enabled: n.policy.enabled,
                resources: n.policy.resources,
                ..c.policy
            })
            &&& l.maintenance is None && l.missing is None
            &&& op.backup matches Some(b) ==> l.cleanup == c.storage_lifecycle.cleanup.push(b)
            &&& op.backup is None ==> l.cleanup == c.storage_lifecycle.cleanup
            &&& l.retired == c.storage_lifecycle.retired
            &&& l.recovery_enabled == c.storage_lifecycle.recovery_enabled
            &&& n.remote == c.remote && n.device_id == c.device_id && n.device_token
                == c.device_token && n.stop_requested == c.stop_requested
                && n.storage_retained == c.storage_retained && n.storage_layout
                == c.storage_layout && n.vm_provider == c.vm_provider && n.storage_operation
                == c.storage_operation && n.runtime_relocation == c.runtime_relocation
        }),
{
}

/// After a maintenance the disks that count as configured are the new ones and those
/// that were left out of the worker; a recovery keeps them all.
pub proof fn finished_maintenance_keeps_what_was_left_out(
    c: ConfigurationView,
    op: MaintenanceView,
    l: LocationView,
)
    ensures
        ({
            let known = if c.storage_lifecycle.configured_locations.len() == 0 {
                op.previous
            } else {
                c.storage_lifecycle.configured_locations
            };
            let n = finished_maintenance(c, op).storage_lifecycle.configured_locations;
            &&& op.review.kind == Kind::FailureRecovery ==> n == known
            &&& op.review.kind == Kind::ResizeRemove ==> (n.contains(l) <==> op.target.contains(l)
                || (known.contains(l) && (forall|i: int|
                0 <= i < c.storage_locations.len() ==> (#[trigger] c.storage_locations[i]).directory
                    != l.directory || c.storage_locations[i].volume_id != l.volume_id) && (forall|
                i: int,
            |
                0 <= i < op.target.len() ==> (#[trigger] op.target[i]).directory != l.directory
                    || op.target[i].volume_id != l.volume_id)))
        }),
{
    let known = if c.storage_lifecycle.configured_locations.len() == 0 {
        op.previous
    } else {
        c.storage_lifecycle.configured_locations
    };
    if op.review.kind == Kind::ResizeRemove {
        let keep = |old: LocationView|
            !crate::storage_lifecycle::stands_among(c.storage_locations, old)
                && !crate::storage_lifecycle::stands_among(op.target, old);
        let kept = known.filter(keep);
        let n = finished_maintenance(c, op).storage_lifecycle.configured_locations;
        assert(n == op.target + kept);
        if op.target.contains(l) {
            let i = choose|i: int| 0 <= i < op.target.len() && op.target[i] == l;
            assert(n[i] == l);
        }
        assert(keep(l) <==> !crate::storage_lifecycle::stands_among(c.storage_locations, l)
            && !crate::storage_lifecycle::stands_among(op.target, l));
        if known.contains(l) && keep(l) {
            let i = choose|i: int| 0 <= i < known.len() && known[i] == l;
            known.lemma_filter_contains(keep, i);
            let k = choose|k: int| 0 <= k < kept.len() && kept[k] == l;
            assert(n[op.target.len() + k] == l);
        }
        if n.contains(l) {
            let k = choose|k: int| 0 <= k < n.len() && n[k] == l;
            if k >= op.target.len() {
                assert(kept[k - op.target.len()] == l);
                known.lemma_filter_pred(keep, k - op.target.len());
                known.lemma_filter_contains_rev(keep, l);
            }
        }
    }
}

/// A storage change is completed only as it was verified. Then the worker stands on
/// exactly its disks, the places that disks moved from are kept to be cleaned up, and the
/// grant is what the disks come to; nothing else of the rules changes.
pub proof fn completed_changes_are_the_verified_ones(c: ConfigurationView, op: OperationView)
    ensures
        ({
            let r = finished_operation(c, op);
            &&& r is Ok <==> c.storage_operation is Some && c.storage_operation->0.generation
                == op.generation && c.storage_operation->0.phase == "verified"@
                && c.storage_revision < u64::MAX
            &&& r matches Ok(n) ==> {
                &&& n.storage_locations == op.target && n.storage_generation == op.generation
                &&& n.storage_operation is None && n.draining_since is None
                &&& n.storage_revision == c.storage_revision + 1 && n.format_version == 7
                &&& n.policy == (PolicyView {
                    resources: Resources {
                        disk_gib: n.policy.resources.disk_gib,
                        ..c.policy.resources
                    },
                    ..c.policy
                })
                &&& (n.allocated_resources is Some <==> c.allocated_resources is Some)
                &&& n.allocated_resources matches Some(a) ==> a == (Resources {
                    disk_gib: n.policy.resources.disk_gib,
                    ..c.allocated_resources->0
                })
                &&& n.storage_lifecycle == (LifecycleView {
                    configured_locations: n.storage_lifecycle.configured_locations,
                    ..c.storage_lifecycle
                })
                &&& n.remote == c.remote && n.vm_created == c.vm_created && n.vm_configured
                    == c.vm_configured && n.device_id == c.device_id && n.stop_requested
                    == c.stop_requested && n.storage_layout == c.storage_layout
            }
        }),
{
}

/// The grant after a storage change is the sum of its disks and the VM's own part.
pub proof fn completed_changes_grant_their_total(c: ConfigurationView, op: OperationView)
    requires
        finished_operation(c, op) is Ok,
        c.storage_layout matches Some(layout) ==> crate::storage::total_gib(op.target)
            + layout.system_gib <= u64::MAX,
        c.storage_layout is Some,
        op.target.len() > 0,
    ensures
        finished_operation(c, op)->Ok_0.policy.resources.disk_gib == crate::storage::total_gib(
            op.target,
        ) + c.storage_layout->0.system_gib,
{
}

/// Only disks that stand elsewhere now are left behind, and each of them is.
pub proof fn moved_disks_are_left_behind(
    previous: Seq<LocationView>,
    target: Seq<LocationView>,
    l: LocationView,
)
    ensures
        left_behind(previous, target).contains(l) <==> previous.contains(l) && exists|i: int|
            0 <= i < target.len() && (#[trigger] target[i]).id == l.id && target[i].directory
                != l.directory,
{
    let keep = |old: LocationView|
        exists|i: int|
            0 <= i < target.len() && (#[trigger] target[i]).id == old.id && target[i].directory
                != old.directory;
    if previous.contains(l) && keep(l) {
        let i = choose|i: int| 0 <= i < previous.len() && previous[i] == l;
        previous.lemma_filter_contains(keep, i);
    }
    assert forall|k: int| 0 <= k < previous.filter(keep).len() implies keep(
        #[trigger] previous.filter(keep)[k],
    ) by {
        previous.lemma_filter_pred(keep, k);
    }
    if left_behind(previous, target).contains(l) {
        let k = choose|k: int|
            0 <= k < previous.filter(keep).len() && previous.filter(keep)[k] == l;
        assert(keep(previous.filter(keep)[k]));
        previous.lemma_filter_contains_rev(keep, l);
    }
}

/// Storage is missing since it was first seen to be; what is missing is what was seen
/// last.
pub proof fn missing_storage_keeps_its_start(
    before: Option<MissingView>,
    missing: Seq<LocationView>,
    now: u64,
)
    ensures
        ({
            let m = seen_missing(before, missing, now);
            &&& m.last_check == now
            &&& before is None ==> m.since == now && m.locations == missing && m.error is None
            &&& before matches Some(b) ==> m.since == b.since && m.error == b.error
                && m.locations == if missing.len() > 0 {
                missing
            } else {
                b.locations
            }
        }),
{
}

/// A VM is used at its new place only while neither the owner's stop nor a pause holds
/// it, and only for the move that was begun and not used yet. A copy goes on under the
/// same conditions.
pub proof fn moves_stop_with_the_owner(c: ConfigurationView, target: LayoutView)
    ensures
        ({
            let free = !c.stop_requested && (c.storage_operation matches Some(op) ==> !op.paused)
                && (c.storage_lifecycle.maintenance matches Some(op) ==> !op.paused);
            let mine = c.runtime_relocation is Some && c.runtime_relocation->0.target == target
                && !c.runtime_relocation->0.switched;
            &&& copying_refusal(c, target) is None <==> free && mine
            &&& switched(c, target) is Ok <==> free && mine
            &&& switched(c, target) matches Ok(n) ==> {
                &&& n.storage_layout == Some(target) && n.storage_boot_gib == target.system_gib
                &&& n.runtime_relocation is Some && n.runtime_relocation->0.switched
                    && n.runtime_relocation->0.source == c.runtime_relocation->0.source
                    && n.runtime_relocation->0.source_volume_id
                    == c.runtime_relocation->0.source_volume_id && n.runtime_relocation->0.target
                    == target
                &&& n == (ConfigurationView {
                    runtime_relocation: n.runtime_relocation,
                    storage_layout: n.storage_layout,
                    storage_boot_gib: n.storage_boot_gib,
                    format_version: 7,
                    ..c
                })
            }
        }),
{
}

} // verus!
