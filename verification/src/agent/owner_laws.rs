//! What the owner's actions come to, and when a change of the settings counts.
use crate::agent::owner::{
    acted, action_refusal, drain_interrupts, edit_refusal, may_update, must_drain,
    owner_interrupts, policy_refusal, reason_shown, recreating, recreation_refusal, start_refusal,
    with_native_runtime, with_policy, OwnerAction,
};
use crate::agent::steps::Starting;
use crate::lima::VmProvider;
use crate::policy::PolicyView;
use crate::remote::{ConfigurationEditView, RemoteConfigurationView};
use crate::storage::{total_gib, OperationView};
use crate::storage_lifecycle::{LifecycleView, MaintenanceView};
use crate::store::{
    authority_refusal, authorized, opened, settings_refusal, settled, written_settings,
    ConfigurationView, Opening,
};
use crate::identity;
use vstd::prelude::*;

verus! {

/// The owner's pause and stop are always taken, switch sharing off, call off a
/// preparation and pause a maintenance. A pause lets running work drain and pauses a
/// storage change; a stop is remembered until the worker is down.
pub proof fn pauses_and_stops_end_sharing(c: ConfigurationView, now: u64)
    requires
        c.remote.revision < u64::MAX,
    ensures
        ({
            let p = acted(c, OwnerAction::Pause, now);
            let s = acted(c, OwnerAction::Stop, now);
            &&& action_refusal(c, OwnerAction::Pause, None) is None && action_refusal(
                c,
                OwnerAction::Stop,
                None,
            ) is None
            &&& !p.policy.enabled && !s.policy.enabled
            &&& p.policy == (PolicyView { enabled: false, ..c.policy }) && s.policy == p.policy
            &&& !p.prepare_requested && !s.prepare_requested
            &&& s.stop_requested && p.stop_requested == c.stop_requested
            &&& p.remote.revision == c.remote.revision + 1 && s.remote.revision
                == c.remote.revision + 1
            &&& p.remote == (RemoteConfigurationView { revision: p.remote.revision, ..c.remote })
                && s.remote == p.remote
            &&& c.vm_created ==> p.draining_since is Some && (c.draining_since is Some
                ==> p.draining_since == c.draining_since) && (c.draining_since is None
                ==> p.draining_since == Some(now))
            &&& !c.vm_created ==> p.draining_since == c.draining_since
            &&& s.draining_since == c.draining_since
            &&& c.storage_lifecycle.maintenance matches Some(op)
                ==> p.storage_lifecycle.maintenance == Some(
                MaintenanceView { paused: true, ..op },
            ) && s.storage_lifecycle == p.storage_lifecycle
            &&& c.storage_operation matches Some(op) ==> p.storage_operation == Some(
                OperationView { paused: true, ..op },
            )
            &&& s.storage_operation == c.storage_operation
            &&& p == (ConfigurationView {
                policy: p.policy,
                prepare_requested: p.prepare_requested,
                draining_since: p.draining_since,
                remote: p.remote,
                storage_lifecycle: p.storage_lifecycle,
                storage_operation: p.storage_operation,
                ..c
            })
            &&& s == (ConfigurationView {
                policy: s.policy,
                prepare_requested: s.prepare_requested,
                stop_requested: s.stop_requested,
                remote: s.remote,
                storage_lifecycle: s.storage_lifecycle,
                ..c
            })
            &&& p.storage_lifecycle == (LifecycleView {
                maintenance: p.storage_lifecycle.maintenance,
                ..c.storage_lifecycle
            })
        }),
{
}

/// A preparation and a resume take back the owner's stop and let storage work go on. A
/// resume shares again and ends the drain; a preparation leaves the rules alone.
pub proof fn starts_take_back_the_stop(c: ConfigurationView, now: u64)
    requires
        c.remote.revision < u64::MAX,
    ensures
        ({
            let p = acted(c, OwnerAction::Prepare, now);
            let r = acted(c, OwnerAction::Resume, now);
            &&& p.prepare_requested && r.prepare_requested == c.prepare_requested
            &&& !p.stop_requested && !r.stop_requested
            &&& p.policy == c.policy && r.policy.enabled && r.policy == (PolicyView {
                enabled: true,
                ..c.policy
            })
            &&& p.draining_since == c.draining_since && r.draining_since is None
            &&& p.remote.revision == c.remote.revision + 1 && r.remote == p.remote && p.remote == (
            RemoteConfigurationView { revision: p.remote.revision, ..c.remote })
            &&& (p.storage_operation is Some <==> c.storage_operation is Some)
            &&& c.storage_operation matches Some(op) ==> p.storage_operation == Some(
                OperationView { paused: false, ..op },
            )
            &&& r.storage_operation == p.storage_operation
            &&& c.storage_lifecycle.maintenance matches Some(op)
                ==> p.storage_lifecycle.maintenance == Some(
                MaintenanceView { paused: false, ..op },
            )
            &&& c.storage_lifecycle.maintenance is None ==> p.storage_lifecycle
                == c.storage_lifecycle
            &&& r.storage_lifecycle == p.storage_lifecycle
            &&& p == (ConfigurationView {
                prepare_requested: p.prepare_requested,
                stop_requested: p.stop_requested,
                remote: p.remote,
                storage_lifecycle: p.storage_lifecycle,
                storage_operation: p.storage_operation,
                ..c
            })
            &&& r == (ConfigurationView {
                policy: r.policy,
                stop_requested: r.stop_requested,
                draining_since: r.draining_since,
                remote: r.remote,
                storage_lifecycle: r.storage_lifecycle,
                storage_operation: r.storage_operation,
                ..c
            })
        }),
{
}

/// A worker is prepared or resumed only in a fleet, with its storage in use and usable,
/// while it is not being replaced; and resumed only where it was prepared.
pub proof fn starts_need_a_fleet_and_storage(c: ConfigurationView, storage: Option<Seq<char>>)
    ensures
        ({
            let ready = c.recreation is None && c.device_token is Some
                && !c.storage_lifecycle.disabled && !(c.storage_locations.len() > 0
                && c.storage_operation is None && c.storage_lifecycle.maintenance is None
                && storage is Some);
            &&& start_refusal(c, storage) is None <==> ready
            &&& action_refusal(c, OwnerAction::Prepare, storage) is None <==> ready
                && !c.application_update_pending && c.remote.revision < u64::MAX
            &&& action_refusal(c, OwnerAction::Resume, storage) is None <==> ready
                && c.vm_configured && c.remote.revision < u64::MAX
        }),
{
}

/// New rules are saved only as the owner saw the settings, while no storage is changed
/// and no worker replaced, for exactly the disks that there are, never for less than the
/// worker has; and they share only in a fleet and on usable storage.
pub proof fn rules_are_saved_on_what_was_seen(
    c: ConfigurationView,
    p: PolicyView,
    expected: Option<u64>,
    storage: Option<Seq<char>>,
)
    ensures
        policy_refusal(c, p, expected, storage) is None <==> {
            &&& c.storage_operation is None && c.storage_lifecycle.maintenance is None
            &&& c.storage_locations.len() > 0 ==> p.resources.disk_gib == total_gib(
                c.storage_locations,
            )
            &&& expected matches Some(e) ==> e == c.remote.revision
            &&& c.recreation is None
            &&& c.allocated_resources matches Some(a) ==> p.resources.disk_gib >= a.disk_gib
            &&& p.enabled ==> c.device_token is Some
            &&& p.enabled && c.storage_locations.len() > 0 ==> storage is None
        },
        edit_refusal(c, p) is None <==> c.storage_operation is None
            && c.storage_lifecycle.maintenance is None && (c.storage_locations.len() > 0
            ==> p.resources.disk_gib == total_gib(c.storage_locations)),
{
}

/// Saved rules are those that were given, and a configured worker that they do not
/// permit, or that lacks their resources, begins to drain.
pub proof fn saved_rules_take_effect(c: ConfigurationView, p: PolicyView, allowed: bool, now: u64)
    ensures
        ({
            let n = with_policy(c, p, allowed, now);
            let drains = c.vm_configured && (c.remote.pending is Some || !allowed
                || c.allocated_resources != Some(p.resources));
            &&& n.policy == p
            &&& drains ==> n.draining_since == if c.draining_since is Some {
                c.draining_since
            } else {
                Some(now)
            }
            &&& !drains ==> n.draining_since == c.draining_since
            &&& n == (ConfigurationView {
                policy: n.policy,
                draining_since: n.draining_since,
                ..c
            })
            &&& must_drain(c, allowed) <==> c.remote.pending is Some || !allowed || (
            c.vm_configured && c.allocated_resources != Some(c.policy.resources))
        }),
{
}

/// A worker is replaced only where it is this computer's, in a fleet, with no update or
/// replacement under way, and as the owner saw the settings. Until then sharing is off,
/// running work drains, and the access of the old worker is still to be removed.
pub proof fn replacements_are_queued_safely(
    c: ConfigurationView,
    p: PolicyView,
    platform: Seq<char>,
    request: u128,
    now: u64,
    expected: Option<u64>,
    receipt: bool,
)
    ensures
        recreation_refusal(c, expected, platform, receipt) is None ==> receipt
            && c.device_token is Some && c.recreation is None && !c.application_update_pending
            && (expected matches Some(e) ==> e == c.remote.revision),
        c.storage_locations.len() == 0 && receipt && c.device_token is Some && c.recreation is None
            && !c.application_update_pending && (expected matches Some(e) ==> e
            == c.remote.revision) ==> recreation_refusal(c, expected, platform, receipt) is None,
        ({
            let n = recreating(c, p, platform, request, now);
            &&& !n.policy.enabled && n.policy == (PolicyView { enabled: n.policy.enabled, ..p })
            &&& !n.prepare_requested
            &&& n.recreation is Some && n.recreation->0.request_id == request
                && !n.recreation->0.access_removed
            &&& n.draining_since == if c.draining_since is Some {
                c.draining_since
            } else {
                Some(now)
            }
            &&& !n.remote.repair_required && !n.remote.applying
            &&& n.remote == (RemoteConfigurationView {
                repair_required: n.remote.repair_required,
                applying: n.remote.applying,
                ..c.remote
            })
            &&& n.format_version >= 2 && n.format_version >= c.format_version
            &&& n == (ConfigurationView {
                policy: n.policy,
                prepare_requested: n.prepare_requested,
                remote: n.remote,
                recreation: n.recreation,
                format_version: n.format_version,
                draining_since: n.draining_since,
                ..c
            })
        }),
{
}

/// The supervisor is interrupted in its step exactly when the owner stops it, no longer
/// wants the start that it is in, pauses storage work that began, or a drain that is its
/// own has used up its grace period; never while it stops the worker already.
pub proof fn owners_interrupt_the_supervisor(
    c: ConfigurationView,
    starting: Option<Starting>,
    stopping: bool,
    now: u64,
)
    ensures
        ({
            let late = c.draining_since is Some && (now >= c.draining_since->0
                + c.policy.drain_seconds || c.policy.drain_seconds == 0);
            &&& drain_interrupts(c, now) <==> c.storage_operation is None
                && c.storage_lifecycle.maintenance is None && late
            &&& stopping ==> !owner_interrupts(c, starting, stopping, now)
            &&& !stopping ==> (owner_interrupts(c, starting, stopping, now) <==> {
                ||| c.stop_requested
                ||| starting == Some(Starting::Preparation) && !c.prepare_requested
                ||| starting == Some(Starting::Resume) && !c.policy.enabled
                ||| (c.storage_operation is Some && c.storage_operation->0.paused
                    && c.storage_operation->0.phase != "pending"@)
                ||| (c.storage_lifecycle.maintenance is Some
                    && c.storage_lifecycle.maintenance->0.paused)
                ||| drain_interrupts(c, now)
            })
            &&& may_update(c) <==> c.recreation is None && c.storage_operation is None
                && c.storage_lifecycle.maintenance is None && !c.prepare_requested
                && !c.stop_requested
        }),
{
}

/// A computer that is not in a fleet shows the notice of its setup, where there is one;
/// any other shows the supervisor's reason, or else what the rules say.
pub proof fn shown_reasons_are_the_latest(
    c: ConfigurationView,
    reason: Option<Seq<char>>,
    decision: Seq<char>,
)
    ensures
        c.device_token is None && c.setup_notice is Some ==> reason_shown(c, reason, decision)
            == c.setup_notice->0,
        c.device_token is Some || c.setup_notice is None ==> reason_shown(c, reason, decision)
            == if reason is Some {
            reason->0
        } else {
            decision
        },
{
}

/// A change counts when it touches the rules, the consent, the identity, the runtime, the
/// fleet, the disks, the recovery, a replacement or an update: then, and only then, the
/// revision that owner and fleet compare advances by one. A change that does not count
/// is saved as it is.
pub proof fn changes_that_count_advance_the_revision(
    before: ConfigurationView,
    after: ConfigurationView,
    scoped: bool,
    at: Seq<char>,
)
    ensures
        ({
            let counts = before.policy != after.policy || before.remote.consent
                != after.remote.consent || before.device_id != after.device_id
                || before.vm_provider != after.vm_provider || before.controller_url
                != after.controller_url || before.device_token != after.device_token
                || before.storage_revision != after.storage_revision || before.storage_locations
                != after.storage_locations || before.storage_lifecycle.recovery_enabled
                != after.storage_lifecycle.recovery_enabled || before.remote.revision
                != after.remote.revision || (before.recreation is Some) != (after.recreation
                is Some) || before.application_update_pending
                != after.application_update_pending;
            let r = settled(before, after, scoped, at);
            &&& !counts ==> r is Ok && r->Ok_0.0 == after && r->Ok_0.1 is None
            &&& counts ==> (r is Err <==> before.remote.revision == u64::MAX)
            &&& counts && r is Ok ==> r->Ok_0.0.remote.revision == before.remote.revision + 1
                && r->Ok_0.0.policy == after.policy && r->Ok_0.0.remote.consent
                == after.remote.consent && r->Ok_0.0.storage_locations
                == after.storage_locations && r->Ok_0.0.device_token == after.device_token
                && r->Ok_0.0.recreation == after.recreation && r->Ok_0.0.stop_requested
                == after.stop_requested && r->Ok_0.0.draining_since == after.draining_since
                && r->Ok_0.0.allocated_resources == after.allocated_resources
        }),
{
}

/// A change that the owner makes drops a pending request and tells the fleet so; the
/// request's own change keeps it, at the new revision, and marks that storage work of it
/// began.
pub proof fn owners_drop_pending_requests(
    before: ConfigurationView,
    after: ConfigurationView,
    at: Seq<char>,
)
    requires
        before.policy != after.policy || before.storage_revision != after.storage_revision,
        before.remote.revision < u64::MAX,
    ensures
        ({
            let own = settled(before, after, false, at)->Ok_0;
            let request = settled(before, after, true, at)->Ok_0;
            &&& settled(before, after, false, at) is Ok && settled(before, after, true, at) is Ok
            &&& own.0.remote.pending is None
            &&& own.1 is Some <==> after.remote.pending is Some
            &&& after.remote.pending matches Some(p) ==> own.1->0.request_id == p.edit.request_id
                && own.1->0.status == "rejected"@ && own.1->0.revision
                == before.remote.revision + 1 && own.1->0.error is Some
                && own.0.remote.execution_revision is None && !own.0.remote.storage_started
                && own.1->0.effective_policy == Some(after.policy)
            &&& request.1 is None && request.0.remote.pending == after.remote.pending
            &&& request.0.remote.execution_revision == Some(request.0.remote.revision)
            &&& request.0.remote.storage_started == (after.remote.storage_started
                || before.storage_revision != after.storage_revision)
            &&& request.0.storage_operation == after.storage_operation
                && request.0.storage_lifecycle == after.storage_lifecycle
        }),
{
}

/// A request acts only under the owner's consent, while it is the one that is pending and
/// nothing was changed but by itself; without a request there is nothing to check.
pub proof fn requests_act_under_consent(c: ConfigurationView, edit: ConfigurationEditView)
    ensures
        authority_refusal(None, c) is None,
        authority_refusal(Some(edit), c) is None <==> {
            &&& c.remote.consent
            &&& c.remote.pending is Some && c.remote.pending->0.edit == edit
            &&& c.remote.revision == if c.remote.execution_revision is Some {
                c.remote.execution_revision->0
            } else {
                edit.expected_revision
            }
        },
        authorized(c, edit) <==> authority_refusal(Some(edit), c) is None,
{
}

/// Settings are accepted exactly in a format that this program knows, that is new enough
/// for what they hold, and with an identity.
pub proof fn accepted_settings_are_understood(c: ConfigurationView)
    ensures
        settings_refusal(c) is None <==> {
            &&& 1 <= c.format_version <= 7
            &&& c.vm_provider == VmProvider::Lima ==> c.format_version >= 2
            &&& c.storage_locations.len() > 0 ==> c.format_version >= 3
            &&& c.storage_operation is Some || c.storage_generation != 0 || c.storage_revision
                != 0 || c.storage_retained.len() > 0 || c.storage_boot_gib != 0
                ==> c.format_version >= 4
            &&& identity::parsed_uuid(c.device_id) is Ok
        },
{
}

/// Settings are written in a format that earlier programs cannot misread, and otherwise
/// as they are.
pub proof fn written_settings_are_marked(c: ConfigurationView)
    ensures
        ({
            let n = written_settings(c);
            &&& n.format_version >= c.format_version
            &&& c.remote.consent || c.remote.pending is Some || c.remote.receipts.len() > 0
                ==> n.format_version >= 6
            &&& c.storage_lifecycle.maintenance is Some || c.storage_lifecycle.disabled
                || c.storage_lifecycle.missing is Some || c.storage_lifecycle.recovery_enabled
                ==> n.format_version >= 5
            &&& n.format_version == c.format_version || n.format_version == 5
                || n.format_version == 6
            &&& n == (ConfigurationView { format_version: n.format_version, ..c })
        }),
{
}

/// Settings that were saved are kept as they are, unless their runtime is given up. New
/// ones belong to no fleet and share nothing.
pub proof fn openings_keep_or_begin(
    saved: Option<ConfigurationView>,
    platform: Seq<char>,
    provider: VmProvider,
    id: u128,
    name: Seq<char>,
    policy: PolicyView,
)
    ensures
        ({
            let o = opened(saved, platform, provider, id, name, policy);
            &&& o is Err <==> saved is Some && settings_refusal(saved->0) is Some
            &&& o matches Ok(n) ==> {
                let old = saved is Some && platform == "linux"@ && saved->0.vm_provider
                    == VmProvider::Multipass;
                &&& n.opening == if saved is None {
                    Opening::Begin
                } else if old {
                    Opening::Archive
                } else {
                    Opening::Keep
                }
                &&& n.opening == Opening::Keep ==> n.settings == saved->0
                &&& n.opening != Opening::Keep ==> n.settings.device_id
                    == identity::hyphenated_form(id) && n.settings.device_token is None
                    && n.settings.policy == policy && n.settings.name == name
                    && !n.settings.remote.consent && n.settings.remote.pending is None
                    && !n.settings.vm_created && n.settings.storage_locations.len() == 0
                    && !n.settings.prepare_requested && n.settings.vm_provider == (if old {
                    VmProvider::Lima
                } else {
                    provider
                }) && (n.settings.setup_notice is Some <==> old)
            }
        }),
{
}

/// A new installation takes its platform's runtime before anything was made with another
/// one; any other keeps what it has.
pub proof fn runtimes_are_taken_once(c: ConfigurationView, fresh: bool, platform: Seq<char>)
    ensures
        ({
            let n = with_native_runtime(c, fresh, platform);
            &&& !fresh ==> n == c
            &&& n == c || (n.vm_provider == VmProvider::Lima && n.format_version >= 2)
            &&& n == (ConfigurationView {
                vm_provider: n.vm_provider,
                format_version: n.format_version,
                ..c
            })
            &&& fresh && (platform == "linux"@ || platform == "macos"@) ==> n.vm_provider
                == VmProvider::Lima
        }),
{
}

} // verus!
