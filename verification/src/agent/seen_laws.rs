//! What the supervisor takes from what it sees: of storage that is missing, of the runtime's
//! place, of requests and of the controller's replies.
use crate::agent::absence::{missing_upto, remaining_of, stock_of, too_soon};
use crate::agent::configuration::{operation_refusal, usable};
use crate::agent::controller::{enrollment_given, pods_of, system_pods};
use crate::agent::relocation::{is_active, trail_of, trip_of};
use crate::identity;
use crate::json::{at, field, list_of, text_of, JsonView};
use crate::lima::VmProvider;
use crate::policy::{PolicyView, Resources};
use crate::remote::ConfigurationOperationView;
use crate::storage::{
    LocationStatusView, LocationView, OperationView, SelectionView, VolumeView,
};
use crate::storage_layout::LayoutView;
use crate::storage_lifecycle::{LifecycleView, MaintenanceView, Phase};
use crate::storage_plan::{effective_selections, pool_need, pool_room, volume_claim, ClaimView};
use crate::store::{fresh_settings, with_remote_storage_paused, ConfigurationView};
use vstd::prelude::*;
use vstd::utf8::encode_utf8;

verus! {

/// Storage is looked for once its disks were joined and are in use, and again only after ten
/// seconds; sharing and a failed return are as the settings say.
pub proof fn storage_is_looked_for_in_use(c: ConfigurationView, now: u64)
    ensures
        ({
            let s = stock_of(c, now);
            &&& s.in_use <==> c.storage_generation != 0 && c.storage_locations.len() != 0
                && !c.storage_lifecycle.initializing
            &&& s.recorded <==> c.storage_lifecycle.missing is Some
            &&& s.sharing <==> c.policy.enabled
            &&& s.failed <==> c.storage_lifecycle.missing is Some
                && c.storage_lifecycle.missing->0.error is Some
            &&& s.now == now
            &&& c.storage_lifecycle.missing is None ==> !too_soon(s)
            &&& c.storage_lifecycle.missing matches Some(m) ==> (too_soon(s) <==> now
                < m.last_check + 10)
        }),
{
}

proof fn lemma_missing(statuses: Seq<LocationStatusView>, sound: Seq<bool>, n: int, i: int)
    requires
        0 <= i < n <= statuses.len(),
        n <= sound.len(),
        !(statuses[i].available && sound[i]),
    ensures
        missing_upto(statuses, sound, n).contains(statuses[i].location),
    decreases n,
{
    let before = missing_upto(statuses, sound, n - 1);
    let r = missing_upto(statuses, sound, n);
    if i < n - 1 {
        lemma_missing(statuses, sound, n - 1, i);
        let k = choose|k: int| 0 <= k < before.len() && before[k] == statuses[i].location;
        assert(r[k] == statuses[i].location);
    } else {
        assert(r[r.len() - 1] == statuses[i].location);
    }
}

proof fn lemma_unseen(
    statuses: Seq<LocationStatusView>,
    sound: Seq<bool>,
    n: int,
    l: LocationView,
) -> (i: int)
    requires
        0 <= n <= statuses.len(),
        n <= sound.len(),
        missing_upto(statuses, sound, n).contains(l),
    ensures
        0 <= i < n,
        statuses[i].location == l,
        !(statuses[i].available && sound[i]),
    decreases n,
{
    let before = missing_upto(statuses, sound, n - 1);
    let r = missing_upto(statuses, sound, n);
    if n > 0 && before.contains(l) {
        lemma_unseen(statuses, sound, n - 1, l)
    } else {
        let k = choose|k: int| 0 <= k < r.len() && r[k] == l;
        if n > 0 && k < before.len() {
            assert(before[k] == l);
        }
        n - 1
    }
}

/// A disk is missing where it is not there or its files are not sound, and only then.
pub proof fn missing_disks_are_those_not_seen(
    statuses: Seq<LocationStatusView>,
    sound: Seq<bool>,
    l: LocationView,
)
    requires
        statuses.len() == sound.len(),
    ensures
        missing_upto(statuses, sound, statuses.len() as int).contains(l) <==> exists|i: int|
            0 <= i < statuses.len() && (#[trigger] statuses[i]).location == l && !(
            statuses[i].available && sound[i]),
{
    let n = statuses.len() as int;
    if missing_upto(statuses, sound, n).contains(l) {
        let i = lemma_unseen(statuses, sound, n, l);
        assert(statuses[i].location == l);
    }
    if exists|i: int|
        0 <= i < statuses.len() && (#[trigger] statuses[i]).location == l && !(
        statuses[i].available && sound[i]) {
        let i = choose|i: int|
            0 <= i < statuses.len() && (#[trigger] statuses[i]).location == l && !(
            statuses[i].available && sound[i]);
        lemma_missing(statuses, sound, n, i);
    }
}

/// What remains are the worker's disks that are not missing.
pub proof fn remaining_disks_are_the_others(
    c: ConfigurationView,
    missing: Seq<LocationView>,
    l: LocationView,
)
    ensures
        remaining_of(c, missing).contains(l) <==> c.storage_locations.contains(l)
            && !missing.contains(l),
{
    let s = c.storage_locations;
    let keep = |x: LocationView| !missing.contains(x);
    let r = s.filter(keep);
    assert(remaining_of(c, missing) == r);
    if r.contains(l) {
        let i = choose|i: int| 0 <= i < r.len() && r[i] == l;
        s.lemma_filter_pred(keep, i);
        s.lemma_filter_contains_rev(keep, l);
        assert(keep(l));
    }
    if s.contains(l) && !missing.contains(l) {
        let i = choose|i: int| 0 <= i < s.len() && s[i] == l;
        assert(keep(s[i]));
        s.lemma_filter_contains(keep, i);
    }
}

/// A VM is moved unless its layout is the settled one; an original is cleaned up only where
/// the move was switched and the layout in use is the one it led to; a runtime is active
/// where the layout in use has its folder.
pub proof fn places_are_those_of_the_settings(
    c: ConfigurationView,
    target: LayoutView,
    settings: Seq<char>,
    native: bool,
)
    ensures
        ({
            let t = trip_of(c, target, settings, native);
            &&& t.settled <==> c.storage_layout == Some(target)
            &&& t.native == native
            &&& c.storage_layout matches Some(layout) ==> (t.at_home <==> crate::paths::same_path(
                layout.runtime_directory,
                target.runtime_directory,
            ))
            &&& c.storage_layout is None ==> (t.at_home <==> crate::paths::same_path(
                crate::paths::join_path(settings, "lima"@),
                target.runtime_directory,
            ))
        }),
        ({
            let t = trail_of(c, native);
            &&& t.recorded <==> c.runtime_relocation is Some
            &&& t.native == native
            &&& t.switched <==> (c.runtime_relocation matches Some(saved) && saved.switched
                && c.storage_layout == Some(saved.target))
        }),
        is_active(c, target) <==> (c.storage_layout matches Some(layout) && crate::paths::same_path(
            layout.runtime_directory,
            target.runtime_directory,
        )),
{
}

/// A Lima worker without disks of its own may have what is free on its disk with what it has
/// already; every other may have what the host shows.
pub proof fn usable_space_is_what_is_free(
    c: ConfigurationView,
    hardware: Resources,
    disk: Option<VolumeView>,
)
    ensures
        ({
            let r = usable(c, hardware, disk);
            let bare = c.storage_locations.len() == 0 && c.vm_provider == VmProvider::Lima;
            let free = if disk is Some {
                disk->0.available_gib as int
            } else {
                0
            };
            let used = if c.allocated_resources is Some {
                c.allocated_resources->0.disk_gib as int
            } else {
                0
            };
            &&& r == Resources { disk_gib: r.disk_gib, ..hardware }
            &&& !bare ==> r.disk_gib == hardware.disk_gib
            &&& bare && free + used <= u64::MAX ==> r.disk_gib == free + used
        }),
{
}

/// A plan from the fleet is applied only where exactly that plan was reviewed on this node
/// for the settings as they are.
pub proof fn only_reviewed_plans_are_applied(
    c: ConfigurationView,
    plan: JsonView,
    unreadable: Option<Seq<char>>,
)
    ensures
        operation_refusal(c, ConfigurationOperationView::StorageApply { plan }, unreadable) is None
            <==> unreadable is None && exists|i: int|
            0 <= i < c.remote.receipts.len() && (#[trigger] c.remote.receipts[i]).status
                == "reviewed"@ && c.remote.receipts[i].revision == c.remote.revision
                && c.remote.receipts[i].result == Some(plan),
        operation_refusal(c, ConfigurationOperationView::StorageRetry, unreadable) is None,
{
}

/// An enrollment is taken only with a device identity and a credential of 32 bytes or more.
pub proof fn enrollments_carry_a_credential(reply: JsonView)
    ensures
        enrollment_given(reply) is Ok <==> (text_of(at(reply, "deviceId"@)) matches Some(id)
            && identity::identity_refusal(id) is None) && (text_of(at(reply, "token"@)) matches Some(
            token,
        ) && encode_utf8(token).len() >= 32),
        enrollment_given(reply) matches Ok(e) ==> text_of(at(reply, "deviceId"@)) == Some(
            e.device_id,
        ) && text_of(at(reply, "token"@)) == Some(e.token),
{
}

proof fn lemma_pods(items: Seq<JsonView>, n: int)
    requires
        0 <= n <= items.len(),
    ensures
        pods_of(items, n) matches Ok(uids) ==> uids.len() == n && forall|i: int|
            0 <= i < n ==> text_of(items[i]) is Some ==> #[trigger] uids[i] == text_of(items[i])->0,
    decreases n,
{
    if n > 0 {
        lemma_pods(items, n - 1);
    }
}

/// The system pods are those the controller lists, at most sixteen, in order; without a list
/// there are none.
pub proof fn system_pods_are_the_listed_ones(reply: JsonView)
    ensures
        field(reply, "systemPodUids"@) is None ==> (system_pods(reply) matches Ok(uids)
            && uids.len() == 0),
        field(reply, "systemPodUids"@) matches Some(listed) ==> (list_of(listed) is None
            ==> system_pods(reply) is Err),
        field(reply, "systemPodUids"@) matches Some(listed) ==> (list_of(listed) matches Some(items)
            ==> (items.len() > 16 ==> system_pods(reply) is Err) && (system_pods(reply) matches Ok(
            uids,
        ) ==> uids.len() == items.len() && forall|i: int|
            0 <= i < items.len() ==> text_of(items[i]) is Some ==> #[trigger] uids[i] == text_of(
                items[i],
            )->0)),
{
    if field(reply, "systemPodUids"@) is Some && list_of(field(reply, "systemPodUids"@)->0) is Some {
        let items = list_of(field(reply, "systemPodUids"@)->0)->0;
        lemma_pods(items, items.len() as int);
    }
}

/// New settings share nothing and have neither a fleet, a worker nor storage.
pub proof fn new_settings_share_nothing(
    provider: VmProvider,
    id: u128,
    name: Seq<char>,
    policy: PolicyView,
)
    ensures
        ({
            let c = fresh_settings(provider, id, name, policy);
            &&& c.policy == policy
            &&& c.name == name
            &&& c.vm_provider == provider
            &&& c.device_id == identity::hyphenated_form(id)
            &&& c.device_token is None && c.controller_url is None
            &&& !c.vm_created && !c.vm_configured && !c.prepare_requested && !c.stop_requested
            &&& c.allocated_resources is None && c.draining_since is None && c.recreation is None
            &&& c.storage_locations.len() == 0 && c.storage_retained.len() == 0
            &&& c.storage_operation is None && c.storage_layout is None
            &&& c.storage_revision == 0 && c.storage_generation == 0 && c.storage_boot_gib == 0
            &&& c.storage_lifecycle.maintenance is None && c.storage_lifecycle.missing is None
            &&& !c.storage_lifecycle.disabled && !c.storage_lifecycle.initializing
                && !c.storage_lifecycle.recovery_enabled
            &&& c.storage_lifecycle.configured_locations.len() == 0
                && c.storage_lifecycle.retired.len() == 0 && c.storage_lifecycle.cleanup.len() == 0
                && c.storage_lifecycle.pool_id is None
            &&& c.runtime_relocation is None && c.runtime_retained.len() == 0
            &&& c.automatic_updates && !c.application_update_pending && c.setup_notice is None
            &&& !c.remote.consent && c.remote.pending is None && !c.remote.applying
                && !c.remote.repair_required && c.remote.receipts.len() == 0
        }),
{
}

/// An owner's change takes back the fleet's storage work that has not begun and pauses what
/// has; the disks and all other settings stay.
pub proof fn owners_pause_the_fleets_storage_work(c: ConfigurationView)
    ensures
        ({
            let n = with_remote_storage_paused(c);
            &&& n == ConfigurationView {
                storage_operation: n.storage_operation,
                storage_lifecycle: LifecycleView {
                    maintenance: n.storage_lifecycle.maintenance,
                    ..c.storage_lifecycle
                },
                ..c
            }
            &&& c.storage_operation is None ==> n.storage_operation is None
            &&& c.storage_operation matches Some(op) ==> (op.phase == "pending"@
                ==> n.storage_operation is None) && (op.phase != "pending"@ ==> n.storage_operation
                == Some(OperationView { paused: true, ..op }))
            &&& c.storage_lifecycle.maintenance is None ==> n.storage_lifecycle.maintenance is None
            &&& c.storage_lifecycle.maintenance matches Some(op) ==> (op.phase == Phase::Drain
                ==> n.storage_lifecycle.maintenance is None) && (op.phase != Phase::Drain
                ==> n.storage_lifecycle.maintenance == Some(MaintenanceView { paused: true, ..op }))
        }),
{
}

/// What a pool needs is what its claims need together, and its room is the least that any of
/// them saw.
pub proof fn claims_on_a_pool_add_up(
    claims: Seq<ClaimView>,
    claim: ClaimView,
    pool: Seq<char>,
    space: u64,
)
    ensures
        pool_need(Seq::empty(), pool) == 0,
        pool_room(Seq::empty(), pool, space) == space,
        claim.pool == pool ==> pool_need(claims.push(claim), pool) == pool_need(claims, pool)
            + claim.needed_gib,
        claim.pool != pool ==> pool_need(claims.push(claim), pool) == pool_need(claims, pool)
            && pool_room(claims.push(claim), pool, space) == pool_room(claims, pool, space),
        claim.pool == pool ==> pool_room(claims.push(claim), pool, space) == if claim.available_gib
            < pool_room(claims, pool, space) {
            claim.available_gib
        } else {
            pool_room(claims, pool, space)
        },
{
    assert(claims.push(claim).drop_last() == claims);
}

/// A disk is claimed only on a usable volume with a supported filesystem and an identity, as
/// a disk that is known or a new one, and not twice.
pub proof fn claims_are_on_usable_volumes(
    previous: Seq<LocationView>,
    credits: Seq<(String, u64)>,
    claims: Seq<ClaimView>,
    selection: SelectionView,
    path: Seq<char>,
    volume: VolumeView,
)
    ensures
        volume_claim(previous, credits, claims, selection, path, volume) matches Ok(claim) ==> {
            &&& volume.eligible
            &&& crate::storage_plan::supported_filesystem(volume.filesystem)
            &&& volume.id.len() > 0 && volume.capacity_pool.len() > 0
            &&& claim.kept == selection.id
            &&& claim.volume_id == volume.id
            &&& claim.pool == volume.capacity_pool
            &&& claim.directory == path
            &&& claim.allocation_gib == selection.allocation_gib
            &&& claim.needed_gib <= selection.allocation_gib
            &&& selection.id matches Some(id) ==> !crate::storage_plan::already_kept(claims, id)
                && exists|i: int|
                0 <= i < previous.len() && (#[trigger] previous[i]).id == id
        },
        selection.id is None ==> (volume_claim(previous, credits, claims, selection, path, volume)
            matches Ok(claim) ==> claim.needed_gib == selection.allocation_gib),
{
}

/// Without a selection one new disk stands in the default folder with the default size.
pub proof fn empty_selections_take_the_default(
    selections: Seq<SelectionView>,
    folder: Seq<char>,
    gib: u64,
)
    ensures
        selections.len() > 0 ==> effective_selections(selections, folder, gib) == selections,
        selections.len() == 0 ==> ({
            let r = effective_selections(selections, folder, gib);
            r.len() == 1 && r[0].id is None && r[0].directory == folder && r[0].allocation_gib == gib
        }),
{
}

} // verus!
