//! What an applied storage change does to the settings: what it replaces, what it leaves
//! alone, and when it is not applied.
use crate::agent::apply::{
    disks_replaced, disks_resolved, growth_applied, growth_applied_refusal, growth_check, identified,
    impact_refusal, joins_disks, joint_refusal, lacks_disks, maintenance_applied, maintenance_for,
    pool_name, preparation_goes_on, recovering, retried, review_refusal, reviewed_from,
    second_review, settled_disks, sharing_refusal,
};
use crate::identity;
use crate::lima::VmProvider;
use crate::policy::{PolicyView, Resources};
use crate::storage::{ChangePlanView, LocationView, OperationView};
use crate::storage_layout::LayoutView;
use crate::storage_lifecycle::{
    Kind, LifecycleView, MaintenanceView, MissingView, Phase, ReviewView,
};
use crate::store::ConfigurationView;
use vstd::prelude::*;

verus! {

proof fn lemma_replaced(
    active: Seq<LocationView>,
    copies: Seq<LocationView>,
    target: Seq<LocationView>,
    everything: bool,
    n: int,
)
    requires
        0 <= n <= copies.len(),
    ensures
        ({
            let all = disks_replaced(active, copies, target, everything, n);
            &&& active.len() <= all.len()
            &&& forall|i: int| 0 <= i < active.len() ==> #[trigger] all[i] == active[i]
            &&& forall|i: int|
                0 <= i < n && (everything || exists|k: int|
                    0 <= k < target.len() && (#[trigger] target[k]).directory
                        == copies[i].directory && target[k].volume_id == copies[i].volume_id)
                    ==> all.contains(#[trigger] copies[i])
            &&& forall|i: int|
                active.len() <= i < all.len() ==> copies.contains(#[trigger] all[i])
                    && !active.contains(all[i]) && (everything || exists|k: int|
                    0 <= k < target.len() && (#[trigger] target[k]).directory == all[i].directory
                        && target[k].volume_id == all[i].volume_id)
        }),
    decreases n,
{
    if n > 0 {
        lemma_replaced(active, copies, target, everything, n - 1);
        let before = disks_replaced(active, copies, target, everything, n - 1);
        let all = disks_replaced(active, copies, target, everything, n);
        let old = copies[n - 1];
        assert forall|l: LocationView| before.contains(l) implies all.contains(l) by {
            let k = choose|k: int| 0 <= k < before.len() && before[k] == l;
            assert(all[k] == l);
        }
        assert forall|i: int| 0 <= i < active.len() implies #[trigger] all[i] == active[i] by {
            assert(before[i] == active[i]);
        }
        assert forall|i: int|
            0 <= i < n && (everything || exists|k: int|
                0 <= k < target.len() && (#[trigger] target[k]).directory == copies[i].directory
                    && target[k].volume_id == copies[i].volume_id) implies all.contains(
            #[trigger] copies[i],
        ) by {
            if i == n - 1 {
                if !before.contains(old) {
                    assert(all[all.len() - 1] == old);
                }
            } else {
                assert(before.contains(copies[i]));
            }
        }
        assert forall|i: int| active.len() <= i < all.len() implies copies.contains(
            #[trigger] all[i],
        ) && !active.contains(all[i]) && (everything || exists|k: int|
            0 <= k < target.len() && (#[trigger] target[k]).directory == all[i].directory
                && target[k].volume_id == all[i].volume_id) by {
            if i < before.len() {
                assert(all[i] == before[i]);
            } else {
                assert(all[i] == copies[n - 1]);
                if active.contains(old) {
                    let k = choose|k: int| 0 <= k < active.len() && active[k] == old;
                    assert(before[k] == old);
                }
            }
        }
    }
}

/// A maintenance replaces the active disks, in order, and of the old copies exactly those
/// in whose place a new disk would stand, or all of them where everything is deleted.
pub proof fn maintenance_replaces_what_is_in_its_way(
    c: ConfigurationView,
    plan: ChangePlanView,
    review: ReviewView,
    request: u128,
    pool: u128,
    fresh: Seq<u128>,
)
    ensures
        ({
            let op = maintenance_for(c, plan, review, request, pool, fresh);
            let copies = c.storage_lifecycle.retired + c.storage_retained;
            &&& c.storage_locations.len() <= op.previous.len()
            &&& forall|i: int|
                0 <= i < c.storage_locations.len() ==> #[trigger] op.previous[i]
                    == c.storage_locations[i]
            &&& forall|i: int|
                0 <= i < copies.len() && (review.kind == Kind::DeleteAll || exists|k: int|
                    0 <= k < plan.locations.len() && (#[trigger] plan.locations[k]).directory
                        == copies[i].directory && plan.locations[k].volume_id
                        == copies[i].volume_id) ==> op.previous.contains(#[trigger] copies[i])
            &&& forall|i: int|
                c.storage_locations.len() <= i < op.previous.len() ==> copies.contains(
                    #[trigger] op.previous[i],
                ) && !c.storage_locations.contains(op.previous[i]) && (review.kind
                    == Kind::DeleteAll || exists|k: int|
                    0 <= k < plan.locations.len() && (#[trigger] plan.locations[k]).directory
                        == op.previous[i].directory && plan.locations[k].volume_id
                        == op.previous[i].volume_id)
        }),
{
    let copies = c.storage_lifecycle.retired + c.storage_retained;
    lemma_replaced(
        c.storage_locations,
        copies,
        plan.locations,
        review.kind == Kind::DeleteAll,
        copies.len() as int,
    );
}

/// A maintenance begins with the drain, under the next generation, for the reviewed disks
/// under the drawn identities.
pub proof fn maintenance_begins_with_new_disks(
    c: ConfigurationView,
    plan: ChangePlanView,
    review: ReviewView,
    request: u128,
    pool: u128,
    fresh: Seq<u128>,
)
    requires
        c.storage_generation < u64::MAX,
    ensures
        ({
            let op = maintenance_for(c, plan, review, request, pool, fresh);
            &&& op.phase == Phase::Drain
            &&& !op.paused
            &&& op.error is None
            &&& op.backup is None
            &&& op.layout is None
            &&& op.request_id == request
            &&& op.pool_id == pool
            &&& op.review == review
            &&& op.total_gib == plan.total_gib
            &&& op.generation == c.storage_generation + 1
            &&& op.target.len() == plan.locations.len()
            &&& forall|i: int|
                0 <= i < op.target.len() ==> (#[trigger] op.target[i]).id == identity::disk_name(
                    fresh[i],
                ) && op.target[i].directory == plan.locations[i].directory
                    && op.target[i].volume_id == plan.locations[i].volume_id
                    && op.target[i].allocation_gib == plan.locations[i].allocation_gib
        }),
{
}

/// A reviewed maintenance is applied exactly where the storage settings are those that were
/// reviewed and none is under way, and then once: the revision rises.
pub proof fn maintenance_is_applied_once(
    c: ConfigurationView,
    plan: ChangePlanView,
    review: ReviewView,
    request: u128,
    pool: u128,
    fresh: Seq<u128>,
    now: u64,
)
    requires
        c.storage_revision < u64::MAX,
        c.storage_generation < u64::MAX,
    ensures
        maintenance_applied(c, plan, review, request, pool, fresh, now) is Ok <==> c.storage_revision
            == plan.revision && c.storage_lifecycle.maintenance is None,
        maintenance_applied(c, plan, review, request, pool, fresh, now) matches Err(e) ==> e
            == "Storage choices changed; review again"@,
        maintenance_applied(c, plan, review, request, pool, fresh, now) matches Ok(n)
            ==> n.storage_revision == c.storage_revision + 1 && n.format_version == 4,
{
}

/// A maintenance of a worker waits in the settings: the disks, the generation and the
/// owner's rules stay until it is done, the drain begins now unless it has begun, and only
/// a deletion of everything ends sharing at once.
pub proof fn queued_maintenance_leaves_the_worker(
    c: ConfigurationView,
    plan: ChangePlanView,
    review: ReviewView,
    request: u128,
    pool: u128,
    fresh: Seq<u128>,
    now: u64,
)
    requires
        plan.requires_restart,
        c.storage_revision < u64::MAX,
        c.storage_generation < u64::MAX,
    ensures
        maintenance_applied(c, plan, review, request, pool, fresh, now) matches Ok(n) ==> {
            &&& n == ConfigurationView {
                storage_revision: n.storage_revision,
                format_version: n.format_version,
                storage_lifecycle: n.storage_lifecycle,
                draining_since: n.draining_since,
                policy: n.policy,
                prepare_requested: n.prepare_requested,
                ..c
            }
            &&& n.storage_lifecycle == LifecycleView {
                maintenance: n.storage_lifecycle.maintenance,
                ..c.storage_lifecycle
            }
            &&& n.storage_lifecycle.maintenance matches Some(op) && op.request_id == request
                && op.pool_id == pool && op.review == review && op.total_gib == plan.total_gib
                && op.phase == Phase::Drain
            &&& n.draining_since == Some(
                if c.draining_since is Some {
                    c.draining_since->0
                } else {
                    now
                },
            )
            &&& review.kind != Kind::DeleteAll ==> n.policy == c.policy && n.prepare_requested
                == c.prepare_requested
            &&& review.kind == Kind::DeleteAll ==> !n.prepare_requested && n.policy == PolicyView {
                enabled: false,
                ..c.policy
            }
        },
{
}

/// Without a worker the settings take the reviewed disks at once, and their total as what is
/// shared; a deletion turns storage and sharing off.
pub proof fn plans_without_a_worker_are_set_up_at_once(
    c: ConfigurationView,
    plan: ChangePlanView,
    review: ReviewView,
    request: u128,
    pool: u128,
    fresh: Seq<u128>,
    now: u64,
)
    requires
        !plan.requires_restart,
        c.storage_revision < u64::MAX,
        c.storage_generation < u64::MAX,
    ensures
        maintenance_applied(c, plan, review, request, pool, fresh, now) matches Ok(n) ==> {
            &&& n == ConfigurationView {
                storage_revision: n.storage_revision,
                format_version: n.format_version,
                storage_lifecycle: n.storage_lifecycle,
                storage_locations: plan.locations,
                policy: n.policy,
                prepare_requested: n.prepare_requested,
                ..c
            }
            &&& n.storage_lifecycle.maintenance == c.storage_lifecycle.maintenance
            &&& n.storage_lifecycle.configured_locations == plan.locations
            &&& n.storage_lifecycle.retired == c.storage_lifecycle.retired
            &&& n.storage_lifecycle.missing == c.storage_lifecycle.missing
            &&& n.storage_lifecycle.recovery_enabled == c.storage_lifecycle.recovery_enabled
            &&& n.storage_lifecycle.disabled <==> review.kind == Kind::DeleteAll
            &&& review.kind == Kind::DeleteAll ==> !n.policy.enabled && !n.prepare_requested
                && n.policy.resources == c.policy.resources && n.storage_lifecycle.pool_id
                == c.storage_lifecycle.pool_id && n.storage_lifecycle.initializing
                == c.storage_lifecycle.initializing
            &&& review.kind != Kind::DeleteAll ==> n.policy.enabled == c.policy.enabled
                && n.prepare_requested == c.prepare_requested && n.policy.resources == Resources {
                disk_gib: plan.total_gib,
                ..c.policy.resources
            } && n.storage_lifecycle.pool_id == Some(pool) && n.storage_lifecycle.initializing
            &&& n.policy == PolicyView {
                enabled: n.policy.enabled,
                resources: n.policy.resources,
                ..c.policy
            }
        },
{
}

/// A plan is reviewed again with the disks that it keeps under their identities and the
/// others as new ones, in the same backup folder; a rebuild is never asked for by a plan.
pub proof fn plans_are_reviewed_with_what_they_say(c: ConfigurationView, plan: ChangePlanView)
    ensures
        second_review(c, plan) is Ok <==> c.storage_revision == plan.revision && (
        plan.maintenance matches Some(review) && review.kind != Kind::FailureRecovery),
        second_review(c, plan) matches Ok(asked) ==> {
            let review = plan.maintenance->0;
            &&& asked.0.len() == plan.locations.len()
            &&& forall|i: int|
                0 <= i < plan.locations.len() ==> (#[trigger] asked.0[i]).directory
                    == plan.locations[i].directory && asked.0[i].allocation_gib
                    == plan.locations[i].allocation_gib
            &&& forall|i: int, k: int|
                0 <= i < plan.locations.len() && 0 <= k < c.storage_locations.len()
                    && #[trigger] c.storage_locations[k].id == #[trigger] plan.locations[i].id
                    ==> asked.0[i].id == Some(plan.locations[i].id)
            &&& forall|i: int|
                0 <= i < plan.locations.len() && (#[trigger] asked.0[i]).id is Some ==> exists|
                    k: int,
                |
                    0 <= k < c.storage_locations.len() && (#[trigger] c.storage_locations[k]).id
                        == asked.0[i].id->0
            &&& asked.1.delete_all <==> review.kind == Kind::DeleteAll
            &&& asked.1.restore_disk is None
            &&& review.backup is None ==> asked.1.temporary_directory is None
            &&& review.backup matches Some(b) ==> asked.1.temporary_directory == Some(b.directory)
            &&& asked.1.single_disk_gib is Some <==> c.vm_provider == VmProvider::Multipass
                && review.kind != Kind::DeleteAll
            &&& asked.1.single_disk_gib matches Some(gib) ==> gib == plan.total_gib
        },
{
    if second_review(c, plan) is Ok {
        let asked = second_review(c, plan)->Ok_0;
        assert forall|i: int, k: int|
            0 <= i < plan.locations.len() && 0 <= k < c.storage_locations.len()
                && #[trigger] c.storage_locations[k].id
                == #[trigger] plan.locations[i].id implies asked.0[i].id == Some(
            plan.locations[i].id,
        ) by {
            assert(crate::storage::has_id(c.storage_locations, plan.locations[i].id));
        }
    }
}

/// A plan stays good only where a new review finds the same disks, the same total, backup
/// and kind, and needs no more than was reviewed.
pub proof fn reviews_stay_good_within_their_bounds(checked: ChangePlanView, plan: ChangePlanView)
    ensures
        review_refusal(checked, plan) is None <==> {
            &&& checked.maintenance matches Some(found)
            &&& plan.maintenance matches Some(review)
            &&& checked.total_gib == plan.total_gib
            &&& checked.requires_restart == plan.requires_restart
            &&& found.kind == review.kind
            &&& found.backup == review.backup
            &&& found.minimum_gib <= review.minimum_gib
            &&& found.temporary_bytes <= review.temporary_bytes
            &&& checked.locations.len() == plan.locations.len()
            &&& forall|i: int|
                0 <= i < plan.locations.len() ==> (#[trigger] checked.locations[i]).directory
                    == plan.locations[i].directory && checked.locations[i].volume_id
                    == plan.locations[i].volume_id && checked.locations[i].allocation_gib
                    == plan.locations[i].allocation_gib
        },
{
}

/// Rules are saved only over the settings that were seen, only a computer in a fleet is
/// shared, and rules that come with a reviewed plan share exactly its allocation.
pub proof fn rules_are_saved_over_what_was_seen(
    policy: PolicyView,
    revision: u64,
    c: ConfigurationView,
    plan: ChangePlanView,
)
    ensures
        sharing_refusal(policy, revision, c) is None <==> c.remote.revision == revision && (
        policy.enabled ==> c.device_token is Some),
        joint_refusal(policy, revision, c, plan) is None <==> c.remote.revision == revision && (
        policy.enabled ==> c.device_token is Some) && policy.resources.disk_gib == plan.total_gib
            && (plan.maintenance is Some ==> plan.maintenance->0.kind == Kind::ResizeRemove),
{
}

/// Growth is looked at again only over the storage settings that were reviewed and while no
/// other change of the worker is under way; it never replaces disks, and restarts the
/// worker only where that was reviewed.
pub proof fn growth_waits_for_other_work(
    c: ConfigurationView,
    checked: ChangePlanView,
    plan: ChangePlanView,
)
    ensures
        growth_check(c, plan) is Ok <==> c.storage_revision == plan.revision
            && c.storage_lifecycle.maintenance is None && c.storage_operation is None
            && c.recreation is None && !c.application_update_pending,
        impact_refusal(checked, plan) is None <==> checked.maintenance is None
            && checked.requires_restart == plan.requires_restart,
{
}

proof fn lemma_reviewed(reviewed: Seq<LocationView>, l: LocationView, i: int)
    requires
        0 <= i,
    ensures
        reviewed_from(reviewed, l, i) matches Some(k) ==> i <= k < reviewed.len()
            && reviewed[k].directory == l.directory && reviewed[k].volume_id == l.volume_id
            && reviewed[k].allocation_gib == l.allocation_gib,
        reviewed_from(reviewed, l, i) is None ==> forall|k: int|
            i <= k < reviewed.len() ==> !((#[trigger] reviewed[k]).directory == l.directory
                && reviewed[k].volume_id == l.volume_id && reviewed[k].allocation_gib
                == l.allocation_gib),
    decreases reviewed.len() - i,
{
    if i < reviewed.len() {
        lemma_reviewed(reviewed, l, i + 1);
    }
}

proof fn lemma_identified(
    home: Seq<char>,
    device: Seq<char>,
    checked: Seq<LocationView>,
    reviewed: Seq<LocationView>,
    n: int,
)
    requires
        0 <= n <= checked.len(),
    ensures
        identified(home, device, checked, reviewed, n) matches Ok(disks) ==> disks.len() == n
            && forall|i: int|
            0 <= i < n ==> (#[trigger] disks[i]).directory == checked[i].directory
                && disks[i].volume_id == checked[i].volume_id && disks[i].allocation_gib
                == checked[i].allocation_gib && exists|k: int|
                0 <= k < reviewed.len() && (#[trigger] reviewed[k]).id == disks[i].id
                    && reviewed[k].directory == disks[i].directory && reviewed[k].volume_id
                    == disks[i].volume_id && reviewed[k].allocation_gib == disks[i].allocation_gib,
    decreases n,
{
    if n > 0 && identified(home, device, checked, reviewed, n) is Ok {
        lemma_identified(home, device, checked, reviewed, n - 1);
        lemma_reviewed(reviewed, checked[n - 1], 0);
        let before = identified(home, device, checked, reviewed, n - 1)->Ok_0;
        let disks = identified(home, device, checked, reviewed, n)->Ok_0;
        let k = reviewed_from(reviewed, checked[n - 1], 0)->0;
        assert forall|i: int| 0 <= i < n implies (#[trigger] disks[i]).directory
            == checked[i].directory && disks[i].volume_id == checked[i].volume_id
            && disks[i].allocation_gib == checked[i].allocation_gib && exists|k: int|
            0 <= k < reviewed.len() && (#[trigger] reviewed[k]).id == disks[i].id
                && reviewed[k].directory == disks[i].directory && reviewed[k].volume_id
                == disks[i].volume_id && reviewed[k].allocation_gib == disks[i].allocation_gib by {
            if i < n - 1 {
                assert(disks[i] == before[i]);
            } else {
                assert(reviewed[k].id == disks[i].id);
            }
        }
    }
}

/// The disks that a growth settles on are those that the new look found, each under the
/// identity of the reviewed disk at its place and of its size.
pub proof fn settled_disks_have_their_reviewed_identity(
    home: Seq<char>,
    device: Seq<char>,
    checked: ChangePlanView,
    plan: ChangePlanView,
)
    ensures
        settled_disks(home, device, checked, plan) matches Ok(disks) ==> {
            &&& checked.total_gib == plan.total_gib
            &&& disks.len() == plan.locations.len()
            &&& forall|i: int|
                0 <= i < disks.len() ==> (#[trigger] disks[i]).directory
                    == checked.locations[i].directory && disks[i].volume_id
                    == checked.locations[i].volume_id && disks[i].allocation_gib
                    == checked.locations[i].allocation_gib && exists|k: int|
                    0 <= k < plan.locations.len() && (#[trigger] plan.locations[k]).id
                        == disks[i].id && plan.locations[k].directory == disks[i].directory
                        && plan.locations[k].volume_id == disks[i].volume_id
                        && plan.locations[k].allocation_gib == disks[i].allocation_gib
        },
{
    lemma_identified(
        home,
        device,
        checked.locations,
        plan.locations,
        checked.locations.len() as int,
    );
}

/// Growth is applied exactly over the storage settings that were reviewed, where nothing
/// else changes the worker, the restart is the reviewed one and the rules that come with it
/// can be saved.
pub proof fn growth_is_applied_where_it_was_reviewed(
    c: ConfigurationView,
    plan: ChangePlanView,
    receipt: bool,
    settings: Option<(PolicyView, u64)>,
)
    requires
        c.storage_revision < u64::MAX,
        c.storage_generation < u64::MAX,
    ensures
        growth_applied_refusal(c, plan, receipt, settings) is None <==> {
            &&& settings is Some ==> c.remote.revision == (settings->0).1 && ((
            settings->0).0.enabled ==> c.device_token is Some)
            &&& c.storage_revision == plan.revision
            &&& c.storage_operation is None
            &&& c.recreation is None
            &&& !c.application_update_pending
            &&& plan.requires_restart <==> c.vm_created || receipt
        },
{
}

/// The growth of a worker's disks waits as a pending change from the old disks to the new
/// ones, and everything else stays; the rules that come with it are taken whole.
pub proof fn growth_of_a_worker_waits(
    c: ConfigurationView,
    plan: ChangePlanView,
    layout: LayoutView,
    data: Seq<LocationView>,
    settings: Option<(PolicyView, u64)>,
    pool: u128,
    now: u64,
)
    requires
        plan.requires_restart,
        c.storage_revision < u64::MAX,
        c.storage_generation < u64::MAX,
    ensures
        ({
            let n = growth_applied(c, plan, layout, data, settings, pool, now);
            &&& n == ConfigurationView {
                format_version: 7,
                storage_boot_gib: layout.system_gib,
                storage_revision: n.storage_revision,
                storage_operation: n.storage_operation,
                draining_since: n.draining_since,
                policy: n.policy,
                ..c
            }
            &&& n.storage_revision == c.storage_revision + 1
            &&& n.storage_operation matches Some(op) && op.previous == c.storage_locations
                && op.target == data && op.layout == Some(layout) && op.generation
                == c.storage_generation + 1 && op.phase == "pending"@ && !op.paused
            &&& n.draining_since == Some(
                if c.draining_since is Some {
                    c.draining_since->0
                } else {
                    now
                },
            )
            &&& n.policy == if settings is Some {
                (settings->0).0
            } else {
                c.policy
            }
        }),
{
}

/// Without a worker the grown disks are the worker's at once, to be joined when it is made;
/// their total is what is shared, unless the rules that come with it say so themselves.
pub proof fn growth_without_a_worker_is_set_up_at_once(
    c: ConfigurationView,
    plan: ChangePlanView,
    layout: LayoutView,
    data: Seq<LocationView>,
    settings: Option<(PolicyView, u64)>,
    pool: u128,
    now: u64,
)
    requires
        !plan.requires_restart,
        c.storage_revision < u64::MAX,
    ensures
        ({
            let n = growth_applied(c, plan, layout, data, settings, pool, now);
            &&& n == ConfigurationView {
                format_version: 7,
                storage_boot_gib: layout.system_gib,
                storage_revision: n.storage_revision,
                storage_lifecycle: n.storage_lifecycle,
                storage_layout: Some(layout),
                storage_locations: data,
                policy: n.policy,
                ..c
            }
            &&& n.storage_revision == c.storage_revision + 1
            &&& n.storage_lifecycle == LifecycleView {
                initializing: true,
                disabled: false,
                pool_id: n.storage_lifecycle.pool_id,
                configured_locations: data,
                ..c.storage_lifecycle
            }
            &&& n.storage_lifecycle.pool_id == if c.storage_lifecycle.disabled {
                Some(pool)
            } else {
                c.storage_lifecycle.pool_id
            }
            &&& settings is Some ==> n.policy == (settings->0).0
            &&& settings is None ==> n.policy.resources.disk_gib == plan.total_gib && n.policy
                == PolicyView {
                resources: Resources { disk_gib: n.policy.resources.disk_gib, ..c.policy.resources },
                ..c.policy
            }
        }),
{
}

/// Disks are picked for a new Lima worker that is to be made and has none; they are joined
/// before its first use and after they were set up anew.
pub proof fn new_workers_get_their_disks(c: ConfigurationView, receipt: bool)
    ensures
        lacks_disks(c, receipt) <==> {
            &&& c.vm_provider == VmProvider::Lima
            &&& c.prepare_requested
            &&& c.storage_locations.len() == 0
            &&& !c.vm_created
            &&& !receipt
            &&& !c.storage_lifecycle.disabled
            &&& c.storage_lifecycle.maintenance is None
        },
        joins_disks(c) <==> c.storage_locations.len() != 0 && (c.storage_generation == 0
            || c.storage_lifecycle.initializing),
        c.storage_lifecycle.pool_id is None ==> pool_name(c) == c.device_id,
        c.storage_lifecycle.pool_id matches Some(id) ==> pool_name(c) == identity::hyphenated_form(
            id,
        ),
{
}

/// The first disks of a worker are taken from the plan, less the operating system's part,
/// only while the storage settings are those of the plan and there is neither a disk nor a
/// worker; nothing else changes.
pub proof fn first_disks_are_the_planned_ones(c: ConfigurationView, plan: ChangePlanView)
    ensures
        disks_resolved(c, plan) is Ok ==> c.storage_revision == plan.revision
            && c.storage_locations.len() == 0 && !c.vm_created && plan.layout is Some,
        disks_resolved(c, plan) matches Ok(n) ==> {
            &&& n == ConfigurationView {
                format_version: 7,
                storage_boot_gib: 16,
                storage_locations: n.storage_locations,
                storage_layout: plan.layout,
                storage_revision: n.storage_revision,
                ..c
            }
            &&& n.storage_revision == c.storage_revision + 1
            &&& crate::storage_layout::transformed(plan.layout->0, plan.locations, false) == Ok::<
                Seq<LocationView>,
                Seq<char>,
            >(n.storage_locations)
        },
        c.storage_revision == plan.revision && c.storage_locations.len() == 0 && !c.vm_created
            && c.storage_revision < u64::MAX && (plan.layout matches Some(layout)
            && crate::storage_layout::transformed(layout, plan.locations, false) is Ok)
            ==> disks_resolved(c, plan) is Ok,
{
}

/// A worker's making goes on while the owner wants it, or a maintenance that is neither
/// paused nor failed does, and no longer once the owner stops it or the layout is another.
pub proof fn making_goes_on_while_wanted(c: ConfigurationView, layout: Option<LayoutView>)
    ensures
        c.stop_requested ==> !preparation_goes_on(c, layout),
        c.storage_layout != layout ==> !preparation_goes_on(c, layout),
        !c.stop_requested && c.storage_layout == layout && c.prepare_requested
            ==> preparation_goes_on(c, layout),
        !c.stop_requested && c.storage_layout == layout && !c.prepare_requested ==> (
        preparation_goes_on(c, layout) <==> (c.storage_lifecycle.maintenance matches Some(op)
            && !op.paused && op.error is None)),
{
}

/// A retry goes on with the change under way where there is one; else it clears the failure
/// of a maintenance and of missing storage and looks at once. It goes on from the same
/// phase with the same disks, and there must be something to retry.
pub proof fn retries_go_on_where_they_stopped(c: ConfigurationView)
    requires
        c.storage_revision < u64::MAX,
    ensures
        retried(c) is Ok <==> c.storage_operation is Some || c.storage_lifecycle.maintenance
            is Some || c.storage_lifecycle.missing is Some,
        retried(c) matches Ok(n) ==> {
            &&& n == ConfigurationView {
                storage_revision: n.storage_revision,
                storage_operation: n.storage_operation,
                storage_lifecycle: n.storage_lifecycle,
                ..c
            }
            &&& n.storage_revision == c.storage_revision + 1
            &&& n.storage_lifecycle == LifecycleView {
                maintenance: n.storage_lifecycle.maintenance,
                missing: n.storage_lifecycle.missing,
                ..c.storage_lifecycle
            }
        },
        retried(c) matches Ok(n) ==> (c.storage_operation matches Some(op)
            ==> n.storage_lifecycle == c.storage_lifecycle && n.storage_operation == Some(
            OperationView { paused: false, ..op },
        )),
        retried(c) matches Ok(n) ==> (c.storage_operation is None ==> n.storage_operation is None
            && (c.storage_lifecycle.maintenance matches Some(op)
            ==> n.storage_lifecycle.maintenance == Some(
            MaintenanceView { error: None, paused: false, ..op },
        )) && (c.storage_lifecycle.maintenance is None ==> n.storage_lifecycle.maintenance is None)
            && (c.storage_lifecycle.missing matches Some(m) ==> n.storage_lifecycle.missing
            == Some(MissingView { error: None, last_check: 0, ..m }))
            && (c.storage_lifecycle.missing is None ==> n.storage_lifecycle.missing is None)),
{
}

/// A rebuild on what remains begins with the reset of the old pool: there is no backup, the
/// remaining disks under new identities are the target, every disk of the pool is replaced
/// and the settings stay but for the revision.
pub proof fn rebuilds_begin_with_a_reset(
    c: ConfigurationView,
    remaining: Seq<LocationView>,
    total: u64,
    request: u128,
    pool: u128,
    fresh: Seq<u128>,
)
    requires
        c.storage_revision < u64::MAX,
        c.storage_generation < u64::MAX,
    ensures
        ({
            let n = recovering(c, remaining, total, request, pool, fresh);
            let op = n.storage_lifecycle.maintenance->0;
            &&& n == ConfigurationView {
                storage_revision: n.storage_revision,
                storage_lifecycle: LifecycleView {
                    maintenance: n.storage_lifecycle.maintenance,
                    ..c.storage_lifecycle
                },
                ..c
            }
            &&& n.storage_revision == c.storage_revision + 1
            &&& n.storage_lifecycle.maintenance is Some
            &&& op.phase == Phase::Reset
            &&& op.review.kind == Kind::FailureRecovery
            &&& op.review.backup is None
            &&& op.review.minimum_gib == 15
            &&& op.review.temporary_bytes == 0
            &&& op.backup is None
            &&& op.layout is None
            &&& !op.paused
            &&& op.error is None
            &&& op.request_id == request
            &&& op.pool_id == pool
            &&& op.total_gib == total
            &&& op.generation == c.storage_generation + 1
            &&& op.target.len() == remaining.len()
            &&& forall|i: int|
                0 <= i < remaining.len() ==> (#[trigger] op.target[i]) == (LocationView {
                    id: identity::disk_name(fresh[i]),
                    ..remaining[i]
                })
            &&& forall|i: int|
                0 <= i < c.storage_locations.len() ==> #[trigger] op.previous[i]
                    == c.storage_locations[i]
        }),
{
    let copies = c.storage_lifecycle.retired + c.storage_retained;
    lemma_replaced(c.storage_locations, copies, remaining, false, copies.len() as int);
}

} // verus!
