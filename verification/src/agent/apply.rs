//! Reviewed storage changes are applied to the settings: what must still hold,
//! and what the settings then say. The supervisor alone changes the worker.
use crate::agent::review::{choose_again, chosen_again, is_busy};
use crate::failure::{fail, first_of, refusal, unless, Failure};
use crate::identity;
use crate::lima::VmProvider;
use crate::lima_storage::{disk_paths, paths_of};
use crate::policy::{Policy, PolicyView, Resources};
use crate::storage::{
    has_id, holds_location, knows_id, location_views, same_place, selection_views, total_gib, ChangePlan,
    ChangePlanView, Location, LocationView, Operation, OperationView, Selection, SelectionView,
};
use crate::storage_layout::{Layout, LayoutView};
use crate::storage_lifecycle::{
    among, stands_among, Kind, LifecycleView, Maintenance, MaintenanceView, Missing, MissingView,
    Phase, Review, ReviewOptions, ReviewOptionsView, ReviewView,
};
use crate::store::{Configuration, ConfigurationView};
use crate::values::{content, copy_list, options_alike, Plain};
use vstd::prelude::*;

verus! {

/// New sharing rules and the settings revision they were made for.
#[derive(Debug)]
pub struct SharingSettings {
    pub policy: Policy,
    pub revision: u64,
}

/// Why sharing rules cannot be saved into the settings.
pub open spec fn sharing_refusal(
    policy: PolicyView,
    revision: u64,
    c: ConfigurationView,
) -> Option<Seq<char>> {
    first_of(
        unless(
            c.remote.revision == revision,
            "Settings changed locally or remotely; reload current settings before saving"@,
        ),
        unless(
            !policy.enabled || c.device_token is Some,
            "Connect this computer to a fleet before enabling sharing"@,
        ),
    )
}

impl SharingSettings {
    /// Whether the rules can be saved into the settings.
    pub fn validate(&self, config: &Configuration) -> (r: Result<(), Failure>)
        ensures
            refusal(r) == sharing_refusal(self.policy@, self.revision, config@),
    {
        if config.remote.revision != self.revision {
            return Err(
                fail("Settings changed locally or remotely; reload current settings before saving"),
            );
        }
        if self.policy.enabled && config.device_token.is_none() {
            return Err(fail("Connect this computer to a fleet before enabling sharing"));
        }
        Ok(())
    }

    /// Save the rules into the settings.
    pub fn apply(&self, config: &mut Configuration)
        ensures
            final(config)@ == (ConfigurationView { policy: self.policy@, ..old(config)@ }),
    {
        config.policy = self.policy.duplicate();
    }
}

/// Why rules cannot be saved together with a reviewed plan.
pub open spec fn joint_refusal(
    policy: PolicyView,
    revision: u64,
    c: ConfigurationView,
    plan: ChangePlanView,
) -> Option<Seq<char>> {
    first_of(
        sharing_refusal(policy, revision, c),
        first_of(
            unless(
                plan.maintenance matches Some(review) ==> review.kind == Kind::ResizeRemove,
                "Use the explicit storage recovery or deletion confirmation for this operation"@,
            ),
            unless(
                policy.resources.disk_gib == plan.total_gib,
                "Sharing rules must use the reviewed storage allocation"@,
            ),
        ),
    )
}

/// Whether rules can be saved together with a reviewed plan, and the disk space
/// that they are then checked against. Physical capacity is checked by the
/// planner against each picked filesystem, not against the old pool.
pub fn check_sharing(settings: &SharingSettings, config: &Configuration, plan: &ChangePlan) -> (r:
    Result<u64, Failure>)
    ensures
        refusal(r) == joint_refusal(settings.policy@, settings.revision, config@, plan@),
        r matches Ok(gib) ==> gib == (if plan.total_gib + 10 > u64::MAX {
            u64::MAX as int
        } else {
            plan.total_gib + 10
        }),
{
    match settings.validate(config) {
        Ok(()) => {},
        Err(e) => {
            return Err(e);
        },
    }
    let ordinary = match &plan.maintenance {
        Some(review) => review.kind == Kind::ResizeRemove,
        None => true,
    };
    if !ordinary {
        return Err(
            fail("Use the explicit storage recovery or deletion confirmation for this operation"),
        );
    }
    if settings.policy.resources.disk_gib != plan.total_gib {
        return Err(fail("Sharing rules must use the reviewed storage allocation"));
    }
    Ok(plan.total_gib.saturating_add(10))
}

/// The review that a plan is checked against again, or why it is refused.
pub open spec fn second_review(c: ConfigurationView, plan: ChangePlanView) -> Result<
    (Seq<SelectionView>, ReviewOptionsView),
    Seq<char>,
> {
    if c.storage_revision != plan.revision {
        Err("Storage choices changed; review again"@)
    } else {
        match plan.maintenance {
            None => Err("Missing storage review"@),
            Some(review) => if review.kind == Kind::FailureRecovery {
                Err("Failure recovery is controlled by the persisted owner policy"@)
            } else {
                Ok(
                    (
                        chosen_again(c.storage_locations, plan.locations),
                        ReviewOptionsView {
                            delete_all: review.kind == Kind::DeleteAll,
                            temporary_directory: match review.backup {
                                Some(backup) => Some(backup.directory),
                                None => None,
                            },
                            single_disk_gib: if c.vm_provider == VmProvider::Multipass
                                && review.kind != Kind::DeleteAll {
                                Some(plan.total_gib)
                            } else {
                                None
                            },
                            restore_disk: None,
                        },
                    ),
                )
            },
        }
    }
}

/// What a plan is reviewed with before it is applied.
pub fn review_again(config: &Configuration, plan: &ChangePlan) -> (r: Result<
    (Vec<Selection>, ReviewOptions),
    Failure,
>)
    ensures
        match second_review(config@, plan@) {
            Ok(wanted) => r matches Ok(made) && selection_views(made.0@) == wanted.0 && made.1@
                == wanted.1,
            Err(message) => refusal(r) == Some(message),
        },
{
    if config.storage_revision != plan.revision {
        return Err(fail("Storage choices changed; review again"));
    }
    let review = match &plan.maintenance {
        Some(review) => review,
        None => {
            return Err(fail("Missing storage review"));
        },
    };
    if review.kind == Kind::FailureRecovery {
        return Err(fail("Failure recovery is controlled by the persisted owner policy"));
    }
    let selections = choose_again(
        config.storage_locations.as_slice(),
        plan.locations.as_slice(),
    );
    let options = ReviewOptions {
        delete_all: review.kind == Kind::DeleteAll,
        temporary_directory: match &review.backup {
            Some(backup) => Some(backup.directory.clone()),
            None => None,
        },
        single_disk_gib: if config.vm_provider == VmProvider::Multipass && review.kind
            != Kind::DeleteAll {
            Some(plan.total_gib)
        } else {
            None
        },
        restore_disk: None,
    };
    Ok((selections, options))
}

/// Whether disks stand at the same places with the same sizes, in order.
pub open spec fn same_disks(a: Seq<LocationView>, b: Seq<LocationView>) -> bool {
    a.len() == b.len() && forall|i: int|
        0 <= i < a.len() ==> same_place(#[trigger] a[i], b[i]) && a[i].allocation_gib
            == b[i].allocation_gib
}

fn disks_agree(a: &[Location], b: &[Location]) -> (r: bool)
    ensures
        r == same_disks(location_views(a@), location_views(b@)),
{
    let ghost x = location_views(a@);
    let ghost y = location_views(b@);
    if a.len() != b.len() {
        return false;
    }
    for i in 0..a.len()
        invariant
            a@.len() == b@.len(),
            x == location_views(a@),
            y == location_views(b@),
            forall|j: int|
                0 <= j < i ==> same_place(#[trigger] x[j], y[j]) && x[j].allocation_gib
                    == y[j].allocation_gib,
    {
        assert(x[i as int] == a@[i as int]@ && y[i as int] == b@[i as int]@);
        if !(a[i].directory.alike(&b[i].directory) && a[i].volume_id.alike(&b[i].volume_id)
            && a[i].allocation_gib == b[i].allocation_gib) {
            return false;
        }
    }
    true
}

/// Why a plan is no longer what a new review says.
pub open spec fn review_refusal(checked: ChangePlanView, plan: ChangePlanView) -> Option<
    Seq<char>,
> {
    match (checked.maintenance, plan.maintenance) {
        (None, _) => Some("Storage impact changed; review again"@),
        (Some(current), Some(review)) => unless(
            checked.total_gib == plan.total_gib && checked.requires_restart == plan.requires_restart
                && current.kind == review.kind && current.backup == review.backup
                && current.minimum_gib <= review.minimum_gib && current.temporary_bytes
                <= review.temporary_bytes && same_disks(checked.locations, plan.locations),
            "Storage requirements changed; review again"@,
        ),
        (Some(_), None) => Some("Missing storage review"@),
    }
}

/// Whether a plan is still what a new review says: the same disks, and no more
/// needed than was reviewed.
pub fn matches_review(checked: &ChangePlan, plan: &ChangePlan) -> (r: Result<(), Failure>)
    ensures
        refusal(r) == review_refusal(checked@, plan@),
{
    let current = match &checked.maintenance {
        Some(current) => current,
        None => {
            return Err(fail("Storage impact changed; review again"));
        },
    };
    let review = match &plan.maintenance {
        Some(review) => review,
        None => {
            return Err(fail("Missing storage review"));
        },
    };
    if checked.total_gib == plan.total_gib && checked.requires_restart == plan.requires_restart
        && current.kind == review.kind && options_alike(&current.backup, &review.backup)
        && current.minimum_gib <= review.minimum_gib && current.temporary_bytes
        <= review.temporary_bytes && disks_agree(
        checked.locations.as_slice(),
        plan.locations.as_slice(),
    ) {
        Ok(())
    } else {
        Err(fail("Storage requirements changed; review again"))
    }
}

/// The disks under new identities.
pub open spec fn renamed(target: Seq<LocationView>, fresh: Seq<u128>) -> Seq<LocationView> {
    Seq::new(
        target.len(),
        |i: int| LocationView { id: identity::disk_name(fresh[i]), ..target[i] },
    )
}

fn rename(target: &[Location], fresh: &[u128]) -> (r: Vec<Location>)
    requires
        fresh@.len() == target@.len(),
    ensures
        location_views(r@) == renamed(location_views(target@), fresh@),
{
    let ghost wanted = renamed(location_views(target@), fresh@);
    let mut r: Vec<Location> = Vec::new();
    for i in 0..target.len()
        invariant
            fresh@.len() == target@.len(),
            wanted == renamed(location_views(target@), fresh@),
            location_views(r@) =~= wanted.take(i as int),
    {
        let ghost before = location_views(r@);
        let mut l = target[i].clone();
        assert(location_views(target@)[i as int] == l@);
        l.id = identity::disk_identifier(fresh[i]);
        r.push(l);
        assert(location_views(r@) =~= before.push(wanted[i as int]));
    }
    r
}

/// The disks that a maintenance replaces: the active ones, and the old copies
/// that a deletion of everything or a new disk in their place would meet.
pub open spec fn disks_replaced(
    active: Seq<LocationView>,
    copies: Seq<LocationView>,
    target: Seq<LocationView>,
    everything: bool,
    n: int,
) -> Seq<LocationView>
    decreases n,
{
    if n <= 0 {
        active
    } else {
        let before = disks_replaced(active, copies, target, everything, n - 1);
        let old = copies[n - 1];
        if (everything || stands_among(target, old)) && !before.contains(old) {
            before.push(old)
        } else {
            before
        }
    }
}

fn replaced(active: &[Location], copies: &[Location], target: &[Location], everything: bool) -> (r:
    Vec<Location>)
    ensures
        location_views(r@) == disks_replaced(
            location_views(active@),
            location_views(copies@),
            location_views(target@),
            everything,
            copies@.len() as int,
        ),
{
    let mut r = copy_list(active);
    for i in 0..copies.len()
        invariant
            location_views(r@) == disks_replaced(
                location_views(active@),
                location_views(copies@),
                location_views(target@),
                everything,
                i as int,
            ),
    {
        assert(location_views(copies@)[i as int] == copies@[i as int]@);
        if (everything || among(target, &copies[i])) && !holds_location(r.as_slice(), &copies[i]) {
            let ghost before = location_views(r@);
            r.push(copies[i].clone());
            assert(location_views(r@) =~= before.push(copies@[i as int]@));
        }
    }
    r
}

/// A maintenance for a reviewed plan.
pub open spec fn maintenance_for(
    c: ConfigurationView,
    plan: ChangePlanView,
    review: ReviewView,
    request: u128,
    pool: u128,
    fresh: Seq<u128>,
) -> MaintenanceView {
    let copies = c.storage_lifecycle.retired + c.storage_retained;
    MaintenanceView {
        request_id: request,
        pool_id: pool,
        generation: (c.storage_generation + 1) as u64,
        layout: None,
        review,
        previous: disks_replaced(
            c.storage_locations,
            copies,
            plan.locations,
            review.kind == Kind::DeleteAll,
            copies.len() as int,
        ),
        target: renamed(plan.locations, fresh),
        total_gib: plan.total_gib,
        phase: Phase::Drain,
        backup: None,
        paused: false,
        error: None,
    }
}

/// A maintenance for a reviewed plan, with its new identities.
pub fn new_maintenance(
    config: &Configuration,
    plan: &ChangePlan,
    review: &Review,
    request: u128,
    pool: u128,
    fresh: &[u128],
) -> (r: Maintenance)
    requires
        config.storage_generation < u64::MAX,
        fresh@.len() == plan.locations@.len(),
    ensures
        r@ == maintenance_for(config@, plan@, review@, request, pool, fresh@),
{
    let mut copies = copy_list(config.storage_lifecycle.retired.as_slice());
    let mut retained = copy_list(config.storage_retained.as_slice());
    copies.append(&mut retained);
    assert(location_views(copies@) =~= config@.storage_lifecycle.retired
        + config@.storage_retained);
    let previous = replaced(
        config.storage_locations.as_slice(),
        copies.as_slice(),
        plan.locations.as_slice(),
        review.kind == Kind::DeleteAll,
    );
    let target = rename(plan.locations.as_slice(), fresh);
    Maintenance {
        request_id: request,
        pool_id: pool,
        generation: config.storage_generation + 1,
        layout: None,
        review: review.duplicate(),
        previous,
        target,
        total_gib: plan.total_gib,
        phase: Phase::Drain,
        backup: None,
        paused: false,
        error: None,
    }
}

/// A maintenance replaces every active disk, and a deletion of everything every
/// copy too.
pub proof fn replaced_disks_are_all(
    active: Seq<LocationView>,
    copies: Seq<LocationView>,
    target: Seq<LocationView>,
    everything: bool,
    n: int,
)
    requires
        0 <= n <= copies.len(),
    ensures
        forall|l: LocationView|
            active.contains(l) ==> disks_replaced(
                active,
                copies,
                target,
                everything,
                n,
            ).contains(l),
        everything ==> forall|i: int|
            0 <= i < n ==> disks_replaced(active, copies, target, everything, n).contains(
                #[trigger] copies[i],
            ),
    decreases n,
{
    if n > 0 {
        replaced_disks_are_all(active, copies, target, everything, n - 1);
        let before = disks_replaced(active, copies, target, everything, n - 1);
        let now = disks_replaced(active, copies, target, everything, n);
        let old = copies[n - 1];
        assert forall|l: LocationView| before.contains(l) implies now.contains(l) by {
            let k = choose|k: int| 0 <= k < before.len() && before[k] == l;
            assert(now[k] == l);
        }
        if everything && !before.contains(old) {
            assert(now[now.len() - 1] == old);
        }
    }
}

/// The settings with sharing off.
pub open spec fn not_sharing(c: ConfigurationView) -> ConfigurationView {
    ConfigurationView {
        policy: PolicyView { enabled: false, ..c.policy },
        prepare_requested: false,
        ..c
    }
}

/// The settings after a plan that needs no restart: there is no worker yet.
pub open spec fn set_up_plan(
    c: ConfigurationView,
    plan: ChangePlanView,
    review: ReviewView,
    pool: u128,
) -> ConfigurationView {
    let off = review.kind == Kind::DeleteAll;
    let placed = ConfigurationView {
        storage_lifecycle: LifecycleView {
            disabled: off,
            initializing: !off || c.storage_lifecycle.initializing,
            pool_id: if off {
                c.storage_lifecycle.pool_id
            } else {
                Some(pool)
            },
            configured_locations: plan.locations,
            ..c.storage_lifecycle
        },
        storage_locations: plan.locations,
        ..c
    };
    if off {
        not_sharing(placed)
    } else {
        ConfigurationView {
            policy: PolicyView {
                resources: Resources { disk_gib: plan.total_gib, ..c.policy.resources },
                ..c.policy
            },
            ..placed
        }
    }
}

/// The settings after a plan that needs a restart: the maintenance is queued.
pub open spec fn queue_plan(
    c: ConfigurationView,
    op: MaintenanceView,
    now: u64,
) -> ConfigurationView {
    let queued = ConfigurationView {
        storage_lifecycle: LifecycleView { maintenance: Some(op), ..c.storage_lifecycle },
        draining_since: match c.draining_since {
            Some(since) => Some(since),
            None => Some(now),
        },
        ..c
    };
    if op.review.kind == Kind::DeleteAll {
        not_sharing(queued)
    } else {
        queued
    }
}

/// The settings after a reviewed maintenance plan, or why it is refused.
pub open spec fn maintenance_applied(
    c: ConfigurationView,
    plan: ChangePlanView,
    review: ReviewView,
    request: u128,
    pool: u128,
    fresh: Seq<u128>,
    now: u64,
) -> Result<ConfigurationView, Seq<char>> {
    if c.storage_revision != plan.revision || c.storage_lifecycle.maintenance is Some {
        Err("Storage choices changed; review again"@)
    } else {
        let next = ConfigurationView {
            storage_revision: (c.storage_revision + 1) as u64,
            format_version: 4,
            ..c
        };
        if plan.requires_restart {
            Ok(
                queue_plan(
                    next,
                    maintenance_for(next, plan, review, request, pool, fresh),
                    now,
                ),
            )
        } else {
            Ok(set_up_plan(next, plan, review, pool))
        }
    }
}

fn stop_sharing(config: &mut Configuration)
    ensures
        final(config)@ == not_sharing(old(config)@),
{
    config.policy.enabled = false;
    config.prepare_requested = false;
}

fn set_up(config: &mut Configuration, plan: &ChangePlan, review: &Review, pool: u128)
    ensures
        final(config)@ == set_up_plan(old(config)@, plan@, review@, pool),
{
    let off = review.kind == Kind::DeleteAll;
    config.storage_lifecycle.disabled = off;
    if !off {
        config.storage_lifecycle.initializing = true;
        config.storage_lifecycle.pool_id = Some(pool);
    }
    config.storage_locations = copy_list(plan.locations.as_slice());
    config.storage_lifecycle.configured_locations = copy_list(plan.locations.as_slice());
    if off {
        stop_sharing(config);
    } else {
        config.policy.resources.disk_gib = plan.total_gib;
    }
}

fn queue(config: &mut Configuration, op: Maintenance, now: u64)
    ensures
        final(config)@ == queue_plan(old(config)@, op@, now),
{
    let off = op.review.kind == Kind::DeleteAll;
    config.storage_lifecycle.maintenance = Some(op);
    if config.draining_since.is_none() {
        config.draining_since = Some(now);
    }
    if off {
        stop_sharing(config);
    }
}

/// Apply a reviewed maintenance plan to the settings.
pub fn commit_maintenance(
    config: &mut Configuration,
    plan: &ChangePlan,
    review: &Review,
    request: u128,
    pool: u128,
    fresh: &[u128],
    now: u64,
) -> (r: Result<(), Failure>)
    requires
        old(config).storage_revision < u64::MAX,
        old(config).storage_generation < u64::MAX,
        fresh@.len() == plan.locations@.len(),
    ensures
        match maintenance_applied(old(config)@, plan@, review@, request, pool, fresh@, now) {
            Ok(next) => r is Ok && final(config)@ == next,
            Err(message) => refusal(r) == Some(message) && final(config)@ == old(config)@,
        },
{
    if config.storage_revision != plan.revision
        || config.storage_lifecycle.maintenance.is_some() {
        return Err(fail("Storage choices changed; review again"));
    }
    config.storage_revision = config.storage_revision + 1;
    config.format_version = 4;
    if plan.requires_restart {
        let op = new_maintenance(config, plan, review, request, pool, fresh);
        queue(config, op, now);
    } else {
        set_up(config, plan, review, pool);
    }
    Ok(())
}

/// Apply a reviewed maintenance plan with identities drawn for it.
pub fn apply_storage_maintenance(config: &mut Configuration, plan: &ChangePlan, now: u64) -> (r:
    Result<(), Failure>)
    requires
        old(config).storage_revision < u64::MAX,
        old(config).storage_generation < u64::MAX,
    ensures
        match content(plan.maintenance) {
            None => refusal(r) == Some("Missing storage review"@) && final(config)@
                == old(config)@,
            Some(review) => exists|request: u128, pool: u128, fresh: Seq<u128>|
                identity::is_random(request) && identity::is_random(pool) && identity::are_random(
                    fresh,
                ) && fresh.len() == plan@.locations.len() && match #[trigger] maintenance_applied(
                    old(config)@,
                    plan@,
                    review,
                    request,
                    pool,
                    fresh,
                    now,
                ) {
                    Ok(next) => r is Ok && final(config)@ == next,
                    Err(message) => refusal(r) == Some(message) && final(config)@ == old(config)@,
                },
        },
{
    let review = match &plan.maintenance {
        Some(review) => review,
        None => {
            return Err(fail("Missing storage review"));
        },
    };
    let request = identity::random_uuid();
    let pool = identity::random_uuid();
    let fresh = identity::random_uuids(plan.locations.len());
    let ghost before = config@;
    let r = commit_maintenance(config, plan, review, request, pool, fresh.as_slice(), now);
    proof {
        let tried = maintenance_applied(before, plan@, review@, request, pool, fresh@, now);
        assert(fresh@.len() == plan@.locations.len());
        assert(match tried {
            Ok(next) => r is Ok && config@ == next,
            Err(message) => refusal(r) == Some(message) && config@ == before,
        });
    }
    r
}

/// The selections that a growth plan is checked with again, or why it is
/// refused.
pub open spec fn growth_check(c: ConfigurationView, plan: ChangePlanView) -> Result<
    Seq<SelectionView>,
    Seq<char>,
> {
    if c.storage_revision != plan.revision {
        Err("Storage choices changed; review the changes again"@)
    } else if is_busy(c) {
        Err("Wait for current worker maintenance to finish"@)
    } else {
        Ok(chosen_again(c.storage_locations, plan.locations))
    }
}

/// The selections that a growth plan is checked with again.
pub fn check_growth(config: &Configuration, plan: &ChangePlan) -> (r: Result<
    Vec<Selection>,
    Failure,
>)
    ensures
        match growth_check(config@, plan@) {
            Ok(wanted) => r matches Ok(s) && selection_views(s@) == wanted,
            Err(message) => refusal(r) == Some(message),
        },
{
    if config.storage_revision != plan.revision {
        return Err(fail("Storage choices changed; review the changes again"));
    }
    if config.application_update_pending || config.recreation.is_some()
        || config.storage_operation.is_some() || config.storage_lifecycle.maintenance.is_some() {
        return Err(fail("Wait for current worker maintenance to finish"));
    }
    Ok(choose_again(config.storage_locations.as_slice(), plan.locations.as_slice()))
}

/// Why a growth plan is not what a new review says, before the runtime is
/// checked.
pub open spec fn impact_refusal(checked: ChangePlanView, plan: ChangePlanView) -> Option<
    Seq<char>,
> {
    first_of(
        unless(
            checked.maintenance is None,
            "Replacement storage requires a verified backup review"@,
        ),
        unless(
            checked.requires_restart == plan.requires_restart,
            "The required worker restart changed; review storage again"@,
        ),
    )
}

/// Whether a growth plan has the impact that a new review says.
pub fn check_impact(checked: &ChangePlan, plan: &ChangePlan) -> (r: Result<(), Failure>)
    ensures
        refusal(r) == impact_refusal(checked@, plan@),
{
    if checked.maintenance.is_some() {
        return Err(fail("Replacement storage requires a verified backup review"));
    }
    if checked.requires_restart != plan.requires_restart {
        return Err(fail("The required worker restart changed; review storage again"));
    }
    Ok(())
}

/// The first reviewed disk from `i` on with the place and size of a checked one.
pub open spec fn reviewed_from(reviewed: Seq<LocationView>, l: LocationView, i: int) -> Option<int>
    decreases reviewed.len() - i,
{
    if i < 0 || i >= reviewed.len() {
        None
    } else if same_place(reviewed[i], l) && reviewed[i].allocation_gib == l.allocation_gib {
        Some(i)
    } else {
        reviewed_from(reviewed, l, i + 1)
    }
}

fn find_reviewed(reviewed: &[Location], l: &Location) -> (r: Option<usize>)
    ensures
        match r {
            Some(i) => i < reviewed@.len() && reviewed_from(location_views(reviewed@), l@, 0)
                == Some(i as int),
            None => reviewed_from(location_views(reviewed@), l@, 0) is None,
        },
{
    let ghost v = location_views(reviewed@);
    let mut i: usize = 0;
    while i < reviewed.len()
        invariant
            i <= reviewed@.len(),
            v == location_views(reviewed@),
            reviewed_from(v, l@, 0) == reviewed_from(v, l@, i as int),
        decreases reviewed@.len() - i,
    {
        assert(v[i as int] == reviewed@[i as int]@);
        if reviewed[i].directory.alike(&l.directory) && reviewed[i].volume_id.alike(&l.volume_id)
            && reviewed[i].allocation_gib == l.allocation_gib {
            return Some(i);
        }
        i = i + 1;
    }
    None
}

/// The first `n` checked disks under the identities that were reviewed, or why
/// they are not those.
pub open spec fn identified(
    home: Seq<char>,
    device: Seq<char>,
    checked: Seq<LocationView>,
    reviewed: Seq<LocationView>,
    n: int,
) -> Result<Seq<LocationView>, Seq<char>>
    decreases n,
{
    if n <= 0 {
        Ok(Seq::empty())
    } else {
        match identified(home, device, checked, reviewed, n - 1) {
            Err(message) => Err(message),
            Ok(before) => match reviewed_from(reviewed, checked[n - 1], 0) {
                None => Err("Storage volume changed; review the changes again"@),
                Some(i) => match paths_of(home, device, reviewed[i]) {
                    Err(message) => Err(message),
                    Ok(_) => if has_id(before, reviewed[i].id) {
                        Err("A disk cannot be selected twice"@)
                    } else {
                        Ok(
                            before.push(
                                LocationView { id: reviewed[i].id, ..checked[n - 1] },
                            ),
                        )
                    },
                },
            },
        }
    }
}

proof fn lemma_identified(
    home: Seq<char>,
    device: Seq<char>,
    checked: Seq<LocationView>,
    reviewed: Seq<LocationView>,
    i: int,
    n: int,
)
    requires
        0 <= i <= n,
        identified(home, device, checked, reviewed, i) is Err,
    ensures
        identified(home, device, checked, reviewed, n) == identified(
            home,
            device,
            checked,
            reviewed,
            i,
        ),
    decreases n,
{
    if i < n {
        lemma_identified(home, device, checked, reviewed, i, n - 1);
    }
}

/// The disks of a plan as a new review finds them, or why they differ.
pub open spec fn settled_disks(
    home: Seq<char>,
    device: Seq<char>,
    checked: ChangePlanView,
    plan: ChangePlanView,
) -> Result<Seq<LocationView>, Seq<char>> {
    if checked.total_gib != plan.total_gib || checked.locations.len() != plan.locations.len() {
        Err("Storage review no longer matches the requested allocation"@)
    } else {
        identified(home, device, checked.locations, plan.locations, checked.locations.len() as int)
    }
}

/// The disks of a plan as a new review finds them, under the identities that
/// were reviewed.
pub fn settle_disks(home: &str, device: &str, checked: &ChangePlan, plan: &ChangePlan) -> (r:
    Result<Vec<Location>, Failure>)
    ensures
        match settled_disks(home@, device@, checked@, plan@) {
            Ok(disks) => r matches Ok(d) && location_views(d@) == disks,
            Err(message) => refusal(r) == Some(message),
        },
{
    if checked.total_gib != plan.total_gib || checked.locations.len() != plan.locations.len() {
        return Err(fail("Storage review no longer matches the requested allocation"));
    }
    let ghost a = checked@.locations;
    let ghost b = plan@.locations;
    let mut r: Vec<Location> = Vec::new();
    assert(location_views(r@) =~= Seq::<LocationView>::empty());
    for n in 0..checked.locations.len()
        invariant
            a == location_views(checked.locations@),
            b == location_views(plan.locations@),
            identified(home@, device@, a, b, n as int) == Ok::<Seq<LocationView>, Seq<char>>(
                location_views(r@),
            ),
            checked@.total_gib == plan@.total_gib,
            a.len() == b.len(),
            checked@.locations == a,
            plan@.locations == b,
    {
        assert(a[n as int] == checked.locations@[n as int]@);
        let i = match find_reviewed(plan.locations.as_slice(), &checked.locations[n]) {
            Some(i) => i,
            None => {
                proof {
                    lemma_identified(home@, device@, a, b, n + 1, a.len() as int);
                }
                return Err(fail("Storage volume changed; review the changes again"));
            },
        };
        assert(b[i as int] == plan.locations@[i as int]@);
        let reviewed = &plan.locations[i];
        match disk_paths(home, device, reviewed) {
            Ok(_) => {},
            Err(e) => {
                proof {
                    lemma_identified(home@, device@, a, b, n + 1, a.len() as int);
                }
                return Err(e);
            },
        }
        if knows_id(r.as_slice(), reviewed.id.as_str()) {
            proof {
                lemma_identified(home@, device@, a, b, n + 1, a.len() as int);
            }
            return Err(fail("A disk cannot be selected twice"));
        }
        let mut l = checked.locations[n].clone();
        l.id = reviewed.id.clone();
        let ghost before = location_views(r@);
        r.push(l);
        assert(location_views(r@) =~= before.push(
            LocationView { id: b[i as int].id, ..a[n as int] },
        ));
    }
    Ok(r)
}

/// The disks that are settled on have different identities, and otherwise are
/// exactly those that the new review finds.
pub proof fn settled_disks_are_the_checked_ones(
    home: Seq<char>,
    device: Seq<char>,
    checked: Seq<LocationView>,
    reviewed: Seq<LocationView>,
    n: int,
)
    requires
        0 <= n <= checked.len(),
    ensures
        identified(home, device, checked, reviewed, n) matches Ok(disks) ==> same_disks(
            disks,
            checked.take(n),
        ) && forall|i: int, j: int|
            0 <= i < j < disks.len() ==> (#[trigger] disks[i]).id != (#[trigger] disks[j]).id,
    decreases n,
{
    if n > 0 && identified(home, device, checked, reviewed, n) is Ok {
        settled_disks_are_the_checked_ones(home, device, checked, reviewed, n - 1);
        let before = identified(home, device, checked, reviewed, n - 1)->Ok_0;
        let disks = identified(home, device, checked, reviewed, n)->Ok_0;
        assert forall|i: int| 0 <= i < disks.len() implies same_place(
            #[trigger] disks[i],
            checked.take(n)[i],
        ) && disks[i].allocation_gib == checked.take(n)[i].allocation_gib by {
            if i < n - 1 {
                assert(disks[i] == before[i]);
                assert(checked.take(n - 1)[i] == checked.take(n)[i]);
                assert(same_place(before[i], checked.take(n - 1)[i]));
            }
        }
        assert forall|i: int, j: int| 0 <= i < j < disks.len() implies (#[trigger] disks[i]).id
            != (#[trigger] disks[j]).id by {
            assert(disks[i] == before[i]);
            if j < n - 1 {
                assert(disks[j] == before[j]);
            } else {
                assert(!has_id(before, disks[j].id));
            }
        }
    }
}

/// The settings with a growth queued for the supervisor.
pub open spec fn growth_queued(
    c: ConfigurationView,
    layout: LayoutView,
    data: Seq<LocationView>,
    now: u64,
) -> ConfigurationView {
    ConfigurationView {
        storage_operation: Some(
            OperationView {
                layout: Some(layout),
                previous: c.storage_locations,
                target: data,
                generation: (c.storage_generation + 1) as u64,
                phase: "pending"@,
                paused: false,
            },
        ),
        draining_since: match c.draining_since {
            Some(since) => Some(since),
            None => Some(now),
        },
        ..c
    }
}

/// The settings with disks chosen for a worker that is not there yet.
pub open spec fn growth_set_up(
    c: ConfigurationView,
    layout: LayoutView,
    data: Seq<LocationView>,
    total: u64,
    pool: u128,
) -> ConfigurationView {
    ConfigurationView {
        storage_lifecycle: LifecycleView {
            initializing: true,
            pool_id: if c.storage_lifecycle.disabled {
                Some(pool)
            } else {
                c.storage_lifecycle.pool_id
            },
            disabled: false,
            configured_locations: data,
            ..c.storage_lifecycle
        },
        storage_layout: Some(layout),
        storage_locations: data,
        policy: PolicyView {
            resources: Resources { disk_gib: total, ..c.policy.resources },
            ..c.policy
        },
        ..c
    }
}

/// Why a growth plan can no longer be applied.
pub open spec fn growth_applied_refusal(
    c: ConfigurationView,
    plan: ChangePlanView,
    receipt: bool,
    settings: Option<(PolicyView, u64)>,
) -> Option<Seq<char>> {
    first_of(
        match settings {
            Some(s) => sharing_refusal(s.0, s.1, c),
            None => None,
        },
        if c.storage_revision != plan.revision || c.storage_operation is Some {
            Some("Storage choices changed; review the changes again"@)
        } else if c.application_update_pending || c.recreation is Some {
            Some("Wait for current worker maintenance to finish"@)
        } else if plan.requires_restart != (c.vm_created || receipt) {
            Some("The required worker restart changed; review storage again"@)
        } else if c.storage_revision == u64::MAX {
            Some("Storage revision overflow"@)
        } else {
            unless(
                !plan.requires_restart || c.storage_generation < u64::MAX,
                "Storage generation overflow"@,
            )
        },
    )
}

/// The settings after a growth plan on its checked disks.
pub open spec fn growth_applied(
    c: ConfigurationView,
    plan: ChangePlanView,
    layout: LayoutView,
    data: Seq<LocationView>,
    settings: Option<(PolicyView, u64)>,
    pool: u128,
    now: u64,
) -> ConfigurationView {
    let next = ConfigurationView {
        format_version: 7,
        storage_boot_gib: layout.system_gib,
        storage_revision: (c.storage_revision + 1) as u64,
        ..c
    };
    let placed = if plan.requires_restart {
        growth_queued(next, layout, data, now)
    } else {
        growth_set_up(next, layout, data, plan.total_gib, pool)
    };
    match settings {
        Some(s) => ConfigurationView { policy: s.0, ..placed },
        None => placed,
    }
}

pub open spec fn sharing_view(s: Option<&SharingSettings>) -> Option<(PolicyView, u64)> {
    match s {
        Some(s) => Some((s.policy@, s.revision)),
        None => None,
    }
}

fn growth_still_applies(
    config: &Configuration,
    plan: &ChangePlan,
    receipt: bool,
    settings: Option<&SharingSettings>,
) -> (r: Result<(), Failure>)
    ensures
        refusal(r) == growth_applied_refusal(config@, plan@, receipt, sharing_view(settings)),
{
    match settings {
        Some(settings) => match settings.validate(config) {
            Ok(()) => {},
            Err(e) => {
                return Err(e);
            },
        },
        None => {},
    }
    if config.storage_revision != plan.revision || config.storage_operation.is_some() {
        return Err(fail("Storage choices changed; review the changes again"));
    }
    if config.application_update_pending || config.recreation.is_some() {
        return Err(fail("Wait for current worker maintenance to finish"));
    }
    if plan.requires_restart != (config.vm_created || receipt) {
        return Err(fail("The required worker restart changed; review storage again"));
    }
    if config.storage_revision == u64::MAX {
        return Err(fail("Storage revision overflow"));
    }
    if plan.requires_restart && config.storage_generation == u64::MAX {
        return Err(fail("Storage generation overflow"));
    }
    Ok(())
}

fn queue_growth(config: &mut Configuration, layout: &Layout, data: &[Location], now: u64)
    requires
        old(config).storage_generation < u64::MAX,
    ensures
        final(config)@ == growth_queued(old(config)@, layout@, location_views(data@), now),
{
    let op = Operation {
        layout: Some(layout.duplicate()),
        previous: copy_list(config.storage_locations.as_slice()),
        target: copy_list(data),
        generation: config.storage_generation + 1,
        phase: "pending".to_owned(),
        paused: false,
    };
    assert(op@ =~= OperationView {
        layout: Some(layout@),
        previous: config@.storage_locations,
        target: location_views(data@),
        generation: (config@.storage_generation + 1) as u64,
        phase: "pending"@,
        paused: false,
    });
    config.storage_operation = Some(op);
    if config.draining_since.is_none() {
        config.draining_since = Some(now);
    }
}

fn set_up_growth(
    config: &mut Configuration,
    layout: &Layout,
    data: &[Location],
    total: u64,
    pool: u128,
)
    ensures
        final(config)@ == growth_set_up(
            old(config)@,
            layout@,
            location_views(data@),
            total,
            pool,
        ),
{
    config.storage_lifecycle.initializing = true;
    if config.storage_lifecycle.disabled {
        config.storage_lifecycle.pool_id = Some(pool);
    }
    config.storage_lifecycle.disabled = false;
    config.storage_layout = Some(layout.duplicate());
    config.storage_lifecycle.configured_locations = copy_list(data);
    config.storage_locations = copy_list(data);
    config.policy.resources.disk_gib = total;
}

/// Apply a growth plan to the settings on its checked data disks, together with
/// new sharing rules where there are any.
pub fn commit_growth(
    config: &mut Configuration,
    plan: &ChangePlan,
    receipt: bool,
    layout: &Layout,
    data: &[Location],
    settings: Option<&SharingSettings>,
    pool: u128,
    now: u64,
) -> (r: Result<(), Failure>)
    ensures
        match growth_applied_refusal(old(config)@, plan@, receipt, sharing_view(settings)) {
            Some(message) => refusal(r) == Some(message) && final(config)@ == old(config)@,
            None => r is Ok && final(config)@ == growth_applied(
                old(config)@,
                plan@,
                layout@,
                location_views(data@),
                sharing_view(settings),
                pool,
                now,
            ),
        },
{
    match growth_still_applies(config, plan, receipt, settings) {
        Ok(()) => {},
        Err(e) => {
            return Err(e);
        },
    }
    config.format_version = 7;
    config.storage_boot_gib = layout.system_gib;
    config.storage_revision = config.storage_revision + 1;
    if plan.requires_restart {
        queue_growth(config, layout, data, now);
    } else {
        set_up_growth(config, layout, data, plan.total_gib, pool);
    }
    match settings {
        Some(settings) => settings.apply(config),
        None => {},
    }
    Ok(())
}

/// Apply a growth plan with a pool identity drawn for it.
pub fn apply_storage_settings(
    config: &mut Configuration,
    plan: &ChangePlan,
    receipt: bool,
    layout: &Layout,
    data: &[Location],
    settings: Option<&SharingSettings>,
    now: u64,
) -> (r: Result<(), Failure>)
    ensures
        exists|pool: u128|
            identity::is_random(pool) && match growth_applied_refusal(
                old(config)@,
                plan@,
                receipt,
                sharing_view(settings),
            ) {
                Some(message) => refusal(r) == Some(message) && final(config)@ == old(config)@,
                None => r is Ok && final(config)@ == #[trigger] growth_applied(
                    old(config)@,
                    plan@,
                    layout@,
                    location_views(data@),
                    sharing_view(settings),
                    pool,
                    now,
                ),
            },
{
    let pool = identity::random_uuid();
    let ghost before = config@;
    let r = commit_growth(config, plan, receipt, layout, data, settings, pool, now);
    proof {
        let wanted = growth_applied(
            before,
            plan@,
            layout@,
            location_views(data@),
            sharing_view(settings),
            pool,
            now,
        );
        assert(growth_applied_refusal(before, plan@, receipt, sharing_view(settings)) is None
            ==> config@ == wanted);
    }
    r
}

/// A plan is applied only to the settings that it was reviewed against, and
/// leaves settings that no other plan of that review applies to.
pub proof fn plans_apply_once(
    c: ConfigurationView,
    plan: ChangePlanView,
    receipt: bool,
    layout: LayoutView,
    data: Seq<LocationView>,
    settings: Option<(PolicyView, u64)>,
    pool: u128,
    now: u64,
    other: ChangePlanView,
)
    requires
        growth_applied_refusal(c, plan, receipt, settings) is None,
        other.revision == plan.revision,
    ensures
        c.storage_revision == plan.revision,
        growth_applied_refusal(
            growth_applied(c, plan, layout, data, settings, pool, now),
            other,
            receipt,
            None,
        ) is Some,
{
}

/// A change of the disks of a worker that is there is only queued: its active
/// disks stay as they are until the supervisor has made and checked the new
/// ones.
pub proof fn queued_growth_keeps_the_disks(
    c: ConfigurationView,
    plan: ChangePlanView,
    layout: LayoutView,
    data: Seq<LocationView>,
    settings: Option<(PolicyView, u64)>,
    pool: u128,
    now: u64,
)
    requires
        plan.requires_restart,
    ensures
        growth_applied(c, plan, layout, data, settings, pool, now).storage_locations
            == c.storage_locations,
        growth_applied(c, plan, layout, data, settings, pool, now).storage_layout
            == c.storage_layout,
        growth_applied(c, plan, layout, data, settings, pool, now).storage_generation
            == c.storage_generation,
{
}

/// Whether a new worker's disks are still to be chosen.
pub open spec fn lacks_disks(c: ConfigurationView, receipt: bool) -> bool {
    c.vm_provider == VmProvider::Lima && !c.storage_lifecycle.disabled
        && c.storage_lifecycle.maintenance is None && c.prepare_requested && !c.vm_created
        && !receipt && c.storage_locations.len() == 0
}

/// Whether a new worker's disks are still to be chosen.
pub fn needs_disks(config: &Configuration, receipt: bool) -> (r: bool)
    ensures
        r == lacks_disks(config@, receipt),
{
    config.vm_provider == VmProvider::Lima && !config.storage_lifecycle.disabled
        && config.storage_lifecycle.maintenance.is_none() && config.prepare_requested
        && !config.vm_created && !receipt && config.storage_locations.len() == 0
}

/// The settings with the disks of a plan for a new worker, or why it is refused.
pub open spec fn disks_resolved(c: ConfigurationView, plan: ChangePlanView) -> Result<
    ConfigurationView,
    Seq<char>,
> {
    if c.storage_revision != plan.revision || c.storage_locations.len() > 0 || c.vm_created {
        Err("Storage settings changed during preparation; retry"@)
    } else {
        match plan.layout {
            None => Err("Missing VM storage layout"@),
            Some(layout) => match crate::storage_layout::transformed(layout, plan.locations, false) {
                Err(message) => Err(message),
                Ok(data) => if c.storage_revision == u64::MAX {
                    Err("Storage revision overflow"@)
                } else {
                    Ok(
                        ConfigurationView {
                            format_version: 7,
                            storage_boot_gib: 16,
                            storage_locations: data,
                            storage_layout: Some(layout),
                            storage_revision: (c.storage_revision + 1) as u64,
                            ..c
                        },
                    )
                },
            },
        }
    }
}

/// Choose the disks of a new worker.
pub fn resolve_initial_storage(config: &mut Configuration, plan: &ChangePlan) -> (r: Result<
    (),
    Failure,
>)
    ensures
        match disks_resolved(old(config)@, plan@) {
            Ok(next) => r is Ok && final(config)@ == next,
            Err(message) => refusal(r) == Some(message) && final(config)@ == old(config)@,
        },
{
    if config.storage_revision != plan.revision || config.storage_locations.len() > 0
        || config.vm_created {
        return Err(fail("Storage settings changed during preparation; retry"));
    }
    let layout = match &plan.layout {
        Some(layout) => layout,
        None => {
            return Err(fail("Missing VM storage layout"));
        },
    };
    let data = match layout.data_locations(plan.locations.as_slice()) {
        Ok(data) => data,
        Err(e) => {
            return Err(e);
        },
    };
    if config.storage_revision == u64::MAX {
        return Err(fail("Storage revision overflow"));
    }
    config.format_version = 7;
    config.storage_boot_gib = 16;
    config.storage_locations = data;
    config.storage_layout = Some(layout.duplicate());
    config.storage_revision = config.storage_revision + 1;
    Ok(())
}

/// Whether the disks of a new worker are still to be joined in the guest.
pub open spec fn joins_disks(c: ConfigurationView) -> bool {
    c.storage_locations.len() > 0 && (c.storage_generation == 0
        || c.storage_lifecycle.initializing)
}

/// Whether the disks of a new worker are still to be joined in the guest.
pub fn must_join_disks(config: &Configuration) -> (r: bool)
    ensures
        r == joins_disks(config@),
{
    config.storage_locations.len() > 0 && (config.storage_generation == 0
        || config.storage_lifecycle.initializing)
}

/// The identity of the worker's pool: that of the computer where it has no other.
pub open spec fn pool_name(c: ConfigurationView) -> Seq<char> {
    match c.storage_lifecycle.pool_id {
        Some(id) => identity::hyphenated_form(id),
        None => c.device_id,
    }
}

/// The identity of the worker's pool.
pub fn pool_text(config: &Configuration) -> (r: String)
    ensures
        r@ == pool_name(config@),
{
    match config.storage_lifecycle.pool_id {
        Some(id) => identity::hyphenated_text(id),
        None => config.device_id.clone(),
    }
}

/// The generation of the next change of the pool.
pub fn next_generation(config: &Configuration) -> (r: Result<u64, Failure>)
    ensures
        refusal(r) == unless(
            config.storage_generation < u64::MAX,
            "Storage generation overflow"@,
        ),
        r matches Ok(n) ==> n == config.storage_generation + 1,
{
    match config.storage_generation.checked_add(1) {
        Some(n) => Ok(n),
        None => Err(fail("Storage generation overflow")),
    }
}

/// Record that the disks of a new worker were joined and checked.
pub fn finish_initial_storage(config: &mut Configuration, joined: &[Location], generation: u64)
    -> (r: Result<(), Failure>)
    ensures
        if old(config)@.storage_locations == location_views(joined@) {
            r is Ok && final(config)@ == (ConfigurationView {
                format_version: 7,
                storage_generation: generation,
                storage_lifecycle: LifecycleView {
                    initializing: false,
                    ..old(config)@.storage_lifecycle
                },
                ..old(config)@
            })
        } else {
            refusal(r) == Some("Storage choices changed during preparation"@) && final(config)@
                == old(config)@
        },
{
    if !crate::storage::same_locations(config.storage_locations.as_slice(), joined) {
        return Err(fail("Storage choices changed during preparation"));
    }
    config.format_version = 7;
    config.storage_generation = generation;
    config.storage_lifecycle.initializing = false;
    Ok(())
}

/// Whether the preparation of the VM may go on.
pub open spec fn preparation_goes_on(c: ConfigurationView, layout: Option<LayoutView>) -> bool {
    (c.prepare_requested || (c.storage_lifecycle.maintenance matches Some(op) && !op.paused
        && op.error is None)) && !c.stop_requested && c.storage_layout == layout
}

/// Whether the preparation of the VM may go on.
pub fn check_preparation(config: &Configuration, layout: &Option<Layout>) -> (r: Result<
    (),
    Failure,
>)
    ensures
        refusal(r) == unless(
            preparation_goes_on(config@, content(*layout)),
            "VM preparation canceled by owner"@,
        ),
{
    let maintained = match &config.storage_lifecycle.maintenance {
        Some(op) => !op.paused && op.error.is_none(),
        None => false,
    };
    if (config.prepare_requested || maintained) && !config.stop_requested && options_alike(
        &config.storage_layout,
        layout,
    ) {
        Ok(())
    } else {
        Err(fail("VM preparation canceled by owner"))
    }
}

/// Let missing storage be rebuilt on what remains, or not.
pub fn set_storage_recovery(config: &mut Configuration, enabled: bool)
    ensures
        final(config)@ == (ConfigurationView {
            storage_lifecycle: LifecycleView {
                recovery_enabled: enabled,
                ..old(config)@.storage_lifecycle
            },
            ..old(config)@
        }),
{
    config.storage_lifecycle.recovery_enabled = enabled;
}

/// The settings with a stopped storage change going on, or why there is none.
pub open spec fn retried(c: ConfigurationView) -> Result<ConfigurationView, Seq<char>> {
    if c.storage_revision == u64::MAX {
        Err("Storage revision overflow"@)
    } else {
        let next = ConfigurationView { storage_revision: (c.storage_revision + 1) as u64, ..c };
        match c.storage_operation {
            Some(op) => Ok(
                ConfigurationView {
                    storage_operation: Some(OperationView { paused: false, ..op }),
                    ..next
                },
            ),
            None => {
                let missing = match c.storage_lifecycle.missing {
                    Some(m) => Some(MissingView { error: None, last_check: 0, ..m }),
                    None => None,
                };
                match c.storage_lifecycle.maintenance {
                    None => if missing is Some {
                        Ok(
                            ConfigurationView {
                                storage_lifecycle: LifecycleView {
                                    missing,
                                    ..c.storage_lifecycle
                                },
                                ..next
                            },
                        )
                    } else {
                        Err("No storage operation needs a retry"@)
                    },
                    Some(op) => Ok(
                        ConfigurationView {
                            storage_lifecycle: LifecycleView {
                                missing,
                                maintenance: Some(
                                    MaintenanceView { error: None, paused: false, ..op },
                                ),
                                ..c.storage_lifecycle
                            },
                            ..next
                        },
                    ),
                }
            },
        }
    }
}

fn look_again(missing: &Option<Missing>) -> (r: Option<Missing>)
    ensures
        content(r) == (match content(*missing) {
            Some(m) => Some(MissingView { error: None, last_check: 0, ..m }),
            None => None,
        }),
{
    match missing {
        Some(m) => Some(
            Missing {
                since: m.since,
                last_check: 0,
                locations: copy_list(m.locations.as_slice()),
                error: None,
            },
        ),
        None => None,
    }
}

/// Let a stopped storage change go on.
pub fn retry_storage_maintenance(config: &mut Configuration) -> (r: Result<(), Failure>)
    ensures
        match retried(old(config)@) {
            Ok(next) => r is Ok && final(config)@ == next,
            Err(message) => refusal(r) == Some(message) && final(config)@ == old(config)@,
        },
{
    if config.storage_revision == u64::MAX {
        return Err(fail("Storage revision overflow"));
    }
    let operation = match &config.storage_operation {
        Some(op) => Some(op.with_pause(false)),
        None => None,
    };
    if operation.is_some() {
        config.storage_operation = operation;
        config.storage_revision = config.storage_revision + 1;
        return Ok(());
    }
    let missing = look_again(&config.storage_lifecycle.missing);
    let maintenance = match &config.storage_lifecycle.maintenance {
        Some(op) => {
            let resumed = op.with_pause(false);
            Some(resumed.with_error(None))
        },
        None => None,
    };
    if missing.is_none() && maintenance.is_none() {
        return Err(fail("No storage operation needs a retry"));
    }
    config.storage_lifecycle.missing = missing;
    config.storage_lifecycle.maintenance = maintenance;
    config.storage_revision = config.storage_revision + 1;
    Ok(())
}

/// The review of an automatic rebuild.
pub open spec fn recovery_review() -> ReviewView {
    ReviewView {
        kind: Kind::FailureRecovery,
        backup: None,
        minimum_gib: 15,
        temporary_bytes: 0,
        deletions: seq!["All local data from the entire previous pool"@],
        downtime: "Rebuilding on remaining selected disks; workloads follow their Kubernetes retry policies"@,
    }
}

/// The plan of an automatic rebuild on the disks that remain.
pub open spec fn recovery_plan(
    c: ConfigurationView,
    remaining: Seq<LocationView>,
    total: u64,
) -> ChangePlanView {
    ChangePlanView {
        maintenance: Some(recovery_review()),
        layout: None,
        revision: c.storage_revision,
        locations: remaining,
        total_gib: total,
        requires_restart: true,
    }
}

fn rebuild_plan(config: &Configuration, remaining: &[Location], total: u64) -> (r: (
    ChangePlan,
    Review,
))
    ensures
        r.0@ == recovery_plan(config@, location_views(remaining@), total),
        r.1@ == recovery_review(),
{
    let mut deletions: Vec<String> = Vec::new();
    deletions.push("All local data from the entire previous pool".to_owned());
    let review = Review {
        kind: Kind::FailureRecovery,
        backup: None,
        minimum_gib: 15,
        temporary_bytes: 0,
        deletions,
        downtime: "Rebuilding on remaining selected disks; workloads follow their Kubernetes retry policies".to_owned(),
    };
    assert(review@ =~= recovery_review());
    let plan = ChangePlan {
        maintenance: Some(review.duplicate()),
        layout: None,
        revision: config.storage_revision,
        locations: copy_list(remaining),
        total_gib: total,
        requires_restart: true,
    };
    (plan, review)
}

/// The settings with an automatic rebuild begun.
pub open spec fn recovering(
    c: ConfigurationView,
    remaining: Seq<LocationView>,
    total: u64,
    request: u128,
    pool: u128,
    fresh: Seq<u128>,
) -> ConfigurationView {
    ConfigurationView {
        storage_lifecycle: LifecycleView {
            maintenance: Some(
                MaintenanceView {
                    phase: Phase::Reset,
                    ..maintenance_for(
                        c,
                        recovery_plan(c, remaining, total),
                        recovery_review(),
                        request,
                        pool,
                        fresh,
                    )
                },
            ),
            ..c.storage_lifecycle
        },
        storage_revision: (c.storage_revision + 1) as u64,
        ..c
    }
}

/// Begin an automatic rebuild on the disks that remain, with its new identities.
pub fn begin_recovery(
    config: &mut Configuration,
    remaining: &[Location],
    total: u64,
    request: u128,
    pool: u128,
    fresh: &[u128],
) -> (r: Result<(), Failure>)
    requires
        old(config).storage_revision < u64::MAX,
        old(config).storage_generation < u64::MAX,
        fresh@.len() == remaining@.len(),
    ensures
        if old(config)@.policy.enabled && old(config)@.storage_lifecycle.recovery_enabled {
            r is Ok && final(config)@ == recovering(
                old(config)@,
                location_views(remaining@),
                total,
                request,
                pool,
                fresh@,
            )
        } else {
            refusal(r) == Some("Owner paused automatic recovery"@) && final(config)@
                == old(config)@
        },
{
    if !(config.policy.enabled && config.storage_lifecycle.recovery_enabled) {
        return Err(fail("Owner paused automatic recovery"));
    }
    let (plan, review) = rebuild_plan(config, remaining, total);
    assert(plan.locations@.len() == location_views(plan.locations@).len());
    let op = new_maintenance(config, &plan, &review, request, pool, fresh);
    let op = op.with_phase(Phase::Reset);
    config.storage_lifecycle.maintenance = Some(op);
    config.storage_revision = config.storage_revision + 1;
    Ok(())
}

/// Begin an automatic rebuild with identities drawn for it.
pub fn rebuild(config: &mut Configuration, remaining: &[Location], total: u64) -> (r: Result<
    (),
    Failure,
>)
    requires
        old(config).storage_revision < u64::MAX,
        old(config).storage_generation < u64::MAX,
    ensures
        if old(config)@.policy.enabled && old(config)@.storage_lifecycle.recovery_enabled {
            r is Ok && exists|request: u128, pool: u128, fresh: Seq<u128>|
                identity::is_random(request) && identity::is_random(pool) && identity::are_random(
                    fresh,
                ) && fresh.len() == remaining@.len() && final(config)@ == #[trigger] recovering(
                    old(config)@,
                    location_views(remaining@),
                    total,
                    request,
                    pool,
                    fresh,
                )
        } else {
            refusal(r) == Some("Owner paused automatic recovery"@) && final(config)@
                == old(config)@
        },
{
    let request = identity::random_uuid();
    let pool = identity::random_uuid();
    let fresh = identity::random_uuids(remaining.len());
    begin_recovery(config, remaining, total, request, pool, fresh.as_slice())
}

/// An automatic rebuild is not the owner's deletion: the sharing rules and the
/// active disks stay as they were, and there is no backup.
pub proof fn rebuilding_keeps_the_rules(
    c: ConfigurationView,
    remaining: Seq<LocationView>,
    total: u64,
    request: u128,
    pool: u128,
    fresh: Seq<u128>,
)
    ensures
        recovering(c, remaining, total, request, pool, fresh).policy == c.policy,
        recovering(c, remaining, total, request, pool, fresh).storage_locations
            == c.storage_locations,
        recovering(c, remaining, total, request, pool, fresh).storage_lifecycle.maintenance->0.backup
            is None,
{
}

} // verus!
