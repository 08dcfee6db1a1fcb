//! What a review of a storage change finds: which kind of change a request is, what it
//! needs, and where its backup goes.
use crate::agent::review::{
    backup_folders, data_need, growth_plan, growth_refusal, growth_within, has_room, is_return,
    layout_check, layout_selections, opened, prepared_layout, replaced_disks, restored,
    reviewed_replacement, shared_bytes, single_refusal, space_refusal, with_layout, BackupInput,
    OpenedView, WorkerFacts,
};
use crate::json::{at, number_of, JsonView};
use crate::lima::VmProvider;
use crate::storage::{
    has_id, is_available, lemma_rank, places_disks, rank, total_gib, volume_index, ChangePlanView,
    HostPath, LocationView, Mounts, SelectionView, VolumeView,
};
use crate::storage_layout::{next_layout, owner_locations, transformed, LayoutView};
use crate::storage_lifecycle::{ceil_gib, Kind, ReplacementSpace, ReviewOptionsView};
use crate::storage_plan::credited_bytes;
use crate::store::ConfigurationView;
use vstd::prelude::*;

verus! {

/// Nothing is reviewed while the worker is being changed. All storage is deleted only where
/// the request asks for it and for nothing else, and the last disk only so.
pub proof fn requests_are_reviewed_one_at_a_time(
    c: ConfigurationView,
    selections: Seq<SelectionView>,
    options: ReviewOptionsView,
    receipt: bool,
    leftovers: bool,
    resolved: Option<HostPath>,
    volumes: Seq<VolumeView>,
    mounts: Mounts,
)
    ensures
        ({
            let r = opened(c, selections, options, receipt, leftovers, resolved, volumes, mounts);
            &&& c.storage_lifecycle.maintenance is Some || c.storage_operation is Some
                || c.recreation is Some || c.application_update_pending ==> r is Err
            &&& r matches Ok(OpenedView::Deletion(_)) ==> options.delete_all
            &&& options.delete_all && r is Ok ==> selections.len() == 0
                && options.single_disk_gib is None && r->Ok_0 is Deletion
            &&& !options.delete_all && c.storage_locations.len() > 0 && selections.len() == 0
                && options.restore_disk is None ==> r is Err
        }),
{
}

/// The deletion of all storage leaves no disk and needs no backup; it restarts a worker
/// where anything of one is left.
pub proof fn deletions_leave_nothing(
    c: ConfigurationView,
    selections: Seq<SelectionView>,
    options: ReviewOptionsView,
    receipt: bool,
    leftovers: bool,
    resolved: Option<HostPath>,
    volumes: Seq<VolumeView>,
    mounts: Mounts,
)
    ensures
        opened(c, selections, options, receipt, leftovers, resolved, volumes, mounts) matches Ok(
            OpenedView::Deletion(plan),
        ) ==> {
            &&& plan.locations.len() == 0
            &&& plan.total_gib == 0
            &&& plan.layout is None
            &&& plan.revision == c.storage_revision
            &&& plan.maintenance matches Some(review) && review.kind == Kind::DeleteAll
                && review.backup is None && review.minimum_gib == 0 && review.temporary_bytes == 0
            &&& plan.requires_restart <==> c.vm_created || receipt || leftovers
                || c.storage_lifecycle.retired.len() != 0 || c.storage_retained.len() != 0
        },
{
}

/// A request replaces the disks where one of them would shrink or go, where the worker has
/// one disk, and where an excluded disk or folder returns; every other one grows them.
pub proof fn shrinking_replaces_the_disks(
    c: ConfigurationView,
    selections: Seq<SelectionView>,
    options: ReviewOptionsView,
    receipt: bool,
    leftovers: bool,
    resolved: Option<HostPath>,
    volumes: Seq<VolumeView>,
    mounts: Mounts,
    k: int,
)
    requires
        0 <= k < c.storage_locations.len(),
    ensures
        ({
            let r = opened(c, selections, options, receipt, leftovers, resolved, volumes, mounts);
            &&& r is Ok && !(r->Ok_0 is Deletion) && options.restore_disk is None ==> (r->Ok_0
                matches OpenedView::Growth(s) ==> s == selections) && (r->Ok_0
                matches OpenedView::Replacement(s) ==> s == selections)
            &&& r matches Ok(OpenedView::Growth(s)) ==> options.single_disk_gib is None
                && options.restore_disk is None && exists|i: int|
                0 <= i < s.len() && (#[trigger] s[i]).id == Some(c.storage_locations[k].id)
                    && s[i].allocation_gib >= c.storage_locations[k].allocation_gib
            &&& r matches Ok(OpenedView::Replacement(s)) ==> (options.single_disk_gib is None
                && options.restore_disk is None && !is_return(c, s) ==> exists|j: int|
                0 <= j < c.storage_locations.len() && forall|i: int|
                    0 <= i < s.len() ==> !((#[trigger] s[i]).id == Some(
                        (#[trigger] c.storage_locations[j]).id,
                    ) && s[i].allocation_gib >= c.storage_locations[j].allocation_gib))
        }),
{
    let r = opened(c, selections, options, receipt, leftovers, resolved, volumes, mounts);
    if r is Ok && r->Ok_0 is Growth {
        crate::agent::review::growth_keeps_every_disk(
            c,
            selections,
            options,
            receipt,
            leftovers,
            resolved,
            volumes,
            mounts,
        );
        assert(crate::agent::review::keeps_size(
            r->Ok_0->Growth_0,
            c.storage_locations[k],
        ));
    }
    if r is Ok && r->Ok_0 is Replacement && options.single_disk_gib is None
        && options.restore_disk is None && !is_return(c, r->Ok_0->Replacement_0) {
        let s = r->Ok_0->Replacement_0;
        assert(crate::agent::review::is_reduction(c.storage_locations, s));
        let j = choose|j: int|
            0 <= j < c.storage_locations.len() && !crate::agent::review::keeps_size(
                s,
                #[trigger] c.storage_locations[j],
            );
        assert(!crate::agent::review::keeps_size(s, c.storage_locations[j]));
        assert(forall|i: int|
            0 <= i < s.len() ==> !((#[trigger] s[i]).id == Some(c.storage_locations[j].id)
                && s[i].allocation_gib >= c.storage_locations[j].allocation_gib));
    }
}

/// An excluded disk returns as a new one at its old place and of its old size, beside the
/// worker's disks as they are, and only where its original volume is there and its folder
/// holds no disk now.
pub proof fn excluded_disks_return_as_new_ones(
    c: ConfigurationView,
    selections: Seq<SelectionView>,
    id: Seq<char>,
    resolved: Option<HostPath>,
    volumes: Seq<VolumeView>,
    mounts: Mounts,
)
    ensures
        restored(c, selections, None, resolved, volumes, mounts) == Ok::<
            Seq<SelectionView>,
            Seq<char>,
        >(selections),
        restored(c, selections, Some(id), resolved, volumes, mounts) matches Ok(s) ==> {
            let n = c.storage_locations.len();
            &&& s.len() == n + 1
            &&& forall|i: int|
                0 <= i < n ==> (#[trigger] s[i]).id == Some(c.storage_locations[i].id)
                    && s[i].directory == c.storage_locations[i].directory && s[i].allocation_gib
                    == c.storage_locations[i].allocation_gib
            &&& s[n as int].id is None
            &&& forall|i: int|
                0 <= i < n ==> (#[trigger] c.storage_locations[i]).directory
                    != s[n as int].directory
            &&& exists|k: int|
                0 <= k < c.storage_lifecycle.configured_locations.len() && (
                #[trigger] c.storage_lifecycle.configured_locations[k]).id == id
                    && c.storage_lifecycle.configured_locations[k].directory
                    == s[n as int].directory
                    && c.storage_lifecycle.configured_locations[k].allocation_gib
                    == s[n as int].allocation_gib && is_available(
                    c.storage_lifecycle.configured_locations[k],
                    resolved,
                    volumes,
                    mounts,
                )
        },
{
    let configured = c.storage_lifecycle.configured_locations;
    if restored(c, selections, Some(id), resolved, volumes, mounts) is Ok {
        lemma_rank(configured, id, 0);
        let s = restored(c, selections, Some(id), resolved, volumes, mounts)->Ok_0;
        let k = rank(configured, id);
        assert(has_id(configured, id));
        let w = choose|w: int| 0 <= w < configured.len() && (#[trigger] configured[w]).id == id;
        assert(0 <= k < configured.len());
        assert(configured[k].id == id);
        let n = c.storage_locations.len() as int;
        assert(s[n].directory == configured[k].directory);
        assert forall|i: int| 0 <= i < n implies (#[trigger] c.storage_locations[i]).directory
            != s[n].directory by {
            assert(!crate::agent::review::uses_directory(
                c.storage_locations,
                configured[k].directory,
            ));
        }
    }
}

/// A folder returns where the owner once chose it and the worker has no disk in it now.
pub proof fn excluded_folders_are_recognized(c: ConfigurationView, selections: Seq<SelectionView>)
    ensures
        is_return(c, selections) <==> exists|i: int|
            0 <= i < selections.len() && (exists|k: int|
                0 <= k < c.storage_lifecycle.configured_locations.len() && (
                #[trigger] c.storage_lifecycle.configured_locations[k]).directory == (
                #[trigger] selections[i]).directory) && forall|k: int|
                0 <= k < c.storage_locations.len() ==> (
                #[trigger] c.storage_locations[k]).directory != selections[i].directory,
{
    if is_return(c, selections) {
        let i = choose|i: int|
            0 <= i < selections.len() && crate::agent::review::uses_directory(
                c.storage_lifecycle.configured_locations,
                (#[trigger] selections[i]).directory,
            ) && !crate::agent::review::uses_directory(
                c.storage_locations,
                selections[i].directory,
            );
        let k = choose|k: int|
            0 <= k < c.storage_lifecycle.configured_locations.len() && (
            #[trigger] c.storage_lifecycle.configured_locations[k]).directory
                == selections[i].directory;
        assert(c.storage_lifecycle.configured_locations[k].directory == selections[i].directory);
    }
}

/// A worker with one disk takes no folders, and between 15 and 1048576 GiB.
pub proof fn single_disks_have_a_size(selections: Seq<SelectionView>, size: Option<u64>)
    ensures
        single_refusal(selections, size) is None <==> selections.len() == 0 && (size matches Some(
            gib,
        ) && 15 <= gib <= 1_048_576),
{
}

/// A smaller worker holds its data with a quarter more, and 15 GiB at least; the backup is
/// given a GiB beyond what was measured.
pub proof fn needs_are_measured(total: u64, multipass: bool, usage: JsonView)
    ensures
        data_need(total, multipass, usage) matches Ok(need) ==> {
            let data = number_of(at(usage, "dataBytes"@))->0;
            let backup = number_of(at(usage, "backupBytes"@))->0;
            &&& number_of(at(usage, "dataBytes"@)) is Some
            &&& number_of(at(usage, "backupBytes"@)) is Some
            &&& 15 <= need.0 <= total
            &&& need.1 == backup + 1_073_741_824
            &&& !multipass ==> need.0 * 1_073_741_824 * 4 >= data * 5
            &&& multipass ==> (need.0 - 8) * 1_073_741_824 * 4 >= data * 5
            &&& need.0 > 15 && !multipass ==> (need.0 - 1) * 1_073_741_824 * 4 < data * 5 + 4
            &&& need.0 > 15 && multipass ==> (need.0 - 9) * 1_073_741_824 * 4 < data * 5 + 4
        },
{
}

/// A replacement fits beside what its own backup takes on the same storage pool; what the
/// old disk gives back counts, and 10 GiB stay for the host.
pub proof fn replacements_fit_their_volume(
    space: ReplacementSpace,
    total: u64,
    backup: Option<(Seq<char>, u64)>,
    volumes: Seq<VolumeView>,
    mounts: Mounts,
)
    requires
        total <= 1_048_576,
        volume_index(space.directory, volumes, mounts) matches Some(i) ==> 0 <= i < volumes.len(),
    ensures
        volume_index(space.directory, volumes, mounts) is None ==> space_refusal(
            space,
            total,
            backup,
            volumes,
            mounts,
        ) is Some,
        volume_index(space.directory, volumes, mounts) matches Some(i) ==> {
            let held = if backup is Some && (backup->0).0 == volumes[i].capacity_pool {
                (backup->0).1 as int
            } else {
                0int
            };
            let free = volumes[i].available_gib * 1_073_741_824;
            let given = (space.reclaimed_bytes / 1_073_741_824) * 1_073_741_824;
            let taken = if total * 1_073_741_824 < given {
                0
            } else {
                total * 1_073_741_824 - given
            };
            space_refusal(space, total, backup, volumes, mounts) is None <==> volumes[i].id.len()
                > 0 && free >= taken + held + 10 * 1_073_741_824
        },
{
    if volume_index(space.directory, volumes, mounts) is Some {
        let i = volume_index(space.directory, volumes, mounts)->0;
        let volume = volumes[i];
        let held = shared_bytes(backup, volume.capacity_pool);
        let ceil = ceil_gib(held as int);
        assert(ceil * 1_073_741_824 >= held && (ceil - 1) * 1_073_741_824 < held);
        assert(ceil <= 17_179_869_184);
    }
}

proof fn lemma_growth_first(
    a: Seq<LocationView>,
    b: Seq<LocationView>,
    credits: Seq<(String, u64)>,
    volumes: Seq<VolumeView>,
    pool: Seq<char>,
    n: int,
)
    requires
        0 <= n <= a.len(),
        n <= b.len(),
        forall|i: int| 0 <= i < n ==> #[trigger] a[i] == b[i],
    ensures
        growth_within(a, credits, volumes, pool, n) == growth_within(b, credits, volumes, pool, n),
    decreases n,
{
    if n > 0 {
        assert(a[n - 1] == b[n - 1]);
        lemma_growth_first(a, b, credits, volumes, pool, n - 1);
    }
}

/// The growth on a pool is that of its disks, each beyond what it holds already; disks of
/// other pools and disks that hold enough take nothing, and disks add up.
pub proof fn growth_on_a_pool_adds_up(
    disks: Seq<LocationView>,
    l: LocationView,
    credits: Seq<(String, u64)>,
    volumes: Seq<VolumeView>,
    pool: Seq<char>,
)
    ensures
        growth_within(Seq::empty(), credits, volumes, pool, 0) == 0,
        ({
            let before = growth_within(disks, credits, volumes, pool, disks.len() as int);
            let after = growth_within(
                disks.push(l),
                credits,
                volumes,
                pool,
                disks.len() as int + 1,
            );
            let held = credited_bytes(credits, l.id, 0) / 1_073_741_824;
            let here = exists|i: int|
                0 <= i < volumes.len() && (#[trigger] volumes[i]).id == l.volume_id
                    && volumes[i].capacity_pool == pool;
            &&& !here ==> after == before
            &&& l.allocation_gib <= held ==> after == before
            &&& here && l.allocation_gib > held ==> after == before + l.allocation_gib - held
        }),
{
    lemma_growth_first(
        disks,
        disks.push(l),
        credits,
        volumes,
        pool,
        disks.len() as int,
    );
}

/// A backup has room where its volume keeps 10 GiB beyond the backup and beyond what the new
/// disks grow there, and where the replacement still fits beside it.
pub proof fn backups_leave_room(input: BackupInput, volume: VolumeView)
    requires
        growth_within(
            input.target,
            input.credits,
            input.volumes,
            volume.capacity_pool,
            input.target.len() as int,
        ) <= 1_099_511_627_776,
    ensures
        has_room(input, volume) ==> volume.available_gib * 1_073_741_824 >= input.bytes + (10
            + growth_within(
            input.target,
            input.credits,
            input.volumes,
            volume.capacity_pool,
            input.target.len() as int,
        )) * 1_073_741_824,
        has_room(input, volume) && input.replacement is Some ==> space_refusal(
            (input.replacement->0).0,
            (input.replacement->0).1,
            Some((volume.capacity_pool, input.bytes)),
            input.volumes,
            input.mounts,
        ) is None,
        input.replacement is None && volume.available_gib * 1_073_741_824 >= input.bytes + (10
            + growth_within(
            input.target,
            input.credits,
            input.volumes,
            volume.capacity_pool,
            input.target.len() as int,
        )) * 1_073_741_824 ==> has_room(input, volume),
{
    let ceil = ceil_gib(input.bytes as int);
    assert(ceil * 1_073_741_824 >= input.bytes && (ceil - 1) * 1_073_741_824 < input.bytes);
    assert(0 <= ceil <= 17_179_869_184);
}

/// The folders that a backup is tried in: the one that was asked for, else the folders of
/// the worker's disks in order, else that of the settings. It stays off every disk that is
/// replaced: those in use, the retired and the retained ones.
pub proof fn backups_are_tried_where_the_disks_are(
    c: ConfigurationView,
    settings: Seq<char>,
    requested: Option<Seq<char>>,
    l: LocationView,
)
    ensures
        ({
            let f = backup_folders(c, settings, requested);
            let n = c.storage_locations.len();
            &&& requested matches Some(path) ==> f.len() == 1 && f[0] == path
            &&& requested is None && n == 0 ==> f.len() == 1 && f[0] == settings
            &&& requested is None && n > 0 ==> f.len() == n && forall|i: int|
                0 <= i < n ==> #[trigger] f[i] == c.storage_locations[i].directory
        }),
        replaced_disks(c).contains(l) <==> c.storage_locations.contains(l)
            || c.storage_lifecycle.retired.contains(l) || c.storage_retained.contains(l),
{
    let all = replaced_disks(c);
    let n = c.storage_locations.len() as int;
    let m = c.storage_lifecycle.retired.len() as int;
    if c.storage_locations.contains(l) {
        let i = choose|i: int| 0 <= i < n && c.storage_locations[i] == l;
        assert(all[i] == l);
    }
    if c.storage_lifecycle.retired.contains(l) {
        let i = choose|i: int| 0 <= i < m && c.storage_lifecycle.retired[i] == l;
        assert(all[n + i] == l);
    }
    if c.storage_retained.contains(l) {
        let i = choose|i: int| 0 <= i < c.storage_retained.len() && c.storage_retained[i] == l;
        assert(all[n + m + i] == l);
    }
    if all.contains(l) {
        let i = choose|i: int| 0 <= i < all.len() && all[i] == l;
        if i < n {
            assert(c.storage_locations[i] == l);
        } else if i < n + m {
            assert(c.storage_lifecycle.retired[i - n] == l);
        } else {
            assert(c.storage_retained[i - n - m] == l);
        }
    }
}

/// A reviewed replacement is for the planned disks and the settings that were seen; a worker
/// must answer and its data be measured, and without a worker nothing is backed up.
pub proof fn replacements_say_what_they_need(
    c: ConfigurationView,
    receipt: bool,
    worker: WorkerFacts,
    total: u64,
    requested: Option<Seq<char>>,
    input: BackupInput,
)
    ensures
        (c.vm_created || receipt) && !(receipt && worker.reachable) ==> reviewed_replacement(
            c,
            receipt,
            worker,
            total,
            requested,
            input,
        ) is Err,
        !c.vm_created && !receipt ==> reviewed_replacement(
            c,
            receipt,
            worker,
            total,
            requested,
            input,
        ) is Ok,
        reviewed_replacement(c, receipt, worker, total, requested, input) matches Ok(plan) ==> {
            let review = plan.maintenance->0;
            &&& plan.locations == input.target
            &&& plan.revision == c.storage_revision
            &&& plan.layout is None
            &&& plan.maintenance is Some
            &&& !plan.requires_restart ==> review.minimum_gib == 15 && review.temporary_bytes == 0
                && review.backup is None
            &&& plan.requires_restart ==> data_need(
                total,
                c.vm_provider == VmProvider::Multipass,
                worker.usage@,
            ) == Ok::<(u64, u64), Seq<char>>((review.minimum_gib, review.temporary_bytes))
        },
{
}

/// Disks grow only with a provider that places them, while no storage change is under way;
/// the plan is for the settings that were seen, shares what its disks hold together and
/// restarts a worker that there is.
pub proof fn growth_is_planned_for_what_was_seen(
    c: ConfigurationView,
    platform: Seq<char>,
    default_directory: Option<Seq<char>>,
    receipt: bool,
    locations: Seq<LocationView>,
)
    requires
        total_gib(locations) <= u64::MAX,
    ensures
        growth_refusal(c, platform, default_directory) is None <==> places_disks(
            c.vm_provider,
            platform,
        ) && c.storage_operation is None && c.storage_lifecycle.maintenance is None
            && default_directory is Some,
        ({
            let plan = growth_plan(c, receipt, locations);
            &&& plan.maintenance is None
            &&& plan.revision == c.storage_revision
            &&& plan.locations == locations
            &&& plan.total_gib == total_gib(locations)
            &&& plan.requires_restart <==> c.vm_created || receipt
        }),
{
}

/// A request over total sizes is taken as it is; a returning disk joins the owner's disks at
/// their total sizes as a new one, and the last disk does not go this way.
pub proof fn total_requests_keep_the_disks(
    c: ConfigurationView,
    selections: Seq<SelectionView>,
    restore: Option<Seq<char>>,
)
    ensures
        layout_selections(c, selections, restore) is Ok ==> c.storage_operation is None
            && c.storage_lifecycle.maintenance is None,
        restore is None && c.storage_operation is None && c.storage_lifecycle.maintenance is None
            ==> (layout_selections(c, selections, restore) is Ok <==> c.storage_locations.len() == 0
            || selections.len() > 0),
        restore is None ==> (layout_selections(c, selections, restore) matches Ok(s) ==> s
            == selections),
        restore matches Some(id) ==> (layout_selections(c, selections, restore) matches Ok(s) ==> {
            let total = owner_locations(c)->Ok_0;
            &&& owner_locations(c) is Ok
            &&& s.len() == total.len() + 1
            &&& forall|i: int|
                0 <= i < total.len() ==> (#[trigger] s[i]).id == Some(total[i].id)
                    && s[i].directory == total[i].directory && s[i].allocation_gib
                    == total[i].allocation_gib
            &&& s[total.len() as int].id is None
            &&& exists|k: int|
                0 <= k < c.storage_lifecycle.configured_locations.len() && (
                #[trigger] c.storage_lifecycle.configured_locations[k]).id == id
                    && c.storage_lifecycle.configured_locations[k].directory
                    == s[total.len() as int].directory
                    && c.storage_lifecycle.configured_locations[k].allocation_gib
                    == s[total.len() as int].allocation_gib
        }),
{
    let configured = c.storage_lifecycle.configured_locations;
    if restore is Some && layout_selections(c, selections, restore) is Ok {
        lemma_rank(configured, restore->0, 0);
        assert(has_id(configured, restore->0));
        let w = choose|w: int|
            0 <= w < configured.len() && (#[trigger] configured[w]).id == restore->0;
        let k = rank(configured, restore->0);
        assert(0 <= k < configured.len() && configured[k].id == restore->0);
    }
}

/// A plan with its layout shows total sizes and needs the operating system's part too; it is
/// taken only while that layout is still the one the settings lead to.
pub proof fn layouts_are_part_of_the_plan(
    c: ConfigurationView,
    plan: ChangePlanView,
    platform: Seq<char>,
    layout: LayoutView,
    total: Seq<LocationView>,
)
    requires
        total_gib(total) <= u64::MAX,
        plan.maintenance matches Some(review) ==> review.minimum_gib + layout.system_gib
            <= u64::MAX,
    ensures
        ({
            let p = with_layout(plan, layout, total);
            &&& p.layout == Some(layout)
            &&& p.locations == total
            &&& p.total_gib == total_gib(total)
            &&& p.revision == plan.revision
            &&& p.requires_restart == plan.requires_restart
            &&& p.maintenance is Some <==> plan.maintenance is Some
            &&& plan.maintenance matches Some(review) ==> p.maintenance->0.minimum_gib
                == review.minimum_gib + layout.system_gib && p.maintenance->0.kind == review.kind
                && p.maintenance->0.backup == review.backup && p.maintenance->0.temporary_bytes
                == review.temporary_bytes
        }),
        layout_check(c, plan, platform) matches Ok(found) ==> plan.layout == Some(found)
            && next_layout(c, plan.locations) == Ok::<LayoutView, Seq<char>>(found),
        prepared_layout(c, platform, total) matches Ok(made) ==> next_layout(c, total) == Ok::<
            LayoutView,
            Seq<char>,
        >(made.0) && transformed(made.0, total, false) == Ok::<Seq<LocationView>, Seq<char>>(
            made.1,
        ),
{
}

} // verus!
