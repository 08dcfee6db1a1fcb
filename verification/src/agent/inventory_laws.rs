//! What the owner is shown of the worker's storage, and when the worker's disks pass for
//! those that were configured.
use crate::agent::inventory::{
    active_capacity, all_available, boot_directory, boot_growth, carried_credits,
    configured_capacity, discovered, excluded_locations, known_locations, moved_to, pending_target,
    pending_update, pool_refusal, replacement_pool_refusal, replanned, storage_refusal,
    storage_shown, system_directory, usable_gib, with_system, SnapshotFacts,
};
use crate::json::{at, flag_of, list_of, number_of, text_of, JsonView};
use crate::lima::VmProvider;
use crate::storage::{
    found_volume_exists, has_id, lemma_rank, places_disks, rank, statuses_of, total_gib,
    volume_index, volume_with_id, HostPath, InventoryView, LocationStatusView, LocationView, Mounts,
    VolumeView,
};
use crate::storage_layout::{owner_locations, system_gib_of, transformed};
use crate::storage_plan::{credited_bytes, PlanInput, Sighting};
use crate::store::ConfigurationView;
use vstd::prelude::*;

verus! {

/// The pool in a guest passes for the configured one exactly where it is this device's pool
/// in its generation, wholly moved, with every configured disk in its size and no other, and
/// its capacity is the disks' together, less at most 15 in a hundred.
pub proof fn pools_pass_for_what_was_configured(
    device: Seq<char>,
    pool: Seq<char>,
    generation: u64,
    locations: Seq<LocationView>,
    state: JsonView,
)
    requires
        total_gib(locations) <= 1_048_576,
        forall|i: int|
            0 <= i < locations.len() ==> (#[trigger] locations[i]).allocation_gib <= 1_048_576,
    ensures
        pool_refusal(device, pool, generation, locations, state) is None <==> {
            &&& text_of(at(state, "deviceId"@)) == Some(device)
            &&& text_of(at(state, "poolId"@)) == Some(pool)
            &&& number_of(at(state, "generation"@)) == Some(generation)
            &&& flag_of(at(state, "migrationComplete"@)) == Some(true)
            &&& list_of(at(state, "disks"@)) matches Some(disks) && disks.len() == locations.len()
                && forall|k: int|
                0 <= k < locations.len() ==> exists|i: int|
                    0 <= i < disks.len() && text_of(at(#[trigger] disks[i], "id"@)) == Some(
                        (#[trigger] locations[k]).id,
                    ) && number_of(at(disks[i], "allocationBytes"@)) == Some(
                        (locations[k].allocation_gib * 1_073_741_824) as u64,
                    )
            &&& number_of(at(state, "capacityBytes"@)) matches Some(capacity) && capacity
                <= total_gib(locations) * 1_073_741_824 && capacity * 100 + 99 >= total_gib(
                locations,
            ) * 1_073_741_824 * 85
        },
        replacement_pool_refusal(device, pool, generation, locations, state) is None
            <==> pool_refusal(device, pool, generation, locations, state) is None,
{
    let disks = list_of(at(state, "disks"@))->0;
    if list_of(at(state, "disks"@)) is Some {
        assert forall|k: int|
            0 <= k < locations.len() implies crate::agent::inventory::reports_disk(
            disks,
            #[trigger] locations[k],
        ) == (exists|i: int|
            0 <= i < disks.len() && text_of(at(#[trigger] disks[i], "id"@)) == Some(
                locations[k].id,
            ) && number_of(at(disks[i], "allocationBytes"@)) == Some(
                (locations[k].allocation_gib * 1_073_741_824) as u64,
            )) by {}
    }
}

/// The operating system stands where the layout puts it: in the folder of the disk that the
/// layout names, also of one that a pending change brings, else with the settings.
pub proof fn systems_stand_with_their_disk(c: ConfigurationView, settings: Seq<char>, k: int)
    ensures
        c.storage_layout is None ==> system_directory(c, settings) == settings && boot_directory(
            c,
            settings,
        ) == Ok::<Seq<char>, Seq<char>>(settings),
        c.storage_layout matches Some(layout) ==> {
            let id = layout.system_location_id;
            &&& !(exists|i: int|
                0 <= i < c.storage_locations.len() && (#[trigger] c.storage_locations[i]).id == id)
                ==> system_directory(c, settings) == settings
            &&& 0 <= k < c.storage_locations.len() && c.storage_locations[k].id == id && (forall|
                i: int,
            |
                0 <= i < k ==> (#[trigger] c.storage_locations[i]).id != id) ==> system_directory(
                c,
                settings,
            ) == c.storage_locations[k].directory && boot_directory(c, settings) == Ok::<
                Seq<char>,
                Seq<char>,
            >(c.storage_locations[k].directory)
            &&& boot_directory(c, settings) is Ok <==> has_id(known_locations(c), id)
        },
{
    if c.storage_layout is Some {
        let id = c.storage_layout->0.system_location_id;
        let s = c.storage_locations;
        let known = known_locations(c);
        lemma_rank(s, id, 0);
        lemma_rank(known, id, 0);
        if 0 <= k < s.len() && s[k].id == id && (forall|i: int|
            0 <= i < k ==> (#[trigger] s[i]).id != id) {
            assert(has_id(s, id));
            assert(rank(s, id) == k);
            assert(known[k] == s[k]);
            assert(has_id(known, id));
            if rank(known, id) < k {
                assert(known[rank(known, id)] == s[rank(known, id)]);
            }
            assert(rank(known, id) == k);
        }
    }
}

/// The disks that a pending change or maintenance brings are known beside those in use.
pub proof fn pending_disks_are_known(c: ConfigurationView, l: LocationView)
    ensures
        known_locations(c).contains(l) <==> c.storage_locations.contains(l) || (
        c.storage_operation matches Some(op) && op.target.contains(l)) || (
        c.storage_lifecycle.maintenance matches Some(op) && op.target.contains(l)),
{
    let all = known_locations(c);
    let a = c.storage_locations;
    let b = if c.storage_operation is Some {
        c.storage_operation->0.target
    } else {
        Seq::empty()
    };
    let d = if c.storage_lifecycle.maintenance is Some {
        c.storage_lifecycle.maintenance->0.target
    } else {
        Seq::empty()
    };
    assert(all == a + b + d);
    if a.contains(l) {
        let i = choose|i: int| 0 <= i < a.len() && a[i] == l;
        assert(all[i] == l);
    }
    if b.contains(l) {
        let i = choose|i: int| 0 <= i < b.len() && b[i] == l;
        assert(all[a.len() + i] == l);
    }
    if d.contains(l) {
        let i = choose|i: int| 0 <= i < d.len() && d[i] == l;
        assert(all[a.len() + b.len() + i] == l);
    }
    if all.contains(l) {
        let i = choose|i: int| 0 <= i < all.len() && all[i] == l;
        if i < a.len() {
            assert(a[i] == l);
        } else if i < a.len() + b.len() {
            assert(b[i - a.len()] == l);
        } else {
            assert(d[i - a.len() - b.len()] == l);
        }
    }
}

proof fn lemma_with_id(volumes: Seq<VolumeView>, id: Seq<char>, i: int, w: int)
    requires
        0 <= i <= w < volumes.len(),
        volumes[w].id == id,
    ensures
        volume_with_id(volumes, id, i) matches Some(k) && i <= k < volumes.len() && volumes[k].id
            == id,
    decreases volumes.len() - i,
{
    if volumes[i].id != id {
        lemma_with_id(volumes, id, i + 1, w);
    }
}

/// The operating system's part counts once, as configured space on the volume where it
/// stands; every other volume, and all else of that one, is shown as it was.
pub proof fn systems_count_on_their_volume(
    volumes: Seq<VolumeView>,
    place: Option<HostPath>,
    mounts: Mounts,
    gib: u64,
)
    ensures
        ({
            let r = with_system(volumes, place, mounts, gib);
            &&& r.len() == volumes.len()
            &&& place is None ==> r == volumes
            &&& place matches Some(path) ==> (volume_index(path, volumes, mounts) is None ==> r
                == volumes)
            &&& place matches Some(path) ==> (volume_index(path, volumes, mounts) matches Some(i)
                ==> exists|k: int|
                0 <= k < volumes.len() && (#[trigger] volumes[k]).id == volumes[i].id
                    && r[k].configured_gib == (if volumes[k].configured_gib + gib > u64::MAX {
                    u64::MAX as int
                } else {
                    volumes[k].configured_gib + gib
                }) && r[k] == (VolumeView { configured_gib: r[k].configured_gib, ..volumes[k] })
                    && forall|j: int|
                    0 <= j < volumes.len() && j != k ==> #[trigger] r[j] == volumes[j])
        }),
{
    if place is Some && volume_index(place->0, volumes, mounts) is Some {
        found_volume_exists(place->0, volumes, mounts);
        let i = volume_index(place->0, volumes, mounts)->0;
        lemma_with_id(volumes, volumes[i].id, 0, i);
        let k = volume_with_id(volumes, volumes[i].id, 0)->0;
        assert(volumes[k].id == volumes[i].id);
    }
}

/// What is discovered is the storage of the settings: each disk as it is seen, the layout,
/// and with Lima the operating system's disk; the rest is what the host says.
pub proof fn discovered_storage_is_that_of_the_settings(
    c: ConfigurationView,
    settings: Seq<char>,
    inventory: InventoryView,
    resolved: Seq<Option<HostPath>>,
    place: Option<HostPath>,
    mounts: Mounts,
)
    ensures
        ({
            let r = discovered(c, settings, inventory, resolved, place, mounts);
            &&& r == InventoryView {
                locations: r.locations,
                layout: c.storage_layout,
                system_disk: r.system_disk,
                volumes: r.volumes,
                ..inventory
            }
            &&& r.locations.len() == c.storage_locations.len()
            &&& forall|i: int|
                0 <= i < c.storage_locations.len() ==> (#[trigger] r.locations[i]).location
                    == c.storage_locations[i]
            &&& c.vm_provider != VmProvider::Lima ==> r.system_disk == inventory.system_disk
                && r.volumes == inventory.volumes
            &&& c.vm_provider == VmProvider::Lima ==> (r.system_disk matches Some(disk)
                && disk.allocation_gib == system_gib_of(c))
        }),
{
}

/// A configured disk is there where its folder resolves onto its own volume, and that volume
/// may be used.
pub proof fn disks_are_there_on_their_volume(
    locations: Seq<LocationView>,
    resolved: Seq<Option<HostPath>>,
    volumes: Seq<VolumeView>,
    mounts: Mounts,
    i: int,
)
    requires
        0 <= i < locations.len(),
    ensures
        ({
            let r = statuses_of(locations, resolved, volumes, mounts);
            &&& r.len() == locations.len()
            &&& r[i].location == locations[i]
            &&& i >= resolved.len() ==> !r[i].available
            &&& i < resolved.len() && resolved[i] is None ==> !r[i].available
            &&& i < resolved.len() ==> (resolved[i] matches Some(path) ==> (r[i].available <==> (
            volume_index(path, volumes, mounts) matches Some(k) && volumes[k].id
                == locations[i].volume_id && volumes[k].eligible)))
            &&& r[i].available <==> r[i].reason.len() == 0
        }),
{
    reveal_strlit("Storage volume or directory is unavailable or unsupported. Reconnect the original volume at its saved location; storage will not be redirected.");
}

/// What the operating system's disk may still grow: what it is given beyond what it takes
/// now, in whole GiB.
pub proof fn system_growth_is_what_is_left(c: ConfigurationView, allocated: u64)
    requires
        system_gib_of(c) <= 1_048_576,
    ensures
        boot_growth(c, allocated) matches Ok(gib) && (system_gib_of(c) * 1_073_741_824 <= allocated
            ==> gib == 0) && (system_gib_of(c) * 1_073_741_824 > allocated ==> gib * 1_073_741_824
            >= system_gib_of(c) * 1_073_741_824 - allocated && (gib - 1) * 1_073_741_824
            < system_gib_of(c) * 1_073_741_824 - allocated),
{
}

/// Configured disks are valid exactly where the provider places disks, planning them again
/// gives the same disks, and, once they were joined, each is there.
pub proof fn valid_storage_is_the_configured_one(
    c: ConfigurationView,
    platform: Seq<char>,
    input: PlanInput,
    sightings: Seq<Sighting>,
    statuses: Seq<LocationStatusView>,
)
    ensures
        c.storage_locations.len() == 0 ==> storage_refusal(c, platform, input, sightings, statuses)
            is None,
        c.storage_locations.len() > 0 ==> (storage_refusal(c, platform, input, sightings, statuses)
            is None <==> places_disks(c.vm_provider, platform) && replanned(
            input,
            c.storage_locations,
            sightings,
        ) == Ok::<Seq<LocationView>, Seq<char>>(c.storage_locations) && (
        c.storage_generation == 0 || c.storage_lifecycle.initializing || forall|i: int|
            0 <= i < statuses.len() ==> (#[trigger] statuses[i]).available)),
{
    assert(all_available(statuses) <==> forall|i: int|
        0 <= i < statuses.len() ==> (#[trigger] statuses[i]).available);
}

/// What a disk holds already is carried over only for a disk that stays where it was, and
/// only where nothing newer was measured for it; what was measured stays.
pub proof fn credits_are_carried_for_disks_that_stay(
    physical: Seq<(Seq<char>, u64)>,
    original: Seq<(String, u64)>,
    target: Seq<LocationView>,
    previous: Seq<LocationView>,
    n: int,
)
    requires
        0 <= n <= target.len(),
    ensures
        ({
            let r = carried_credits(physical, original, target, previous, n);
            &&& physical.len() <= r.len()
            &&& forall|i: int| 0 <= i < physical.len() ==> #[trigger] r[i] == physical[i]
            &&& forall|i: int|
                physical.len() <= i < r.len() ==> (exists|k: int, p: int|
                    0 <= k < n && 0 <= p < previous.len() && (#[trigger] r[i]).0 == (
                    #[trigger] target[k]).id && (#[trigger] previous[p]).id == target[k].id
                        && previous[p].directory == target[k].directory && previous[p].volume_id
                        == target[k].volume_id) && r[i].1 == credited_bytes(original, r[i].0, 0)
            &&& forall|i: int, j: int|
                physical.len() <= j < r.len() && 0 <= i < j ==> (#[trigger] r[i]).0 != (
                #[trigger] r[j]).0
        }),
    decreases n,
{
    if n > 0 {
        credits_are_carried_for_disks_that_stay(physical, original, target, previous, n - 1);
        let before = carried_credits(physical, original, target, previous, n - 1);
        let r = carried_credits(physical, original, target, previous, n);
        let l = target[n - 1];
        assert forall|i: int| 0 <= i < physical.len() implies #[trigger] r[i] == physical[i] by {
            assert(before[i] == physical[i]);
        }
        assert forall|i: int| physical.len() <= i < r.len() implies (exists|k: int, p: int|
            0 <= k < n && 0 <= p < previous.len() && (#[trigger] r[i]).0 == (
            #[trigger] target[k]).id && (#[trigger] previous[p]).id == target[k].id
                && previous[p].directory == target[k].directory && previous[p].volume_id
                == target[k].volume_id) && r[i].1 == credited_bytes(original, r[i].0, 0) by {
            if i < before.len() {
                assert(r[i] == before[i]);
                let (k, p) = choose|k: int, p: int|
                    0 <= k < n - 1 && 0 <= p < previous.len() && (#[trigger] before[i]).0 == (
                    #[trigger] target[k]).id && (#[trigger] previous[p]).id == target[k].id
                        && previous[p].directory == target[k].directory && previous[p].volume_id
                        == target[k].volume_id;
                assert(r[i].0 == target[k].id && previous[p].id == target[k].id);
            } else {
                assert(crate::agent::inventory::stays(previous, l));
                let p = choose|p: int|
                    0 <= p < previous.len() && (#[trigger] previous[p]).id == l.id
                        && previous[p].directory == l.directory && previous[p].volume_id
                        == l.volume_id;
                assert(r[i].0 == target[n - 1].id && previous[p].id == target[n - 1].id);
            }
        }
        assert forall|i: int, j: int| physical.len() <= j < r.len() && 0 <= i < j implies (
        #[trigger] r[i]).0 != (#[trigger] r[j]).0 by {
            assert(r[i] == before[i]);
            if j < before.len() {
                assert(r[j] == before[j]);
            }
        }
    }
}

/// The space that rules may share: what the host shows where there are no configured disks;
/// else what the disks are granted with the host's reserve while they are valid, and none
/// otherwise.
pub proof fn invalid_storage_is_not_shared(c: ConfigurationView, valid: bool, observed: u64)
    requires
        total_gib(c.storage_locations) <= 1_048_576,
        system_gib_of(c) <= 1_048_576,
    ensures
        c.storage_locations.len() == 0 ==> usable_gib(c, valid, observed) == observed,
        c.storage_locations.len() > 0 && !valid ==> usable_gib(c, valid, observed) == 0,
        c.storage_locations.len() > 0 && valid ==> usable_gib(c, valid, observed) == total_gib(
            c.storage_locations,
        ) + system_gib_of(c) + 10,
{
}

/// Storage is active only with a worker and while nothing of it changes, is missing or needs
/// repair; then it is that of the disks, or the shared size where none is chosen. What is
/// configured stays what the owner chose.
pub proof fn shown_capacities_are_those_of_the_settings(c: ConfigurationView)
    requires
        total_gib(c.storage_locations) <= u64::MAX,
        total_gib(c.storage_lifecycle.configured_locations) <= u64::MAX,
    ensures
        ({
            let l = c.storage_lifecycle;
            let steady = c.vm_created && !l.disabled && !c.remote.repair_required
                && c.storage_operation is None && l.missing is None && l.maintenance is None;
            &&& !steady ==> active_capacity(c) == 0
            &&& steady && c.storage_locations.len() > 0 ==> active_capacity(c) == total_gib(
                c.storage_locations,
            )
            &&& steady && c.storage_locations.len() == 0 ==> active_capacity(c)
                == c.policy.resources.disk_gib
            &&& l.configured_locations.len() > 0 ==> configured_capacity(c) == total_gib(
                l.configured_locations,
            )
            &&& l.configured_locations.len() == 0 && l.disabled ==> configured_capacity(c) == 0
            &&& l.configured_locations.len() == 0 && !l.disabled ==> configured_capacity(c)
                == c.policy.resources.disk_gib
        }),
{
}

/// An excluded disk is one that the owner configured and at whose place the worker has none.
pub proof fn excluded_disks_are_the_unused_ones(c: ConfigurationView, l: LocationView)
    ensures
        excluded_locations(c).contains(l) <==> c.storage_lifecycle.configured_locations.contains(l)
            && forall|i: int|
            0 <= i < c.storage_locations.len() ==> !((#[trigger] c.storage_locations[i]).directory
                == l.directory && c.storage_locations[i].volume_id == l.volume_id),
{
    let all = c.storage_lifecycle.configured_locations;
    let keep = |old: LocationView|
        !crate::storage_lifecycle::stands_among(c.storage_locations, old);
    assert(excluded_locations(c) == all.filter(keep));
    let kept = excluded_locations(c);
    if kept.contains(l) {
        let i = choose|i: int| 0 <= i < kept.len() && kept[i] == l;
        all.lemma_filter_pred(keep, i);
        all.lemma_filter_contains_rev(keep, l);
        assert(keep(l));
    }
    if all.contains(l) && keep(l) {
        let i = choose|i: int| 0 <= i < all.len() && all[i] == l;
        all.lemma_filter_contains(keep, i);
    }
}

/// The old copy of a disk is told from its move: the disk with its identity in another
/// folder.
pub proof fn moved_disks_have_another_folder(
    locations: Seq<LocationView>,
    old: LocationView,
    i: int,
)
    requires
        0 <= i,
    ensures
        moved_to(locations, old, i) matches Some(k) ==> i <= k < locations.len() && locations[k].id
            == old.id && locations[k].directory != old.directory,
        moved_to(locations, old, i) is None ==> forall|k: int|
            i <= k < locations.len() ==> (#[trigger] locations[k]).id != old.id
                || locations[k].directory == old.directory,
    decreases locations.len() - i,
{
    if i < locations.len() {
        moved_disks_have_another_folder(locations, old, i + 1);
    }
}

/// The owner is shown what the settings say: what is active and configured, the excluded,
/// retired and retained disks, and the change that is under way, in the maintenance's words
/// before those of missing storage before those of a change.
pub proof fn owners_see_their_settings(
    c: ConfigurationView,
    inventory: InventoryView,
    facts: SnapshotFacts,
    mounts: Mounts,
)
    ensures
        ({
            let r = storage_shown(c, inventory, facts, mounts);
            let l = c.storage_lifecycle;
            &&& r.revision == c.storage_revision
            &&& r.disabled == l.disabled
            &&& r.recovery_enabled == l.recovery_enabled
            &&& r.active_gib == active_capacity(c)
            &&& r.configured_gib == configured_capacity(c)
            &&& r.backup_cleanup == l.cleanup
            &&& r.pending_update == pending_update(c)
            &&& r.volumes == inventory.volumes
            &&& r.supported == inventory.supported
            &&& r.reason == inventory.reason
            &&& r.default_directory == inventory.default_directory
            &&& r.layout == inventory.layout
            &&& r.system_disk == inventory.system_disk
            &&& r.excluded.len() == excluded_locations(c).len()
            &&& r.retained_copies.len() == c.storage_retained.len() + l.retired.len()
            &&& r.locations.len() == inventory.locations.len()
            &&& r.retained_runtime_directories.len() == c.runtime_retained.len()
            &&& forall|i: int|
                0 <= i < c.runtime_retained.len() ==> #[trigger] r.retained_runtime_directories[i]
                    == c.runtime_retained[i].runtime_directory
            &&& c.runtime_relocation is None && l.maintenance is None && l.missing is None ==> (
            r.operation is Some <==> c.storage_operation is Some)
            &&& c.runtime_relocation is None ==> (l.maintenance matches Some(op) ==> (r.operation
                matches Some(s) && (op.error matches Some(e) ==> s.message == e)))
            &&& c.runtime_relocation is None && l.maintenance is None ==> (l.missing matches Some(m)
                ==> (r.operation matches Some(s) && s.phase == "missing"@ && (m.error
                matches Some(e) ==> s.message == e)))
            &&& c.runtime_relocation is Some ==> r.operation is Some
            &&& l.maintenance is None ==> r.recovery_backup == inventory.recovery_backup
            &&& l.maintenance matches Some(op) ==> (r.recovery_backup is Some <==> op.backup
                is Some)
        }),
{
}

/// What is pending is the target of the change or maintenance under way that has a layout,
/// in total sizes.
pub proof fn pending_storage_is_the_target(c: ConfigurationView)
    ensures
        c.storage_operation matches Some(op) ==> (op.layout matches Some(layout)
            ==> pending_target(c) == Some((layout, op.target))),
        c.storage_operation is None ==> (c.storage_lifecycle.maintenance matches Some(op) ==> (
        op.layout matches Some(layout) ==> pending_target(c) == Some((layout, op.target)))),
        c.storage_operation is None && c.storage_lifecycle.maintenance is None ==> pending_target(
            c,
        ) is None,
        pending_target(c) is None ==> pending_update(c) is None,
        pending_target(c) matches Some(p) ==> (transformed(p.0, p.1, true) matches Ok(total) ==> (
        pending_update(c) matches Some(u) && u.layout == p.0 && u.locations == total && (total_gib(
            total,
        ) <= u64::MAX ==> u.total_gib == total_gib(total)))),
{
}

/// The sizes that the owner sees of disks are total ones wherever they are known by
/// identity; nothing else of a disk's status changes.
pub proof fn owners_see_total_sizes(
    c: ConfigurationView,
    inventory: InventoryView,
    facts: SnapshotFacts,
    mounts: Mounts,
    i: int,
)
    requires
        0 <= i < inventory.locations.len(),
    ensures
        ({
            let r = storage_shown(c, inventory, facts, mounts).locations[i];
            let s = inventory.locations[i];
            let made = c.storage_generation == 0 && !c.vm_created && facts.valid;
            &&& r.location.id == s.location.id
            &&& r.location.directory == s.location.directory
            &&& r.location.volume_id == s.location.volume_id
            &&& made ==> r.available
            &&& !made ==> r.available == s.available && r.reason == s.reason
            &&& owner_locations(c) is Err ==> r.location == s.location
            &&& owner_locations(c) matches Ok(total) ==> {
                &&& forall|k: int|
                    0 <= k < total.len() && (#[trigger] total[k]).id == s.location.id && (forall|
                        j: int,
                    |
                        0 <= j < k ==> (#[trigger] total[j]).id != s.location.id)
                        ==> r.location.allocation_gib == total[k].allocation_gib
                &&& (forall|k: int|
                    0 <= k < total.len() ==> (#[trigger] total[k]).id != s.location.id)
                    ==> r.location == s.location
            }
        }),
{
    if owner_locations(c) is Ok {
        let total = owner_locations(c)->Ok_0;
        let s = inventory.locations[i];
        lemma_rank(total, s.location.id, 0);
        assert forall|k: int|
            0 <= k < total.len() && (#[trigger] total[k]).id == s.location.id && (forall|j: int|
                0 <= j < k ==> (#[trigger] total[j]).id != s.location.id) implies rank(
            total,
            s.location.id,
        ) == k && has_id(total, s.location.id) by {}
    }
}

} // verus!
