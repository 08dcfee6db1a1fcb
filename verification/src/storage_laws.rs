//! What volumes, disks, layouts and backups are taken for.
use crate::lima::VmProvider;
use crate::storage::{
    after_reserve, allocated_of, configured_on, inventory_of, lemma_rank, mounted_at,
    rank, reserve_refusal, resolved_directory, total_gib, volume_index,
    volume_of_disk, with_boot, DirectorySight, DiskFacts, HostPath, ImageSight,
    LocationStatusView, LocationView, Mounts, VolumeView,
};
use crate::storage_layout::{
    granted_gib, next_layout, owner_locations, path_refusal, resolved_layout, roomy_from,
    runtime_home_of, sockets_fit, system_gib_of, transformed, LayoutView,
};
use crate::storage_lifecycle::{
    backup_file_refusal, deletion_refusal, outside_refusal, replaced_target, space_required,
    AncestorSight, BackupView, FileFacts,
};
use crate::store::ConfigurationView;
use crate::values::content;
use vstd::prelude::*;

verus! {

/// The application's volume has room where it may be used and keeps 10 GiB beyond what the
/// operating system's disk may still take.
pub proof fn system_disks_leave_the_host_its_space(
    volumes: Seq<VolumeView>,
    directory: HostPath,
    mounts: Mounts,
    remaining_gib: u64,
)
    requires
        remaining_gib <= 1_048_576,
    ensures
        reserve_refusal(volumes, directory, mounts, remaining_gib) is None <==> (volume_index(
            directory,
            volumes,
            mounts,
        ) matches Some(i) && volumes[i].eligible && volumes[i].available_gib >= remaining_gib + 10),
{
}

/// What the operating system's disk may still take is gone from every volume of its pool and
/// from no other; nothing else of a volume changes.
pub proof fn reserved_space_is_taken_from_its_pool(
    volume: VolumeView,
    pool: Seq<char>,
    remaining_gib: u64,
)
    ensures
        ({
            let r = after_reserve(volume, pool, remaining_gib);
            &&& r == VolumeView { available_gib: r.available_gib, ..volume }
            &&& volume.capacity_pool != pool ==> r.available_gib == volume.available_gib
            &&& volume.capacity_pool == pool && volume.available_gib >= remaining_gib
                ==> r.available_gib == volume.available_gib - remaining_gib
            &&& volume.capacity_pool == pool && volume.available_gib < remaining_gib
                ==> r.available_gib == 0
        }),
{
}

/// A volume may hold worker disks on a Mac where it is a writable APFS volume with ownership
/// and an identity, on Linux where it is a writable ext4 or XFS volume with an identity, and
/// nowhere else.
pub proof fn usable_volumes_are_writable_and_local(
    facts: DiskFacts,
    platform: Seq<char>,
    provider: VmProvider,
    locations: Seq<LocationView>,
)
    ensures
        ({
            let v = volume_of_disk(facts, platform, provider, locations);
            &&& platform == "macos"@ && platform != "linux"@ ==> (v.eligible
                <==> facts.filesystem@ == "apfs"@ && !facts.read_only && facts.ownership
                && facts.pool is Some && (facts.identity matches Some(id) && id@.len() > 0))
            &&& platform == "linux"@ && platform != "macos"@ ==> (v.eligible <==> (
            facts.filesystem@ == "ext4"@ || facts.filesystem@ == "xfs"@) && !facts.read_only
                && facts.identity is Some)
            &&& platform != "macos"@ && platform != "linux"@ ==> !v.eligible
            &&& v.eligible ==> content(facts.identity) == Some(v.id)
            &&& v.eligible && platform == "macos"@ ==> content(facts.pool) == Some(v.capacity_pool)
            &&& v.eligible && platform != "macos"@ ==> v.capacity_pool == v.id
            &&& v.eligible <==> v.reason.len() == 0
            &&& v.label == facts.label@
            &&& v.mount_point == facts.mount_point@
            &&& v.filesystem == facts.filesystem@
            &&& v.available_gib * 1_073_741_824 <= facts.available_bytes < (v.available_gib + 1)
                * 1_073_741_824
        }),
{
    reveal_strlit("Selectable worker storage is unsupported on this host/runtime combination");
    reveal_strlit("Requires a writable APFS volume with ownership enabled and a stable volume identity");
    reveal_strlit("Volume identity could not be read. Storage selection is unavailable.");
    reveal_strlit("Requires a writable local ext4 or XFS volume with a stable identity");
    reveal_strlit("Selectable storage requires the packaged Lima runtime on a supported Mac or Linux host.");
    reveal_strlit("Multipass does not support selectable locations or additional disks for an individual worker. Its daemon manages the disk location and does not report that path through its supported API.");
}

/// What is configured on a volume is what the disks with its identity are given, together.
pub proof fn configured_space_adds_up(
    locations: Seq<LocationView>,
    l: LocationView,
    id: Seq<char>,
)
    ensures
        configured_on(Seq::empty(), id) == 0,
        id.len() > 0 && l.volume_id == id ==> configured_on(locations.push(l), id) == configured_on(
            locations,
            id,
        ) + l.allocation_gib,
        l.volume_id != id ==> configured_on(locations.push(l), id) == configured_on(locations, id),
        id.len() == 0 ==> configured_on(locations.push(l), id) == configured_on(locations, id),
{
    assert(locations.push(l).drop_last() == locations);
}

proof fn lemma_mounted(volumes: Seq<VolumeView>, mount: Seq<char>, i: int, w: int)
    requires
        0 <= i <= w < volumes.len(),
        volumes[w].mount_point == mount,
    ensures
        mounted_at(volumes, mount, i) matches Some(k) && i <= k < volumes.len()
            && volumes[k].mount_point == mount,
    decreases volumes.len() - i,
{
    if volumes[i].mount_point != mount {
        lemma_mounted(volumes, mount, i + 1, w);
    }
}

/// With Lima the operating system's part counts once, on the volume mounted where the
/// application stands; every other volume is shown as it was.
pub proof fn boot_disks_count_on_their_volume(
    volumes: Seq<VolumeView>,
    provider: VmProvider,
    directory: HostPath,
    mounts: Mounts,
    boot_gib: u64,
)
    ensures
        ({
            let r = with_boot(volumes, provider, Some(directory), mounts, boot_gib);
            &&& with_boot(volumes, provider, None, mounts, boot_gib) == volumes
            &&& r.len() == volumes.len()
            &&& provider != VmProvider::Lima ==> r == volumes
            &&& volume_index(directory, volumes, mounts) is None ==> r == volumes
            &&& provider == VmProvider::Lima ==> (volume_index(
                directory,
                volumes,
                mounts,
            ) matches Some(i) ==> exists|k: int|
                0 <= k < volumes.len() && (#[trigger] volumes[k]).mount_point
                    == volumes[i].mount_point && r[k].configured_gib == (if volumes[k].configured_gib
                    + boot_gib > u64::MAX {
                    u64::MAX as int
                } else {
                    volumes[k].configured_gib + boot_gib
                }) && r[k] == (VolumeView { configured_gib: r[k].configured_gib, ..volumes[k] })
                    && forall|j: int|
                    0 <= j < volumes.len() && j != k ==> #[trigger] r[j] == volumes[j])
        }),
{
    if volume_index(directory, volumes, mounts) is Some {
        crate::storage::found_volume_exists(directory, volumes, mounts);
        let i = volume_index(directory, volumes, mounts)->0;
        lemma_mounted(volumes, volumes[i].mount_point, 0, i);
        let k = mounted_at(volumes, volumes[i].mount_point, 0)->0;
        assert(volumes[k].mount_point == volumes[i].mount_point);
    }
}

/// An inventory begins with what was seen and nothing under way; worker disks are supported
/// with Lima on a Mac or Linux.
pub proof fn inventories_begin_with_what_was_seen(
    provider: VmProvider,
    platform: Seq<char>,
    directory: Seq<char>,
    resolved: Option<HostPath>,
    volumes: Seq<VolumeView>,
    statuses: Seq<LocationStatusView>,
    total: u64,
    boot_gib: u64,
)
    ensures
        ({
            let r = inventory_of(
                provider,
                platform,
                directory,
                resolved,
                volumes,
                statuses,
                total,
                boot_gib,
            );
            &&& r.volumes == volumes
            &&& r.locations == statuses
            &&& r.active_gib == total
            &&& r.configured_gib == total
            &&& r.supported <==> provider == VmProvider::Lima && (platform == "macos"@ || platform
                == "linux"@)
            &&& r.default_directory is Some <==> provider == VmProvider::Lima && resolved is Some
            &&& r.system_disk is Some <==> provider == VmProvider::Lima
            &&& r.system_disk matches Some(disk) ==> disk.allocation_gib == boot_gib
            &&& !r.disabled && !r.recovery_enabled
            &&& r.operation is None && r.pending_update is None && r.layout is None
            &&& r.recovery_backup is None && r.revision == 0
            &&& r.excluded.len() == 0 && r.retained_copies.len() == 0 && r.backup_cleanup.len() == 0
            &&& r.retained_runtime_directories.len() == 0
        }),
{
}

/// A folder is used by where it really is: an absolute path without climbing parts that is a
/// directory, or a new name in one that is.
pub proof fn folders_are_used_where_they_are(
    platform: Seq<char>,
    path: Seq<char>,
    seen: DirectorySight,
)
    ensures
        resolved_directory(platform, path, seen) is Ok ==> crate::host_paths::host_absolute(
            platform,
            path,
        ) && !crate::host_paths::host_climbs(platform, path),
        seen is Unreadable ==> resolved_directory(platform, path, seen) is Err,
        seen matches DirectorySight::Present { canonical, directory } ==> (resolved_directory(
            platform,
            path,
            seen,
        ) matches Ok(r) ==> directory && content(canonical) == Some(r)),
        seen matches DirectorySight::Missing { parent, directory } ==> (resolved_directory(
            platform,
            path,
            seen,
        ) matches Ok(r) ==> directory && parent is Some && (crate::host_paths::host_name(
            platform,
            path,
        ) matches Some(name) && r == crate::host_paths::host_join(platform, parent->0@, name))),
        crate::host_paths::host_absolute(platform, path) && !crate::host_paths::host_climbs(
            platform,
            path,
        ) ==> (seen matches DirectorySight::Present { canonical, directory } ==> (directory
            && canonical is Some ==> resolved_directory(platform, path, seen) is Ok)),
{
}

proof fn lemma_allocated_first(
    home: Seq<char>,
    device: Seq<char>,
    locations: Seq<LocationView>,
    sights: Seq<Option<ImageSight>>,
    l: LocationView,
    sight: Option<ImageSight>,
    n: int,
)
    requires
        0 <= n <= locations.len(),
        n <= sights.len(),
    ensures
        allocated_of(home, device, locations.push(l), sights.push(sight), n) == allocated_of(
            home,
            device,
            locations,
            sights,
            n,
        ),
    decreases n,
{
    if n > 0 {
        lemma_allocated_first(home, device, locations, sights, l, sight, n - 1);
        assert(locations.push(l)[n - 1] == locations[n - 1]);
        assert(sights.push(sight)[n - 1] == sights[n - 1]);
    }
}

/// What a disk takes now is counted where its image is a regular file and its receipt is
/// that disk's, under its identity and by its blocks; another image counts nothing.
pub proof fn measured_disks_are_their_own(
    home: Seq<char>,
    device: Seq<char>,
    locations: Seq<LocationView>,
    sights: Seq<Option<ImageSight>>,
    l: LocationView,
    sight: Option<ImageSight>,
)
    requires
        sights.len() == locations.len(),
    ensures
        ({
            let n = locations.len() as int;
            let before = allocated_of(home, device, locations, sights, n);
            let after = allocated_of(home, device, locations.push(l), sights.push(sight), n + 1);
            let own = crate::lima_storage::paths_of(home, device, l) is Ok && sight is Some
                && sight->0.regular && crate::lima_storage::receipt_refusal(
                sight->0.receipt@,
                device,
                l,
            ) is None;
            &&& !own ==> after == before
            &&& own && sight->0.blocks * 512 <= u64::MAX ==> after == before.push(
                (l.id, (sight->0.blocks * 512) as u64),
            )
        }),
{
    let n = locations.len() as int;
    lemma_allocated_first(home, device, locations, sights, l, sight, n);
    assert(locations.push(l)[n] == l);
    assert(sights.push(sight)[n] == sight);
}

proof fn lemma_roomy(locations: Seq<LocationView>, gib: u64, id: Option<Seq<char>>, i: int)
    requires
        0 <= i,
    ensures
        roomy_from(locations, gib, id, i) matches Some(k) ==> i <= k < locations.len()
            && locations[k].allocation_gib > gib && (id matches Some(x) ==> locations[k].id == x)
            && forall|j: int|
            i <= j < k ==> (#[trigger] locations[j]).allocation_gib <= gib || (id is Some
                && locations[j].id != id->0),
        roomy_from(locations, gib, id, i) is None ==> forall|j: int|
            i <= j < locations.len() ==> (#[trigger] locations[j]).allocation_gib <= gib || (
            id is Some && locations[j].id != id->0),
    decreases locations.len() - i,
{
    if i < locations.len() {
        lemma_roomy(locations, gib, id, i + 1);
    }
}

/// The operating system keeps its size and its disk while that disk has room for it and for
/// data; else it goes to the first disk that has. All disks together hold 14 GiB beyond it.
pub proof fn systems_keep_their_disk_while_it_has_room(
    owner: Seq<char>,
    locations: Seq<LocationView>,
    previous: Option<LayoutView>,
    k: int,
)
    requires
        0 <= k < locations.len(),
    ensures
        resolved_layout(owner, locations, previous) matches Ok(layout) ==> {
            let gib = if previous is Some {
                previous->0.system_gib
            } else {
                16
            };
            &&& layout.version == 1
            &&& layout.system_gib == gib
            &&& total_gib(locations) >= gib + 14
            &&& exists|i: int|
                0 <= i < locations.len() && (#[trigger] locations[i]).id
                    == layout.system_location_id && locations[i].volume_id == layout.volume_id
                    && locations[i].allocation_gib > gib
            &&& previous is Some && locations[k].id == previous->0.system_location_id
                && locations[k].allocation_gib > gib ==> layout.system_location_id
                == previous->0.system_location_id
            &&& previous is None && locations[k].allocation_gib > gib && (forall|j: int|
                0 <= j < k ==> (#[trigger] locations[j]).allocation_gib <= gib)
                ==> layout.system_location_id == locations[k].id && layout.volume_id
                == locations[k].volume_id
        },
{
    let gib = if previous is Some {
        previous->0.system_gib
    } else {
        16
    };
    lemma_roomy(locations, gib, None, 0);
    if previous is Some {
        lemma_roomy(locations, gib, Some(previous->0.system_location_id), 0);
    }
}

/// A layout takes the operating system's part off the disk that it names, or puts it back,
/// and touches no other disk and nothing else of that one; the disk must be on its volume
/// and keep space for data.
pub proof fn layouts_change_one_size(
    layout: LayoutView,
    locations: Seq<LocationView>,
    add: bool,
    k: int,
)
    requires
        0 <= k < locations.len(),
        locations[k].id == layout.system_location_id,
        forall|j: int| 0 <= j < k ==> (#[trigger] locations[j]).id != layout.system_location_id,
    ensures
        transformed(layout, locations, add) is Ok ==> layout.version == 1 && layout.system_gib >= 16
            && locations[k].volume_id == layout.volume_id,
        transformed(layout, locations, add) matches Ok(r) ==> {
            &&& r.len() == locations.len()
            &&& forall|j: int| 0 <= j < r.len() && j != k ==> #[trigger] r[j] == locations[j]
            &&& r[k] == LocationView { allocation_gib: r[k].allocation_gib, ..locations[k] }
            &&& add ==> r[k].allocation_gib == locations[k].allocation_gib + layout.system_gib
            &&& !add ==> r[k].allocation_gib == locations[k].allocation_gib - layout.system_gib
                && r[k].allocation_gib > 0
        },
        layout.version == 1 && layout.system_gib >= 16 && locations[k].volume_id == layout.volume_id
            && !add && locations[k].allocation_gib > layout.system_gib ==> transformed(
            layout,
            locations,
            add,
        ) is Ok,
{
    lemma_rank(locations, layout.system_location_id, 0);
    assert(rank(locations, layout.system_location_id) == k);
}

/// Without a layout the operating system has what the settings reserve for it, what an old
/// worker without disks was given, or 16 GiB.
pub proof fn systems_have_their_size(c: ConfigurationView)
    ensures
        c.storage_layout matches Some(layout) ==> system_gib_of(c) == layout.system_gib,
        c.storage_layout is None && c.storage_boot_gib > 0 ==> system_gib_of(c) == c.storage_boot_gib,
        c.storage_layout is None && c.storage_boot_gib == 0 ==> system_gib_of(c) >= 16,
        c.storage_layout is None && c.storage_boot_gib == 0 && c.vm_created
            && c.storage_locations.len() == 0 && c.allocated_resources is Some ==> system_gib_of(c)
            == if c.allocated_resources->0.disk_gib > 16 {
            c.allocated_resources->0.disk_gib
        } else {
            16
        },
        c.storage_layout is None && c.storage_boot_gib == 0 && (!c.vm_created
            || c.storage_locations.len() > 0 || c.allocated_resources is None) ==> system_gib_of(c)
            == 16,
{
}

/// Total sizes count the operating system once: with the disk that the layout names, without
/// a layout with the first; what is granted is the disks and the operating system together.
pub proof fn total_sizes_count_the_system_once(c: ConfigurationView)
    requires
        c.storage_locations.len() > 0,
    ensures
        c.storage_layout matches Some(layout) ==> owner_locations(c) == transformed(
            layout,
            c.storage_locations,
            true,
        ),
        c.storage_layout is None ==> (owner_locations(c) matches Ok(r) ==> r.len()
            == c.storage_locations.len() && r[0] == (LocationView {
            allocation_gib: r[0].allocation_gib,
            ..c.storage_locations[0]
        }) && r[0].allocation_gib == c.storage_locations[0].allocation_gib + system_gib_of(c)
            && forall|j: int| 0 < j < r.len() ==> #[trigger] r[j] == c.storage_locations[j]),
        total_gib(c.storage_locations) + system_gib_of(c) <= u64::MAX ==> granted_gib(c) == total_gib(
            c.storage_locations,
        ) + system_gib_of(c),
{
}

/// The next layout keeps the operating system's size: the layout's, else the one it has.
pub proof fn next_layouts_keep_the_systems_size(c: ConfigurationView, locations: Seq<LocationView>)
    ensures
        next_layout(c, locations) matches Ok(layout) ==> layout.version == 1 && layout.system_gib
            == system_gib_of(c) && exists|i: int|
            0 <= i < locations.len() && (#[trigger] locations[i]).id == layout.system_location_id
                && locations[i].volume_id == layout.volume_id && locations[i].allocation_gib
                > layout.system_gib,
        c.storage_layout matches Some(layout) ==> runtime_home_of(c, c.device_id)
            == layout.runtime_directory,
{
    if next_layout(c, locations) is Ok {
        if c.storage_layout is Some {
            if locations.len() > 0 {
                systems_keep_their_disk_while_it_has_room(
                    c.device_id,
                    locations,
                    c.storage_layout,
                    0,
                );
            } else {
                lemma_roomy(locations, system_gib_of(c), None, 0);
                lemma_roomy(
                    locations,
                    system_gib_of(c),
                    Some(c.storage_layout->0.system_location_id),
                    0,
                );
            }
        } else {
            let first = resolved_layout(c.device_id, locations, None)->Ok_0;
            if locations.len() > 0 {
                systems_keep_their_disk_while_it_has_room(
                    c.device_id,
                    locations,
                    Some(LayoutView { system_gib: system_gib_of(c), ..first }),
                    0,
                );
            } else {
                lemma_roomy(locations, 16, None, 0);
            }
        }
    }
}

/// A runtime folder is plain, absolute, and short enough for every socket of the runtime:
/// under 104 bytes on a Mac and 108 elsewhere.
pub proof fn runtime_folders_hold_their_sockets(layout: LayoutView, platform: Seq<char>)
    ensures
        path_refusal(layout, platform) is None ==> {
            let limit = if platform == "macos"@ {
                104int
            } else {
                108
            };
            let d = layout.runtime_directory;
            &&& crate::paths::is_plain_absolute(d)
            &&& vstd::utf8::encode_utf8(
                crate::paths::join_path(d, "worker/ssh.sock.1234567890123456"@),
            ).len() < limit
            &&& vstd::utf8::encode_utf8(
                crate::paths::join_path(d, "_networks/user-v2/user-v2_ep.sock"@),
            ).len() < limit
            &&& platform == "linux"@ ==> vstd::utf8::encode_utf8(
                crate::paths::join_path(d, "_networks/user-v2/user-v2_qemu.sock"@),
            ).len() < limit
        },
{
    let s = crate::storage_layout::socket_suffixes(platform);
    if path_refusal(layout, platform) is None {
        assert(sockets_fit(layout.runtime_directory, platform));
        assert(s[0] == "worker/ssh.sock.1234567890123456"@);
        assert(s[1] == "_networks/user-v2/user-v2_ep.sock"@);
        if platform == "linux"@ {
            assert(s[2] == "_networks/user-v2/user-v2_qemu.sock"@);
        }
    }
}

/// A replacement needs the new size less what the old disk gives back, room for the backup
/// on the same volume, and 10 GiB for the host.
pub proof fn replacements_need_their_room(target_gib: u64, reclaimed: u64, backup: u64)
    requires
        target_gib <= 1_048_576,
    ensures
        ({
            let need = space_required(target_gib, reclaimed, backup);
            let kept = if reclaimed / 1_073_741_824 > target_gib {
                0int
            } else {
                target_gib - reclaimed / 1_073_741_824
            };
            &&& (need - 10 - kept) * 1_073_741_824 >= backup
            &&& (need - 11 - kept) * 1_073_741_824 < backup
        }),
{
}

/// A backup file is used only where it is a regular file, the owner's alone, and on its own
/// volume.
pub proof fn backup_files_are_private(facts: FileFacts, volume_id: Seq<char>)
    ensures
        backup_file_refusal(facts, volume_id) is None <==> facts.regular && facts.private
            && facts.single_link && facts.owned && (facts.volume_id matches Some(id) && id@
            == volume_id),
{
}

/// Sources are deleted only behind a verified backup that still is, byte for byte, what was
/// verified.
pub proof fn deletions_rest_on_the_backup(backup: BackupView, hash: Seq<char>, size: u64)
    ensures
        deletion_refusal(backup, hash, size) is None <==> backup.verified && backup.sha256 == Some(
            hash,
        ) && backup.bytes == size,
{
}

/// A folder that is not there yet goes where its nearest folder that is leads, name by name;
/// one that cannot be seen or resolved is no answer.
pub proof fn replaced_folders_are_resolved(
    platform: Seq<char>,
    path: Seq<char>,
    sights: Seq<AncestorSight>,
)
    requires
        sights.len() > 0,
    ensures
        sights[0] matches AncestorSight::Present(Some(target)) ==> replaced_target(
            platform,
            path,
            sights,
            0,
        ) == Ok::<Seq<char>, Seq<char>>(target@),
        sights[0] is Unreadable ==> replaced_target(platform, path, sights, 0) is Err,
        sights[0] matches AncestorSight::Present(None) ==> replaced_target(
            platform,
            path,
            sights,
            0,
        ) is Err,
        sights[0] is Missing && sights.len() == 1 ==> replaced_target(platform, path, sights, 0)
            is Err,
        sights[0] is Missing && sights.len() > 1 ==> (sights[1] matches AncestorSight::Present(
            Some(target),
        ) ==> (crate::host_paths::host_name(platform, path) matches Some(name) ==> (
        crate::host_paths::host_parent(platform, path) is Some ==> replaced_target(
            platform,
            path,
            sights,
            0,
        ) == Ok::<Seq<char>, Seq<char>>(
            crate::host_paths::host_join(platform, target@, name),
        )))),
{
    reveal_with_fuel(replaced_target, 3);
}

/// A backup stays out of what is replaced: both places are resolved, and the backup is not
/// within the other.
pub proof fn backups_stay_outside(
    platform: Seq<char>,
    backup: Seq<char>,
    seen: DirectorySight,
    replaced: Seq<char>,
    sights: Seq<AncestorSight>,
)
    ensures
        outside_refusal(platform, backup, seen, replaced, sights) is None <==> {
            &&& crate::host_paths::host_plain(platform, replaced)
            &&& resolved_directory(platform, backup, seen) matches Ok(place) && (replaced_target(
                platform,
                replaced,
                sights,
                0,
            ) matches Ok(target) && !crate::host_paths::host_within(platform, place, target))
        },
{
}

} // verus!
