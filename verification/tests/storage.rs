use nodeharbor_agent::checksum::Checksum;
use nodeharbor_agent::host_paths;
use nodeharbor_agent::json::parse_text;
use nodeharbor_agent::lima_storage::{
    absolute_path, check_disk_volume, check_link, check_move, check_private_directory,
    check_private_file, compared_ranges, disk_paths, disk_refusal_message, extent, names_disk,
    same_disk, validate_location, DiskReceipt, DiskRefusal, LimaStorage, StorageFacts,
};
use nodeharbor_agent::storage::{
    allocated_bytes, allocated_system_bytes, apfs_pool, available, bytes_of_blocks, canonical_directory, checked_total, describe_disk, holds_location,
    inspect_locations, inventory, require_location_support, reserve_system_disk, sum_gib, unsupported_reason,
    device_uuid, volume_for, windows_identity, DirectorySight, DiskFacts, HostPath, ImageSight,
    Location, Mounts, Selection, SystemImage, Volume,
};
use nodeharbor_agent::storage_layout::{remaining_bytes, Layout};
use nodeharbor_agent::storage_lifecycle::{
    backup_owner, backup_removed, check_backup, check_backup_file, check_capacity, configured_after_change, gib_for,
    recovery_decision, replacement_space_required, require_verified, required_capacity, Backup,
    FileFacts, RecoveryDecision,
};
use nodeharbor_agent::storage_plan::{plan, plan_change, Probe, Sighting};
use nodeharbor_agent::VmProvider;

const OWNER: &str = "9511182e-9c48-4d20-a15b-1da8bb441386";
const DISK: &str = "nh40423e6c1";

fn volume(id: &str, mount: &str, free: u64) -> Volume {
    Volume {
        id: id.into(),
        capacity_pool: id.into(),
        label: id.into(),
        mount_point: mount.into(),
        filesystem: "ext4".into(),
        available_gib: free,
        configured_gib: 0,
        eligible: true,
        reason: "".into(),
    }
}

fn mounts(volumes: &[Volume]) -> Mounts {
    Mounts {
        platform: "linux".into(),
        resolved: volumes.iter().map(|v| Some(v.mount_point.clone())).collect(),
    }
}

fn at(path: &str) -> HostPath {
    HostPath { path: path.into(), native_volume: None }
}

fn location(id: &str, volume: &str, directory: &str, gib: u64) -> Location {
    Location {
        id: id.into(),
        volume_id: volume.into(),
        directory: directory.into(),
        allocation_gib: gib,
    }
}

fn choice(directory: &str, gib: u64) -> Selection {
    Selection { id: None, directory: directory.into(), allocation_gib: gib }
}

fn seen(path: &str) -> Sighting {
    Sighting {
        seen: DirectorySight::Present { canonical: Some(path.into()), directory: true },
        native_volume: None,
        probe: Probe::Writable,
    }
}

#[test]
fn paths_stand_on_the_deepest_mount() {
    let volumes = [volume("root", "/", 100), volume("data", "/data", 50)];
    let m = mounts(&volumes);
    assert_eq!(volume_for(&at("/data/worker"), &volumes, &m), Some(1));
    assert_eq!(volume_for(&at("/database"), &volumes, &m), Some(0));
    assert_eq!(volume_for(&at("relative"), &volumes, &m), None);
}

#[test]
fn disks_are_planned_within_their_volumes() {
    let volumes = [volume("root", "/", 100), volume("data", "/data", 50)];
    let m = mounts(&volumes);
    let planned = plan(
        &[choice("/srv/worker", 20), choice("/data/worker", 30)],
        "/default",
        20,
        &volumes,
        &m,
        &[seen("/srv/worker"), seen("/data/worker")],
    )
    .unwrap();
    assert_eq!(planned.len(), 2);
    assert_eq!(sum_gib(&planned), 50);
    assert_eq!(checked_total(&planned), Some(50));
    assert!(planned.iter().all(|l| names_disk(&l.id)));
    assert_ne!(planned[0].id, planned[1].id);
    let refused = |choices: &[Selection], sights: &[Sighting]| {
        plan(choices, "/default", 20, &volumes, &m, sights).unwrap_err().message
    };
    assert_eq!(
        refused(&[choice("/data/a", 0)], &[seen("/data/a")]),
        "Choose an allocation between 1 and 1048576 GiB"
    );
    assert_eq!(
        refused(&[choice("/data/a", 10), choice("/data/a/b", 10)], &[seen("/data/a"), seen("/data/a/b")]),
        "Storage directories must not duplicate or overlap"
    );
    assert_eq!(
        refused(&[choice("/data/a", 10)], &[seen("/data/a")]),
        "Choose at least 15 GiB of combined worker storage"
    );
    assert!(refused(&[choice("/data/a", 45)], &[seen("/data/a")]).contains("10 GiB"));
    let many: Vec<Selection> = (0..17).map(|i| choice(&format!("/data/{i}"), 1)).collect();
    let sights: Vec<Sighting> = (0..17).map(|i| seen(&format!("/data/{i}"))).collect();
    assert_eq!(refused(&many, &sights), "Choose at most 16 storage locations");
    let mut denied = seen("/data/a");
    denied.probe = Probe::Denied;
    assert_eq!(
        refused(&[choice("/data/a", 20)], &[denied]),
        "No permission to write in the selected storage directory"
    );
}

#[test]
fn kept_disks_keep_their_identity_and_their_space() {
    let volumes = [volume("data", "/", 15)];
    let m = mounts(&volumes);
    let old = location(DISK, "data", "/data/worker", 20);
    let mut wanted = choice("/data/worker", 20);
    wanted.id = Some(DISK.into());
    let kept = plan_change(
        &[wanted],
        "/default",
        20,
        &volumes,
        &m,
        &[old.clone()],
        &[(DISK.to_string(), 20 << 30)],
        &[seen("/data/worker")],
    )
    .unwrap();
    assert_eq!(kept.len(), 1);
    assert_eq!(kept[0].id, DISK);
    let mut stranger = choice("/data/worker", 20);
    stranger.id = Some("nhother".into());
    let refused = plan_change(
        &[stranger],
        "/default",
        20,
        &volumes,
        &m,
        &[old],
        &[],
        &[seen("/data/worker")],
    );
    assert_eq!(refused.unwrap_err().message, "Unknown storage disk identity");
}

#[test]
fn folders_are_absolute_and_do_not_climb() {
    let present = DirectorySight::Present { canonical: Some("/real".into()), directory: true };
    assert_eq!(canonical_directory("linux", "/data", &present).unwrap(), "/real");
    assert_eq!(
        canonical_directory("linux", "data", &present).unwrap_err().message,
        "Choose an absolute storage directory"
    );
    assert_eq!(
        canonical_directory("linux", "/data/../etc", &present).unwrap_err().message,
        "Storage directories cannot contain parent traversal"
    );
    let file = DirectorySight::Present { canonical: Some("/real".into()), directory: false };
    assert_eq!(
        canonical_directory("linux", "/data", &file).unwrap_err().message,
        "Storage location must be a directory"
    );
    let missing = DirectorySight::Missing { parent: Some("/mnt".into()), directory: true };
    assert_eq!(canonical_directory("linux", "/link/new", &missing).unwrap(), "/mnt/new");
    assert!(canonical_directory("linux", "/data", &DirectorySight::Unreadable).is_err());
}

#[test]
fn windows_folders_have_a_drive_or_a_share() {
    let present =
        DirectorySight::Present { canonical: Some("\\\\?\\C:\\b".into()), directory: true };
    let missing = DirectorySight::Missing {
        parent: Some("\\\\?\\C:\\data".into()),
        directory: true,
    };
    assert_eq!(canonical_directory("windows", "C:\\b", &present).unwrap(), "\\\\?\\C:\\b");
    assert_eq!(
        canonical_directory("windows", "C:/data/new", &missing).unwrap(),
        "\\\\?\\C:\\data\\new"
    );
    assert!(canonical_directory("windows", "\\\\server\\share\\b", &present).is_ok());
    for path in ["C:b", "\\b", "/b", "b", "C:\\a\\..\\b"] {
        assert!(canonical_directory("windows", path, &present).is_err());
    }
    assert!(canonical_directory("linux", "C:\\b", &present).is_err());
}

#[test]
fn windows_paths_are_taken_apart() {
    let within = |t: &str, base: &str| host_paths::within("windows", t, base);
    assert!(within("C:\\v\\d", "C:\\v"));
    assert!(within("c:/v/d/", "C:\\v\\.\\"));
    assert!(!within("C:\\vm", "C:\\v"));
    assert!(!within("D:\\v\\d", "C:\\v"));
    assert!(within("\\\\?\\C:\\v\\d", "\\\\?\\c:\\v"));
    assert!(!within("\\\\?\\C:\\v", "C:\\v"));
    assert!(!within("\\\\?\\C:\\v/d", "\\\\?\\C:\\v"));
    assert!(within("\\\\server\\share\\d", "//server/share"));
    assert!(!within("\\\\server\\other", "\\\\server\\share"));
    let parent = |t: &str| host_paths::parent("windows", t);
    assert_eq!(parent("C:\\v\\d").as_deref(), Some("C:\\v"));
    assert_eq!(parent("C:\\v").as_deref(), Some("C:\\"));
    assert_eq!(parent("C:\\"), None);
    assert_eq!(parent("\\\\server\\share\\d").as_deref(), Some("\\\\server\\share\\"));
    assert_eq!(host_paths::name("windows", "C:\\v\\d\\").as_deref(), Some("d"));
    assert_eq!(host_paths::name("windows", "C:\\"), None);
    let join = |a: &str, b: &str| host_paths::join("windows", a, b);
    assert_eq!(join("C:\\v", "d"), "C:\\v\\d");
    assert_eq!(join("C:\\", "d"), "C:\\d");
    assert_eq!(join("\\\\?\\C:\\v", "a/b"), "\\\\?\\C:\\v\\a\\b");
    assert_eq!(join("C:\\v", "D:\\d"), "D:\\d");
    assert_eq!(join("C:\\v", "\\d"), "C:\\d");
    assert_eq!(host_paths::join("linux", "/v", "d"), "/v/d");
    assert_eq!(host_paths::depth("windows", "C:\\v\\d"), 4);
    assert_eq!(host_paths::depth("linux", "/v/d"), 3);
}

#[test]
fn windows_paths_stand_on_their_drive() {
    let volumes = [volume("c", "C:\\", 100), volume("d", "D:\\", 50)];
    let m = Mounts {
        platform: "windows".into(),
        resolved: vec![Some("\\\\?\\C:\\".into()), Some("\\\\?\\D:\\".into())],
    };
    assert_eq!(volume_for(&at("\\\\?\\D:\\worker"), &volumes, &m), Some(1));
    assert_eq!(volume_for(&at("\\\\?\\C:\\worker"), &volumes, &m), Some(0));
    assert_eq!(volume_for(&at("\\\\?\\E:\\worker"), &volumes, &m), None);
}

#[test]
fn inventories_show_volumes_and_locations() {
    let disk = |identity: &str, mount: &str| DiskFacts {
        label: "disk".into(),
        mount_point: mount.into(),
        filesystem: "ext4".into(),
        available_bytes: 100 << 30,
        read_only: false,
        identity: Some(identity.into()),
        pool: None,
        ownership: true,
    };
    let disks = [disk("root", "/"), disk("data", "/data")];
    let m = Mounts {
        platform: "linux".into(),
        resolved: vec![Some("/".into()), Some("/data".into())],
    };
    let placed = [location("nha", "data", "/data/a", 30)];
    let seen = inventory(
        VmProvider::Lima,
        "linux",
        "/settings",
        &Some(at("/settings")),
        &disks,
        &m,
        &placed,
        &[Some(at("/data/a"))],
        16,
    );
    assert!(seen.supported && seen.reason.is_empty());
    assert_eq!(seen.configured_gib, 30);
    assert_eq!(seen.default_directory.as_deref(), Some("/settings/storage"));
    assert_eq!(seen.system_disk.as_ref().unwrap().directory, "/settings/lima/worker");
    assert_eq!(seen.volumes[0].configured_gib, 16);
    assert_eq!(seen.volumes[1].configured_gib, 30);
    assert!(seen.locations[0].available);
    let m = Mounts { platform: "windows".into(), resolved: vec![Some("\\\\?\\C:\\".into())] };
    let drives = [disk("c", "C:\\")];
    let other = inventory(
        VmProvider::Multipass,
        "windows",
        "C:\\settings",
        &Some(at("\\\\?\\C:\\settings")),
        &drives,
        &m,
        &[],
        &[],
        16,
    );
    assert!(!other.supported && !other.reason.is_empty());
    assert!(other.default_directory.is_none() && other.system_disk.is_none());
    assert_eq!(other.volumes[0].configured_gib, 0);
}

#[test]
fn volumes_are_described_by_their_platform() {
    let mut facts = DiskFacts {
        label: "disk".into(),
        mount_point: "/data".into(),
        filesystem: "ext4".into(),
        available_bytes: (5 << 30) + 7,
        read_only: false,
        identity: Some("uuid".into()),
        pool: None,
        ownership: true,
    };
    let there = [location("nha", "uuid", "/data/a", 30)];
    let linux = describe_disk(&facts, "linux", VmProvider::Lima, &there);
    assert!(linux.eligible);
    assert_eq!(linux.available_gib, 5);
    assert_eq!(linux.configured_gib, 30);
    assert_eq!(linux.capacity_pool, "uuid");
    facts.filesystem = "ntfs".into();
    assert_eq!(
        describe_disk(&facts, "linux", VmProvider::Lima, &there).reason,
        "Requires a writable local ext4 or XFS volume with a stable identity"
    );
    facts.filesystem = "apfs".into();
    facts.pool = Some("apfs-container-disk3".into());
    assert!(describe_disk(&facts, "macos", VmProvider::Lima, &there).eligible);
    facts.ownership = false;
    assert!(!describe_disk(&facts, "macos", VmProvider::Lima, &there).eligible);
    let windows = describe_disk(&facts, "windows", VmProvider::Multipass, &there);
    assert_eq!(windows.reason, unsupported_reason(VmProvider::Multipass));
    assert_eq!(apfs_pool("/dev/disk3s5", "u"), "apfs-container-disk3");
    assert!(require_location_support(VmProvider::Lima, "linux").is_ok());
    assert!(require_location_support(VmProvider::Multipass, "linux").is_err());
    assert!(require_location_support(VmProvider::Lima, "windows").is_err());
}

#[test]
fn locations_are_available_on_their_original_volume() {
    let volumes = [volume("data", "/data", 50)];
    let m = mounts(&volumes);
    let here = location("nha", "data", "/data/a", 20);
    assert!(available(&here, &Some(at("/data/a")), &volumes, &m));
    assert!(!available(&here, &None, &volumes, &m));
    let moved = location("nha", "other", "/data/a", 20);
    assert!(!available(&moved, &Some(at("/data/a")), &volumes, &m));
    let found = inspect_locations(&[here.clone(), moved], &[Some(at("/data/a")), None], &volumes, &m);
    assert!(found[0].available && !found[1].available);
    assert!(holds_location(&[here.clone()], &here));
    let mut shared = vec![volume("data", "/data", 50)];
    reserve_system_disk(&mut shared, &at("/data/x"), &m, 16).unwrap();
    assert_eq!(shared[0].available_gib, 34);
    assert_eq!(
        reserve_system_disk(&mut shared, &at("/data/x"), &m, 30).unwrap_err().message,
        "Not enough space on the application volume for its system disk and 10 GiB host reserve"
    );
    assert!(reserve_system_disk(&mut shared, &at("/x"), &m, 1).is_err());
}

#[test]
fn layouts_divide_and_join_the_disks() {
    let total = [location("nha", "a", "/a", 12), location("nhb", "b", "/b", 30)];
    let layout = Layout::resolve(OWNER, &total, None).unwrap();
    assert_eq!(layout.system_location_id, "nhb");
    assert_eq!(layout.runtime_directory, "/b/.nh9511182e");
    assert_eq!(layout.system_gib, 16);
    let data = layout.data_locations(&total).unwrap();
    assert_eq!(sum_gib(&data), 26);
    let back = layout.total_locations(&data).unwrap();
    assert_eq!(back[1].allocation_gib, 30);
    layout.validate_path("linux").unwrap();
    assert_eq!(layout.home(), "/b/.nh9511182e");
    assert_eq!(
        Layout::resolve(OWNER, &[location("nha", "a", "/a", 20)], None).unwrap_err().message,
        "Choose at least 30 GiB total VM storage, including 16 GiB for the operating system"
    );
    let small = [location("nha", "a", "/a", 16), location("nhb", "b", "/b", 16)];
    assert!(Layout::resolve(OWNER, &small, None).unwrap_err().message.starts_with("One selected"));
    let long = Layout {
        runtime_directory: format!("/{}", "d".repeat(120)),
        ..layout.clone()
    };
    assert!(long.validate_path("linux").is_err());
    assert_eq!(remaining_bytes(2, 1 << 30).unwrap(), 1 << 30);
    assert_eq!(remaining_bytes(1, 2 << 30).unwrap(), 0);
    assert!(remaining_bytes(u64::MAX, 0).is_err());
}

#[test]
fn lost_storage_is_rebuilt_after_two_minutes() {
    assert_eq!(recovery_decision(true, false, 0, 500, 50, false), RecoveryDecision::Paused);
    assert_eq!(recovery_decision(true, true, 0, 500, 50, true), RecoveryDecision::Failed);
    assert_eq!(recovery_decision(false, true, 0, 500, 50, false), RecoveryDecision::Wait);
    assert_eq!(recovery_decision(true, true, 400, 519, 50, false), RecoveryDecision::Wait);
    assert_eq!(recovery_decision(true, true, 400, 520, 50, false), RecoveryDecision::Rebuild);
    assert_eq!(recovery_decision(true, true, 400, 520, 14, false), RecoveryDecision::Insufficient);
}

#[test]
fn sizes_are_whole_gibibytes() {
    assert_eq!(gib_for(0), 0);
    assert_eq!(gib_for(1), 1);
    assert_eq!(gib_for(1 << 30), 1);
    assert_eq!(required_capacity(8 << 30, false).unwrap(), 15);
    assert_eq!(required_capacity(16 << 30, false).unwrap(), 20);
    assert_eq!(required_capacity(16 << 30, true).unwrap(), 28);
    assert!(required_capacity(u64::MAX, false).is_err());
    assert_eq!(replacement_space_required(30, 10 << 30, 5 << 30), 35);
    assert_eq!(replacement_space_required(5, 10 << 30, 0), 10);
}

#[test]
fn configured_disks_follow_a_change() {
    let a = location("nha", "v", "/a", 10);
    let b = location("nhb", "v", "/b", 10);
    let c = location("nhc", "v", "/c", 10);
    let kept = configured_after_change(&[a.clone(), b.clone()], &[b], &[c]);
    assert!(kept.iter().any(|l| l.id == "nha"));
    assert!(kept.iter().any(|l| l.id == "nhc"));
    assert!(!kept.iter().any(|l| l.id == "nhb"));
}

fn backup() -> Backup {
    Backup {
        path: "/b/backup".into(),
        volume_id: "v".into(),
        bytes: 3,
        sha256: Some("ba7816bf8f01cfea414140de5dae2223b00361a396177a9cb410ff61f20015ad".into()),
        verified: true,
    }
}

#[test]
fn backups_are_verified_by_their_checksum() {
    let mut read = Checksum::new();
    read.update(b"a").unwrap();
    read.update(b"bc").unwrap();
    assert_eq!(read.size(), 3);
    check_backup(&backup(), read).unwrap();
    let mut other = Checksum::new();
    other.update(b"abd").unwrap();
    assert_eq!(
        check_backup(&backup(), other).unwrap_err().message,
        "Backup checksum failed; preserve the source images and verified recovery record"
    );
    let (hash, size) = Checksum::new().finish();
    assert_eq!(hash, "e3b0c44298fc1c149afbf4c8996fb92427ae41e4649b934ca495991b7852b855");
    assert_eq!(size, 0);
    let mut unverified = backup();
    unverified.verified = false;
    assert_eq!(
        require_verified(&unverified).unwrap_err().message,
        "No verified backup authorizes source deletion"
    );
    require_verified(&backup()).unwrap();
}

#[test]
fn backups_are_private_files_on_their_volume() {
    let mut facts = FileFacts {
        regular: true,
        private: true,
        single_link: true,
        owned: true,
        volume_id: Some("v".into()),
    };
    check_backup_file(&facts, &backup()).unwrap();
    facts.volume_id = Some("w".into());
    assert_eq!(
        check_backup_file(&facts, &backup()).unwrap_err().message,
        "The original backup volume has changed"
    );
    facts.private = false;
    assert_eq!(
        check_backup_file(&facts, &backup()).unwrap_err().message,
        "Backup must be private to the owner"
    );
    facts.regular = false;
    assert_eq!(
        check_backup_file(&facts, &backup()).unwrap_err().message,
        "Backup is not a regular file"
    );
    assert!(backup_owner("nobody").is_err());
}

#[test]
fn disks_have_their_own_directory_and_receipt() {
    let there = location(DISK, "v", "/data", 20);
    let paths = disk_paths("/home/lima", OWNER, &there).unwrap();
    assert!(paths.image.starts_with("/data/") && paths.link.starts_with("/home/lima/"));
    assert!(paths.receipt.starts_with(&paths.directory));
    let receipt = DiskReceipt::new(OWNER, &there).unwrap();
    receipt.verify(OWNER, &there).unwrap();
    let mut grown = there.clone();
    grown.allocation_gib = 30;
    assert!(receipt.verify(OWNER, &grown).is_err());
    assert!(receipt.verify("40423e6c-1de0-46dc-a634-144671b655cd", &there).is_err());
    assert!(validate_location(OWNER, &location("disk/one", "v", "/data", 20)).is_err());
    assert!(absolute_path("/data").is_ok() && absolute_path("data").is_err());
    assert!(same_disk(&there, &grown).is_ok());
    assert!(same_disk(&there, &location("nhother", "v", "/data", 20)).is_err());
    assert!(LimaStorage::new(true, VmProvider::Multipass, "/h", OWNER).is_err());
    let adapter = LimaStorage::new(true, VmProvider::Lima, "/home/lima", OWNER).unwrap();
    assert_eq!(adapter.paths(&there).unwrap().image, paths.image);
}

#[test]
fn copies_are_compared_where_either_has_data() {
    assert_eq!(extent(0, 10, 20).unwrap(), (0, 10));
    assert!(extent(10, 5, 20).is_err());
    let ranges = compared_ranges(&[(0, 5)], &[(3, 8), (10, 12)]);
    let covers = |byte: u64| ranges.iter().any(|r| r.0 <= byte && byte < r.1);
    for byte in [0, 4, 5, 7, 10, 11] {
        assert!(covers(byte));
    }
    assert!(!covers(9) && !covers(12));
}

#[test]
fn disks_count_with_their_own_receipts() {
    let there = location(DISK, "v", "/data", 20);
    let sight = |gib: u64| {
        let mut of = there.clone();
        of.allocation_gib = gib;
        Some(ImageSight {
            receipt: DiskReceipt::new(OWNER, &of).unwrap(),
            regular: true,
            blocks: 4,
        })
    };
    let found = allocated_bytes("/lima", OWNER, &[there.clone()], &[sight(20)]);
    assert_eq!(found, vec![(DISK.to_string(), 2048)]);
    assert!(allocated_bytes("/lima", OWNER, &[there.clone()], &[sight(30)]).is_empty());
    assert!(allocated_bytes("/lima", OWNER, &[there.clone()], &[None]).is_empty());
    assert_eq!(bytes_of_blocks(u64::MAX), u64::MAX);
    let here = SystemImage::Present { regular: true, here: true, blocks: 2 };
    let away = SystemImage::Present { regular: true, here: false, blocks: 2 };
    assert_eq!(allocated_system_bytes(&[SystemImage::Missing, here]).unwrap(), 1024);
    assert_eq!(allocated_system_bytes(&[SystemImage::Missing]).unwrap(), 0);
    assert_eq!(
        allocated_system_bytes(&[away]).unwrap_err().message,
        "The worker system disk is not on its application volume"
    );
    assert_eq!(
        allocated_system_bytes(&[SystemImage::Unreadable]).unwrap_err().message,
        "Cannot inspect the worker system disk"
    );
}

#[test]
fn volumes_are_identified_by_their_device() {
    let devices = [("first".to_string(), 7), ("second".to_string(), 8)];
    assert_eq!(device_uuid(&devices, 8).unwrap(), "second");
    assert_eq!(
        device_uuid(&devices, 9).unwrap_err().message,
        "Storage volume UUID is unavailable"
    );
    assert_eq!(
        windows_identity("\\\\?\\Volume{ab}\\data\\file").unwrap(),
        "\\\\?\\Volume{ab}\\"
    );
    assert_eq!(
        windows_identity("C:\\data").unwrap_err().message,
        "Backup has no stable Windows volume identity"
    );
}

#[test]
fn worker_files_are_private_and_linked_to_their_disk() {
    let good = StorageFacts { expected: true, single_link: true, private: true };
    check_private_directory(good).unwrap();
    check_private_file(good).unwrap();
    let file = |facts| check_private_file(facts).unwrap_err().message;
    assert_eq!(
        file(StorageFacts { expected: false, ..good }),
        "Worker storage must be a regular file"
    );
    assert_eq!(
        file(StorageFacts { single_link: false, ..good }),
        "Worker storage cannot be a hard link"
    );
    assert_eq!(
        file(StorageFacts { private: false, ..good }),
        "Worker storage must be private to its owner"
    );
    assert_eq!(
        check_private_directory(StorageFacts { expected: false, ..good }).unwrap_err().message,
        "Worker storage directory was replaced"
    );
    check_link(Some("/data/disk/"), "/data/disk", true).unwrap();
    assert_eq!(
        check_link(Some("/data"), "/data/disk", true).unwrap_err().message,
        "Worker disk points to an unexpected storage location"
    );
    assert!(check_link(None, "/data", true).is_err());
    assert!(check_link(Some("/data"), "/data", false).is_err());
    assert!(check_disk_volume("v", "v").is_ok() && check_disk_volume("v", "w").is_err());
}

#[test]
fn maintenance_checks_the_data_again() {
    let usage = parse_text("{\"dataBytes\":17179869184}").unwrap();
    check_capacity(20, false, &usage).unwrap();
    assert_eq!(
        check_capacity(19, false, &usage).unwrap_err().message,
        "Data now requires 20 GiB; source images are preserved"
    );
    assert_eq!(
        check_capacity(19, false, &parse_text("{}").unwrap()).unwrap_err().message,
        "Cannot inspect stopped worker data"
    );
    assert!(backup_removed(false, Some("v"), &backup()));
    assert!(!backup_removed(true, Some("v"), &backup()));
    assert!(!backup_removed(false, Some("w"), &backup()));
    assert!(!backup_removed(false, None, &backup()));
}

#[test]
fn disks_are_made_and_grown_by_the_runtime() {
    let disk = location(DISK, "v", "/data", 20);
    let larger = location(DISK, "v", "/data", 30);
    assert_eq!(
        LimaStorage::state_args(),
        ["list", "--json", "--filter=.name == \"worker\""]
    );
    assert_eq!(LimaStorage::disk_args(&disk), ["disk", "list", DISK, "--json"]);
    assert_eq!(
        LimaStorage::create_args(&disk),
        ["disk", "create", DISK, "--size=20GiB", "--format=raw"]
    );
    assert_eq!(
        LimaStorage::resize_args(&disk, &larger),
        ["disk", "resize", DISK, "--size=30GiB"]
    );
    assert_eq!(LimaStorage::delete_args(&disk), ["disk", "delete", DISK]);
    let adapter = LimaStorage::new(true, VmProvider::Lima, "/home/lima", OWNER).unwrap();
    let link = adapter.paths(&disk).unwrap().link;
    let listed = format!(
        "{{\"name\":\"{DISK}\",\"format\":\"raw\",\"dir\":\"{link}\",\"size\":21474836480,\"instance\":\"\"}}"
    );
    let seen = adapter.runtime_disk(&disk, &listed).unwrap();
    LimaStorage::check_new(&disk, &seen).unwrap();
    assert_eq!(
        LimaStorage::check_new(&larger, &seen).unwrap_err().message,
        "New disk has unexpected capacity or is attached to another instance"
    );
    assert_eq!(
        adapter.runtime_disk(&disk, &listed.replace(&link, "/elsewhere")).unwrap_err().message,
        "Lima reported an unexpected disk directory"
    );
    assert_eq!(
        adapter.runtime_disk(&disk, &listed.replace("raw", "vdi")).unwrap_err().message,
        "Lima returned a different or unsupported disk"
    );
    assert_eq!(
        adapter.runtime_disk(&disk, "").unwrap_err().message,
        "Lima did not report the configured disk"
    );
    check_move(&disk, &location(DISK, "w", "/other", 20)).unwrap();
    assert_eq!(
        check_move(&disk, &larger).unwrap_err().message,
        "Moving storage must preserve its disk allocation"
    );
    assert_eq!(
        disk_refusal_message(DiskRefusal::StillRegistered),
        "Cannot remove a registered worker disk"
    );
}
