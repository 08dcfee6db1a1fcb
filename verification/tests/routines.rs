use nodeharbor_agent::activity::ActivityLog;
use nodeharbor_agent::agent::apply::{begin_recovery, commit_maintenance, resolve_initial_storage};
use nodeharbor_agent::agent::inventory::{
    discover_storage, reserve_boot_storage, validate_storage, validate_targets,
    verify_replacement_pool,
};
use nodeharbor_agent::agent::owner::Runtime;
use nodeharbor_agent::agent::review::{
    candidate_folders, check_replacement_space, plan_replacement, preview_storage_growth,
    review_replacement, select_backup, Candidate, WorkerFacts,
};
use nodeharbor_agent::agent::steps::{
    facts, has_expired, needs_resize, phase_text, refusal_message, Memory, Refusal, Stage,
    StorageSave,
};
use nodeharbor_agent::agent::work::{
    changed_settings, check_pool, moved_disk, note, pool_work, previous_disk, reset_request,
    save_storage, target_disk, wanted_settings, Findings,
};
use nodeharbor_agent::json::{parse_text, Json};
use nodeharbor_agent::policy::{Policy, Resources};
use nodeharbor_agent::runtime_storage::Relocation;
use nodeharbor_agent::storage::{
    ChangePlan, DirectorySight, HostPath, Inventory, Location, LocationStatus, Mounts, Operation, Selection,
    Volume,
};
use nodeharbor_agent::storage_layout::Layout;
use nodeharbor_agent::storage_lifecycle::{Backup, Kind, Phase, ReplacementSpace, Review};
use nodeharbor_agent::storage_plan::{Probe, Sighting};
use nodeharbor_agent::store::WorkerRecreation;
use nodeharbor_agent::{Configuration, OutputStream, VmProvider, WorkloadInventory};

const OWNER: &str = "9511182e-9c48-4d20-a15b-1da8bb441386";
const POOL: &str = "40423e6c-1de0-46dc-a634-144671b655cd";
const POOL_ID: u128 = 0x40423e6c_1de0_46dc_a634_144671b655cd;

fn settings(provider: VmProvider) -> Configuration {
    let policy = Policy {
        enabled: true,
        resources: Resources { cpus: 2, memory_mib: 2048, disk_gib: 30 },
        drain_seconds: 300,
        allow_ci: true,
        allow_services: false,
        rules: "{}".into(),
    };
    let mut config = Configuration::new("linux", None, policy);
    config.device_id = OWNER.into();
    config.vm_provider = provider;
    config
}

fn location(id: &str, gib: u64) -> Location {
    Location {
        id: id.into(),
        volume_id: "v".into(),
        directory: format!("/data/{id}"),
        allocation_gib: gib,
    }
}

fn layout() -> Layout {
    Layout {
        version: 1,
        system_location_id: "nha".into(),
        volume_id: "v".into(),
        runtime_directory: "/data/nha/.nh9511182e".into(),
        system_gib: 16,
    }
}

fn operation() -> Operation {
    let mut moved = location("nha", 40);
    moved.directory = "/other".into();
    Operation {
        layout: Some(layout()),
        previous: vec![location("nha", 30)],
        target: vec![moved, location("nhb", 15)],
        generation: 3,
        phase: "pending".into(),
        paused: false,
    }
}

fn review(kind: Kind) -> Review {
    Review {
        kind,
        backup: None,
        minimum_gib: 15,
        temporary_bytes: 0,
        deletions: vec![],
        downtime: "".into(),
    }
}

fn maintained() -> Configuration {
    let mut config = settings(VmProvider::Lima);
    config.storage_locations = vec![location("nha", 30)];
    let plan = ChangePlan {
        maintenance: Some(review(Kind::ResizeRemove)),
        layout: None,
        revision: 0,
        locations: vec![location("nha", 20)],
        total_gib: 20,
        requires_restart: true,
    };
    let asked = review(Kind::ResizeRemove);
    commit_maintenance(&mut config, &plan, &asked, 7, POOL_ID, &[9], 50).unwrap();
    config
}

fn findings() -> Findings {
    Findings {
        error: "the reason".into(),
        maintenance: None,
        operation: None,
        backup: None,
        hash: "ab".into(),
        bytes: 12,
        missing: vec![],
        remaining: vec![],
        layout: None,
        relocation: None,
    }
}

fn volume(free: u64) -> Volume {
    Volume {
        id: "v".into(),
        capacity_pool: "v".into(),
        label: "disk".into(),
        mount_point: "/".into(),
        filesystem: "ext4".into(),
        available_gib: free,
        configured_gib: 0,
        eligible: true,
        reason: "".into(),
    }
}

fn mounts() -> Mounts {
    Mounts { platform: "linux".into(), resolved: vec![Some("/".into())] }
}

fn at(path: &str) -> HostPath {
    HostPath { path: path.into(), native_volume: None }
}

fn there(path: &str) -> DirectorySight {
    DirectorySight::Present { directory: true, canonical: Some(path.into()) }
}

fn sighting(path: &str) -> Sighting {
    Sighting { seen: there(path), native_volume: None, probe: Probe::Writable }
}

fn inventory() -> Inventory {
    Inventory {
        active_gib: 0,
        configured_gib: 0,
        recovery_enabled: false,
        disabled: false,
        excluded: vec![],
        backup_cleanup: vec![],
        recovery_backup: None,
        default_directory: None,
        supported: true,
        reason: "".into(),
        volumes: vec![volume(500)],
        locations: vec![],
        revision: 0,
        operation: None,
        retained_copies: vec![],
        retained_runtime_directories: vec![],
        system_disk: None,
        layout: None,
        pending_update: None,
    }
}

#[test]
fn memories_change_what_is_remembered() {
    let mut runtime = Runtime::default();
    let reply = parse_text(&format!("{{\"systemPodUids\":[\"{OWNER}\",\"{POOL}\"]}}")).unwrap();
    note(&mut runtime, Memory::UpdateReady(true), None, &Json::Null).unwrap();
    assert!(runtime.application_update_ready);
    note(&mut runtime, Memory::StoppingNow(true), None, &Json::Null).unwrap();
    assert!(runtime.stopping_now);
    note(&mut runtime, Memory::SystemPods, None, &reply).unwrap();
    assert_eq!(runtime.system_pod_uids, [OWNER, POOL]);
    let broken = parse_text("{\"systemPodUids\":3}").unwrap();
    assert_eq!(
        note(&mut runtime, Memory::SystemPods, None, &broken).unwrap_err().message,
        "The controller returned an invalid system pod inventory"
    );
    assert_eq!(runtime.system_pod_uids.len(), 2);
    let counted = || {
        Some(WorkloadInventory { workloads: vec![Json::Null], system_components: vec![Json::Null] })
    };
    // Workloads are shown only of a worker that runs.
    note(&mut runtime, Memory::Workloads, counted(), &reply).unwrap();
    assert_eq!(runtime.workloads.len(), 0);
    runtime.worker.running = true;
    note(&mut runtime, Memory::Workloads, counted(), &reply).unwrap();
    assert_eq!(runtime.workloads.len(), 2);
    note(&mut runtime, Memory::WorkerStopped, None, &reply).unwrap();
    assert!(!runtime.worker.running);
    assert_eq!(runtime.workloads.len(), 2);
    note(&mut runtime, Memory::WorkerEmptied, None, &reply).unwrap();
    assert_eq!(runtime.workloads.len(), 0);
    note(&mut runtime, Memory::Counted, counted(), &reply).unwrap();
    assert_eq!(runtime.workloads.len(), 2);
    runtime.worker.installed = true;
    note(&mut runtime, Memory::WorkerRemoved, None, &reply).unwrap();
    assert!(!runtime.worker.installed);
    assert_eq!(runtime.workloads.len(), 0);
}

#[test]
fn pools_follow_what_is_under_way() {
    let mut config = settings(VmProvider::Lima);
    config.storage_lifecycle.pool_id = Some(POOL_ID);
    config.storage_locations = vec![location("nha", 30)];
    config.storage_generation = 2;
    let used = pool_work(&config);
    assert_eq!((used.target.len(), used.previous.len(), used.generation), (1, 0, 2));
    assert_eq!(used.pool, POOL);
    config.storage_operation = Some(operation());
    let changed = pool_work(&config);
    assert_eq!((changed.target.len(), changed.previous.len(), changed.generation), (2, 1, 3));
    assert!(changed.migrate);
    let replaced = pool_work(&maintained());
    assert_eq!((replaced.target.len(), replaced.previous.len(), replaced.generation), (1, 0, 1));
    assert_eq!(replaced.pool, POOL);
    assert!(!replaced.migrate);
}

#[test]
fn changes_find_their_disks() {
    let mut config = settings(VmProvider::Lima);
    assert_eq!(
        previous_disk(&config, 0).unwrap_err().message,
        "Storage operation was interrupted"
    );
    config.storage_operation = Some(operation());
    assert_eq!(previous_disk(&config, 0).unwrap().directory, "/data/nha");
    assert_eq!(previous_disk(&config, 1).unwrap_err().message, "Storage operation changed");
    assert_eq!(target_disk(&config, 1).unwrap().id, "nhb");
    let (old, moved) = moved_disk(&config, 0).unwrap();
    assert_eq!(old.directory, "/data/nha");
    assert_eq!((moved.directory.as_str(), moved.allocation_gib), ("/other", 30));
    assert_eq!(moved_disk(&config, 1).unwrap_err().message, "Storage operation changed");
    let after = changed_settings(&config);
    assert_eq!((after.storage_locations.len(), after.storage_generation), (2, 3));
    let wanted = wanted_settings(&config);
    assert_eq!((wanted.storage_locations.len(), wanted.storage_generation), (2, 0));
    assert_eq!(wanted.storage_layout.unwrap().system_location_id, "nha");
}

#[test]
fn resets_are_requested_once() {
    let mut config = settings(VmProvider::Lima);
    assert_eq!(
        reset_request(&config).unwrap_err().message,
        "No worker replacement is pending"
    );
    config.recreation =
        Some(WorkerRecreation { request_id: 5, access_removed: false, target_provider: None });
    assert_eq!(reset_request(&config).unwrap(), 5);
    let mut both = maintained();
    both.recreation = config.recreation;
    assert_eq!(reset_request(&both).unwrap(), 7);
}

#[test]
fn replaced_pools_are_the_reviewed_ones() {
    let config = maintained();
    let target = &config.storage_lifecycle.maintenance.as_ref().unwrap().target;
    let state = |pool: &str| {
        parse_text(&format!(
            "{{\"capacityBytes\":20000000000,\"deviceId\":\"{OWNER}\",\"poolId\":\"{pool}\",\"generation\":1,\"migrationComplete\":true,\"disks\":[{{\"id\":\"{}\",\"allocationBytes\":21474836480}}]}}",
            target[0].id
        ))
        .unwrap()
    };
    check_pool(&config, &state(POOL)).unwrap();
    verify_replacement_pool(OWNER, POOL, 1, target, &state(POOL)).unwrap();
    assert_eq!(
        check_pool(&config, &state(OWNER)).unwrap_err().message,
        "Replacement pool identity changed"
    );
    let mut large = config.clone();
    large.storage_lifecycle.maintenance.as_mut().unwrap().target[0].allocation_gib = u64::MAX;
    assert_eq!(
        check_pool(&large, &state(POOL)).unwrap_err().message,
        "The worker's storage allocation is too large"
    );
}

#[test]
fn records_of_a_maintenance_are_saved() {
    let mut config = maintained();
    let mut found = findings();
    found.maintenance = config.storage_lifecycle.maintenance.clone();
    save_storage(&mut config, StorageSave::MaintenancePhase(Phase::Backup), &found, 60).unwrap();
    assert_eq!(
        save_storage(&mut config, StorageSave::BackupMade, &found, 60).unwrap_err().message,
        "Backup record disappeared"
    );
    found.backup = Some(Backup {
        path: "/b/file".into(),
        volume_id: "v".into(),
        bytes: 0,
        sha256: None,
        verified: false,
    });
    save_storage(&mut config, StorageSave::BackupMade, &found, 60).unwrap();
    save_storage(&mut config, StorageSave::BackupVerified, &found, 60).unwrap();
    let op = config.storage_lifecycle.maintenance.clone().unwrap();
    assert_eq!(op.phase, Phase::BackupVerified);
    assert_eq!(op.backup.unwrap().sha256.as_deref(), Some("ab"));
    save_storage(&mut config, StorageSave::PreviousRetired, &found, 60).unwrap();
    assert_eq!(config.storage_lifecycle.retired[0].id, "nha");
    save_storage(&mut config, StorageSave::DiskRemoved(0), &found, 60).unwrap();
    assert!(config.storage_lifecycle.retired.is_empty());
    assert_eq!(
        save_storage(&mut config, StorageSave::DiskRemoved(1), &found, 60).unwrap_err().message,
        "Storage operation changed"
    );
    save_storage(&mut config, StorageSave::MaintenanceFailed, &found, 60).unwrap();
    let shown = config.storage_lifecycle.maintenance.as_ref().unwrap().error.clone().unwrap();
    assert!(shown.contains("the reason"));
    let mut last = config.clone();
    last.storage_revision = u64::MAX;
    assert_eq!(
        save_storage(&mut last, StorageSave::MaintenanceFinished, &found, 60).unwrap_err().message,
        "Storage revision overflow"
    );
    save_storage(&mut config, StorageSave::MaintenanceFinished, &found, 60).unwrap();
    assert!(config.storage_lifecycle.maintenance.is_none());
}

#[test]
fn records_of_a_change_are_saved() {
    let mut config = settings(VmProvider::Lima);
    let mut found = findings();
    assert_eq!(
        save_storage(&mut config, StorageSave::OperationFinished, &found, 60).unwrap_err().message,
        "Storage operation was interrupted"
    );
    config.storage_operation = Some(operation());
    found.operation = Some(operation());
    save_storage(&mut config, StorageSave::OperationStage(Stage::Guest), &found, 60).unwrap();
    assert_eq!(config.storage_operation.as_ref().unwrap().phase, "guest");
    assert_eq!(
        save_storage(&mut config, StorageSave::OperationFinished, &found, 60).unwrap_err().message,
        "Storage operation changed"
    );
    save_storage(&mut config, StorageSave::OperationStage(Stage::Verified), &found, 60).unwrap();
    save_storage(&mut config, StorageSave::OperationFinished, &found, 60).unwrap();
    assert!(config.storage_operation.is_none());
    assert_eq!(config.storage_locations.len(), 2);
    found.missing = vec![location("nhb", 15)];
    save_storage(&mut config, StorageSave::StorageMissing, &found, 60).unwrap();
    let missing = config.storage_lifecycle.missing.clone().unwrap();
    assert_eq!((missing.since, missing.last_check, missing.locations.len()), (60, 60, 1));
    save_storage(&mut config, StorageSave::ReturnFailed, &found, 60).unwrap();
    assert!(config.storage_lifecycle.missing.as_ref().unwrap().error.is_some());
    save_storage(&mut config, StorageSave::StorageReturned, &found, 60).unwrap();
    assert!(config.storage_lifecycle.missing.is_none());
    assert!(save_storage(&mut config, StorageSave::ReturnFailed, &found, 60).is_err());
}

#[test]
fn records_of_a_move_are_saved() {
    let mut config = settings(VmProvider::Lima);
    let mut found = findings();
    for change in [
        StorageSave::LayoutKept,
        StorageSave::RelocationBegun,
        StorageSave::RelocationSwitched,
        StorageSave::RelocationFinished,
        StorageSave::RuntimeForgotten,
    ] {
        assert_eq!(
            save_storage(&mut config, change, &found, 60).unwrap_err().message,
            "VM relocation was canceled"
        );
    }
    found.layout = Some(layout());
    found.relocation = Some(Relocation {
        source: "/settings/lima".into(),
        source_volume_id: "v".into(),
        target: layout(),
        switched: false,
    });
    save_storage(&mut config, StorageSave::RelocationBegun, &found, 60).unwrap();
    save_storage(&mut config, StorageSave::RelocationSwitched, &found, 60).unwrap();
    assert!(config.runtime_relocation.as_ref().unwrap().switched);
    save_storage(&mut config, StorageSave::RelocationFinished, &found, 60).unwrap();
    assert!(config.runtime_relocation.is_none());
    config.runtime_retained = vec![layout()];
    save_storage(&mut config, StorageSave::RuntimeForgotten, &found, 60).unwrap();
    assert!(config.runtime_retained.is_empty());
    config.storage_layout = None;
    save_storage(&mut config, StorageSave::LayoutKept, &found, 60).unwrap();
    assert_eq!(config.storage_layout.unwrap().system_gib, 16);
}

#[test]
fn rebuilds_are_begun_where_the_owner_permits_it() {
    let mut config = settings(VmProvider::Lima);
    config.storage_locations = vec![location("nha", 30), location("nhb", 15)];
    let mut found = findings();
    found.remaining = vec![location("nha", 30)];
    assert_eq!(
        save_storage(&mut config, StorageSave::RecoveryBegun, &found, 60).unwrap_err().message,
        "Owner paused automatic recovery"
    );
    config.storage_lifecycle.recovery_enabled = true;
    let mut given = config.clone();
    save_storage(&mut config, StorageSave::RecoveryBegun, &found, 60).unwrap();
    let op = config.storage_lifecycle.maintenance.as_ref().unwrap();
    assert_eq!((op.review.kind, op.phase, op.total_gib), (Kind::FailureRecovery, Phase::Reset, 30));
    assert_ne!(op.target[0].id, "nha");
    begin_recovery(&mut given, &found.remaining, 30, 1, 2, &[3]).unwrap();
    assert_eq!(given.storage_lifecycle.maintenance.as_ref().unwrap().request_id, 1);
    assert_eq!(given.storage_revision, 1);
}

#[test]
fn initial_disks_are_resolved_from_their_plan() {
    let mut config = settings(VmProvider::Lima);
    let mut plan = ChangePlan {
        maintenance: None,
        layout: None,
        revision: 0,
        locations: vec![location("nha", 50)],
        total_gib: 50,
        requires_restart: false,
    };
    assert_eq!(
        resolve_initial_storage(&mut config, &plan).unwrap_err().message,
        "Missing VM storage layout"
    );
    plan.layout = Some(layout());
    resolve_initial_storage(&mut config, &plan).unwrap();
    assert_eq!(config.storage_locations[0].allocation_gib, 34);
    assert_eq!((config.format_version, config.storage_revision), (7, 1));
    assert_eq!(
        resolve_initial_storage(&mut config, &plan).unwrap_err().message,
        "Storage settings changed during preparation; retry"
    );
}

#[test]
fn saved_storage_is_validated_against_the_host() {
    let mut config = settings(VmProvider::Lima);
    config.storage_locations = vec![location("nha", 30)];
    config.storage_generation = 1;
    let volumes = [volume(500)];
    let status = |available| LocationStatus {
        location: location("nha", 30),
        available,
        reason: "Reconnect this volume".into(),
    };
    let seen = [sighting("/data/nha")];
    let check = |volumes: &[Volume], statuses: &[LocationStatus]| {
        validate_storage(&config, "linux", "/s", volumes, &mounts(), &[], &seen, statuses)
    };
    check(&volumes, &[status(true)]).unwrap();
    assert!(check(&volumes, &[status(false)]).is_err());
    assert!(check(&[volume(20)], &[status(true)]).is_err());
    assert!(validate_storage(&config, "windows", "/s", &volumes, &mounts(), &[], &seen, &[
        status(true)
    ])
    .is_err());
    let target = [location("nha", 30)];
    validate_targets(&target, "/s", &volumes, &mounts(), &[], &seen).unwrap();
    assert!(validate_targets(&target, "/s", &[volume(20)], &mounts(), &[], &seen).is_err());
    // What the disk takes already is not asked for again.
    let taken = [("nha".to_string(), 30 * 1_073_741_824u64)];
    validate_targets(&target, "/s", &[volume(20)], &mounts(), &taken, &seen).unwrap();
}

#[test]
fn hosts_keep_room_for_the_system_disk() {
    let config = settings(VmProvider::Lima);
    let found = discover_storage(
        &config,
        "/s",
        inventory(),
        &[],
        &Some(at("/s/lima/worker")),
        &mounts(),
    );
    let system = found.system_disk.unwrap();
    assert_eq!((system.directory.as_str(), system.allocation_gib), ("/s/lima/worker", 16));
    assert_eq!(found.volumes[0].configured_gib, 16);
    let mut volumes = vec![volume(500)];
    reserve_boot_storage(&config, &mut volumes, &at("/s/lima"), &mounts(), 0).unwrap();
    assert_eq!(volumes[0].available_gib, 484);
    let mut volumes = vec![volume(500)];
    let half = 8 * 1_073_741_824;
    reserve_boot_storage(&config, &mut volumes, &at("/s/lima"), &mounts(), half).unwrap();
    assert_eq!(volumes[0].available_gib, 492);
}

#[test]
fn growth_is_reviewed_without_a_backup() {
    let config = settings(VmProvider::Lima);
    let wanted = [Selection { id: None, directory: "/data/nha".into(), allocation_gib: 40 }];
    let seen = [sighting("/data/nha")];
    let volumes = [volume(500)];
    let plan = preview_storage_growth(
        &config, "linux", false, Some("/s/storage"), &wanted, None, &volumes, &mounts(), &[], &seen,
    )
    .unwrap();
    assert_eq!((plan.total_gib, plan.requires_restart, plan.maintenance.is_none()), (40, false, true));
    assert_eq!(
        preview_storage_growth(
            &config, "linux", false, None, &wanted, None, &volumes, &mounts(), &[], &[],
        )
        .unwrap_err()
        .message,
        "The runtime does not report its managed storage directory"
    );
    let data = [location("nha", 24)];
    let prepared = preview_storage_growth(
        &config, "linux", true, Some("/s/storage"), &wanted, Some(&data), &volumes, &mounts(), &[], &[],
    )
    .unwrap();
    assert_eq!((prepared.total_gib, prepared.requires_restart), (24, true));
}

#[test]
fn replacements_are_planned_by_their_runtime() {
    let single = settings(VmProvider::Multipass);
    let plan = |gib| {
        plan_replacement(&single, "windows", "/s", &[], gib, None, &[], &mounts(), &[], &[])
    };
    let (disks, total) = plan(Some(40)).unwrap();
    assert_eq!((disks.len(), total), (0, 40));
    assert_eq!(plan(None).unwrap_err().message, "Choose a single worker disk allocation");
    assert_eq!(plan(Some(14)).unwrap_err().message, "Choose at least 15 GiB of worker storage");
    let lima = settings(VmProvider::Lima);
    let wanted = [Selection { id: None, directory: "/data/nha".into(), allocation_gib: 20 }];
    let (disks, total) = plan_replacement(
        &lima,
        "linux",
        "/s",
        &wanted,
        None,
        None,
        &[volume(500)],
        &mounts(),
        &[],
        &[sighting("/data/nha")],
    )
    .unwrap();
    assert_eq!((disks[0].allocation_gib, total), (20, 20));
}

#[test]
fn daemons_need_room_for_a_replacement() {
    let space = ReplacementSpace { directory: at("/daemon"), reclaimed_bytes: 10 * 1_073_741_824 };
    check_replacement_space(&space, 40, None, &[volume(40)], &mounts()).unwrap();
    assert_eq!(
        check_replacement_space(&space, 40, None, &[volume(39)], &mounts()).unwrap_err().message,
        "The Multipass disk volume needs 40 GiB free for replacement and the host reserve; available space is 39 GiB. Source storage is preserved"
    );
    assert_eq!(
        check_replacement_space(&space, 40, None, &[], &Mounts {
            platform: "linux".into(),
            resolved: vec![],
        })
        .unwrap_err()
        .message,
        "Cannot verify free space on the Multipass daemon's disk volume; nothing was changed"
    );
}

#[test]
fn backups_go_to_a_folder_with_room() {
    let mut config = settings(VmProvider::Lima);
    config.storage_locations = vec![location("nha", 30)];
    assert_eq!(candidate_folders(&config, "/s", None), ["/data/nha"]);
    assert_eq!(candidate_folders(&config, "/s", Some("/backup")), ["/backup"]);
    assert_eq!(candidate_folders(&settings(VmProvider::Lima), "/s", None), ["/s"]);
    let target = [location("nhnew", 20)];
    let choose = |free: u64, path: &str| {
        select_backup(
            &config,
            "/s",
            &target,
            &[volume(free)],
            &mounts(),
            &[],
            Some(path),
            &[Candidate { seen: there(path), native_volume: None }],
            1_073_741_824,
            None,
        )
    };
    let found = choose(500, "/backup").unwrap();
    assert_eq!((found.directory.as_str(), found.volume_id.as_str()), ("/backup", "v"));
    assert!(choose(5, "/backup").unwrap_err().message.starts_with(
        "Choose a temporary backup folder with at least 1 GiB free"
    ));
    let inside = format!("/data/nha/.nodeharbor/{OWNER}/nha");
    assert!(choose(500, &inside).is_err());
}

#[test]
fn replacements_are_reviewed_with_the_workers_data() {
    let mut config = settings(VmProvider::Lima);
    config.storage_locations = vec![location("nha", 30)];
    let worker = |reachable| WorkerFacts {
        reachable,
        usage: parse_text("{\"dataBytes\":1073741824,\"backupBytes\":1073741824}").unwrap(),
        replacement: None,
        candidates: vec![Candidate { seen: there("/backup"), native_volume: None }],
    };
    let ask = |receipt: bool, reachable: bool| {
        review_replacement(
            &config,
            "/s",
            receipt,
            &worker(reachable),
            vec![location("nhnew", 20)],
            20,
            Some("/backup"),
            &[volume(500)],
            &mounts(),
            &[],
        )
    };
    // Before the first worker there is nothing to keep.
    let fresh = ask(false, false).unwrap();
    assert!(!fresh.requires_restart);
    assert!(fresh.maintenance.unwrap().backup.is_none());
    assert_eq!(
        ask(true, false).unwrap_err().message,
        "Start the existing worker so NodeHarbor can inspect its data before reviewing a smaller allocation"
    );
    let plan = ask(true, true).unwrap();
    assert!(plan.requires_restart);
    let asked = plan.maintenance.unwrap();
    assert_eq!(asked.temporary_bytes, 2 * 1_073_741_824);
    assert_eq!(asked.backup.unwrap().directory, "/backup");
}

#[test]
fn texts_name_phases_and_refusals() {
    assert_eq!(phase_text(Phase::BackupVerified), "BackupVerified");
    assert_eq!(refusal_message(Refusal::NoMaintenance), "No storage maintenance");
    assert_eq!(
        refusal_message(Refusal::RetiredIsActive),
        "Cannot remove the active VM runtime"
    );
    let mut config = settings(VmProvider::Lima);
    config.vm_configured = true;
    config.draining_since = Some(100);
    let early = facts(&config, 399);
    assert!(needs_resize(early));
    assert!(!has_expired(early));
    assert!(has_expired(facts(&config, 400)));
    config.allocated_resources = Some(config.policy.resources);
    assert!(!needs_resize(facts(&config, 0)));
}

#[test]
fn commands_end_in_the_log() {
    let mut log = ActivityLog::default();
    let hidden = ["abcdefgh".to_string()];
    log.begin_step("Starting Ubuntu VM", None, "t0");
    log.follow(OutputStream::Stdout, "worker", "key abcdefgh", &hidden, "t1");
    let shown = log.conclude("Starting Ubuntu VM", "worker", false, "bad abcdefgh", &hidden, "t2");
    assert_eq!(shown, "bad [redacted]");
    let seen = log.snapshot();
    assert!(seen.step.is_none());
    let messages: Vec<&str> = seen.entries.iter().map(|e| e.message.as_str()).collect();
    assert!(messages.contains(&"key [redacted]"));
    assert_eq!(messages.last(), Some(&"Starting Ubuntu VM failed: bad [redacted]"));
    assert_eq!(seen.entries.last().unwrap().level, "error");
    log.conclude("Starting Ubuntu VM", "worker", true, "", &[], "t3");
    assert_eq!(log.snapshot().entries.last().unwrap().message, "Starting Ubuntu VM: completed");
    let error = log.conclude_error("Starting Ubuntu VM", "lost abcdefgh", &hidden, "t4");
    assert_eq!(error, "lost [redacted]");
    assert_eq!(
        log.snapshot().entries.last().unwrap().message,
        "Starting Ubuntu VM failed: lost [redacted]"
    );
}
