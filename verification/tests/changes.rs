use nodeharbor_agent::agent::apply::{
    apply_storage_maintenance, apply_storage_settings, check_growth, check_impact,
    check_preparation, check_sharing, commit_growth, commit_maintenance, finish_initial_storage,
    matches_review, must_join_disks, needs_disks, next_generation, pool_text, rebuild,
    retry_storage_maintenance, review_again, set_storage_recovery, settle_disks, SharingSettings,
};
use nodeharbor_agent::agent::inventory::{
    active_disk, boot_place, carry_credits, excluded_disks, may_clean_copies, observed_gib,
    storage_snapshot, system_place, verify_pool_identity, SnapshotFacts,
};
use nodeharbor_agent::agent::review::{
    add_layout, check_data, checked_layout, choose_again, keep_disks, open_review, prepare_layout,
    select_allocations, with_system_credit, Opened,
};
use nodeharbor_agent::agent::steps::DiskPlan;
use nodeharbor_agent::agent::storage_operations::disk_plan;
use nodeharbor_agent::agent::storage_saves::{
    backup_forgotten, backup_made, backup_verified, copy_forgotten, copying_continues,
    disk_removed, finish_maintenance, finish_operation, maintenance_failed, maintenance_phase,
    moved_disks, relocation_begun, relocation_finished, relocation_switched, return_failed,
    runtime_forgotten,
};
use nodeharbor_agent::json::parse_text;
use nodeharbor_agent::policy::{Policy, Resources};
use nodeharbor_agent::runtime_storage::Relocation;
use nodeharbor_agent::storage::{
    ChangePlan, DirectorySight, Inventory, Location, Mounts, Operation, Selection,
};
use nodeharbor_agent::storage_layout::Layout;
use nodeharbor_agent::storage_lifecycle::{
    require_backup_outside, AncestorSight, Backup, Kind, Phase, Review, ReviewOptions,
};
use nodeharbor_agent::Configuration;

const OWNER: &str = "9511182e-9c48-4d20-a15b-1da8bb441386";
const POOL: &str = "40423e6c-1de0-46dc-a634-144671b655cd";

fn settings() -> Configuration {
    let policy = Policy {
        enabled: true,
        resources: Resources { cpus: 2, memory_mib: 2048, disk_gib: 30 },
        drain_seconds: 300,
        allow_ci: true,
        allow_services: false,
        rules: "{}".into(),
    };
    let mut config = Configuration::new("linux", None, policy);
    config.device_id = OWNER.into();
    config
}

fn location(id: &str, gib: u64) -> Location {
    Location {
        id: id.into(),
        volume_id: "v".into(),
        directory: format!("/data/{id}"),
        allocation_gib: gib,
    }
}

fn layout() -> Layout {
    Layout {
        version: 1,
        system_location_id: "nha".into(),
        volume_id: "v".into(),
        runtime_directory: "/data/nha/.nh9511182e".into(),
        system_gib: 16,
    }
}

fn review(kind: Kind) -> Review {
    Review {
        kind,
        backup: None,
        minimum_gib: 15,
        temporary_bytes: 0,
        deletions: vec![],
        downtime: "".into(),
    }
}

fn plan(kind: Option<Kind>, restart: bool) -> ChangePlan {
    ChangePlan {
        maintenance: kind.map(review),
        layout: None,
        revision: 0,
        locations: vec![location("nha", 30)],
        total_gib: 30,
        requires_restart: restart,
    }
}

fn options() -> ReviewOptions {
    ReviewOptions {
        delete_all: false,
        temporary_directory: None,
        single_disk_gib: None,
        restore_disk: None,
    }
}

fn no_mounts() -> Mounts {
    Mounts { platform: "linux".into(), resolved: vec![] }
}

fn inventory() -> Inventory {
    Inventory {
        active_gib: 0,
        configured_gib: 0,
        recovery_enabled: false,
        disabled: false,
        excluded: vec![],
        backup_cleanup: vec![],
        recovery_backup: None,
        default_directory: None,
        supported: true,
        reason: "".into(),
        volumes: vec![],
        locations: vec![],
        revision: 0,
        operation: None,
        retained_copies: vec![],
        retained_runtime_directories: vec![],
        system_disk: None,
        layout: None,
        pending_update: None,
    }
}

#[test]
fn plans_are_applied_once() {
    let mut config = settings();
    let wanted = plan(Some(Kind::ResizeRemove), true);
    commit_maintenance(&mut config, &wanted, &review(Kind::ResizeRemove), 7, 8, &[9], 50).unwrap();
    let op = config.storage_lifecycle.maintenance.as_ref().unwrap();
    assert_eq!((op.request_id, op.pool_id, op.generation), (7, 8, 1));
    assert_eq!(op.phase, Phase::Drain);
    assert_ne!(op.target[0].id, "nha");
    assert_eq!(config.draining_since, Some(50));
    assert_eq!(config.storage_revision, 1);
    assert!(config.policy.enabled);
    assert_eq!(
        apply_storage_maintenance(&mut config, &wanted, 60).unwrap_err().message,
        "Storage choices changed; review again"
    );
}

#[test]
fn deletions_turn_sharing_off() {
    let mut config = settings();
    config.prepare_requested = true;
    let mut wanted = plan(Some(Kind::DeleteAll), true);
    wanted.locations.clear();
    apply_storage_maintenance(&mut config, &wanted, 50).unwrap();
    assert!(!config.policy.enabled && !config.prepare_requested);
    let mut early = settings();
    let mut now = plan(Some(Kind::DeleteAll), false);
    now.locations.clear();
    apply_storage_maintenance(&mut early, &now, 50).unwrap();
    assert!(early.storage_lifecycle.disabled && early.storage_locations.is_empty());
}

#[test]
fn growth_is_queued_or_set_up() {
    let mut config = settings();
    config.vm_created = true;
    let mut wanted = plan(None, true);
    wanted.layout = Some(layout());
    let data = [location("nha", 14)];
    commit_growth(&mut config, &wanted, true, &layout(), &data, None, 8, 50).unwrap();
    let op = config.storage_operation.as_ref().unwrap();
    assert_eq!(op.phase, "pending");
    assert_eq!(op.target[0].allocation_gib, 14);
    assert_eq!(config.format_version, 7);
    let mut fresh = settings();
    let mut first = plan(None, false);
    first.layout = Some(layout());
    apply_storage_settings(&mut fresh, &first, false, &layout(), &data, None, 50).unwrap();
    assert!(fresh.storage_lifecycle.initializing);
    assert_eq!(fresh.storage_locations.len(), 1);
    assert_eq!(fresh.policy.resources.disk_gib, 30);
    assert!(apply_storage_settings(&mut fresh, &first, false, &layout(), &data, None, 50).is_err());
}

#[test]
fn sharing_is_saved_with_the_reviewed_storage() {
    let mut config = settings();
    let rules = SharingSettings { policy: config.policy.clone(), revision: 0 };
    assert_eq!(
        rules.validate(&config).unwrap_err().message,
        "Connect this computer to a fleet before enabling sharing"
    );
    config.device_token = Some("token".into());
    assert_eq!(check_sharing(&rules, &config, &plan(None, true)).unwrap(), 40);
    assert_eq!(
        check_sharing(&rules, &config, &plan(Some(Kind::DeleteAll), true)).unwrap_err().message,
        "Use the explicit storage recovery or deletion confirmation for this operation"
    );
    let mut other = plan(None, true);
    other.total_gib = 31;
    assert_eq!(
        check_sharing(&rules, &config, &other).unwrap_err().message,
        "Sharing rules must use the reviewed storage allocation"
    );
    let stale = SharingSettings { policy: config.policy.clone(), revision: 3 };
    assert_eq!(
        stale.validate(&config).unwrap_err().message,
        "Settings changed locally or remotely; reload current settings before saving"
    );
    rules.apply(&mut config);
    assert!(config.policy.enabled);
}

#[test]
fn reviews_are_made_again_before_they_are_applied() {
    let config = settings();
    let (choices, asked) = review_again(&config, &plan(Some(Kind::ResizeRemove), true)).unwrap();
    assert_eq!(choices.len(), 1);
    assert!(!asked.delete_all);
    assert_eq!(
        review_again(&config, &plan(None, true)).unwrap_err().message,
        "Missing storage review"
    );
    assert_eq!(
        review_again(&config, &plan(Some(Kind::FailureRecovery), true)).unwrap_err().message,
        "Failure recovery is controlled by the persisted owner policy"
    );
    let same = plan(Some(Kind::ResizeRemove), true);
    matches_review(&same, &plan(Some(Kind::ResizeRemove), true)).unwrap();
    assert!(matches_review(&plan(Some(Kind::DeleteAll), true), &same).is_err());
    check_growth(&config, &plan(None, true)).unwrap();
    let mut late = plan(None, true);
    late.revision = 4;
    assert_eq!(
        check_growth(&config, &late).unwrap_err().message,
        "Storage choices changed; review the changes again"
    );
    assert_eq!(
        check_impact(&plan(Some(Kind::ResizeRemove), true), &plan(None, true))
            .unwrap_err()
            .message,
        "Replacement storage requires a verified backup review"
    );
    check_impact(&plan(None, true), &plan(None, true)).unwrap();
    settle_disks("/home/lima", OWNER, &plan(None, true), &plan(None, true)).unwrap();
}

#[test]
fn requests_open_the_fitting_review() {
    let mut config = settings();
    let open = |config: &Configuration, choices: Vec<Selection>, asked: &ReviewOptions| {
        open_review(config, choices, asked, false, false, &None, &[], &no_mounts())
    };
    let mut everything = options();
    everything.delete_all = true;
    assert!(matches!(open(&config, vec![], &everything), Ok(Opened::Deletion(_))));
    let choice = Selection { id: None, directory: "/data/a".into(), allocation_gib: 30 };
    assert_eq!(
        open(&config, vec![choice], &everything).unwrap_err().message,
        "Deletion cannot include replacement storage"
    );
    config.storage_operation = Some(Operation {
        layout: None,
        previous: vec![],
        target: vec![],
        generation: 1,
        phase: "disks".into(),
        paused: false,
    });
    assert_eq!(
        open(&config, vec![], &options()).unwrap_err().message,
        "Wait for current worker maintenance to finish"
    );
    let kept = keep_disks(&[location("nha", 30)]);
    assert_eq!(kept[0].id.as_deref(), Some("nha"));
    let again = choose_again(&[location("nha", 20)], &[location("nha", 30), location("nhb", 5)]);
    assert_eq!(again[0].id.as_deref(), Some("nha"));
    assert_eq!(again[1].id, None);
}

#[test]
fn data_fits_into_the_new_disks() {
    let usage = parse_text("{\"dataBytes\":17179869184,\"backupBytes\":1000}").unwrap();
    let (minimum, _) = check_data(20, false, &usage).unwrap();
    assert_eq!(minimum, 20);
    assert!(check_data(19, false, &usage).is_err());
    assert_eq!(
        check_data(20, false, &parse_text("{}").unwrap()).unwrap_err().message,
        "Worker data usage is unavailable"
    );
}

#[test]
fn layouts_are_part_of_the_plan() {
    let config = settings();
    let total = vec![location("nha", 30)];
    let prepared = prepare_layout(&config, "linux", total).unwrap();
    assert_eq!(prepared.data[0].allocation_gib, 14);
    assert_eq!(prepared.layout.runtime_directory, "/data/nha/.nh9511182e");
    let mut inner = plan(None, true);
    inner.locations = vec![location("nha", 14)];
    inner.total_gib = 14;
    let whole = add_layout(inner, prepared);
    assert_eq!(whole.total_gib, 30);
    checked_layout(&config, &whole, "linux").unwrap();
    assert_eq!(
        checked_layout(&config, &plan(None, true), "linux").unwrap_err().message,
        "Review storage again to include the VM operating system in its allocation"
    );
    let chosen = select_allocations(
        &config,
        vec![Selection { id: None, directory: "/data/a".into(), allocation_gib: 30 }],
        &None,
    )
    .unwrap();
    assert_eq!(chosen.len(), 1);
    let credits = with_system_credit(vec![("nha".to_string(), 5)], "nha", 7);
    assert_eq!(credits[0].1, 12);
    assert_eq!(with_system_credit(vec![], "nha", 7), vec![("nha".to_string(), 7)]);
}

#[test]
fn pools_are_the_configured_ones() {
    let disks = [location("nha", 15)];
    let state = |bytes: u64, pool: &str| {
        parse_text(&format!(
            "{{\"capacityBytes\":{bytes},\"deviceId\":\"{OWNER}\",\"poolId\":\"{pool}\",\"generation\":2,\"migrationComplete\":true,\"disks\":[{{\"id\":\"nha\",\"allocationBytes\":16106127360}}]}}"
        ))
        .unwrap()
    };
    verify_pool_identity(OWNER, POOL, 2, &disks, &state(16_000_000_000, POOL)).unwrap();
    let refused = |s| verify_pool_identity(OWNER, POOL, 2, &disks, &s).unwrap_err().message;
    assert_eq!(
        refused(state(16_000_000_000, OWNER)),
        "Worker storage does not match the saved owner and configuration"
    );
    assert_eq!(
        refused(state(1_000_000_000, POOL)),
        "Actual worker storage capacity differs from the combined allocation"
    );
    assert_eq!(refused(parse_text("{}").unwrap()), "Worker storage capacity is unavailable");
    assert_eq!(
        verify_pool_identity(OWNER, POOL, 2, &[location("nhb", 15)], &state(16_000_000_000, POOL))
            .unwrap_err()
            .message,
        "The worker is missing configured storage disks"
    );
}

#[test]
fn initial_storage_is_finished_once() {
    let mut config = settings();
    assert!(!needs_disks(&config, false) || !must_join_disks(&config));
    config.storage_locations = vec![location("nha", 14)];
    config.storage_lifecycle.initializing = true;
    assert!(must_join_disks(&config));
    assert_eq!(next_generation(&config).unwrap(), 1);
    assert_eq!(pool_text(&config), OWNER);
    let joined = config.storage_locations.clone();
    finish_initial_storage(&mut config, &joined, 1).unwrap();
    assert_eq!(config.storage_generation, 1);
    assert!(!config.storage_lifecycle.initializing);
    assert_eq!(
        finish_initial_storage(&mut config, &[location("nhb", 14)], 1).unwrap_err().message,
        "Storage choices changed during preparation"
    );
    config.storage_generation = u64::MAX;
    assert!(next_generation(&config).is_err());
    config.prepare_requested = true;
    check_preparation(&config, &None).unwrap();
    config.prepare_requested = false;
    assert_eq!(
        check_preparation(&config, &None).unwrap_err().message,
        "VM preparation canceled by owner"
    );
}

#[test]
fn recovery_needs_the_owners_wish() {
    let mut config = settings();
    config.storage_locations = vec![location("nha", 30), location("nhb", 30)];
    assert_eq!(
        rebuild(&mut config, &[location("nha", 30)], 30).unwrap_err().message,
        "Owner paused automatic recovery"
    );
    set_storage_recovery(&mut config, true);
    rebuild(&mut config, &[location("nha", 30)], 30).unwrap();
    let op = config.storage_lifecycle.maintenance.as_ref().unwrap();
    assert_eq!(op.phase, Phase::Reset);
    assert_eq!(op.review.kind, Kind::FailureRecovery);
    assert!(config.policy.enabled);
    maintenance_failed(&mut config, "No space").unwrap();
    assert_eq!(
        config.storage_lifecycle.maintenance.as_ref().unwrap().error.as_deref(),
        Some("Storage maintenance stopped: No space. Resolve the problem, then Retry storage maintenance to resume this phase.")
    );
    retry_storage_maintenance(&mut config).unwrap();
    assert!(config.storage_lifecycle.maintenance.as_ref().unwrap().error.is_none());
    assert_eq!(
        retry_storage_maintenance(&mut settings()).unwrap_err().message,
        "No storage operation needs a retry"
    );
}

#[test]
fn maintenance_is_saved_phase_by_phase() {
    let mut config = settings();
    config.storage_locations = vec![location("nha", 30)];
    let wanted = plan(Some(Kind::ResizeRemove), true);
    commit_maintenance(&mut config, &wanted, &review(Kind::ResizeRemove), 7, 8, &[9], 50).unwrap();
    maintenance_phase(&mut config, Phase::Backup).unwrap();
    let backup = Backup {
        path: "/b/file".into(),
        volume_id: "v".into(),
        bytes: 0,
        sha256: None,
        verified: false,
    };
    backup_made(&mut config, &backup).unwrap();
    backup_verified(&mut config, "ab", 12).unwrap();
    let saved = config.storage_lifecycle.maintenance.as_ref().unwrap().backup.clone().unwrap();
    assert!(saved.verified);
    assert_eq!((saved.sha256.as_deref(), saved.bytes), (Some("ab"), 12));
    let op = config.storage_lifecycle.maintenance.clone().unwrap();
    finish_maintenance(&mut config, &op);
    assert!(config.storage_lifecycle.maintenance.is_none());
    assert_eq!(config.storage_locations[0].id, op.target[0].id);
    assert_eq!(config.storage_generation, 1);
    backup_forgotten(&mut config, "/b/file");
    assert!(config.storage_lifecycle.cleanup.is_empty());
    config.storage_lifecycle.retired = vec![location("nhold", 5)];
    disk_removed(&mut config, &location("nhold", 5));
    assert!(config.storage_lifecycle.retired.is_empty());
    assert_eq!(
        maintenance_phase(&mut config, Phase::Backup).unwrap_err().message,
        "Storage maintenance was interrupted"
    );
}

#[test]
fn finished_changes_keep_the_old_copies() {
    let mut moved = location("nha", 30);
    moved.directory = "/other".into();
    let copies = moved_disks(&[location("nha", 30)], &[moved.clone()]);
    assert_eq!(copies.len(), 1);
    assert_eq!(copies[0].directory, "/data/nha");
    let mut config = settings();
    config.storage_locations = vec![location("nha", 30)];
    let op = Operation {
        layout: None,
        previous: vec![location("nha", 30)],
        target: vec![moved.clone()],
        generation: 3,
        phase: "verified".into(),
        paused: false,
    };
    config.storage_operation = Some(op.clone());
    finish_operation(&mut config, &op).unwrap();
    assert_eq!(config.storage_locations[0].directory, "/other");
    assert_eq!(config.storage_generation, 3);
    assert_eq!(config.storage_retained.len(), 1);
    assert!(may_clean_copies(&config));
    assert_eq!(active_disk(&config.storage_locations, &copies[0]).unwrap().directory, "/other");
    copy_forgotten(&mut config, &copies[0]);
    assert!(config.storage_retained.is_empty());
    assert!(matches!(disk_plan(&[location("nha", 30)], &moved), DiskPlan::Moved(_)));
    assert_eq!(disk_plan(&[], &moved), DiskPlan::New);
    assert_eq!(disk_plan(&[moved.clone()], &moved), DiskPlan::Kept);
}

#[test]
fn relocations_are_saved_before_and_after_the_copy() {
    let mut config = settings();
    let move_to = Relocation {
        source: "/settings/lima".into(),
        source_volume_id: "v".into(),
        target: layout(),
        switched: false,
    };
    relocation_begun(&mut config, &move_to).unwrap();
    copying_continues(&config, &layout()).unwrap();
    relocation_switched(&mut config, &layout()).unwrap();
    assert_eq!(config.storage_layout.as_ref().unwrap().system_location_id, "nha");
    let saved = config.runtime_relocation.clone().unwrap();
    assert!(saved.switched);
    relocation_finished(&mut config, &saved).unwrap();
    assert!(config.runtime_relocation.is_none());
    assert_eq!(
        relocation_switched(&mut config, &layout()).unwrap_err().message,
        "VM relocation was canceled"
    );
    config.runtime_retained = vec![layout()];
    runtime_forgotten(&mut config, &layout());
    assert!(config.runtime_retained.is_empty());
    assert!(return_failed(&mut config, "x").is_err());
}

#[test]
fn owners_see_what_is_under_way() {
    let mut config = settings();
    let facts = SnapshotFacts {
        excluded: vec![],
        retired: vec![],
        retained: vec![],
        backup_bytes: None,
        valid: true,
    };
    config.storage_locations = vec![location("nha", 14)];
    config.storage_layout = Some(layout());
    let shown = storage_snapshot(&config, inventory(), &facts, &no_mounts());
    assert!(shown.operation.is_none());
    config.storage_operation = Some(Operation {
        layout: Some(layout()),
        previous: vec![location("nha", 14)],
        target: vec![location("nha", 24)],
        generation: 1,
        phase: "disks".into(),
        paused: false,
    });
    let shown = storage_snapshot(&config, inventory(), &facts, &no_mounts());
    assert!(shown.operation.is_some());
    assert_eq!(shown.pending_update.unwrap().total_gib, 40);
    assert_eq!(shown.active_gib, 0);
    assert!(excluded_disks(&settings()).is_empty());
    assert!(system_place(&settings(), "/settings").starts_with("/settings"));
    boot_place(&config, "/settings").unwrap();
    assert_eq!(observed_gib(&settings(), true, 55), 55);
    let carried = carry_credits(
        vec![("nha".to_string(), 5)],
        &[("nhb".to_string(), 6)],
        &[location("nha", 14)],
        &[location("nhb", 14)],
    );
    assert!(carried.iter().any(|c| c.0 == "nha"));
}

#[test]
fn backups_stand_outside_what_is_replaced() {
    let seen = DirectorySight::Present { canonical: Some("/backup".into()), directory: true };
    require_backup_outside(
        "linux",
        "/backup",
        &seen,
        "/vm",
        &[AncestorSight::Present(Some("/vm".into()))],
    )
    .unwrap();
    let inside = DirectorySight::Present { canonical: Some("/vm/b".into()), directory: true };
    assert!(require_backup_outside(
        "linux",
        "/vm/b",
        &inside,
        "/vm",
        &[AncestorSight::Present(Some("/vm".into()))]
    )
    .is_err());
    let seen = |path: &str| DirectorySight::Present {
        canonical: Some(path.into()),
        directory: true,
    };
    let sights = [
        AncestorSight::Missing,
        AncestorSight::Present(Some("\\\\?\\C:\\vms".into())),
    ];
    let outside = seen("\\\\?\\D:\\b");
    require_backup_outside("windows", "D:\\b", &outside, "C:\\vms\\worker", &sights).unwrap();
    let inside = seen("\\\\?\\c:\\vms\\worker\\b");
    assert!(require_backup_outside("windows", "C:\\vms\\worker\\b", &inside, "C:\\vms\\worker", &sights)
        .is_err());
    assert!(require_backup_outside("windows", "D:\\b", &outside, "C:\\vms\\..", &sights).is_err());
}
