use nodeharbor_agent::agent::owner::{
    act, begin_application_update, cancel_application_update, check_policy_edit, check_recreation,
    deadline_expired, deadline_interrupts, diagnostic_message, interrupted, local_drain_required, log_level,
    now_seconds, owner_action, recreate_worker, replacement_available, request_recreation,
    save_policy, shown_reason, shown_state, wakes, OwnerAction, Runtime,
};
use nodeharbor_agent::agent::steps::Starting;
use nodeharbor_agent::failure::fail;
use nodeharbor_agent::policy::{Policy, Resources};
use nodeharbor_agent::storage::{Location, Operation};
use nodeharbor_agent::{Configuration, VmProvider};

fn policy() -> Policy {
    Policy {
        enabled: false,
        resources: Resources { cpus: 2, memory_mib: 2048, disk_gib: 20 },
        drain_seconds: 300,
        allow_ci: true,
        allow_services: false,
        rules: "{}".into(),
    }
}

fn member() -> Configuration {
    let mut config = Configuration::new("linux", Some("desk".into()), policy());
    config.device_token = Some("token".into());
    config
}

fn location(gib: u64) -> Location {
    Location {
        id: "nha".into(),
        volume_id: "v".into(),
        directory: "/data".into(),
        allocation_gib: gib,
    }
}

fn operation(phase: &str, paused: bool) -> Operation {
    Operation {
        layout: None,
        previous: vec![],
        target: vec![location(20)],
        generation: 1,
        phase: phase.into(),
        paused,
    }
}

#[test]
fn enrollment_notice_remains_visible_after_the_supervisor_reports_paused() {
    let mut config = Configuration::new("linux", None, policy());
    config.setup_notice = Some("Please enroll again to prepare a Lima worker".into());
    let mut runtime = Runtime::default();
    assert!(runtime.set_status("paused", "Sharing is switched off"));
    assert!(shown_reason(&config, &runtime, "").contains("enroll again"));
    config.device_token = Some("token".into());
    assert_eq!(shown_reason(&config, &runtime, ""), "Sharing is switched off");
}

#[test]
fn only_changes_of_the_status_are_logged() {
    let mut runtime = Runtime::default();
    assert_eq!(shown_state(&runtime), "paused");
    assert!(runtime.set_status("sharing", "Ready"));
    assert!(!runtime.set_status("sharing", "Ready"));
    assert!(runtime.set_status("sharing", "Busy"));
    assert_eq!(shown_state(&runtime), "sharing");
    assert_eq!(log_level("error"), "error");
    assert_eq!(log_level("sharing"), "info");
}

#[test]
fn owners_can_always_pause_and_stop() {
    let mut config = member();
    config.policy.enabled = true;
    config.vm_created = true;
    config.storage_operation = Some(operation("disks", false));
    config.prepare_requested = true;
    act(&mut config, OwnerAction::Pause, Some(&fail("unplugged")), 50).unwrap();
    assert!(!config.policy.enabled && !config.prepare_requested);
    assert_eq!(config.draining_since, Some(50));
    assert!(config.storage_operation.as_ref().unwrap().paused);
    assert_eq!(config.remote.revision, 1);
    act(&mut config, OwnerAction::Stop, Some(&fail("unplugged")), 60).unwrap();
    assert!(config.stop_requested);
    assert_eq!(config.draining_since, Some(50));
    config.remote.revision = u64::MAX;
    assert_eq!(
        act(&mut config, OwnerAction::Stop, None, 60).unwrap_err().message,
        "Configuration revision exhausted"
    );
}

#[test]
fn starts_are_refused_for_a_reason() {
    let mut stranger = Configuration::new("linux", None, policy());
    assert_eq!(
        act(&mut stranger, OwnerAction::Prepare, None, 0).unwrap_err().message,
        "Connect this computer to a fleet first"
    );
    let mut config = member();
    assert_eq!(
        act(&mut config, OwnerAction::Resume, None, 0).unwrap_err().message,
        "Prepare the worker before enabling sharing"
    );
    assert_eq!(config.remote.revision, 0);
    config.application_update_pending = true;
    assert_eq!(
        act(&mut config, OwnerAction::Prepare, None, 0).unwrap_err().message,
        "Cancel the application update before preparing the worker"
    );
    config.application_update_pending = false;
    config.storage_lifecycle.disabled = true;
    assert_eq!(
        act(&mut config, OwnerAction::Prepare, None, 0).unwrap_err().message,
        "Worker storage is disabled; configure storage before preparing the worker"
    );
    config.storage_lifecycle.disabled = false;
    config.storage_locations.push(location(20));
    assert_eq!(
        act(&mut config, OwnerAction::Prepare, Some(&fail("unplugged")), 0).unwrap_err().message,
        "unplugged"
    );
    act(&mut config, OwnerAction::Prepare, None, 0).unwrap();
    assert!(config.prepare_requested);
    assert!(owner_action("reboot").is_err());
    assert_eq!(owner_action("resume").unwrap(), OwnerAction::Resume);
}

#[test]
fn resuming_brings_the_rules_back() {
    let mut config = member();
    config.vm_created = true;
    config.vm_configured = true;
    config.policy.enabled = true;
    act(&mut config, OwnerAction::Pause, None, 10).unwrap();
    act(&mut config, OwnerAction::Resume, None, 20).unwrap();
    assert!(config.policy.enabled);
    assert_eq!(config.draining_since, None);
    assert_eq!(config.policy.drain_seconds, 300);
}

#[test]
fn updates_wait_for_the_worker() {
    let mut config = member();
    config.prepare_requested = true;
    assert_eq!(
        begin_application_update(&mut config).unwrap_err().message,
        "Waiting for the current worker operation before updating"
    );
    config.prepare_requested = false;
    begin_application_update(&mut config).unwrap();
    assert!(config.application_update_pending);
    let mut runtime = Runtime::default();
    assert!(!runtime.application_update_ready(true).unwrap());
    runtime.application_update_ready = true;
    assert!(runtime.application_update_ready(true).unwrap());
    assert!(!runtime.application_update_ready(false).unwrap());
    runtime.set_status("error", "Broken");
    assert_eq!(runtime.application_update_ready(true).unwrap_err().message, "Broken");
    runtime.forget_update();
    assert!(!runtime.application_update_ready);
    cancel_application_update(&mut config);
    assert!(!config.application_update_pending);
}

#[test]
fn rules_are_saved_against_the_current_settings() {
    let mut config = member();
    config.allocated_resources = Some(policy().resources);
    config.vm_configured = true;
    let mut wanted = policy();
    wanted.resources.disk_gib = 10;
    assert_eq!(
        save_policy(&mut config, &wanted, None, None, true, 5).unwrap_err().message,
        "Shrinking the worker disk requires explicitly recreating the VM"
    );
    wanted.resources.disk_gib = 30;
    assert_eq!(
        save_policy(&mut config, &wanted, Some(3), None, true, 5).unwrap_err().message,
        "Settings changed locally or remotely; reload current settings before saving"
    );
    save_policy(&mut config, &wanted, Some(0), None, true, 5).unwrap();
    assert_eq!(config.policy.resources.disk_gib, 30);
    assert_eq!(config.draining_since, Some(5));
    let mut stranger = Configuration::new("linux", None, policy());
    wanted.enabled = true;
    assert_eq!(
        save_policy(&mut stranger, &wanted, None, None, true, 5).unwrap_err().message,
        "Connect this computer to a fleet before enabling sharing"
    );
    config.storage_operation = Some(operation("disks", false));
    assert_eq!(
        save_policy(&mut config, &wanted, None, None, true, 5).unwrap_err().message,
        "Wait for the storage change to finish before editing sharing rules"
    );
}

#[test]
fn rules_grant_exactly_the_chosen_disks() {
    let mut config = member();
    config.storage_locations.push(location(30));
    assert_eq!(
        check_policy_edit(&config, &policy()).unwrap_err().message,
        "Use Storage locations to change the worker storage allowance"
    );
    assert_eq!(
        save_policy(&mut config, &policy(), None, None, true, 5).unwrap_err().message,
        "Storage choices changed; reload sharing rules"
    );
    let mut wanted = policy();
    wanted.resources.disk_gib = 30;
    wanted.enabled = true;
    check_policy_edit(&config, &wanted).unwrap();
    assert_eq!(
        save_policy(&mut config, &wanted, None, Some(&fail("unplugged")), true, 5)
            .unwrap_err()
            .message,
        "unplugged"
    );
    save_policy(&mut config, &wanted, None, None, true, 5).unwrap();
    assert!(config.policy.enabled);
}

#[test]
fn workers_are_replaced_once_and_without_sharing() {
    let mut config = member();
    config.vm_created = true;
    assert!(replacement_available(&config, false));
    check_recreation(&config).unwrap();
    let mut wanted = policy();
    wanted.enabled = true;
    assert_eq!(
        recreate_worker(&mut config, &wanted, None, "linux", false, 7, 9).unwrap_err().message,
        "The worker has no ownership receipt; it has been left untouched"
    );
    recreate_worker(&mut config, &wanted, None, "linux", true, 7, 9).unwrap();
    assert!(!config.policy.enabled);
    let request = config.recreation.as_ref().unwrap();
    assert_eq!(request.request_id, 7);
    assert_eq!(request.target_provider, Some(VmProvider::Lima));
    assert_eq!(config.draining_since, Some(9));
    assert_eq!(
        request_recreation(&mut config, &wanted, None, "linux", true, 9).unwrap_err().message,
        "Worker replacement is already pending"
    );
    let mut other = member();
    request_recreation(&mut other, &wanted, Some(0), "linux", true, 9).unwrap();
    assert_ne!(other.recreation.unwrap().request_id, 7);
    let mut stored = member();
    stored.storage_locations.push(location(20));
    assert!(check_recreation(&stored).is_err());
    assert!(!replacement_available(&stored, true));
}

#[test]
fn deadlines_interrupt_but_storage_changes_coordinate_themselves() {
    let mut config = member();
    config.draining_since = Some(1000);
    assert!(!deadline_expired(&config, 1299));
    assert!(deadline_expired(&config, 1300));
    assert!(deadline_interrupts(&config, 1300));
    config.storage_operation = Some(operation("disks", false));
    assert!(!deadline_interrupts(&config, 1300));
    assert!(deadline_expired(&config, 1300));
    assert_eq!(now_seconds(-5), 0);
    assert_eq!(now_seconds(5), 5);
}

#[test]
fn unwanted_starts_are_interrupted() {
    let mut config = member();
    assert!(!interrupted(&config, None, false, 0));
    assert!(interrupted(&config, Some(Starting::Preparation), false, 0));
    assert!(interrupted(&config, Some(Starting::Resume), false, 0));
    assert!(!interrupted(&config, Some(Starting::Resume), true, 0));
    config.storage_operation = Some(operation("pending", true));
    assert!(!interrupted(&config, None, false, 0));
    config.storage_operation = Some(operation("disks", true));
    assert!(interrupted(&config, None, false, 0));
    config.storage_operation = None;
    assert!(!wakes(&config, 0, false, false));
    assert!(wakes(&config, 0, true, false));
    config.stop_requested = true;
    assert!(wakes(&config, 0, false, false));
    assert!(interrupted(&config, None, false, 0));
}

#[test]
fn changed_allocations_need_a_drain() {
    let mut config = member();
    assert!(!local_drain_required(&config, true));
    assert!(local_drain_required(&config, false));
    config.vm_configured = true;
    assert!(local_drain_required(&config, true));
    config.allocated_resources = Some(config.policy.resources);
    assert!(!local_drain_required(&config, true));
}

#[test]
fn credentials_are_not_logged() {
    let mut config = member();
    config.device_token = Some("abcdef123456".into());
    assert_eq!(
        diagnostic_message(Some(&config), "Bad answer abcdef123456"),
        "Bad answer [redacted]"
    );
    assert_eq!(diagnostic_message(None, "Bad answer"), "Bad answer");
}
