use nodeharbor_agent::agent::owner::adopt_native_runtime;
use nodeharbor_agent::identity::{
    disk_identifier, identity_value, managed_vm_name, names_device,
};
use nodeharbor_agent::json::Json;
use nodeharbor_agent::policy::{Policy, Resources};
use nodeharbor_agent::remote::{ConfigurationCommand, ConfigurationEdit, ConfigurationReceipt};
use nodeharbor_agent::storage::{Location, Operation};
use nodeharbor_agent::store::{initial_provider, updates_enabled, Opened, Opening};
use nodeharbor_agent::values::Plain;
use nodeharbor_agent::{close_behavior, CloseBehavior, Configuration, Store, VmProvider};

const OWNER: &str = "9511182e-9c48-4d20-a15b-1da8bb441386";

fn policy() -> Policy {
    Policy {
        enabled: false,
        resources: Resources { cpus: 2, memory_mib: 2048, disk_gib: 20 },
        drain_seconds: 300,
        allow_ci: true,
        allow_services: false,
        rules: "{}".into(),
    }
}

fn settings() -> Configuration {
    Configuration::new("linux", Some("desk".into()), policy())
}

fn edit(id: &str, revision: u64) -> ConfigurationEdit {
    ConfigurationEdit {
        request_id: id.into(),
        expected_revision: revision,
        policy: policy(),
        operation: None,
    }
}

fn receipt(id: &str, status: &str, revision: u64) -> ConfigurationReceipt {
    ConfigurationReceipt {
        request_id: id.into(),
        status: status.into(),
        revision,
        at: "then".into(),
        effective_policy: None,
        effective_resources: None,
        effective_storage: None,
        result: None,
        error: None,
    }
}

fn location(id: &str) -> Location {
    Location {
        id: id.into(),
        volume_id: "v".into(),
        directory: "/data".into(),
        allocation_gib: 20,
    }
}

fn opening(saved: Option<Configuration>, platform: &str, id: &str) -> Opened {
    let provider = initial_provider(platform);
    let id = identity_value(id).unwrap();
    Store::open(saved, platform, provider, id, Some("desk".into()), policy()).unwrap()
}

const FIRST: &str = "40423e6c-1de0-46dc-a634-144671b655cd";
const SECOND: &str = "9511182e-9c48-4d20-a15b-1da8bb441386";

#[test]
fn linux_store_starts_with_lima_and_sharing_disabled() {
    let opened = opening(None, "linux", FIRST);
    assert_eq!(opened.opening, Opening::Begin);
    let config = Store::formatted(&opened.settings);
    assert_eq!(config.vm_provider, VmProvider::Lima);
    assert!(config.format_version >= 2);
    assert!(!config.policy.enabled);
    assert!(config.device_token.is_none());
    let again = opening(Some(config.clone()), "linux", SECOND);
    assert_eq!(again.opening, Opening::Keep);
    assert_eq!(again.settings.device_id, config.device_id);
    assert!(again.settings.alike(&config));
}

#[test]
fn obsolete_linux_configuration_is_archived_once_and_requires_enrollment() {
    let mut old = settings();
    old.vm_provider = VmProvider::Multipass;
    old.policy.enabled = true;
    old.device_token = Some("fixture-token".into());
    assert_eq!(opening(Some(old.clone()), "windows", FIRST).opening, Opening::Keep);
    let opened = opening(Some(old.clone()), "linux", FIRST);
    assert_eq!(opened.opening, Opening::Archive);
    let config = Store::formatted(&opened.settings);
    assert_eq!(config.vm_provider, VmProvider::Lima);
    assert!(!config.policy.enabled);
    assert!(config.device_token.is_none());
    assert_ne!(config.device_id, old.device_id);
    assert!(config
        .setup_notice
        .as_deref()
        .unwrap()
        .contains("enroll again"));
    assert!(Store::archive_name(identity_value(FIRST).unwrap()).starts_with("obsolete-multipass-"));
    let again = opening(Some(config.clone()), "linux", SECOND);
    assert_eq!(again.opening, Opening::Keep);
    assert_eq!(again.settings.device_id, config.device_id);
}

#[test]
fn new_settings_take_the_native_runtime() {
    assert_eq!(initial_provider("linux"), VmProvider::Lima);
    assert_eq!(initial_provider("macos"), VmProvider::Multipass);
    let mut mac = Configuration::new("macos", None, policy());
    assert_eq!(mac.name, "My computer");
    assert_eq!(mac.format_version, 1);
    adopt_native_runtime(&mut mac, false, "macos");
    assert_eq!(mac.vm_provider, VmProvider::Multipass);
    adopt_native_runtime(&mut mac, true, "macos");
    assert_eq!(mac.vm_provider, VmProvider::Lima);
    assert_eq!(mac.format_version, 2);
    assert!(updates_enabled());
}

#[test]
fn settings_of_unknown_formats_are_preserved() {
    let mut newer = settings();
    newer.format_version = 8;
    assert_eq!(
        Store::load(&newer).unwrap_err().message,
        "These settings require a newer NodeHarbor application"
    );
    let mut old = settings();
    old.format_version = 1;
    assert_eq!(
        Store::load(&old).unwrap_err().message,
        "The worker runtime requires versioned settings; the original file has been preserved"
    );
    let mut disks = settings();
    disks.storage_locations.push(location("nha"));
    assert_eq!(
        Store::load(&disks).unwrap_err().message,
        "Storage locations require versioned settings; the original file has been preserved"
    );
    let mut operations = settings();
    operations.storage_revision = 1;
    assert_eq!(
        Store::load(&operations).unwrap_err().message,
        "Storage operations require versioned settings; the original file has been preserved"
    );
    let mut named = settings();
    named.device_id = "desk".into();
    assert_eq!(
        Store::load(&named).unwrap_err().message,
        "Invalid saved device identity"
    );
}

#[test]
fn written_settings_are_readable() {
    let mut config = settings();
    assert_eq!(Store::formatted(&config).format_version, 2);
    config.storage_lifecycle.recovery_enabled = true;
    assert_eq!(Store::formatted(&config).format_version, 5);
    config.remote.consent = true;
    let written = Store::formatted(&config);
    assert_eq!(written.format_version, 6);
    Store::load(&written).unwrap();
}

#[test]
fn only_changes_that_count_advance_the_revision() {
    let store = Store::new("/settings");
    assert_eq!(store.path("linux"), "/settings/config.json");
    assert_eq!(Store::new("C:\\s").path("windows"), "C:\\s\\config.json");
    let before = settings();
    let mut quiet = before.clone();
    quiet.stop_requested = true;
    let mut same = before.clone();
    let none = store.update(&mut same, quiet, "now").unwrap();
    assert!(same.stop_requested);
    assert_eq!(same.remote.revision, 0);
    assert!(none.is_none());
    let mut shared = before.clone();
    shared.policy.enabled = true;
    let mut next = before.clone();
    store.update(&mut next, shared, "now").unwrap();
    assert_eq!(next.remote.revision, 1);
    let mut last = before.clone();
    last.remote.revision = u64::MAX;
    let mut more = last.clone();
    more.policy.enabled = true;
    let mut stored = last.clone();
    assert_eq!(
        store.update(&mut stored, more, "now").unwrap_err().message,
        "Configuration revision exhausted; local recovery required"
    );
    assert!(stored.alike(&last));
}

#[test]
fn an_owners_change_drops_a_pending_request() {
    let store = Store::new("/settings");
    let mut before = settings();
    before.remote.consent = true;
    before.remote.pending = Some(ConfigurationCommand { edit: edit("r1", 0) });
    before.remote.storage_started = true;
    before.storage_operation = Some(Operation {
        layout: None,
        previous: vec![],
        target: vec![location("nha")],
        generation: 1,
        phase: "disks".into(),
        paused: false,
    });
    let mut after = before.clone();
    after.policy.enabled = true;
    let mut next = before.clone();
    let told = store.update(&mut next, after, "now").unwrap();
    assert!(next.remote.pending.is_none());
    assert!(!next.remote.storage_started);
    assert!(next.storage_operation.as_ref().unwrap().paused);
    let told = told.unwrap();
    assert_eq!(told.status, "rejected");
    assert_eq!(told.request_id, "r1");
    assert_eq!(
        told.error.as_deref(),
        Some("The owner changed settings or consent; reload current settings")
    );
    assert!(told.effective_resources.is_none());
    assert_eq!(told.revision, 1);
}

#[test]
fn a_request_keeps_its_authority_through_its_own_changes() {
    let request = edit("r1", 0);
    let store = Store::new("/settings").for_configuration(&request);
    let mut before = settings();
    before.remote.consent = true;
    before.remote.pending = Some(ConfigurationCommand { edit: request });
    before.remote.receipts.push(receipt("r1", "pending", 0));
    store.check_configuration_authority(&before).unwrap();
    let mut after = before.clone();
    after.storage_revision = 1;
    after.format_version = 4;
    let mut next = before.clone();
    let told = store.update(&mut next, after, "now").unwrap();
    assert!(told.is_none());
    assert!(next.remote.pending.is_some());
    assert_eq!(next.remote.execution_revision, Some(1));
    assert!(next.remote.storage_started);
    assert_eq!(next.remote.receipts[0].revision, 1);
    store.check_configuration_authority(&next).unwrap();
    let mut revoked = next.clone();
    revoked.remote.consent = false;
    let refused = store.check_configuration_authority(&revoked).unwrap_err();
    assert_eq!(
        refused.message,
        "The owner changed settings or revoked remote configuration; unapplied changes are canceled"
    );
    assert!(store.update(&mut revoked.clone(), revoked.clone(), "now").is_err());
    Store::new("/settings").check_configuration_authority(&revoked).unwrap();
}

#[test]
fn changes_that_had_not_begun_are_dropped_and_others_paused() {
    let mut config = settings();
    config.storage_operation = Some(Operation {
        layout: None,
        previous: vec![],
        target: vec![],
        generation: 1,
        phase: "pending".into(),
        paused: false,
    });
    Store::pause_remote_storage(&mut config);
    assert!(config.storage_operation.is_none());
}

#[test]
fn machines_are_named_after_their_device() {
    assert_eq!(
        managed_vm_name(OWNER).unwrap(),
        "nodeharbor-9511182e9c484d20a15b1da8bb441386"
    );
    assert_eq!(
        managed_vm_name("9511182E9C484D20A15B1DA8BB441386").unwrap(),
        "nodeharbor-9511182e9c484d20a15b1da8bb441386"
    );
    assert!(managed_vm_name("worker").is_err());
    assert!(names_device(OWNER) && !names_device("worker"));
    assert_eq!(identity_value("00000000-0000-0000-0000-00000000002a").unwrap(), 42);
}

#[test]
fn identities_are_drawn_and_read_back() {
    let id = settings().device_id;
    assert_eq!(id.len(), 36);
    assert!(names_device(&id));
    assert_ne!(id, settings().device_id);
    let value = identity_value(&id).unwrap();
    assert_eq!((value >> 76) & 15, 4);
    assert_eq!((value >> 62) & 3, 2);
    let made = disk_identifier(0x9511182e_9c48_4d20_a15b_1da8bb441386);
    assert!(made.starts_with("nh9511182e"));
}

#[test]
fn windows_hide_drain_or_close() {
    assert_eq!(close_behavior(true, true, false), CloseBehavior::Hide);
    assert_eq!(close_behavior(true, false, false), CloseBehavior::Hide);
    assert_eq!(close_behavior(true, true, true), CloseBehavior::DrainThenExit);
    assert_eq!(close_behavior(false, true, false), CloseBehavior::DrainThenExit);
    assert_eq!(close_behavior(false, false, true), CloseBehavior::Exit);
}

#[test]
fn settings_live_in_the_users_directory() {
    let found = Store::default_directory("linux", Some("/home/a/.config")).unwrap();
    assert!(found.starts_with("/home/a/.config/"));
    assert!(Store::default_directory("linux", None).is_err());
}

#[test]
fn plain_values_are_copied_whole() {
    let mut config = settings();
    config.remote.receipts.push(ConfigurationReceipt {
        result: Some(Json::Number(7)),
        ..receipt("r", "reviewed", 3)
    });
    let copy = config.clone();
    assert_eq!(copy.remote.receipts[0].request_id, "r");
    assert_eq!(copy.remote.receipts[0].result.as_ref().unwrap().as_number(), Some(7));
}
