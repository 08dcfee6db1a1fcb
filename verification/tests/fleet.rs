use nodeharbor_agent::agent::configuration::{
    check_unchanged, claim_configuration, commit_configuration, configuration_effective_resources,
    configuration_report, fail_configuration, finish_remote_storage, is_storage_settled,
    receive_configuration, reject_configuration, remote_storage_error, remote_storage_work,
    send_report, set_remote_consent, stop_remote_storage, stops_worker, validate_remote_runtime,
    RemoteWork,
};
use nodeharbor_agent::agent::controller::{
    accept_response, add_response, beat, begin_enrollment, check_response, check_response_length,
    controller_address, enroll, enrollment_address, enrollment_reply, fleet_members,
    maintenance_bound,
    remotely_paused, request_target, requested_configuration, system_pod_uids, UrlParts,
};
use nodeharbor_agent::agent::owner::Runtime;
use nodeharbor_agent::agent::saves::recover_configuration;
use nodeharbor_agent::failure::fail;
use nodeharbor_agent::json::{parse_text, Json};
use nodeharbor_agent::policy::{Policy, Resources};
use nodeharbor_agent::remote::{
    ConfigurationCommand, ConfigurationEdit, ConfigurationOperation, ConfigurationReceipt,
};
use nodeharbor_agent::storage::{Inventory, Location, Operation, Volume};
use nodeharbor_agent::storage_lifecycle::Missing;
use nodeharbor_agent::{Configuration, VmProvider};

const OWNER: &str = "9511182e-9c48-4d20-a15b-1da8bb441386";

fn policy() -> Policy {
    Policy {
        enabled: false,
        resources: Resources { cpus: 2, memory_mib: 2048, disk_gib: 20 },
        drain_seconds: 300,
        allow_ci: true,
        allow_services: false,
        rules: "{}".into(),
    }
}

fn settings() -> Configuration {
    Configuration::new("linux", Some("desk".into()), policy())
}

fn member() -> Configuration {
    let mut config = settings();
    config.device_token = Some("token".into());
    config.controller_url = Some("https://fleet.example".into());
    config.remote.consent = true;
    config
}

fn command(id: &str, operation: Option<ConfigurationOperation>) -> ConfigurationCommand {
    ConfigurationCommand {
        edit: ConfigurationEdit {
            request_id: id.into(),
            expected_revision: 0,
            policy: policy(),
            operation,
        },
    }
}

fn location() -> Location {
    Location {
        id: "nha".into(),
        volume_id: "v".into(),
        directory: "/data".into(),
        allocation_gib: 25,
    }
}

fn change(phase: &str, paused: bool) -> Operation {
    Operation {
        layout: None,
        previous: vec![],
        target: vec![location()],
        generation: 1,
        phase: phase.into(),
        paused,
    }
}

fn volume(free: u64) -> Volume {
    Volume {
        id: "v".into(),
        capacity_pool: "v".into(),
        label: "disk".into(),
        mount_point: "/".into(),
        filesystem: "ext4".into(),
        available_gib: free,
        configured_gib: 0,
        eligible: true,
        reason: "".into(),
    }
}

fn inventory() -> Inventory {
    Inventory {
        active_gib: 0,
        configured_gib: 0,
        recovery_enabled: false,
        disabled: false,
        excluded: vec![],
        backup_cleanup: vec![],
        recovery_backup: None,
        default_directory: None,
        supported: true,
        reason: "".into(),
        volumes: vec![volume(100)],
        locations: vec![],
        revision: 0,
        operation: None,
        retained_copies: vec![],
        system_disk: None,
        retained_runtime_directories: vec![],
        layout: None,
        pending_update: None,
    }
}

fn json(text: &str) -> Json {
    parse_text(text).unwrap()
}

#[test]
fn controllers_need_https_or_this_computer() {
    let config = settings();
    let (address, request) =
        begin_enrollment(&config, "  https://fleet.example/base// ", " code ", "linux", "amd64")
            .unwrap();
    assert_eq!(address, "https://fleet.example/base");
    assert_eq!(request.field_text("code"), Some("code"));
    assert_eq!(request.field_text("name"), Some("desk"));
    assert_eq!(request.field_text("platform"), Some("linux"));
    assert_eq!(request.field_text("architecture"), Some("amd64"));
    for local in ["http://127.0.0.1:8080", "http://localhost", "http://[::1]:1/"] {
        assert!(begin_enrollment(&config, local, "c", "linux", "amd64").is_ok());
    }
    let refused = |url: &str| begin_enrollment(&settings(), url, "c", "l", "a").unwrap_err().message;
    assert_eq!(refused("fleet"), "Enter a valid controller URL");
    assert_eq!(refused("http://fleet.example"), "Use HTTPS for the fleet controller");
    let parts = "The controller URL cannot contain credentials, query parameters, or fragments";
    assert_eq!(refused("https://me@fleet.example"), parts);
    assert_eq!(refused("https://:pass@fleet.example"), parts);
    assert_eq!(refused("https://fleet.example?x=1"), parts);
    assert_eq!(refused("https://fleet.example#top"), parts);
    assert_eq!(
        begin_enrollment(&member(), "https://fleet.example", "c", "l", "a").unwrap_err().message,
        "This computer is already enrolled; existing enrollment has been preserved"
    );
    assert_eq!(enrollment_address("https://f"), "https://f/api/v1/enroll");
    assert!(controller_address(None).is_err());
    let named = UrlParts {
        scheme: "https".into(),
        host: None,
        username: "".into(),
        password: None,
        query: None,
        fragment: None,
        text: "///".into(),
    };
    assert_eq!(controller_address(Some(&named)).unwrap(), "");
}

#[test]
fn computers_join_a_fleet_once() {
    let reply = json(&format!(
        "{{\"deviceId\":\"{OWNER}\",\"token\":\"{}\"}}",
        "t".repeat(32)
    ));
    let given = enrollment_reply(&reply).unwrap();
    assert_eq!(given.device_id, OWNER);
    let mut config = settings();
    enroll(&mut config, &given, "https://fleet.example").unwrap();
    assert_eq!(config.device_id, OWNER);
    assert_eq!(config.controller_url.as_deref(), Some("https://fleet.example"));
    assert_eq!(
        enroll(&mut config, &given, "https://other").unwrap_err().message,
        "This computer was already enrolled"
    );
    assert_eq!(
        enrollment_reply(&json("{}")).unwrap_err().message,
        "The controller returned no device identity"
    );
    assert!(enrollment_reply(&json("{\"deviceId\":\"desk\"}")).is_err());
    let short = json(&format!("{{\"deviceId\":\"{OWNER}\",\"token\":\"short\"}}"));
    assert_eq!(
        enrollment_reply(&short).unwrap_err().message,
        "The controller returned an invalid device credential"
    );
}

#[test]
fn members_ask_with_their_credential() {
    let (url, token) = request_target(&member(), "/heartbeat").unwrap();
    assert_eq!(url, "https://fleet.example/api/v1/heartbeat");
    assert_eq!(token, "token");
    assert_eq!(
        request_target(&settings(), "/x").unwrap_err().message,
        "This computer is not connected"
    );
    let mut config = member();
    config.device_token = None;
    assert_eq!(
        request_target(&config, "/x").unwrap_err().message,
        "No device credential is saved"
    );
}

#[test]
fn answers_are_bounded_and_their_errors_told() {
    check_response_length(Some(1_048_576)).unwrap();
    assert!(check_response_length(Some(1_048_577)).is_err());
    let mut body = vec![0u8; 1_048_575];
    add_response(&mut body, &[1]).unwrap();
    assert_eq!(
        add_response(&mut body, &[1]).unwrap_err().message,
        "The controller response is too large"
    );
    assert_eq!(body.len(), 1_048_576);
    assert_eq!(check_response(200, b"{\"a\":1}").unwrap().field_number("a"), Some(1));
    assert_eq!(
        check_response(404, b"{\"error\":\"No such device\"}").unwrap_err().message,
        "No such device (404 Not Found)"
    );
    assert_eq!(
        check_response(500, b"{}").unwrap_err().message,
        "The controller could not complete this request (500 Internal Server Error)"
    );
    assert_eq!(
        check_response(200, b"<html>").unwrap_err().message,
        "The controller returned an unreadable response"
    );
    assert!(accept_response(299, "", Some(Json::Null)).is_ok());
    assert!(accept_response(300, "", Some(Json::Null)).is_err());
}

#[test]
fn fleets_and_system_pods_are_lists() {
    assert_eq!(fleet_members(&json("[1,2]")).unwrap().len(), 2);
    assert!(fleet_members(&json("{}")).is_err());
    assert_eq!(system_pod_uids(&json("{}")).unwrap().len(), 0);
    assert_eq!(maintenance_bound(&json("{\"workloads\":3}")).unwrap(), 3);
    assert!(maintenance_bound(&json("{}")).is_err());
    let one = json(&format!("{{\"systemPodUids\":[\"{OWNER}\"]}}"));
    assert_eq!(system_pod_uids(&one).unwrap(), vec![OWNER.to_string()]);
    let refused = |t: &str| system_pod_uids(&json(t)).unwrap_err().message;
    assert_eq!(
        refused("{\"systemPodUids\":3}"),
        "The controller returned an invalid system pod inventory"
    );
    assert_eq!(refused("{\"systemPodUids\":[3]}"), "Missing system pod identity");
    assert_eq!(refused("{\"systemPodUids\":[\"pod\"]}"), "Invalid system pod identity");
    let many = format!("{{\"systemPodUids\":[{}]}}", vec!["1"; 17].join(","));
    assert_eq!(refused(&many), "The controller returned too many system pods");
}

#[test]
fn heartbeats_offer_what_there_is() {
    let mut config = member();
    let mut runtime = Runtime::default();
    runtime.set_status("sharing", "Disk /data is fine");
    let told = beat(&config, &runtime, true);
    assert!(told.permitted);
    assert_eq!(told.resources, policy().resources);
    assert_eq!(told.reason, "Disk /data is fine");
    config.storage_locations.push(location());
    assert_eq!(beat(&config, &runtime, true).resources.disk_gib, 25);
    config.storage_lifecycle.missing = Some(Missing {
        since: 0,
        last_check: 0,
        locations: vec![],
        error: None,
    });
    let away = beat(&config, &runtime, true);
    assert_eq!(away.resources.disk_gib, 0);
    assert!(!away.permitted);
    assert_eq!(away.reason, "Storage maintenance; see this computer for details");
    assert!(!beat(&member(), &Runtime::default(), false).permitted);
    assert_eq!(beat(&member(), &Runtime::default(), false).state, "paused");
    assert!(remotely_paused(&json("{\"remotePaused\":true}")));
    assert!(!remotely_paused(&json("{\"remotePaused\":1}")));
    assert!(requested_configuration(&json("{\"configurationRequest\":null}")).is_none());
    assert!(requested_configuration(&json("{\"configurationRequest\":{}}")).is_some());
}

#[test]
fn nothing_is_reported_without_consent() {
    let mut config = member();
    let hardware = Resources { cpus: 8, memory_mib: 16384, disk_gib: 1 };
    let report =
        configuration_report(&config, "/settings", hardware, &inventory(), Some(&volume(100)));
    assert!(report.capabilities.disk_growth);
    assert_eq!(report.hardware.unwrap().disk_gib, 100);
    assert!(report.worker_disk_location.as_deref().unwrap().ends_with("worker/disk"));
    assert_eq!(report.storage_inventory.len(), 1);
    assert_eq!(report.capabilities.local_approval, vec!["startAtLogin".to_string()]);
    set_remote_consent(&mut config, false);
    let shown = send_report(configuration_report(
        &config,
        "/settings",
        hardware,
        &inventory(),
        Some(&volume(100)),
    ));
    assert!(shown.policy.is_none() && shown.hardware.is_none() && shown.storage.is_none());
    assert!(shown.storage_inventory.is_empty() && shown.worker_disk_location.is_none());
    config.allocated_resources = Some(policy().resources);
    let grown =
        configuration_report(&config, "/settings", hardware, &inventory(), Some(&volume(100)));
    assert_eq!(grown.hardware.unwrap().disk_gib, 120);
    assert_eq!(configuration_effective_resources(&config), Some(policy().resources));
    config.remote.repair_required = true;
    assert_eq!(configuration_effective_resources(&config), None);
}

#[test]
fn requests_are_taken_once() {
    let mut config = member();
    let told =
        receive_configuration(&mut config, &command("r1", None), None, None, "now").unwrap();
    assert_eq!(told.unwrap().status, "pending");
    assert!(config.remote.pending.is_some());
    assert!(receive_configuration(&mut config, &command("r1", None), None, None, "now")
        .unwrap()
        .is_none());
    assert_eq!(
        receive_configuration(&mut config, &command("r2", None), None, None, "now")
            .unwrap_err()
            .message,
        "Another configuration request or different values for this request ID are pending"
    );
    let mut done = member();
    done.remote.receipts.push(ConfigurationReceipt {
        request_id: "r1".into(),
        status: "applied".into(),
        revision: 0,
        at: "then".into(),
        effective_policy: None,
        effective_resources: None,
        effective_storage: None,
        result: None,
        error: None,
    });
    assert_eq!(
        receive_configuration(&mut done, &command("r1", None), None, None, "now")
            .unwrap_err()
            .message,
        "This request is already complete; reload its acknowledgment"
    );
    assert!(reject_configuration(&done, &command("r1", None), "no", "now").is_none());
    let rejected = reject_configuration(&done, &command("r2", None), "no", "now").unwrap();
    assert_eq!(rejected.status, "rejected");
    assert_eq!(rejected.error.as_deref(), Some("no"));
    let invalid = fail("Stale revision");
    assert_eq!(
        receive_configuration(&mut member(), &command("r3", None), Some(&invalid), None, "now")
            .unwrap_err()
            .message,
        "Stale revision"
    );
}

#[test]
fn requests_wait_for_local_work() {
    let refused = |config: &Configuration, c: &ConfigurationCommand| {
        validate_remote_runtime(config, c, None).unwrap_err().message
    };
    let mut config = member();
    config.remote.repair_required = true;
    assert_eq!(
        refused(&config, &command("r", None)),
        "Inspect the stopped worker locally or replace it before changing configuration"
    );
    config = member();
    config.stop_requested = true;
    assert_eq!(
        refused(&config, &command("r", None)),
        "Wait for the current local worker operation to finish before changing configuration"
    );
    config = member();
    config.storage_operation = Some(change("disks", false));
    assert_eq!(
        refused(&config, &command("r", None)),
        "Wait for storage maintenance to finish before editing sharing rules"
    );
    config = member();
    let mut wanted = command("r", None);
    wanted.edit.policy.resources.disk_gib = 30;
    config.storage_locations.push(location());
    assert_eq!(
        refused(&config, &wanted),
        "Use the storage review to change the combined disk allowance"
    );
    config.storage_locations.clear();
    validate_remote_runtime(&config, &wanted, None).unwrap();
    config.vm_provider = VmProvider::Multipass;
    assert_eq!(
        refused(&config, &wanted),
        "Disk growth requires local approval because this runtime does not report its physical storage location"
    );
    config = member();
    config.allocated_resources = Some(Resources { disk_gib: 40, ..policy().resources });
    assert_eq!(
        refused(&config, &wanted),
        "Shrinking the worker disk requires local approval to replace the worker"
    );
    let mut sharing = command("r", None);
    sharing.edit.policy.enabled = true;
    assert_eq!(
        refused(&member(), &sharing),
        "Prepare the worker locally before enabling sharing"
    );
}

#[test]
fn plans_are_applied_as_they_were_reviewed() {
    let plan = json("{\"revision\":3}");
    let apply = command(
        "r",
        Some(ConfigurationOperation::StorageApply { plan: plan.copy() }),
    );
    let mut config = member();
    assert_eq!(
        validate_remote_runtime(&config, &apply, None).unwrap_err().message,
        "Review storage changes on this node before applying; this plan is missing or stale"
    );
    let unreadable = fail("missing field");
    assert_eq!(
        validate_remote_runtime(&config, &apply, Some(&unreadable)).unwrap_err().message,
        "missing field"
    );
    config.remote.receipts.push(ConfigurationReceipt {
        request_id: "earlier".into(),
        status: "reviewed".into(),
        revision: 0,
        at: "then".into(),
        effective_policy: None,
        effective_resources: None,
        effective_storage: None,
        result: Some(plan),
        error: None,
    });
    validate_remote_runtime(&config, &apply, None).unwrap();
    config.remote.revision = 1;
    assert!(validate_remote_runtime(&config, &apply, None).is_err());
}

#[test]
fn changes_of_the_worker_are_claimed_before_they_are_made() {
    let mut config = member();
    config.vm_created = true;
    config.allocated_resources = Some(policy().resources);
    let mut wanted = command("r", None);
    wanted.edit.policy.resources.cpus = 4;
    receive_configuration(&mut config, &wanted, None, None, "now").unwrap();
    claim_configuration(&mut config, &wanted, None, None).unwrap();
    assert!(config.remote.applying && config.remote.repair_required);
    check_unchanged(&config, &wanted).unwrap();
    let mut done = config.clone();
    let receipt = commit_configuration(&mut done, &wanted, "now").unwrap();
    assert_eq!(receipt.status, "applied");
    assert_eq!(receipt.revision, 1);
    assert_eq!(done.allocated_resources.unwrap().cpus, 4);
    assert!(!done.remote.applying && !done.remote.repair_required);
    let mut failed = config.clone();
    let receipt = fail_configuration(&mut failed, &wanted, "No memory", "now");
    assert_eq!(receipt.status, "rejected");
    assert_eq!(
        receipt.error.as_deref(),
        Some("No memory. Allocation is unverified; inspect the stopped worker locally or replace it. Sharing is blocked.")
    );
    assert!(failed.allocated_resources.is_none() && failed.remote.repair_required);
    let mut cut = config.clone();
    let receipt = recover_configuration(&mut cut, "now").unwrap();
    assert_eq!(receipt.request_id, "r");
    assert!(cut.remote.repair_required && !cut.remote.applying);
    let mut revoked = config.clone();
    set_remote_consent(&mut revoked, false);
    assert_eq!(
        check_unchanged(&revoked, &wanted).unwrap_err().message,
        "The owner changed settings or revoked remote configuration during application"
    );
    assert_eq!(
        commit_configuration(&mut revoked, &wanted, "now").unwrap_err().message,
        "The owner changed settings while configuration was applying"
    );
}

#[test]
fn storage_requests_go_on_step_by_step() {
    let work = |config: &Configuration, operation| {
        remote_storage_work(config, &command("r", operation), None)
    };
    let mut config = member();
    assert_eq!(
        work(&config, None).unwrap_err().message,
        "Missing storage operation"
    );
    assert_eq!(
        work(&config, Some(ConfigurationOperation::StorageRetry)).unwrap(),
        RemoteWork::Retry
    );
    assert_eq!(
        work(&config, Some(ConfigurationOperation::StorageRecovery { enabled: true })).unwrap(),
        RemoteWork::Recovery(true)
    );
    config.remote.storage_started = true;
    assert_eq!(
        work(&config, Some(ConfigurationOperation::StorageRetry)).unwrap(),
        RemoteWork::Nothing
    );
    assert!(is_storage_settled(&config) && !stops_worker(&config));
    config.storage_operation = Some(change("disks", false));
    assert_eq!(
        work(&config, Some(ConfigurationOperation::StorageRetry)).unwrap(),
        RemoteWork::Change
    );
    assert!(!is_storage_settled(&config) && stops_worker(&config));
    config.remote.pending = Some(command("r", Some(ConfigurationOperation::StorageRetry)));
    stop_remote_storage(
        &mut config,
        &command("r", Some(ConfigurationOperation::StorageRetry)),
    );
    assert_eq!(
        work(&config, Some(ConfigurationOperation::StorageRetry)).unwrap_err().message,
        "Storage change is paused; review its current state before retrying"
    );
}

#[test]
fn storage_requests_end_with_a_receipt() {
    let preview = command(
        "r",
        Some(ConfigurationOperation::StoragePreview { selections: Json::Null, options: Json::Null }),
    );
    let mut config = member();
    config.remote.pending = Some(preview.clone());
    let told = finish_remote_storage(
        &mut config,
        &preview,
        Some(json("{\"revision\":0}")),
        None,
        json("{}"),
        "now",
    );
    assert_eq!(told.status, "reviewed");
    assert!(told.effective_storage.is_some());
    assert!(config.remote.pending.is_none());
    let failed = finish_remote_storage(
        &mut config,
        &preview,
        None,
        Some("broken".into()),
        json("{}"),
        "now",
    );
    assert_eq!(failed.status, "rejected");
    let applied = finish_remote_storage(&mut config, &preview, None, None, json("{}"), "now");
    assert_eq!(applied.status, "applied");
    let text = remote_storage_error("Broken", Some(&fail("stuck")));
    assert!(text.starts_with("Broken. Inspect storage status"));
    assert!(text.ends_with(" Worker stop also failed: stuck"));
}
