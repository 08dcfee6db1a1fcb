use nodeharbor_agent::activity::redact;
use nodeharbor_agent::json::{list, object, pair, parse_text, same_json, set_field, Json};
use nodeharbor_agent::lima::{
    attached_disks, configuration, configuration_with_storage, info, startup_diagnostic,
    storage_request, update_storage_configuration,
};
use nodeharbor_agent::policy::Resources;
use nodeharbor_agent::storage::Location;
use nodeharbor_agent::{CommandOutput, LimaRunner, VmProvider};

const OWNER: &str = "9511182e-9c48-4d20-a15b-1da8bb441386";
const POOL: &str = "40423e6c-1de0-46dc-a634-144671b655cd";

fn failure(stderr: &str) -> CommandOutput {
    CommandOutput {
        success: false,
        stdout: "unchanged output".into(),
        stderr: stderr.into(),
    }
}

fn disk(id: &str, gib: u64) -> Location {
    Location {
        id: id.into(),
        volume_id: "fixture".into(),
        directory: format!("/fixture/{id}"),
        allocation_gib: gib,
    }
}

fn runtime() -> Json {
    parse_text(
        "{\"version\":\"2.0.0\",\"images\":{\"x86_64\":{\"location\":\"https://example.invalid/image\",\"digest\":\"sha256:00\"},\"aarch64\":{\"location\":\"https://example.invalid/arm\",\"digest\":\"sha256:01\"}}}",
    )
    .unwrap()
}

fn small() -> Resources {
    Resources { cpus: 2, memory_mib: 2048, disk_gib: 20 }
}

fn args(words: &[&str]) -> Vec<String> {
    words.iter().map(|w| w.to_string()).collect()
}

#[test]
fn temporary_directory_denials_explain_macos_recovery_and_retain_diagnostics() {
    for operation in ["start", "create"] {
        for error in ["operation not permitted", "permission denied"] {
            let stderr = format!(
                "time=\"fixture\" level=error msg=\"[hostagent] mkdir /Volumes/External Disk/tmp/diskfs_iso123: {error}\" fields.level=fatal"
            );
            let output = startup_diagnostic("macos", Some(operation), failure(&stderr));
            assert!(!output.success);
            assert_eq!(output.stdout, "unchanged output");
            assert!(output
                .stderr
                .starts_with("Cannot create worker temporary files."));
            assert!(output.stderr.contains("Removable Volumes for NodeHarbor"));
            assert!(output.stderr.contains("quit and reopen"));
            assert!(output.stderr.contains(&stderr));
        }
    }
}

#[test]
fn guidance_survives_activity_limits_without_exposing_sensitive_output() {
    let denial = "[hostagent] mkdir /Volumes/Test/tmp/diskfs_iso9: operation not permitted";
    for stderr in [
        format!("{}\n{denial}", "download progress\n".repeat(500)),
        format!("password=private-fixture-value\n{denial}"),
        format!("{}\n{denial}", "🦀".repeat(950)),
    ] {
        let output = startup_diagnostic("macos", Some("start"), failure(&stderr));
        let logged = redact(&output.stderr, &[]);
        assert!(logged.starts_with("Cannot create worker temporary files."));
        assert!(logged
            .chars()
            .take(1200)
            .collect::<String>()
            .contains("quit and reopen"));
        assert!(!logged.contains("private-fixture-value"));
        assert!(output.stderr.len() <= 4096);
    }
}

#[test]
fn unrelated_errors_platforms_operations_and_success_are_unchanged() {
    let denial = "[hostagent] mkdir /Volumes/Test/tmp/diskfs_iso9: operation not permitted";
    for (platform, operation, success, stderr) in [
        ("linux", Some("start"), false, denial),
        ("windows", Some("start"), false, denial),
        ("macos", Some("shell"), false, denial),
        ("macos", Some("stop"), false, denial),
        ("macos", None, false, denial),
        ("macos", Some("start"), true, denial),
        ("macos", Some("start"), false, "VM launch timed out"),
        (
            "macos",
            Some("start"),
            false,
            "[hostagent] mkdir /Volumes/Test/worker: operation not permitted",
        ),
        (
            "macos",
            Some("start"),
            false,
            "[hostagent] mkdir /Volumes/Test/diskfs_iso9: no space left on device",
        ),
        (
            "macos",
            Some("start"),
            false,
            "mkdir /tmp/diskfs_iso9: permission denied",
        ),
        (
            "macos",
            Some("start"),
            false,
            "[hostagent] mkdir /tmp/diskfs_iso9: read-only file system\npermission denied",
        ),
    ] {
        let mut output = failure(stderr);
        output.success = success;
        let result = startup_diagnostic(platform, operation, output);
        assert_eq!(result.stderr, stderr);
        assert_eq!(result.success, success);
        assert_eq!(result.stdout, "unchanged output");
    }
}

#[test]
fn storage_request_uses_the_durable_pool_and_marks_only_new_members_for_initialization() {
    let old = disk("nhold", 15);
    let new = disk("nhnew", 15);
    let request = storage_request(OWNER, POOL, &[old.clone(), new], &[old], 7);
    assert_eq!(request.field_text("deviceId"), Some(OWNER));
    assert_eq!(request.field_text("poolId"), Some(POOL));
    assert_eq!(request.field_number("generation"), Some(7));
    let disks = request.field_list("disks").unwrap();
    assert_eq!(disks[0].field_flag("initialize"), Some(false));
    assert_eq!(disks[1].field_flag("initialize"), Some(true));
    assert_eq!(disks[1].field_text("device"), Some("/dev/vdc"));
    assert_eq!(disks[0].field_number("allocationBytes"), Some(16_106_127_360));
}

#[test]
fn replacement_configuration_is_idempotent_and_preserves_unrelated_provisioning() {
    let windows = configuration_with_storage(
        "windows",
        "x86_64",
        OWNER,
        &small(),
        &runtime(),
        &list(vec![]),
        &[disk("nhold", 30)],
        OWNER,
        1,
    );
    assert!(windows.unwrap_err().message.contains("macOS or Linux"));
    let made = configuration_with_storage(
        "linux",
        "x86_64",
        OWNER,
        &small(),
        &runtime(),
        &list(vec![]),
        &[disk("nhold", 30)],
        OWNER,
        1,
    )
    .unwrap();
    let unrelated = parse_text("{\"mode\":\"system\",\"script\":\"echo unrelated\"}").unwrap();
    let mut provision: Vec<Json> =
        made.field_list("provision").unwrap().iter().map(|p| p.copy()).collect();
    provision.push(unrelated.copy());
    let mut probes: Vec<Json> =
        made.field_list("probes").unwrap().iter().map(|p| p.copy()).collect();
    probes.push(parse_text("{\"mode\":\"readiness\",\"script\":\"true\"}").unwrap());
    let config = set_field(set_field(made, "provision", list(provision)), "probes", list(probes));
    let target = [disk("nhnew", 15)];
    let once = update_storage_configuration(&config, OWNER, POOL, &target, &[], 2, false).unwrap();
    let twice = update_storage_configuration(&once, OWNER, POOL, &target, &[], 2, false).unwrap();
    assert!(
        same_json(&twice, &once),
        "Retry must not duplicate provisioning or probes"
    );
    assert_eq!(twice.field_text("disk"), Some("16GiB"));
    assert_eq!(twice.field_list("mounts").unwrap().len(), 0);
    let provision = twice.field_list("provision").unwrap();
    assert!(provision.iter().any(|p| same_json(p, &unrelated)));
    let entries: Vec<&Json> = provision
        .iter()
        .filter(|p| p.field_is("path", "/etc/nodeharbor/storage-request.json"))
        .collect();
    assert_eq!(entries.len(), 1);
    assert_eq!(entries[0].field_flag("overwrite"), Some(true));
    let request = parse_text(entries[0].field_text("content").unwrap()).unwrap();
    assert!(same_json(&request, &storage_request(OWNER, POOL, &target, &[], 2)));
    assert!(!provision.iter().any(|p| p
        .field_text("script")
        .is_some_and(|s| s.contains("storage_pool.py migrate"))));
    assert_eq!(twice.field_list("probes").unwrap().len(), 2);
    assert!(provision.iter().any(|p| {
        p.field_is("path", "/etc/nodeharbor/device-id") && p.field_flag("overwrite") == Some(false)
    }));
}

#[test]
fn workers_are_configured_by_their_architecture() {
    let files = list(vec![object(vec![
        pair("path", Json::Text("/a".into())),
        pair("content", Json::Text("b".into())),
        pair("owner", Json::Text("root:root".into())),
        pair("permissions", Json::Text("0700".into())),
    ])]);
    let made =
        configuration("linux", "x86_64", OWNER, &small(), &runtime(), &files).unwrap();
    assert_eq!(made.field_text("memory"), Some("2048MiB"));
    assert_eq!(made.field_text("disk"), Some("20GiB"));
    assert_eq!(made.field_number("cpus"), Some(2));
    assert_eq!(made.field_text("minimumLimaVersion"), Some("2.0.0"));
    assert_eq!(made.field_list("provision").unwrap().len(), 2);
    let unknown = configuration("linux", "riscv64", OWNER, &small(), &runtime(), &files);
    assert_eq!(
        unknown.unwrap_err().message,
        "This CPU architecture has no packaged worker image"
    );
    let invalid = configuration("linux", "x86_64", "worker", &small(), &runtime(), &files);
    let words = uuid::Uuid::parse_str("worker").unwrap_err().to_string();
    assert_eq!(invalid.unwrap_err().message, words);
    let broken = configuration("linux", "x86_64", OWNER, &small(), &runtime(), &Json::Null);
    assert_eq!(broken.unwrap_err().message, "Invalid worker image files");
}

#[test]
fn storage_needs_one_to_sixteen_disks() {
    let config = parse_text("{\"provision\":[]}").unwrap();
    let none = update_storage_configuration(&config, OWNER, POOL, &[], &[], 2, false);
    assert_eq!(none.unwrap_err().message, "Choose one to sixteen storage disks");
    let many: Vec<Location> = (0..17).map(|i| disk(&format!("nh{i}"), 1)).collect();
    let refused = update_storage_configuration(&config, OWNER, POOL, &many, &[], 2, false);
    assert_eq!(refused.unwrap_err().message, "Choose one to sixteen storage disks");
    let bare = parse_text("{}").unwrap();
    let missing = update_storage_configuration(&bare, OWNER, POOL, &[disk("nha", 1)], &[], 2, true);
    assert_eq!(missing.unwrap_err().message, "Missing worker provisioning");
    let null = update_storage_configuration(&Json::Null, OWNER, POOL, &[disk("nha", 1)], &[], 2, true);
    assert_eq!(null.unwrap_err().message, "Missing worker provisioning");
    let disks = attached_disks(&[disk("nha", 1), disk("nhb", 2)]);
    let names: Vec<Option<&str>> =
        disks.as_list().unwrap().iter().map(|d| d.field_text("name")).collect();
    assert_eq!(names, vec![Some("nha"), Some("nhb")]);
}

#[test]
fn lima_reports_its_own_worker() {
    let absent = info("").unwrap();
    assert!(!absent.installed && !absent.running && !absent.reachable);
    let running = info("{\"name\":\"worker\",\"status\":\"Running\"}").unwrap();
    assert!(running.installed && running.running && running.reachable && !running.stopped);
    let stopped = info("{\"name\":\"worker\",\"status\":\"Stopped\"}").unwrap();
    assert!(stopped.installed && !stopped.running && stopped.stopped);
    let broken = info("{\"name\":\"worker\",\"status\":\"Broken\"}").unwrap();
    assert!(broken.running && !broken.reachable && !broken.stopped);
    assert_eq!(
        info("{\"name\":\"other\",\"status\":\"Stopped\"}").unwrap_err().message,
        "Lima returned a different instance; it has been left untouched"
    );
    assert_eq!(
        info("{\"name\":\"worker\"}").unwrap_err().message,
        "Lima returned no worker state"
    );
    assert_eq!(
        info("oops").unwrap_err().message,
        "Lima returned invalid worker information"
    );
}

#[test]
fn runtimes_follow_their_platform() {
    assert_eq!(VmProvider::native("linux"), VmProvider::Lima);
    assert_eq!(VmProvider::native("macos"), VmProvider::Lima);
    assert_eq!(VmProvider::native("windows"), VmProvider::Multipass);
    assert_eq!(VmProvider::Lima.name(), "lima");
    assert_eq!(VmProvider::Multipass.name(), "multipass");
}

#[test]
fn lima_runs_in_its_own_home() {
    let runner = LimaRunner::new("/opt/lima/bin/limactl".into(), "/data/lima".into());
    assert_eq!(runner.program, "/opt/lima/bin/limactl");
    assert_eq!(runner.home, "/data/lima");
    assert!(runner.search_path().unwrap().starts_with("/opt/lima/bin"));
    assert!(LimaRunner::needs_preflight(&args(&["start", "worker"])));
    assert!(!LimaRunner::needs_preflight(&args(&["list", "--json"])));
    assert_eq!(runner.temporary(), "/data/lima/_tmp");
    assert_eq!(runner.cache(), "/data/lima/_cache");
    let bundled = LimaRunner::bundled("linux", "/opt/nodeharbor/bin/app", "/settings").unwrap();
    assert_eq!(bundled.program, "/opt/nodeharbor/lib/NodeHarbor/lima/bin/limactl");
    assert_eq!(bundled.home, "/settings/lima");
    assert!(LimaRunner::bundled("linux", "app", "/settings").is_err());
    assert!(LimaRunner::check_program(true).is_ok());
    assert!(LimaRunner::check_program(false).is_err());
    let wrapped = LimaRunner::command_args(&args(&["list", "--json"]));
    assert!(wrapped.ends_with(&args(&["list", "--json"])));
}
