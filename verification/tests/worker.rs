use nodeharbor_agent::activity::{
    collect_secrets, command_source, command_step, input_secrets, redact, ActivityLog,
};
use nodeharbor_agent::checksum::Checksum;
use nodeharbor_agent::commands::{
    application_wait, check_exit_wait, check_replacement, check_update_wait, still_running,
    waits_for_worker, worker_wait, ProcessSight,
};
use nodeharbor_agent::guest_files;
use nodeharbor_agent::json::{parse_text, render, same_json, set_field, Json};
use nodeharbor_agent::observe::{
    architecture, cpus, disk_gib, observation, power, BatterySight, BatteryState, FreeSpace,
};
use nodeharbor_agent::policy::{Policy, Resources};
use nodeharbor_agent::process::{
    add_output, add_stream, check_stream, multipass_format, omitted_text, timeout_text, Line, LineReader,
    OutputFormat,
};
use nodeharbor_agent::runtime_image::{
    add_piece, check_cached, check_image, check_length, expected_digest, image_name, names_image,
};
use nodeharbor_agent::runtime_platform::{
    bundled_program, qemu_version, validate_linux_host, validate_macos_host, vm_type,
};
use nodeharbor_agent::vm::{
    check_original_disk, multipass_info, original_disk, service_loaded, stops_service,
    workload_inventory,
};
use nodeharbor_agent::vm::{storage_quantity, Unit};
use nodeharbor_agent::runtime_platform::emulator_program;
use nodeharbor_agent::vm_operations::{step_timeout, GuestTask, VmStep, VmWork};
use nodeharbor_agent::{
    CommandOutput, Configuration, MultipassRunner, OutputStream, Vm, VmProvider,
};

const OWNER: &str = "9511182e-9c48-4d20-a15b-1da8bb441386";
const NAME: &str = "nodeharbor-9511182e9c484d20a15b1da8bb441386";

fn words(list: &[&str]) -> Vec<String> {
    list.iter().map(|w| w.to_string()).collect()
}

fn settings() -> Configuration {
    let policy = Policy {
        enabled: false,
        resources: Resources { cpus: 2, memory_mib: 2048, disk_gib: 20 },
        drain_seconds: 300,
        allow_ci: true,
        allow_services: false,
        rules: "{}".into(),
    };
    Configuration::new("linux", None, policy)
}

#[test]
fn messages_are_fit_to_be_shown() {
    assert_eq!(redact("  ready  ", &[]), "ready");
    assert_eq!(redact("key abcdef here", &words(&["abcdef"])), "key [redacted] here");
    assert_eq!(redact("\u{1b}[31mred\u{1b}[0m", &[]), "red");
    assert!(!redact("password=hunter2", &[]).contains("hunter2"));
    assert_eq!(redact(&"x".repeat(4097), &[]), "[Output omitted: line exceeds 4096 bytes]");
}

#[test]
fn shown_messages_are_short_and_stay() {
    for message in [
        "  ready  ".to_string(),
        "\u{1b}[31mred\u{1b}[0m".into(),
        "password=hunter2".into(),
        "x".repeat(4096),
        "x".repeat(4097),
    ] {
        let shown = redact(&message, &[]);
        assert!(shown.len() <= 4096);
        assert_eq!(redact(&shown, &[]), shown);
    }
    let covered = redact("key abcdef here", &words(&["abcdef"]));
    assert_eq!(redact(&covered, &[]), covered);
}

#[test]
fn entries_are_readable_and_never_repeated() {
    let mut log = ActivityLog::default();
    log.record("info", "agent", "   ", "t0");
    log.record("info", "agent", "ready", "t1");
    log.record("info", "agent", "ready", "t2");
    log.record("info", "agent", &"x".repeat(4097), "t3");
    let seen = log.snapshot();
    assert!(seen.entries.iter().all(|e| !e.message.is_empty() && e.message.len() <= 4096));
    assert!(seen.entries.windows(2).all(|w| w[0].message != w[1].message));
    assert_eq!(seen.entries.len(), 2);
}

#[test]
fn activity_is_numbered_and_bounded() {
    let mut log = ActivityLog::default();
    log.begin_step("Creating Ubuntu VM", Some(60), "t0");
    for i in 0..1200 {
        log.record("info", "agent", &format!("message {i}"), "t1");
    }
    let seen = log.snapshot();
    assert!(seen.entries.len() < 1200);
    assert!(seen.dropped > 0);
    assert_eq!(seen.entries.last().unwrap().message, "message 1199");
    assert_eq!(seen.step.as_ref().unwrap().message, "Creating Ubuntu VM");
    log.finish_step();
    assert!(log.snapshot().step.is_none());
}

#[test]
fn commands_have_steps_and_sources() {
    assert_eq!(command_step(&words(&["launch"])), Some("Creating Ubuntu VM"));
    assert_eq!(command_step(&words(&["list"])), None);
    assert_eq!(command_step(&[]), None);
    assert_eq!(
        command_step(&words(&["exec", "vm", "--", "cloud-init", "status"])),
        Some("Waiting for Ubuntu initialization")
    );
    assert_eq!(command_source(&words(&["exec", "x"])), "worker");
    assert_eq!(command_source(&words(&["list"])), "multipass");
}

#[test]
fn secrets_are_collected_from_the_input() {
    let secrets = collect_secrets(&parse_text("{\"token\":\"abc123def\",\"n\":[\"deep-value\"]}").unwrap());
    let found = input_secrets(Some(b"{\"token\":\"abc123def\"}"));
    assert!(secrets.contains(&"abc123def".to_string()));
    assert!(found.contains(&"abc123def".to_string()));
    assert!(input_secrets(None).is_empty());
}

#[test]
fn documents_are_read_changed_and_written() {
    let j = parse_text("{\"b\":[1,true,null,-2.5],\"a\":\"x\\\"y\"}").unwrap();
    assert_eq!(j.field_text("a"), Some("x\"y"));
    assert_eq!(j.field_list("b").unwrap().len(), 4);
    let words = serde_json::from_str::<serde_json::Value>("{").unwrap_err().to_string();
    assert_eq!(parse_text("{").unwrap_err().message, words);
    assert_eq!(render(&j), "{\"a\":\"x\\\"y\",\"b\":[1,true,null,-2.5]}");
    let again = parse_text(&render(&j)).unwrap();
    assert!(same_json(&j, &again));
    let changed = set_field(j, "a", Json::Number(3));
    assert_eq!(changed.field_number("a"), Some(3));
    assert!(changed.field_list("b").is_some());
    assert!(!same_json(&changed, &again));
    let more = set_field(set_field(changed, "c", Json::Null), "aa", Json::Bool(true));
    assert_eq!(render(&more), "{\"a\":3,\"aa\":true,\"b\":[1,true,null,-2.5],\"c\":null}");
    assert!(same_json(&more, &parse_text(&render(&more)).unwrap()));
}

#[test]
fn machines_are_told_from_the_inventory() {
    let listed = format!("{{\"list\":[{{\"name\":\"{NAME}\",\"state\":\"Running\",\"ipv4\":[\"10.0.0.2\"]}}]}}");
    let running = multipass_info(&listed, NAME).unwrap();
    assert!(running.installed && running.running && running.reachable);
    assert_eq!(running.addresses, words(&["10.0.0.2"]));
    let none = multipass_info("{\"list\":[]}", NAME).unwrap();
    assert!(!none.installed);
    assert!(multipass_info("oops", NAME).is_err());
    assert!(multipass_info("{}", NAME).is_err());
}

#[test]
fn machines_belong_to_their_device() {
    let vm = Vm::new(OWNER, VmProvider::Multipass).unwrap();
    assert_eq!(vm.name, NAME);
    assert_eq!(vm.receipt_path("linux", "/s"), format!("/s/{NAME}.receipt.json"));
    vm.check_receipt(render(&vm.creation_record()).as_bytes()).unwrap();
    assert_eq!(
        vm.check_receipt(b"{}").unwrap_err().message,
        "The VM creation receipt does not match this device"
    );
    assert_eq!(
        vm.check_receipt(b"{").unwrap_err().message,
        "The VM creation receipt is damaged"
    );
    let lima = Vm::new(OWNER, VmProvider::Lima).unwrap();
    lima.check_receipt(render(&lima.creation_record()).as_bytes()).unwrap();
    assert!(vm.check_receipt(render(&lima.creation_record()).as_bytes()).is_err());
    vm.verify_owner(OWNER).unwrap();
    assert!(vm.verify_owner("40423e6c-1de0-46dc-a634-144671b655cd").is_err());
    assert!(Vm::new("desk", VmProvider::Lima).is_err());
}

#[test]
fn machines_are_changed_through_their_runtime() {
    let vm = Vm::new(OWNER, VmProvider::Multipass).unwrap();
    assert_eq!(vm.start_args(), words(&["start", NAME]));
    assert!(vm.stop_args(true).contains(&"stop".to_string()));
    assert!(vm.check_pooled().is_err());
    let resources = Resources { cpus: 2, memory_mib: 2048, disk_gib: 20 };
    let launch = vm.launch_args(&resources, "/f");
    assert_eq!(launch[0], "launch");
    assert!(launch.contains(&"2048M".to_string()) && launch.contains(&"20G".to_string()));
    assert_eq!(vm.resize_commands(&resources, "2", true).len(), 3);
    let lima = Vm::new(OWNER, VmProvider::Lima).unwrap();
    assert_eq!(lima.resize_commands(&resources, "2", true).len(), 1);
    assert!(lima.check_storage_command("apply").is_ok());
    assert!(lima.check_storage_command("erase").is_err());
}

#[test]
fn workloads_are_pods_that_run() {
    let pod = |state: &str, name: &str| {
        format!("{{\"state\":\"{state}\",\"metadata\":{{\"name\":\"{name}\",\"namespace\":\"default\",\"uid\":\"{OWNER}\"}}}}")
    };
    let listed = format!(
        "{{\"items\":[{},{}]}}",
        pod("SANDBOX_READY", "web"),
        pod("SANDBOX_NOTREADY", "gone")
    );
    let found = workload_inventory(&listed, &[]).unwrap();
    assert_eq!(found.workloads.len(), 1);
    assert_eq!(found.workloads[0].field_text("name"), Some("web"));
    assert_eq!(found.workloads[0].field_text("state"), Some("running"));
    assert!(found.system_components.is_empty());
    let refused = |t: &str| workload_inventory(t, &[]).unwrap_err().message;
    let words = serde_json::from_str::<serde_json::Value>("oops").unwrap_err().to_string();
    assert_eq!(refused("oops"), words);
    assert_eq!(refused("{}"), "The worker returned no workload inventory");
    assert_eq!(refused("{\"items\":[{}]}"), "A workload has no state");
    assert_eq!(
        refused("{\"items\":[{\"state\":\"LOST\"}]}"),
        "A workload has an unknown state"
    );
    assert_eq!(
        refused("{\"items\":[{\"state\":\"SANDBOX_READY\"}]}"),
        "A workload has no name"
    );
}

#[test]
fn original_disks_stand_in_their_directory() {
    let (directory, disk) =
        original_disk("{\"directory\":\"/vms/a\",\"image\":\"/vms/a/disk.img\"}").unwrap();
    check_original_disk("linux", &directory, &disk, true).unwrap();
    assert_eq!(
        check_original_disk("linux", &directory, &disk, false).unwrap_err().message,
        "Original worker disk is not a file"
    );
    assert_eq!(
        check_original_disk("linux", "/vms/a", "/elsewhere/disk.img", true).unwrap_err().message,
        "Original worker disk location changed"
    );
    check_original_disk("windows", "C:\\v", "c:\\v\\d", true).unwrap();
    assert!(check_original_disk("windows", "C:\\v", "C:\\vm\\d", true).is_err());
    assert!(check_original_disk("windows", "C:\\v", "D:\\v\\d", true).is_err());
    let refused = |t: &str| original_disk(t).unwrap_err().message;
    let words = serde_json::from_str::<serde_json::Value>("oops").unwrap_err().to_string();
    assert_eq!(refused("oops"), words);
    assert_eq!(refused("{}"), "Missing original VM directory");
    assert_eq!(refused("{\"directory\":\"/a\"}"), "Missing original VM disk");
    assert!(stops_service("apply") && stops_service("migrate") && !stops_service("check"));
    assert!(service_loaded(" loaded\n") && !service_loaded("not-found"));
}

#[test]
fn output_is_read_in_bounded_lines() {
    let mut reader = LineReader::new(OutputFormat::Lines, OutputStream::Stdout);
    let first = reader.read(b"one\ntw");
    assert!(matches!(&first[0], Line::Bytes(b) if b == b"one"));
    let second = reader.read(b"o\r");
    assert!(matches!(&second[0], Line::Bytes(b) if b == b"two"));
    let long = reader.read(&[b'x'; 5000]);
    assert!(long.is_empty());
    assert!(matches!(reader.finish(), Some(Line::Omitted)));
    let mut terminal = LineReader::new(OutputFormat::Terminal, OutputStream::Stdout);
    let lines = terminal.read(b"Starting\x08-\x08\\done\n");
    let shown: Vec<Vec<u8>> = lines
        .into_iter()
        .map(|l| match l {
            Line::Bytes(b) => b,
            Line::Omitted => vec![],
        })
        .collect();
    assert_eq!(shown, vec![b"Starting".to_vec(), b"done".to_vec()]);
    assert_eq!(multipass_format(&words(&["exec"])), OutputFormat::Lines);
    assert_eq!(multipass_format(&words(&["launch"])), OutputFormat::Terminal);
    assert_eq!(omitted_text(), "[Output omitted: line exceeds 4096 bytes]");
}

#[test]
fn output_is_limited() {
    assert_eq!(add_output(0, 4_194_304).unwrap(), 4_194_304);
    assert_eq!(
        add_output(1, 4_194_304).unwrap_err().message,
        "Worker command exceeded its 4 MiB output limit"
    );
    assert_eq!(add_stream(5, 5, 10).unwrap(), 10);
    assert_eq!(
        add_stream(5, 6, 10).unwrap_err().message,
        "Backup exceeded its reviewed temporary space; source images preserved"
    );
    assert!(timeout_text(30).contains("30 seconds"));
}

#[test]
fn hosts_are_observed() {
    assert_eq!(architecture("x86_64"), "amd64");
    assert_eq!(architecture("aarch64"), "arm64");
    assert_eq!(cpus(Some(4), 8), 4);
    assert_eq!(cpus(None, 8), 8);
    let disks = [
        FreeSpace { mount: "/".into(), bytes: 10 << 30 },
        FreeSpace { mount: "/data".into(), bytes: 50 << 30 },
    ];
    assert_eq!(disk_gib("linux", &disks, "/data/x", 5), 55);
    assert_eq!(disk_gib("linux", &disks, "/home", 0), 10);
    let disks = [
        FreeSpace { mount: "C:\\".into(), bytes: 1000 << 30 },
        FreeSpace { mount: "D:\\".into(), bytes: 7 << 30 },
    ];
    assert_eq!(disk_gib("windows", &disks, "C:\\Users", 0), 1000);
    assert_eq!(disk_gib("windows", &disks, "d:/worker", 1), 8);
    assert_eq!(disk_gib("linux", &disks, "C:\\Users", 0), 0);
    assert_eq!(power(None), (None, None));
    let (battery, percent) = power(Some(&[BatterySight {
        state: BatteryState::Draining,
        percent: 40,
    }]));
    assert_eq!((battery, percent), (Some(true), Some(40)));
    let seen = observation(Some(9), None, 2, 13, 30, 8, 4 << 30, 55);
    assert_eq!(seen.minute, 13 * 60 + 30);
    assert_eq!(seen.resources.memory_mib, 4096);
    assert_eq!(seen.resources.disk_gib, 55);
}

#[test]
fn guests_get_their_files() {
    let files = guest_files("c", "s", "w");
    let list = files.as_list().unwrap();
    assert!(list.iter().any(|f| f.field_is("path", "/usr/local/lib/nodeharbor/storage_pool.py")
        && f.field_is("content", "s")));
    assert!(list.len() >= 4);
}

#[test]
fn hosts_can_virtualize() {
    assert_eq!(vm_type("macos", "aarch64").unwrap(), "vz");
    assert_eq!(vm_type("linux", "x86_64").unwrap(), "qemu");
    assert!(vm_type("windows", "x86_64").is_err());
    assert!(vm_type("linux", "riscv64").is_err());
    assert_eq!(
        qemu_version("QEMU emulator version 8.2.1 (Debian)", "QEMU emulator version ").unwrap(),
        (8, 2, 1)
    );
    assert!(qemu_version("QEMU emulator version 8", "QEMU emulator version ").is_err());
    assert!(validate_macos_host("14.1", true).is_ok());
    assert!(validate_macos_host("13.6", true).is_err());
    assert!(validate_macos_host("14.1", false).is_err());
    let emulator = "QEMU emulator version 8.2.1";
    let image = "qemu-img version 8.2.1";
    assert!(validate_linux_host("x86_64", emulator, image, 12).is_ok());
    assert!(validate_linux_host("x86_64", emulator, image, 0).is_err());
    assert!(bundled_program("linux", "relative").is_err());
    assert_eq!(
        bundled_program("linux", "/opt/nodeharbor/bin/app").unwrap(),
        "/opt/nodeharbor/lib/NodeHarbor/lima/bin/limactl"
    );
    let refused = |t: &str| bundled_program("windows", t).unwrap_err().message;
    assert_eq!(
        refused("C:\\Program Files\\NodeHarbor\\app.exe"),
        "This bundled worker runtime requires macOS or Linux"
    );
    assert_eq!(refused("/opt/app"), "The application path must be absolute");
    assert_eq!(refused("C:\\app.exe"), "Cannot locate application resources");
}

#[test]
fn downloaded_images_are_the_pinned_ones() {
    let digest = "ba7816bf8f01cfea414140de5dae2223b00361a396177a9cb410ff61f20015ad";
    assert_eq!(expected_digest(&format!("sha256:{digest}")).unwrap(), digest);
    assert!(expected_digest("sha256:12").is_err());
    assert!(expected_digest(digest).is_err());
    assert!(names_image(&image_name(digest)));
    assert!(!names_image(".boot-12"));
    assert!(check_length(Some(1)).is_ok());
    assert!(check_length(Some(u64::MAX)).is_err());
    let mut read = Checksum::new();
    add_piece(&mut read, b"abc").unwrap();
    check_image(read, digest, false).unwrap();
    let mut wrong = Checksum::new();
    add_piece(&mut wrong, b"abcd").unwrap();
    assert_eq!(
        check_image(wrong, digest, false).unwrap_err().message,
        "The VM image download failed SHA-256 verification"
    );
    assert_eq!(
        check_image(Checksum::new(), digest, true).unwrap_err().message,
        "The cached VM image failed SHA-256 verification"
    );
}

#[test]
fn a_stopped_worker_can_update_while_controller_replacement_cleanup_is_unavailable() {
    let mut config = settings();
    config.vm_created = true;
    assert!(waits_for_worker(&config, true));
    let listed = format!("{{\"list\":[{{\"name\":\"{NAME}\",\"state\":\"Stopped\"}}]}}");
    let info = multipass_info(&listed, NAME).unwrap();
    assert!(worker_wait(info.running, false).unwrap());
}

#[test]
fn a_running_worker_still_prevents_an_update_until_its_supervisor_stops_it() {
    let listed = format!("{{\"list\":[{{\"name\":\"{NAME}\",\"state\":\"Running\"}}]}}");
    let info = multipass_info(&listed, NAME).unwrap();
    assert!(!worker_wait(info.running, false).unwrap());
    assert!(worker_wait(info.running, true)
        .unwrap_err()
        .message
        .contains("did not finish draining"));
}

#[test]
fn commands_check_their_arguments() {
    assert!(check_update_wait(0).is_err() && check_update_wait(3600).is_ok());
    assert!(check_exit_wait("linux", "/app", 5).is_ok());
    assert!(check_exit_wait("linux", "app", 5).is_err());
    assert!(check_exit_wait("linux", "/app", 3601).is_err());
    assert!(check_exit_wait("windows", "C:\\Program Files\\app.exe", 5).is_ok());
    assert!(check_exit_wait("windows", "C:app.exe", 5).is_err());
    assert!(check_exit_wait("windows", "/app", 5).is_err());
    assert!(check_exit_wait("linux", "C:\\app.exe", 5).is_err());
    assert!(check_replacement(true).is_ok() && check_replacement(false).is_err());
    let other = ProcessSight { id: 2, task: false, executable: Some("/app".into()) };
    assert!(still_running(&[other], 1, "/app"));
    let own = ProcessSight { id: 1, task: false, executable: Some("/app".into()) };
    assert!(!still_running(&[own], 1, "/app"));
    assert!(application_wait(false, false).unwrap());
    assert!(!application_wait(true, false).unwrap());
    assert!(application_wait(true, true).is_err());
}

#[test]
fn multipass_is_found_where_it_is_installed() {
    let places = MultipassRunner::places("linux", "");
    assert_eq!(places, words(&["/snap/bin/multipass", "/usr/bin/multipass"]));
    assert_eq!(MultipassRunner::program(&places, &[false, true]), "/usr/bin/multipass");
    assert_eq!(MultipassRunner::program(&places, &[false, false]), "multipass");
    assert_eq!(
        MultipassRunner::places("windows", "C:\\Program Files"),
        words(&["C:\\Program Files\\Multipass/bin/multipass.exe"])
    );
    let driver = |text: &str| CommandOutput {
        success: true,
        stdout: text.into(),
        stderr: "".into(),
    };
    assert!(MultipassRunner::check_driver(&driver("hyperv\n")).is_ok());
    assert!(MultipassRunner::check_driver(&driver("qemu")).is_err());
    assert_eq!(emulator_program("aarch64"), Some("qemu-system-aarch64"));
    assert_eq!(emulator_program("riscv64"), None);
}

#[test]
fn nodes_report_their_storage_with_a_unit() {
    let node = parse_text(
        "{\"status\":{\"capacity\":{\"ephemeral-storage\":\"20Ki\"},\"allocatable\":{\"ephemeral-storage\":\"19500m\"},\"plain\":{\"ephemeral-storage\":\"7\"}}}",
    )
    .unwrap();
    assert_eq!(storage_quantity(&node, "capacity").unwrap(), ("20".to_string(), Unit::Kibi));
    assert_eq!(storage_quantity(&node, "allocatable").unwrap(), ("19500".to_string(), Unit::Milli));
    assert_eq!(storage_quantity(&node, "plain").unwrap(), ("7".to_string(), Unit::One));
    assert_eq!(
        storage_quantity(&node, "other").unwrap_err().message,
        "Kubernetes did not report worker storage capacity"
    );
}

#[test]
fn guests_run_the_workers_service() {
    let vm = Vm::new(OWNER, VmProvider::Lima).unwrap();
    assert!(vm.service_args().contains(&"--property=LoadState".to_string()));
    assert!(vm.stop_service_args(true).contains(&"disable".to_string()));
    assert!(!vm.stop_service_args(false).contains(&"disable".to_string()));
    assert!(vm.configure_args().last().unwrap().ends_with("configure_worker.py"));
    assert_eq!(vm.script_args("pass").last().unwrap(), "pass");
}

#[test]
fn guests_are_reached_through_their_runtime() {
    let lima = Vm::new(OWNER, VmProvider::Lima).unwrap();
    let multipass = Vm::new(OWNER, VmProvider::Multipass).unwrap();
    assert_eq!(
        lima.owner_args(),
        words(&["shell", "--workdir=/", "worker", "sudo", "cat", "/etc/nodeharbor/device-id"])
    );
    assert_eq!(
        multipass.initialization_args(),
        words(&["exec", NAME, "--", "sudo", "cloud-init", "status", "--wait"])
    );
    assert_eq!(multipass.list_args(), words(&["list", "--format", "json"]));
    assert_eq!(multipass.delete_args(), words(&["delete", "--purge", NAME]));
    assert_eq!(lima.delete_args(), words(&["delete", "worker"]));
    assert_eq!(
        lima.lima_create_args("/tmp/worker.yaml"),
        words(&["start", "--name=worker", "--timeout=15m", "/tmp/worker.yaml"])
    );
    assert_eq!(lima.lease_args().last().unwrap(), "renew");
    assert_eq!(lima.workload_args()[3..], words(&["sudo", "/usr/local/bin/k3s", "crictl", "pods", "-o", "json"])[..]);
    assert_eq!(lima.storage_args("check").last().unwrap(), "check");
    let backup = lima.guest_command(GuestTask::StreamBackup, "print()", "verify").unwrap();
    assert_eq!(backup[3..], words(&["sudo", "python3", "-c", "print()", "verify", OWNER])[..]);
    assert_eq!(
        Vm::check_backup_action("delete").unwrap_err().message,
        "Unsupported backup operation"
    );
    Vm::check_backup_action("restore").unwrap();
    let pool = lima.guest_command(GuestTask::UsePool, "", "apply").unwrap();
    assert_eq!(pool, lima.storage_args("apply"));
    assert_eq!(lima.node_args().unwrap().last().unwrap(), NAME);
    assert_eq!(step_timeout(VmWork::Configure, VmStep::Guest(GuestTask::InstallFiles)), 30);
    assert_eq!(step_timeout(VmWork::Make, VmStep::MakeVm), 1200);
    assert!(lima.credentials_args().last().unwrap().contains("client-kubelet.key"));
    assert!(lima.package_args().last().unwrap().contains("apt-get install -y lvm2"));
}

#[test]
fn failed_commands_name_their_runtime() {
    let vm = Vm::new(OWNER, VmProvider::Multipass).unwrap();
    let output = |success: bool, stderr: &str| CommandOutput {
        success,
        stdout: "out".into(),
        stderr: stderr.into(),
    };
    assert_eq!(vm.command_result(output(true, "")).unwrap(), "out");
    assert_eq!(
        vm.command_result(output(false, "  no such instance\n")).unwrap_err().message,
        "multipass: no such instance"
    );
    check_stream(true, "").unwrap();
    assert_eq!(
        check_stream(false, "gone").unwrap_err().message,
        "Worker backup operation failed: gone"
    );
    assert_eq!(check_cached(false).unwrap_err().message, "The cached VM image was replaced");
}

#[test]
fn stopped_workers_get_another_configuration() {
    let vm = Vm::new(OWNER, VmProvider::Lima).unwrap();
    let listed = "{\"name\":\"worker\",\"status\":\"Stopped\",\"config\":{\"probes\":[],\"provision\":[1],\"additionalDisks\":[]}}";
    let saved = Vm::saved_configuration(listed).unwrap();
    assert_eq!(
        vm.edit_args(&saved),
        words(&[
            "edit",
            "worker",
            "--set",
            ".plain = true",
            "--set",
            ".ssh.overVsock = false",
            "--set",
            ".additionalDisks = []",
            "--set",
            ".provision = [1]",
            "--set",
            ".probes = []",
        ])
    );
    assert_eq!(
        vm.attachment_args(&[]),
        words(&[
            "edit",
            "worker",
            "--set",
            ".plain = true | .ssh.overVsock = false | .additionalDisks = []",
        ])
    );
    assert_eq!(
        Vm::saved_configuration(&listed.replace("Stopped", "Running")).unwrap_err().message,
        "Stop the worker before changing storage provisioning"
    );
    assert_eq!(
        Vm::saved_configuration("{\"name\":\"worker\",\"status\":\"Stopped\"}")
            .unwrap_err()
            .message,
        "Lima did not report the saved worker configuration"
    );
}

#[test]
fn guests_are_made_with_their_identity() {
    let vm = Vm::new(OWNER, VmProvider::Multipass).unwrap();
    let text = vm.cloud_configuration(&parse_text("[{\"path\":\"/a\"}]").unwrap()).unwrap();
    let written = parse_text(text.strip_prefix("#cloud-config\n").unwrap()).unwrap();
    let files = written.field_list("write_files").unwrap();
    assert_eq!(files[0].field_text("content"), Some(OWNER));
    assert_eq!(files[1].field_text("path"), Some("/a"));
    assert_eq!(
        vm.cloud_configuration(&Json::Null).unwrap_err().message,
        "Invalid worker image files"
    );
    let payload = vm.guest_payload(Json::Null);
    assert_eq!(payload.field_text("deviceId"), Some(OWNER));
}
