use nodeharbor_agent::json::{parse_text, render, Json};
use nodeharbor_agent::runtime_storage::{
    allowed_links, apart, check_file, check_piece, check_volume, chunk, directory_record,
    entry_destination, file_record, home_refusal_message, is_image_name, link_record, needs_image_info,
    owned_directory, plan_entry, receipt, relocation_marker, remove_retired_home,
    remove_source_home, transient, unavailable_answer, validate_home, verify_boot_image,
    verify_source, verify_source_receipt, Copying, DirectoryFacts, EntryPlan, EntrySight, FileCopy, HomeEvent, HomeFacts, HomeOutcome,
    HomeRefusal, HomeStep, LinkSight, Preparing, RuntimeFileFacts,
};
use nodeharbor_agent::storage_layout::Layout;
use nodeharbor_agent::CommandOutput;

const OWNER: &str = "9511182e-9c48-4d20-a15b-1da8bb441386";

fn layout() -> Layout {
    Layout {
        version: 1,
        system_location_id: "one".into(),
        volume_id: "right-volume".into(),
        runtime_directory: "/data/.nhtest".into(),
        system_gib: 16,
    }
}

fn home(volume: &str, saved: &[u8]) -> HomeFacts {
    HomeFacts {
        directory: DirectoryFacts { directory: true, private: true },
        volume_id: volume.into(),
        file: RuntimeFileFacts { regular: true, owned: true },
        saved: saved.to_vec(),
    }
}

fn prepare(volume: &str, receipt_there: bool, valid: bool) -> (HomeOutcome, Vec<HomeStep>) {
    let mut machine = Preparing::new();
    let mut event = HomeEvent::Begin;
    let mut steps = Vec::new();
    loop {
        let (next, step) = machine.next(event);
        machine = next;
        steps.push(step);
        event = match step {
            HomeStep::Finish(outcome) => return (outcome, steps),
            HomeStep::FolderExists => HomeEvent::Answer(true),
            HomeStep::ReceiptExists => HomeEvent::Answer(receipt_there),
            HomeStep::HomeEmpty => HomeEvent::Answer(true),
            HomeStep::FolderVolume | HomeStep::ParentVolume | HomeStep::HomeVolume => {
                if check_volume(volume, "right-volume").is_ok() {
                    HomeEvent::Done
                } else {
                    HomeEvent::Failed
                }
            }
            HomeStep::Validate => {
                if valid {
                    HomeEvent::Done
                } else {
                    HomeEvent::Failed
                }
            }
            _ => HomeEvent::Done,
        };
        assert!(steps.len() < 50);
    }
}

#[test]
fn runtime_directory_requires_its_original_volume_and_owner() {
    let (refused, steps) = prepare("wrong-volume", false, true);
    assert_eq!(refused, HomeOutcome::Failed);
    assert!(!steps.contains(&HomeStep::MakeHome));
    let (made, steps) = prepare("right-volume", false, true);
    assert_eq!(made, HomeOutcome::Done);
    assert!(steps.contains(&HomeStep::WriteReceipt));
    let (again, steps) = prepare("right-volume", true, true);
    assert_eq!(again, HomeOutcome::Done);
    assert!(!steps.contains(&HomeStep::WriteReceipt));
    let saved = render(&receipt(&layout(), OWNER).unwrap());
    let facts = home("right-volume", saved.as_bytes());
    validate_home(&layout(), OWNER, &facts).unwrap();
    assert_eq!(
        validate_home(&layout(), "af9f3259-8fdf-42b9-a3b4-1c53759bb2bb", &facts)
            .unwrap_err()
            .message,
        "The VM directory belongs to a different owner or volume"
    );
    let (stranger, _) = prepare("right-volume", true, false);
    assert_eq!(stranger, HomeOutcome::Failed);
}

#[test]
fn runtime_directories_are_checked_in_order() {
    let saved = render(&receipt(&layout(), OWNER).unwrap());
    assert_eq!(
        validate_home(&layout(), OWNER, &home("wrong-volume", saved.as_bytes()))
            .unwrap_err()
            .message,
        "The selected VM volume disappeared or was replaced; storage will not be redirected"
    );
    assert_eq!(
        validate_home(&layout(), OWNER, &home("right-volume", b"{")).unwrap_err().message,
        serde_json::from_str::<serde_json::Value>("{").unwrap_err().to_string()
    );
    assert_eq!(
        owned_directory(DirectoryFacts { directory: false, private: true }).unwrap_err().message,
        "The VM directory was replaced"
    );
    assert_eq!(
        owned_directory(DirectoryFacts { directory: true, private: false }).unwrap_err().message,
        "The VM directory must be private and owned by the current user"
    );
    assert!(receipt(&layout(), "desk").is_err());
}

#[test]
fn a_missing_selected_runtime_never_recreates_storage_on_an_ancestor_volume() {
    let info = unavailable_answer(&["list".into(), "--json".into()]).unwrap();
    assert!(info.success && info.stdout.is_empty());
    assert!(unavailable_answer(&["start".into(), "worker".into()]).is_none());
    let (outcome, steps) = prepare("absent-volume", false, true);
    assert_eq!(outcome, HomeOutcome::Failed);
    assert!(!steps.contains(&HomeStep::MakeFolder) && !steps.contains(&HomeStep::MakeHome));
}

#[test]
fn system_image_proof_rejects_missing_replaced_and_wrong_size_disks() {
    let none = CommandOutput { success: true, stdout: "".into(), stderr: "".into() };
    let raw = [0u8; 4];
    assert!(!needs_image_info(&raw));
    assert_eq!(
        verify_boot_image(&layout(), "right-volume", &raw, 15 << 30, &none).unwrap_err().message,
        "The actual VM system image capacity differs from the reviewed allocation"
    );
    verify_boot_image(&layout(), "right-volume", &raw, 16 << 30, &none).unwrap();
    assert_eq!(
        verify_boot_image(&layout(), "other", &raw, 16 << 30, &none).unwrap_err().message,
        "The VM system image is not on the selected volume"
    );
    let qcow = [0x51u8, 0x46, 0x49, 0xfb];
    assert!(needs_image_info(&qcow));
    let shown = |text: &str| CommandOutput { success: true, stdout: text.into(), stderr: "".into() };
    verify_boot_image(
        &layout(),
        "right-volume",
        &qcow,
        1,
        &shown("{\"format\":\"qcow2\",\"virtual-size\":17179869184}"),
    )
    .unwrap();
    assert!(verify_boot_image(
        &layout(),
        "right-volume",
        &qcow,
        1,
        &shown("{\"format\":\"qcow2\",\"virtual-size\":17179869184,\"backing-filename\":\"/b\"}"),
    )
    .is_err());
}

#[test]
fn relocating_stopped_runtime_preserves_sparse_bytes_and_cancellation_preserves_source() {
    assert!(transient("ha.pid") && !transient("disk"));
    let skipped = plan_entry(
        "/old",
        "/new",
        "worker/ha.pid",
        "ha.pid",
        true,
        &[],
        &EntrySight::File,
        &LinkSight::Absent,
    )
    .unwrap();
    assert!(matches!(skipped, EntryPlan::Skip));
    let copied = plan_entry(
        "/old",
        "/new",
        "worker/disk",
        "disk",
        false,
        &[],
        &EntrySight::File,
        &LinkSight::Absent,
    )
    .unwrap();
    assert!(matches!(copied, EntryPlan::CopyFile { .. }));
    let mut machine = Copying::new("/old", "/data/.nhtest");
    let mut steps = Vec::new();
    let mut event = HomeEvent::Begin;
    let outcome = loop {
        let (next, step) = machine.next(event);
        machine = next;
        steps.push(step);
        event = match step {
            HomeStep::Finish(outcome) => break outcome,
            HomeStep::Authority => HomeEvent::Failed,
            HomeStep::MarkerExists | HomeStep::StagedExists | HomeStep::WorkerExists => {
                HomeEvent::Answer(false)
            }
            _ => HomeEvent::Done,
        };
    };
    assert_eq!(outcome, HomeOutcome::Failed);
    assert!(!steps.contains(&HomeStep::Walk) && !steps.contains(&HomeStep::RenameStaged));
    let record = |size: u64, transient: bool| {
        let mut entries = vec![("disk".to_string(), file_record(size, 7, "then"))];
        if transient {
            entries.insert(0, ("ha.pid".to_string(), file_record(1, 8, "now")));
        }
        entries.push(("config".to_string(), link_record("/a")));
        directory_record(&entries)
    };
    let marker = relocation_marker(OWNER, &layout(), "v", record(5, true));
    let saved = parse_text(&render(&marker)).unwrap();
    verify_source_receipt(&saved, &layout(), OWNER, "v").unwrap();
    verify_source(&saved, &layout(), OWNER, "v", &record(5, false)).unwrap();
    verify_source(&saved, &layout(), OWNER, "v", &record(5, true)).unwrap();
    assert_eq!(
        verify_source(&saved, &layout(), OWNER, "v", &record(6, false)).unwrap_err().message,
        "The original VM changed after relocation; its files have been preserved"
    );
    assert!(verify_source(&saved, &layout(), OWNER, "other", &record(5, false)).is_err());
    let other = "cdc3d4f9-8bbc-4a73-bae9-7a43d5f0e2bf";
    assert!(verify_source(&saved, &layout(), other, "v", &record(5, false)).is_err());
    assert!(verify_source(&Json::Null, &layout(), OWNER, "v", &record(5, false)).is_err());
    assert_ne!(render(&link_record("/a")), render(&link_record("/b")));
    check_piece(b"abc", b"abc", "differs").unwrap();
    assert_eq!(check_piece(b"abc", b"abd", "differs").unwrap_err().message, "differs");
    assert!(check_piece(b"abc", b"ab", "differs").is_err());
}

#[test]
fn interrupted_copy_never_exposes_a_partial_vm_and_verified_retries_reuse_its_image() {
    let staged = entry_destination("/data/.nhtest", "worker/disk", false);
    assert!(!staged.starts_with("/data/.nhtest/worker/"));
    let run = |copied: bool, same: bool, cut: bool| {
        let mut machine = FileCopy::new();
        let mut steps = Vec::new();
        let mut event = HomeEvent::Begin;
        loop {
            let (next, step) = machine.next(event);
            machine = next;
            steps.push(step);
            event = match step {
                HomeStep::Finish(outcome) => return (outcome, steps),
                HomeStep::Copied => HomeEvent::Answer(copied),
                HomeStep::CompareCopy if !same => HomeEvent::Failed,
                HomeStep::Authority if cut => HomeEvent::Failed,
                _ => HomeEvent::Done,
            };
            assert!(steps.len() < 50);
        }
    };
    let (fresh, steps) = run(false, true, false);
    assert_eq!(fresh, HomeOutcome::Done);
    assert!(steps.contains(&HomeStep::Persist));
    let (cut, steps) = run(false, true, true);
    assert_eq!(cut, HomeOutcome::Failed);
    assert!(!steps.contains(&HomeStep::Persist));
    let (reused, steps) = run(true, true, false);
    assert_eq!(reused, HomeOutcome::Done);
    assert!(!steps.contains(&HomeStep::Persist));
    let (differs, _) = run(true, false, false);
    assert!(differs != HomeOutcome::Done);
    let (overlap, _) = Copying::new("/a", "/a/b").next(HomeEvent::Begin);
    assert!(!overlap.apart);
    assert!(apart("/a", "/b") && !apart("/a", "/a/b"));
    assert_ne!(HomeRefusal::Overlap, HomeRefusal::DestinationTaken);
}

fn move_runtime(
    source: &str,
    home: &str,
    marked: bool,
    same: bool,
    cut: bool,
) -> (HomeOutcome, Vec<HomeStep>) {
    let mut machine = Copying::new(source, home);
    let mut steps = Vec::new();
    let mut event = HomeEvent::Begin;
    loop {
        let (next, step) = machine.next(event);
        machine = next;
        steps.push(step);
        event = match step {
            HomeStep::Finish(outcome) => return (outcome, steps),
            HomeStep::MarkerExists => HomeEvent::Answer(marked),
            HomeStep::StagedExists => HomeEvent::Answer(true),
            HomeStep::WorkerExists => HomeEvent::Answer(false),
            HomeStep::VerifySource if !same => HomeEvent::Failed,
            HomeStep::Walk if cut => HomeEvent::Failed,
            _ => HomeEvent::Done,
        };
        assert!(steps.len() < 50);
    }
}

#[test]
fn runtime_files_are_the_owners() {
    let check = |regular: bool, owned: bool| check_file(RuntimeFileFacts { regular, owned });
    check(true, true).unwrap();
    assert_eq!(check(false, true).unwrap_err().message, "Unexpected VM runtime file");
    assert_eq!(
        check(true, false).unwrap_err().message,
        "The VM runtime file belongs to another user"
    );
}

#[test]
fn cut_moves_can_be_repeated() {
    let (cut, steps) = move_runtime("/old", "/data/.nhtest", false, true, true);
    assert_eq!(cut, HomeOutcome::Failed);
    assert!(steps.contains(&HomeStep::WriteMarker) && !steps.contains(&HomeStep::RenameStaged));
    let (again, steps) = move_runtime("/old", "/data/.nhtest", true, true, false);
    assert_eq!(again, HomeOutcome::Done);
    assert!(!steps.contains(&HomeStep::WriteMarker) && steps.contains(&HomeStep::RenameStaged));
    let (changed, steps) = move_runtime("/old", "/data/.nhtest", true, false, false);
    assert_eq!(changed, HomeOutcome::Failed);
    assert!(!steps.contains(&HomeStep::Walk) && !steps.contains(&HomeStep::RenameStaged));
    let (overlap, steps) = move_runtime("/old", "/old/.nhtest", false, true, false);
    assert_eq!(overlap, HomeOutcome::Refused(HomeRefusal::Overlap));
    assert!(!steps.contains(&HomeStep::Walk));
}

#[test]
fn links_lead_only_to_owned_disks() {
    let inner = EntrySight::Link { link: "disk".into(), resolved: Some("/old/worker/disk".into()) };
    let unreadable = LinkSight::Unreadable("Invalid argument (os error 22)".into());
    assert_eq!(
        plan_entry("/old", "/new", "worker/x", "x", false, &[], &inner, &unreadable)
            .unwrap_err()
            .message,
        "Invalid argument (os error 22)"
    );
    let link = EntrySight::Link { link: "/elsewhere".into(), resolved: Some("/elsewhere".into()) };
    assert_eq!(
        plan_entry("/old", "/new", "x", "x", false, &[], &link, &LinkSight::Absent)
            .unwrap_err()
            .message,
        "The VM contains an unowned external link"
    );
    let broken = EntrySight::Link { link: "/gone".into(), resolved: None };
    assert_eq!(
        plan_entry("/old", "/new", "x", "x", false, &[], &broken, &LinkSight::Absent)
            .unwrap_err()
            .message,
        "The original VM has an unavailable link"
    );
    assert!(plan_entry(
        "/old",
        "/new",
        "x",
        "x",
        false,
        &["/elsewhere".to_string()],
        &link,
        &LinkSight::Absent
    )
    .is_ok());
    assert_eq!(
        plan_entry("/old", "/new", "x", "x", false, &[], &EntrySight::Special, &LinkSight::Absent)
            .unwrap_err()
            .message,
        "Unexpected special file in the stopped VM runtime"
    );
    assert!(allowed_links("/old", OWNER, &[]).unwrap().is_empty());
    assert!(chunk(0, 10) == 10);
    assert!(is_image_name("disk") && !is_image_name("notes"));
}

#[test]
fn retired_homes_go_when_they_are_empty() {
    let saved = render(&receipt(&layout(), OWNER).unwrap());
    let facts = home("right-volume", saved.as_bytes());
    remove_retired_home(&layout(), OWNER, &facts, false, &[]).unwrap();
    assert_eq!(
        remove_retired_home(&layout(), OWNER, &facts, true, &[]).unwrap_err().message,
        "Remove the original VM through Lima before cleaning up its directory"
    );
    assert_eq!(
        remove_retired_home(&layout(), OWNER, &facts, false, &["other".to_string()])
            .unwrap_err()
            .message,
        "An unexpected VM directory remains; original runtime cleanup was stopped"
    );
}

#[test]
fn moved_homes_go_with_their_receipt() {
    let saved = parse_text(&format!(
        "{{\"deviceId\":\"{OWNER}\",\"volumeId\":\"old\",\"files\":{{}},\"target\":{{\"version\":1,\"systemLocationId\":\"one\",\"volumeId\":\"right-volume\",\"runtimeDirectory\":\"/data/.nhtest\",\"systemGib\":16}}}}"
    ))
    .unwrap();
    remove_source_home(&saved, &layout(), OWNER, "old", false, &["_disks".to_string()]).unwrap();
    assert_eq!(
        remove_source_home(&saved, &layout(), OWNER, "new", false, &[]).unwrap_err().message,
        "The original VM volume or owner changed; its files have been preserved"
    );
    assert_eq!(
        remove_source_home(&saved, &layout(), OWNER, "old", true, &[]).unwrap_err().message,
        "Remove the original VM through Lima before cleaning up its directory"
    );
    assert_eq!(
        home_refusal_message(HomeRefusal::Overlap),
        "VM runtime directories cannot overlap"
    );
}
