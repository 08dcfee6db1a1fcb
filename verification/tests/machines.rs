use nodeharbor_agent::agent::absence::{
    decide_recovery, insufficient_text, is_too_soon, missing_disks, remaining_disks, stock,
    Absence,
};
use nodeharbor_agent::agent::inventory::check_sizes;
use nodeharbor_agent::agent::maintenance::{job, Maintaining};
use nodeharbor_agent::agent::relocation::{trip, Moving, Sweeping, Trail};
use nodeharbor_agent::agent::routines::{Recreating, Stopping};
use nodeharbor_agent::agent::saves::apply;
use nodeharbor_agent::agent::steps::{
    facts, no_sight, Event, Facts, Memory, Notice, Outcome, Refusal, Route, Routine, Save, Sight,
    Stage, Step, StorageSave, VmTask, WorkerAction,
};
use nodeharbor_agent::agent::storage_operations::{change, named_stage, stage_text, Changing};
use nodeharbor_agent::agent::storage_saves::{operation_stage, storage_missing, storage_returned};
use nodeharbor_agent::agent::tick::Tick;
use nodeharbor_agent::lima_storage::{
    growth, Creating, DiskEvent, DiskOutcome, DiskRefusal, DiskStep, Discarding, Growing, LinkState,
};
use nodeharbor_agent::policy::{Policy, Resources};
use nodeharbor_agent::storage::{Location, LocationStatus, Operation};
use nodeharbor_agent::storage_layout::Layout;
use nodeharbor_agent::storage_lifecycle::RecoveryDecision;
use nodeharbor_agent::store::WorkerRecreation;
use nodeharbor_agent::vm_operations::{
    vm_refusal_message, GuestTask, VmEvent, VmOutcome, VmRefusal, VmRun, VmStep, VmWork,
};
use nodeharbor_agent::{Configuration, VmProvider};

const SMALL: Resources = Resources { cpus: 2, memory_mib: 2048, disk_gib: 20 };

fn settings() -> Configuration {
    let policy = Policy {
        enabled: true,
        resources: SMALL,
        drain_seconds: 300,
        allow_ci: true,
        allow_services: false,
        rules: "{}".into(),
    };
    Configuration::new("linux", None, policy)
}

fn member() -> Configuration {
    let mut config = settings();
    config.device_token = Some("token".into());
    config.vm_created = true;
    config.vm_configured = true;
    config.allocated_resources = Some(SMALL);
    config
}

fn running() -> Sight {
    Sight { installed: true, running: true, reachable: true, stopped: false }
}

fn stopped() -> Sight {
    Sight { installed: true, running: false, reachable: false, stopped: true }
}

fn location(id: &str) -> Location {
    Location {
        id: id.into(),
        volume_id: "v".into(),
        directory: format!("/data/{id}"),
        allocation_gib: 20,
    }
}

fn usual(step: Step, config: Facts, worker: Sight) -> Event {
    match step {
        Step::Load | Step::Save(_) | Step::ResolveInitialStorage => Event::Settings(config),
        Step::Receipt => Event::Answer(true),
        Step::Inspect | Step::Look => Event::Worker(worker),
        Step::MissingStorage | Step::LocalDrain => Event::Answer(false),
        Step::Judge => Event::Judged(true, false),
        Step::Count | Step::CountAll | Step::CountReplied => Event::Workloads(0),
        Step::Bound => Event::Bound(0),
        Step::SwapIdle(_) => Event::Answer(true),
        Step::Decide(_) => Event::Action(WorkerAction::Keep),
        _ => Event::Done,
    }
}

fn tick(config: Facts, mut answer: impl FnMut(Step) -> Event) -> (Outcome, Vec<Step>) {
    let mut machine = Tick::new(config);
    let mut event = Event::Begin;
    let mut steps = Vec::new();
    loop {
        let (next, step) = machine.next(event);
        machine = next;
        steps.push(step);
        if let Step::Finish(outcome) = step {
            return (outcome, steps);
        }
        event = answer(step);
        assert!(steps.len() < 200);
    }
}

#[test]
fn computers_outside_a_fleet_wait() {
    let config = facts(&settings(), 0);
    let (outcome, steps) = tick(config, |s| usual(s, config, no_sight()));
    assert_eq!(outcome, Outcome::Done);
    assert!(!steps.iter().any(|s| matches!(s, Step::Run(_) | Step::Heartbeat)));
}

#[test]
fn sharing_workers_stay_as_they_are() {
    let config = facts(&member(), 0);
    let (outcome, steps) = tick(config, |s| usual(s, config, running()));
    assert_eq!(outcome, Outcome::Done);
    assert!(steps.iter().any(|s| matches!(s, Step::Decide(input) if input.permitted && input.running)));
    assert!(!steps.contains(&Step::Run(VmTask::Stop)));
}

#[test]
fn decisions_start_and_stop_the_worker() {
    let config = facts(&member(), 0);
    let (outcome, steps) = tick(config, |s| match s {
        Step::Decide(_) => Event::Action(WorkerAction::Start),
        _ => usual(s, config, stopped()),
    });
    assert_eq!(outcome, Outcome::Done);
    assert!(steps.contains(&Step::Run(VmTask::Start)));
    assert!(steps.contains(&Step::Ask(Route::Bootstrap)));
    let (outcome, steps) = tick(config, |s| match s {
        Step::Decide(_) => Event::Action(WorkerAction::Stop),
        _ => usual(s, config, running()),
    });
    assert_eq!(outcome, Outcome::Done);
    assert!(steps.contains(&Step::Run(VmTask::Stop)));
}

#[test]
fn pauses_from_the_fleet_are_told() {
    let config = facts(&member(), 0);
    let paused = |s| match s {
        Step::Judge => Event::Judged(true, true),
        _ => usual(s, config, stopped()),
    };
    let (outcome, steps) = tick(config, paused);
    assert_eq!(outcome, Outcome::Done);
    assert!(steps.contains(&Step::Tell(Notice::PausedFromFleet)));
    assert!(!steps.contains(&Step::TellResting));
    let (_, steps) = tick(config, |s| usual(s, config, stopped()));
    assert!(steps.contains(&Step::TellResting));
}

#[test]
fn updates_stop_idle_workers() {
    let mut updating = member();
    updating.application_update_pending = true;
    let config = facts(&updating, 0);
    let (outcome, steps) = tick(config, |s| usual(s, config, running()));
    assert_eq!(outcome, Outcome::Done);
    assert!(steps.contains(&Step::Run(VmTask::Stop)));
    let shown = steps.iter().position(|s| *s == Step::SwapIdle(true)).unwrap();
    assert_eq!(steps[shown - 1], Step::Note(Memory::Counted));
    let (_, steps) = tick(config, |s| match s {
        Step::CountReplied => Event::Workloads(1),
        _ => usual(s, config, running()),
    });
    assert!(steps.contains(&Step::SwapIdle(false)));
    assert!(!steps.contains(&Step::Run(VmTask::Stop)));
    let (_, steps) = tick(config, |s| match s {
        Step::SwapIdle(_) => Event::Answer(false),
        _ => usual(s, config, running()),
    });
    assert!(!steps.contains(&Step::Run(VmTask::Stop)));
}

#[test]
fn unverified_allocations_block_the_worker() {
    let mut broken = member();
    broken.remote.repair_required = true;
    let config = facts(&broken, 0);
    let (outcome, _) = tick(config, |s| usual(s, config, stopped()));
    assert_eq!(outcome, Outcome::Refused(Refusal::UnverifiedAllocation));
}

#[test]
fn storage_comes_before_sharing() {
    let mut changing = member();
    changing.storage_operation = Some(Operation {
        layout: None,
        previous: vec![],
        target: vec![location("nha")],
        generation: 1,
        phase: "pending".into(),
        paused: false,
    });
    let config = facts(&changing, 0);
    let (outcome, _) = tick(config, |s| usual(s, config, running()));
    assert_eq!(outcome, Outcome::Go(Routine::StorageOperation));
    let plain = facts(&member(), 0);
    let (outcome, steps) = tick(plain, |s| match s {
        Step::ValidateStorage => Event::Failed,
        _ => usual(s, plain, running()),
    });
    assert_eq!(outcome, Outcome::Held);
    assert!(steps.contains(&Step::Run(VmTask::StopNow)));
}

#[test]
fn preparation_ends_with_a_configured_worker() {
    let mut fresh = member();
    fresh.vm_created = false;
    fresh.vm_configured = false;
    fresh.allocated_resources = None;
    fresh.prepare_requested = true;
    let config = facts(&fresh, 0);
    let mut created = false;
    let (outcome, steps) = tick(config, |s| {
        if matches!(s, Step::Run(VmTask::Create(_)) | Step::CreateStorageWorker) {
            created = true;
        }
        match s {
            Step::Receipt => Event::Answer(created),
            Step::Inspect | Step::Look => {
                Event::Worker(if created { running() } else { no_sight() })
            }
            _ => usual(s, config, running()),
        }
    });
    assert_eq!(outcome, Outcome::Done);
    assert!(created);
    assert!(steps.contains(&Step::Save(Save::FinishPreparation)));
}

#[test]
fn stop_requests_last_until_the_worker_stopped() {
    let run = |fails: bool| {
        let config = facts(&member(), 0);
        let mut machine = Stopping::new();
        let mut event = Event::Begin;
        let mut steps = Vec::new();
        loop {
            let (next, step) = machine.next(event);
            machine = next;
            steps.push(step);
            event = match step {
                Step::Finish(outcome) => return (outcome, steps),
                Step::Run(VmTask::StopNow) if fails => Event::Failed,
                _ => usual(step, config, running()),
            };
            assert!(steps.len() < 50);
        }
    };
    let (outcome, steps) = run(false);
    assert_eq!(outcome, Outcome::Done);
    assert!(steps.contains(&Step::Save(Save::RequestStop)));
    assert!(steps.iter().any(|s| matches!(s, Step::Save(Save::FinishStop(_)))));
    let (outcome, steps) = run(true);
    assert!(outcome != Outcome::Done);
    assert!(!steps.iter().any(|s| matches!(s, Step::Save(Save::FinishStop(_)))));
}

#[test]
fn replaced_disks_go_after_their_access() {
    let mut replaced = member();
    replaced.recreation = Some(WorkerRecreation {
        request_id: 7,
        access_removed: false,
        target_provider: None,
    });
    let config = facts(&replaced, 0);
    let mut machine = Recreating::new(config);
    let mut event = Event::Begin;
    let mut steps = Vec::new();
    let outcome = loop {
        let (next, step) = machine.next(event);
        machine = next;
        steps.push(step);
        event = match step {
            Step::Finish(outcome) => break outcome,
            _ => usual(step, config, stopped()),
        };
        assert!(steps.len() < 60);
    };
    assert_eq!(outcome, Outcome::Done);
    let access = steps.iter().position(|s| *s == Step::Ask(Route::Reset)).unwrap();
    let removed = steps.iter().position(|s| *s == Step::Run(VmTask::Remove)).unwrap();
    assert!(access < removed);
}

#[test]
fn saves_change_what_they_say() {
    let mut config = member();
    apply(&mut config, Save::BeginDrain, 50, false, "now").unwrap();
    assert_eq!(config.draining_since, Some(50));
    apply(&mut config, Save::BeginDrain, 60, false, "now").unwrap();
    assert_eq!(config.draining_since, Some(50));
    apply(&mut config, Save::ClearDrainIfPermitted, 60, true, "now").unwrap();
    assert_eq!(config.draining_since, Some(50));
    apply(&mut config, Save::ClearDrain, 60, false, "now").unwrap();
    assert_eq!(config.draining_since, None);
    assert!(apply(&mut config, Save::AccessRemoved, 0, false, "now").is_err());
    apply(&mut config, Save::WorkerReplaced(VmProvider::Lima), 0, false, "now").unwrap();
    assert!(!config.vm_created && !config.policy.enabled && config.allocated_resources.is_none());
}

#[test]
fn missing_storage_stops_the_worker() {
    let mut config = member();
    config.storage_locations.push(location("nha"));
    config.storage_generation = 1;
    let s = stock(&config, 1000);
    assert!(s.in_use && !is_too_soon(s));
    let mut machine = Absence::new(s);
    let mut event = Event::Begin;
    let mut steps = Vec::new();
    let outcome = loop {
        let (next, step) = machine.next(event);
        machine = next;
        steps.push(step);
        event = match step {
            Step::Finish(outcome) => break outcome,
            Step::FindMissing => Event::Found(1),
            Step::DecideRecovery => Event::Recovery(RecoveryDecision::Wait),
            _ => usual(step, facts(&config, 1000), running()),
        };
        assert!(steps.len() < 50);
    };
    assert_eq!(outcome, Outcome::Answer(true));
    assert!(steps.contains(&Step::SaveStorage(StorageSave::StorageMissing)));
    assert!(steps.contains(&Step::Run(VmTask::StopNow)) || steps.contains(&Step::Run(VmTask::Stop)));
    storage_missing(&mut config, &[location("nha")], 1000);
    assert_eq!(config.storage_lifecycle.missing.as_ref().unwrap().since, 1000);
    storage_missing(&mut config, &[location("nha")], 1100);
    assert_eq!(config.storage_lifecycle.missing.as_ref().unwrap().since, 1000);
    storage_returned(&mut config);
    assert!(config.storage_lifecycle.missing.is_none());
}

#[test]
fn storage_changes_rest_when_paused() {
    let mut config = member();
    config.storage_operation = Some(Operation {
        layout: None,
        previous: vec![],
        target: vec![location("nha")],
        generation: 1,
        phase: "disks".into(),
        paused: true,
    });
    let paused = change(&config).unwrap();
    assert!(paused.paused);
    assert_eq!(paused.stage, Some(Stage::Disks));
    let run = |c| {
        let mut machine = Changing::new(Some(c));
        let mut event = Event::Begin;
        let mut steps = Vec::new();
        loop {
            let (next, step) = machine.next(event);
            machine = next;
            steps.push(step);
            event = match step {
                Step::Finish(outcome) => return (outcome, steps),
                _ => usual(step, facts(&config, 0), stopped()),
            };
            assert!(steps.len() < 80);
        }
    };
    let (outcome, steps) = run(paused);
    assert_eq!(outcome, Outcome::Done);
    assert!(!steps.iter().any(|s| matches!(s, Step::CreateDisk(_) | Step::GrowDisk(_))));
    for stage in [Stage::Pending, Stage::Disks, Stage::Guest, Stage::Verified] {
        assert_eq!(named_stage(stage_text(stage)), Some(stage));
    }
    assert_eq!(named_stage("later"), None);
    operation_stage(&mut config, Stage::Guest).unwrap();
    assert_eq!(config.storage_operation.as_ref().unwrap().phase, stage_text(Stage::Guest));
}

#[test]
fn maintenance_without_a_job_is_refused() {
    assert!(job(&member()).is_none());
    let (_, step) = Maintaining::new(None).next(Event::Begin);
    assert_eq!(step, Step::Finish(Outcome::Refused(Refusal::NoMaintenance)));
}

#[test]
fn runtimes_are_copied_before_they_are_switched() {
    let config = member();
    let target = Layout {
        version: 1,
        system_location_id: "nha".into(),
        volume_id: "v".into(),
        runtime_directory: "/data/.nhtest".into(),
        system_gib: 16,
    };
    let wanted = trip(&config, &target, "/settings", true);
    assert!(!wanted.settled && !wanted.at_home);
    let mut machine = Moving::new(wanted);
    let mut event = Event::Begin;
    let mut steps = Vec::new();
    let outcome = loop {
        let (next, step) = machine.next(event);
        machine = next;
        steps.push(step);
        event = match step {
            Step::Finish(outcome) => break outcome,
            Step::InspectDestination => Event::Worker(stopped()),
            _ => usual(step, facts(&config, 0), stopped()),
        };
        assert!(steps.len() < 50);
    };
    assert_eq!(outcome, Outcome::Answer(true));
    let copied = steps.iter().position(|s| *s == Step::CopyRuntime).unwrap();
    let switched = steps
        .iter()
        .position(|s| *s == Step::SaveStorage(StorageSave::RelocationSwitched))
        .unwrap();
    assert!(copied < switched);
    let (_, first) =
        Sweeping::new(Trail { recorded: false, native: true, switched: false }).next(Event::Begin);
    assert_eq!(first, Step::Finish(Outcome::Done));
}

#[test]
fn new_disks_are_linked_after_they_are_checked() {
    let mut machine = Creating::new();
    let mut event = DiskEvent::Begin;
    let mut steps = Vec::new();
    let outcome = loop {
        let (next, step) = machine.next(event);
        machine = next;
        steps.push(step);
        event = match step {
            DiskStep::Finish(outcome) => break outcome,
            DiskStep::LinkExists | DiskStep::PendingExists | DiskStep::DirectoryExists => {
                DiskEvent::Answer(false)
            }
            DiskStep::LinkIsSymlink => DiskEvent::Answer(false),
            DiskStep::OnlyImage => DiskEvent::Answer(true),
            DiskStep::LinkState => DiskEvent::Link(LinkState::Missing),
            _ => DiskEvent::Done,
        };
        assert!(steps.len() < 80);
    };
    assert_eq!(outcome, DiskOutcome::Done);
    assert!(steps.contains(&DiskStep::CreateRuntimeDisk));
    let staged = steps.iter().position(|s| *s == DiskStep::StageCopy).unwrap();
    let removed = steps.iter().position(|s| *s == DiskStep::RemoveRuntimeImage).unwrap();
    assert!(staged < removed);
}

#[test]
fn missing_disks_are_gone_or_damaged() {
    let status = |id: &str, available: bool| LocationStatus {
        location: location(id),
        available,
        reason: "".into(),
    };
    let statuses = [status("nha", true), status("nhb", false), status("nhc", true)];
    let missing = missing_disks(&statuses, &[true, true, false]);
    let ids: Vec<&str> = missing.iter().map(|l| l.id.as_str()).collect();
    assert_eq!(ids, ["nhb", "nhc"]);
    assert!(missing_disks(&statuses[..1], &[true]).is_empty());
}

#[test]
fn disks_only_grow() {
    let mut less = location("nha");
    less.allocation_gib = 10;
    let shrink = growth(&location("nha"), &less);
    assert!(shrink.same_id && !shrink.in_place);
    let mut machine = Growing::new(shrink);
    let mut event = DiskEvent::Begin;
    let mut steps = Vec::new();
    let outcome = loop {
        let (next, step) = machine.next(event);
        machine = next;
        steps.push(step);
        event = match step {
            DiskStep::Finish(outcome) => break outcome,
            _ => DiskEvent::Done,
        };
        assert!(steps.len() < 40);
    };
    assert_eq!(outcome, DiskOutcome::Refused(DiskRefusal::GrowthMoves));
    let mut machine = Discarding::new();
    let (next, step) = machine.next(DiskEvent::Begin);
    machine = next;
    assert_eq!(step, DiskStep::Lock);
    let (_, step) = machine.next(DiskEvent::Failed);
    assert_eq!(step, DiskStep::Finish(DiskOutcome::Failed));
}

#[test]
fn recovery_is_decided_on_what_remains() {
    let mut config = member();
    config.storage_locations = vec![location("nha"), location("nhb")];
    let left = remaining_disks(&config, &[location("nha")]);
    assert_eq!(left.len(), 1);
    assert_eq!(left[0].id, "nhb");
    assert_eq!(
        decide_recovery(&config, 20, 500).unwrap_err().message,
        "Missing recovery timing"
    );
    storage_missing(&mut config, &[location("nha")], 100);
    config.storage_lifecycle.recovery_enabled = true;
    assert_eq!(decide_recovery(&config, 20, 150).unwrap(), RecoveryDecision::Wait);
    assert_eq!(decide_recovery(&config, 20, 220).unwrap(), RecoveryDecision::Rebuild);
    assert_eq!(decide_recovery(&config, 14, 220).unwrap(), RecoveryDecision::Insufficient);
    config.application_update_pending = true;
    assert_eq!(decide_recovery(&config, 20, 220).unwrap(), RecoveryDecision::Paused);
    assert!(insufficient_text(14).starts_with("Only 14 GiB remains"));
    assert!(check_sizes(&config));
    config.storage_locations[0].allocation_gib = u64::MAX;
    assert!(!check_sizes(&config));
}

fn operate(
    work: VmWork,
    lima: bool,
    mut answer: impl FnMut(VmStep, usize) -> VmEvent,
) -> (VmOutcome, Vec<VmStep>) {
    let mut run = VmRun::new(work, lima);
    let mut event = VmEvent::Begin;
    let mut steps = Vec::new();
    loop {
        let (next, step) = run.next(event);
        run = next;
        if let VmStep::Finish(outcome) = step {
            return (outcome, steps);
        }
        steps.push(step);
        event = answer(step, steps.len());
    }
}

fn plainly(step: VmStep, receipt: bool, worker: Sight) -> VmEvent {
    match step {
        VmStep::Receipt => VmEvent::Answer(receipt),
        VmStep::Guest(GuestTask::ServiceState) => VmEvent::Answer(true),
        VmStep::Look => VmEvent::Seen(worker),
        _ => VmEvent::Done,
    }
}

#[test]
fn vms_are_made_once_and_recorded_first() {
    let (outcome, steps) = operate(VmWork::Make, true, |s, _| plainly(s, false, no_sight()));
    assert_eq!(outcome, VmOutcome::Done);
    assert_eq!(
        steps,
        [
            VmStep::Look,
            VmStep::WriteConfiguration,
            VmStep::RecordCreation,
            VmStep::MakeVm,
            VmStep::VerifyOwner,
        ]
    );
    let (_, steps) = operate(VmWork::Make, false, |s, _| plainly(s, false, no_sight()));
    assert_eq!(steps[4], VmStep::Guest(GuestTask::Initialize));
    let (outcome, steps) = operate(VmWork::Make, true, |s, _| plainly(s, false, stopped()));
    assert_eq!(outcome, VmOutcome::Refused(VmRefusal::AlreadyExists));
    assert_eq!(steps, [VmStep::Look]);
    let (outcome, steps) = operate(VmWork::Make, true, |s, _| match s {
        VmStep::RecordCreation => VmEvent::Failed,
        _ => plainly(s, false, no_sight()),
    });
    assert_eq!(outcome, VmOutcome::Failed);
    assert!(!steps.contains(&VmStep::MakeVm));
}

#[test]
fn vms_stop_and_go_only_as_owned_ones() {
    let (outcome, steps) = operate(VmWork::Stop, true, |s, _| plainly(s, true, stopped()));
    assert_eq!(outcome, VmOutcome::Done);
    assert_eq!(steps, [VmStep::Receipt, VmStep::StopVm, VmStep::Look]);
    let (outcome, steps) = operate(VmWork::Stop, true, |s, _| plainly(s, false, running()));
    assert_eq!(outcome, VmOutcome::Refused(VmRefusal::NotStopped));
    assert_eq!(steps[1], VmStep::VerifyOwner);
    let (outcome, _) = operate(VmWork::Remove, true, |s, _| plainly(s, false, stopped()));
    assert_eq!(outcome, VmOutcome::Refused(VmRefusal::NoRemovalReceipt));
    let (outcome, _) = operate(VmWork::Remove, true, |s, _| plainly(s, true, running()));
    assert_eq!(outcome, VmOutcome::Refused(VmRefusal::RemovalNeedsStop));
    let (outcome, steps) = operate(VmWork::Remove, true, |s, n| {
        plainly(s, true, if n < 4 { stopped() } else { no_sight() })
    });
    assert_eq!(outcome, VmOutcome::Done);
    assert_eq!(
        steps,
        [
            VmStep::Receipt,
            VmStep::Look,
            VmStep::DeleteVm,
            VmStep::Look,
            VmStep::RemoveReceipt,
        ]
    );
    let (outcome, _) = operate(VmWork::Remove, true, |s, _| plainly(s, true, stopped()));
    assert_eq!(outcome, VmOutcome::Refused(VmRefusal::NotRemoved));
}

#[test]
fn vms_change_at_rest() {
    for (work, refusal) in [
        (VmWork::Start, VmRefusal::NoStartReceipt),
        (VmWork::Resize, VmRefusal::NoResizeReceipt),
        (VmWork::Attach, VmRefusal::NoLimaReceipt),
        (VmWork::Provision, VmRefusal::NoLimaReceipt),
        (VmWork::InspectSpace, VmRefusal::NoSpaceReceipt),
    ] {
        let (outcome, _) = operate(work, true, |s, _| plainly(s, false, stopped()));
        assert_eq!(outcome, VmOutcome::Refused(refusal));
        let (outcome, _) = operate(work, true, |s, _| plainly(s, true, stopped()));
        assert_eq!(outcome, VmOutcome::Done);
    }
    let (outcome, _) = operate(VmWork::Resize, true, |s, _| plainly(s, true, running()));
    assert_eq!(outcome, VmOutcome::Refused(VmRefusal::ResizeNeedsStop));
    let (outcome, _) = operate(VmWork::Attach, true, |s, _| plainly(s, true, running()));
    assert_eq!(outcome, VmOutcome::Refused(VmRefusal::AttachmentNeedsStop));
    let (outcome, steps) = operate(VmWork::Attach, false, |s, _| plainly(s, true, stopped()));
    assert_eq!(outcome, VmOutcome::Refused(VmRefusal::NoLimaReceipt));
    assert!(steps.is_empty());
    assert_eq!(
        vm_refusal_message(VmRefusal::ResizeNeedsStop),
        "Stop the worker before changing its resources"
    );
}

#[test]
fn guests_are_used_after_their_owner_is_verified() {
    let (outcome, steps) =
        operate(VmWork::PrepareStorage, true, |s, _| plainly(s, true, running()));
    assert_eq!(outcome, VmOutcome::Done);
    assert_eq!(
        steps,
        [
            VmStep::VerifyOwner,
            VmStep::Guest(GuestTask::RenewLease),
            VmStep::VerifyOwner,
            VmStep::Guest(GuestTask::InstallFiles),
            VmStep::VerifyOwner,
            VmStep::Guest(GuestTask::ServiceState),
            VmStep::Guest(GuestTask::DisableService),
            VmStep::Guest(GuestTask::InstallPackages),
        ]
    );
    let (_, steps) =
        operate(VmWork::UseStorage(true), true, |s, _| plainly(s, true, running()));
    assert_eq!(steps[2], VmStep::Guest(GuestTask::StopService));
    assert_eq!(steps[3], VmStep::Guest(GuestTask::UsePool));
    let (_, steps) =
        operate(VmWork::UseStorage(false), true, |s, _| plainly(s, true, running()));
    assert_eq!(steps, [VmStep::VerifyOwner, VmStep::Guest(GuestTask::UsePool)]);
    let (outcome, steps) = operate(VmWork::Configure, true, |s, _| match s {
        VmStep::VerifyOwner => VmEvent::Failed,
        _ => plainly(s, true, running()),
    });
    assert_eq!((outcome, steps.len()), (VmOutcome::Failed, 1));
}
