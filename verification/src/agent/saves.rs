//! Changes of the settings that the supervisor saves.
use crate::agent::steps::Save;
use crate::failure::{fail, refusal, Failure};
use crate::lima::VmProvider;
use crate::remote::{ConfigurationReceipt, ConfigurationReceiptView, RemoteConfigurationView};
use crate::storage::{Operation, OperationView};
use crate::storage_lifecycle::LifecycleView;
use crate::store::{
    Configuration, ConfigurationView, WorkerRecreation, WorkerRecreationView,
};
use crate::values::{content, Plain};
use vstd::prelude::*;

verus! {

/// The earlier of a drain under way and now.
pub open spec fn drain_start(c: ConfigurationView, now: u64) -> Option<u64> {
    match c.draining_since {
        Some(since) => Some(since),
        None => Some(now),
    }
}

/// Settings after an interrupted remote change: nothing is known of the worker's
/// allocation any longer.
pub open spec fn recovered(c: ConfigurationView) -> ConfigurationView {
    if c.remote.applying {
        ConfigurationView {
            remote: RemoteConfigurationView {
                applying: false,
                repair_required: true,
                pending: None,
                ..c.remote
            },
            allocated_resources: None,
            ..c
        }
    } else {
        c
    }
}

/// What the fleet is told of an interrupted change.
pub open spec fn interrupted_receipt(c: ConfigurationView, at: Seq<char>) -> Option<
    ConfigurationReceiptView,
> {
    match c.remote.pending {
        Some(command) => if c.remote.applying {
            Some(
                ConfigurationReceiptView {
                    request_id: command.edit.request_id,
                    status: "rejected"@,
                    revision: c.remote.revision,
                    at,
                    effective_policy: Some(c.policy),
                    effective_resources: None,
                    effective_storage: None,
                    result: None,
                    error: Some(
                        "Configuration was interrupted. Inspect the stopped worker locally or replace it; sharing is blocked until recovery"@,
                    ),
                },
            )
        } else {
            None
        },
        None => None,
    }
}

/// Settings after a change of the supervisor, or why it is refused. Whether the
/// owner's rules call for a drain is told.
pub open spec fn saved(c: ConfigurationView, save: Save, now: u64, drain: bool) -> Result<
    ConfigurationView,
    Seq<char>,
> {
    match save {
        Save::Recover => Ok(recovered(c)),
        Save::ClearPreparation => Ok(ConfigurationView { prepare_requested: false, ..c }),
        Save::RecordWorker(resources) => Ok(
            ConfigurationView { vm_created: true, allocated_resources: Some(resources), ..c },
        ),
        Save::FinishPreparation => if c.vm_provider == VmProvider::Multipass
            && c.storage_lifecycle.initializing {
            if c.storage_generation == u64::MAX {
                Err("Storage generation overflow"@)
            } else {
                Ok(
                    ConfigurationView {
                        prepare_requested: false,
                        vm_configured: true,
                        storage_generation: (c.storage_generation + 1) as u64,
                        storage_lifecycle: LifecycleView {
                            initializing: false,
                            ..c.storage_lifecycle
                        },
                        ..c
                    },
                )
            }
        } else {
            Ok(ConfigurationView { prepare_requested: false, vm_configured: true, ..c })
        },
        Save::RecordAllocation(resources) => Ok(
            ConfigurationView { allocated_resources: Some(resources), ..c },
        ),
        Save::BeginDrain => Ok(ConfigurationView { draining_since: drain_start(c, now), ..c }),
        Save::ClearDrain => Ok(ConfigurationView { draining_since: None, ..c }),
        Save::ClearDrainIfPermitted => Ok(
            ConfigurationView {
                draining_since: if !c.stop_requested && !drain {
                    None
                } else {
                    c.draining_since
                },
                ..c
            },
        ),
        Save::RequestStop => Ok(ConfigurationView { stop_requested: true, ..c }),
        Save::FinishStop(explicit) => Ok(
            ConfigurationView {
                stop_requested: false,
                draining_since: None,
                storage_operation: match c.storage_operation {
                    Some(op) => if explicit {
                        Some(OperationView { paused: true, ..op })
                    } else {
                        Some(op)
                    },
                    None => None,
                },
                ..c
            },
        ),
        Save::AccessRemoved => match c.recreation {
            Some(request) => Ok(
                ConfigurationView {
                    recreation: Some(WorkerRecreationView { access_removed: true, ..request }),
                    ..c
                },
            ),
            None => Err("Worker replacement is no longer pending"@),
        },
        Save::WorkerReplaced(provider) => Ok(
            ConfigurationView {
                vm_provider: provider,
                format_version: if provider == VmProvider::Lima && c.format_version < 2 {
                    2
                } else {
                    c.format_version
                },
                vm_created: false,
                vm_configured: false,
                allocated_resources: None,
                prepare_requested: false,
                policy: crate::policy::PolicyView { enabled: false, ..c.policy },
                recreation: None,
                draining_since: None,
                ..c
            },
        ),
    }
}

/// Give up what an interrupted remote change left: whoever asked for it is told.
pub fn recover_configuration(config: &mut Configuration, at: &str) -> (r: Option<
    ConfigurationReceipt,
>)
    ensures
        final(config)@ == recovered(old(config)@),
        content(r) == interrupted_receipt(old(config)@, at@),
{
    if !config.remote.applying {
        return None;
    }
    let receipt = match &config.remote.pending {
        Some(command) => Some(
            ConfigurationReceipt {
                request_id: command.edit.request_id.clone(),
                status: "rejected".to_owned(),
                revision: config.remote.revision,
                at: at.to_owned(),
                effective_policy: Some(config.policy.duplicate()),
                effective_resources: None,
                effective_storage: None,
                result: None,
                error: Some(
                    "Configuration was interrupted. Inspect the stopped worker locally or replace it; sharing is blocked until recovery".to_owned(),
                ),
            },
        ),
        None => None,
    };
    config.remote.applying = false;
    config.remote.repair_required = true;
    config.remote.pending = None;
    config.allocated_resources = None;
    receipt
}

/// The operation of the settings, paused where that is asked for.
fn operation_paused(config: &Configuration, pause: bool) -> (r: Option<Operation>)
    ensures
        content(r) == (match config@.storage_operation {
            Some(op) => if pause {
                Some(OperationView { paused: true, ..op })
            } else {
                Some(op)
            },
            None => None,
        }),
{
    match &config.storage_operation {
        Some(op) => if pause {
            Some(op.with_pause(true))
        } else {
            Some(op.duplicate())
        },
        None => None,
    }
}

fn finish_preparation(config: &mut Configuration) -> (r: Result<(), Failure>)
    ensures
        match saved(old(config)@, Save::FinishPreparation, 0, false) {
            Ok(next) => r is Ok && final(config)@ == next,
            Err(message) => refusal(r) == Some(message) && final(config)@ == old(config)@,
        },
{
    if config.vm_provider == VmProvider::Multipass && config.storage_lifecycle.initializing {
        match config.storage_generation.checked_add(1) {
            Some(generation) => {
                config.storage_generation = generation;
                config.storage_lifecycle.initializing = false;
            },
            None => {
                return Err(fail("Storage generation overflow"));
            },
        }
    }
    config.prepare_requested = false;
    config.vm_configured = true;
    Ok(())
}

fn finish_stop(config: &mut Configuration, explicit: bool)
    ensures
        Ok::<ConfigurationView, Seq<char>>(final(config)@) == saved(
            old(config)@,
            Save::FinishStop(explicit),
            0,
            false,
        ),
{
    let operation = operation_paused(config, explicit);
    config.stop_requested = false;
    config.draining_since = None;
    config.storage_operation = operation;
}

fn remove_access(config: &mut Configuration) -> (r: Result<(), Failure>)
    ensures
        match saved(old(config)@, Save::AccessRemoved, 0, false) {
            Ok(next) => r is Ok && final(config)@ == next,
            Err(message) => refusal(r) == Some(message) && final(config)@ == old(config)@,
        },
{
    let request = match &config.recreation {
        Some(request) => WorkerRecreation {
            request_id: request.request_id,
            access_removed: true,
            target_provider: request.target_provider,
        },
        None => {
            return Err(fail("Worker replacement is no longer pending"));
        },
    };
    config.recreation = Some(request);
    Ok(())
}

fn replace_worker(config: &mut Configuration, provider: VmProvider)
    ensures
        Ok::<ConfigurationView, Seq<char>>(final(config)@) == saved(
            old(config)@,
            Save::WorkerReplaced(provider),
            0,
            false,
        ),
{
    if provider == VmProvider::Lima && config.format_version < 2 {
        config.format_version = 2;
    }
    config.vm_provider = provider;
    config.vm_created = false;
    config.vm_configured = false;
    config.allocated_resources = None;
    config.prepare_requested = false;
    config.policy.enabled = false;
    config.recreation = None;
    config.draining_since = None;
}

/// Whether a change is about the drain.
pub open spec fn changes_drain(change: Save) -> bool {
    change is BeginDrain || change is ClearDrain || change is ClearDrainIfPermitted
}

/// Whether a change is about the preparation of the worker.
pub open spec fn changes_preparation(change: Save) -> bool {
    change is ClearPreparation || change is RecordWorker || change is FinishPreparation
        || change is RecordAllocation
}

fn apply_drain(config: &mut Configuration, change: Save, now: u64, drain: bool)
    requires
        changes_drain(change),
    ensures
        Ok::<ConfigurationView, Seq<char>>(final(config)@) == saved(
            old(config)@,
            change,
            now,
            drain,
        ),
{
    let since = match change {
        Save::BeginDrain => match config.draining_since {
            Some(since) => Some(since),
            None => Some(now),
        },
        Save::ClearDrain => None,
        _ => if !config.stop_requested && !drain {
            None
        } else {
            config.draining_since
        },
    };
    config.draining_since = since;
}

fn apply_preparation(config: &mut Configuration, change: Save) -> (r: Result<(), Failure>)
    requires
        changes_preparation(change),
    ensures
        match saved(old(config)@, change, 0, false) {
            Ok(next) => r is Ok && final(config)@ == next,
            Err(message) => refusal(r) == Some(message) && final(config)@ == old(config)@,
        },
{
    match change {
        Save::ClearPreparation => {
            config.prepare_requested = false;
            Ok(())
        },
        Save::RecordWorker(resources) => {
            config.vm_created = true;
            config.allocated_resources = Some(resources);
            Ok(())
        },
        Save::RecordAllocation(resources) => {
            config.allocated_resources = Some(resources);
            Ok(())
        },
        _ => finish_preparation(config),
    }
}

fn apply_rest(config: &mut Configuration, change: Save) -> (r: Result<(), Failure>)
    requires
        !changes_drain(change),
        !changes_preparation(change),
        !(change is Recover),
    ensures
        match saved(old(config)@, change, 0, false) {
            Ok(next) => r is Ok && final(config)@ == next,
            Err(message) => refusal(r) == Some(message) && final(config)@ == old(config)@,
        },
{
    match change {
        Save::FinishStop(explicit) => {
            finish_stop(config, explicit);
            Ok(())
        },
        Save::AccessRemoved => remove_access(config),
        Save::WorkerReplaced(provider) => {
            replace_worker(config, provider);
            Ok(())
        },
        _ => {
            config.stop_requested = true;
            Ok(())
        },
    }
}

/// Make a change of the supervisor. A request that it gives up is told why.
pub fn apply(config: &mut Configuration, change: Save, now: u64, drain: bool, at: &str) -> (r:
    Result<Option<ConfigurationReceipt>, Failure>)
    ensures
        match saved(old(config)@, change, now, drain) {
            Ok(next) => r is Ok && final(config)@ == next,
            Err(message) => refusal(r) == Some(message) && final(config)@ == old(config)@,
        },
        r matches Ok(receipt) ==> content(receipt) == (if change == Save::Recover {
            interrupted_receipt(old(config)@, at@)
        } else {
            None
        }),
{
    let result = match change {
        Save::Recover => {
            let receipt = recover_configuration(config, at);
            return Ok(receipt);
        },
        Save::BeginDrain | Save::ClearDrain | Save::ClearDrainIfPermitted => {
            apply_drain(config, change, now, drain);
            return Ok(None);
        },
        Save::ClearPreparation | Save::RecordWorker(_) | Save::FinishPreparation
        | Save::RecordAllocation(_) => apply_preparation(config, change),
        _ => apply_rest(config, change),
    };
    match result {
        Ok(()) => Ok(None),
        Err(e) => Err(e),
    }
}

/// A drain that is under way keeps its start: beginning it again moves no
/// deadline.
pub proof fn drains_keep_their_start(c: ConfigurationView, first: u64, again: u64, drain: bool)
    ensures
        saved(saved(c, Save::BeginDrain, first, drain)->Ok_0, Save::BeginDrain, again, drain)
            == saved(c, Save::BeginDrain, first, drain),
{
}

/// Sharing stays off after a replacement, whatever the rules were.
pub proof fn replaced_workers_do_not_share(
    c: ConfigurationView,
    provider: VmProvider,
    now: u64,
    drain: bool,
)
    ensures
        saved(c, Save::WorkerReplaced(provider), now, drain) matches Ok(next)
            && !next.policy.enabled && !next.vm_created && next.recreation is None,
{
}

} // verus!
