//! Changes that the fleet asks for: what it may ask, when a request is carried
//! out, and what it is told.
use crate::failure::{fail, first_of, refusal, unless, Failure};
use crate::json::{Json, JsonView};
use crate::lima::VmProvider;
use crate::paths;
use crate::policy::{Policy, PolicyView, Resources};
use crate::remote::{
    ConfigurationCommand, ConfigurationCommandView, ConfigurationEditView, ConfigurationOperation,
    ConfigurationOperationView, ConfigurationReceipt, ConfigurationReceiptView,
    RemoteConfigurationView,
};
use crate::storage::{Inventory, InventoryView, Volume, VolumeView};
use crate::storage_layout::runtime_home_of;
use crate::store::{
    authorized, with_remote_storage_paused, Configuration, ConfigurationView, Store,
};
use crate::text;
use crate::values::{
    content, contents, copy_list, copy_option, lists_alike, options_alike, Plain,
};
use vstd::prelude::*;

verus! {

/// The resources that the worker certainly has: none while its storage or its
/// allocation is in question.
pub open spec fn effective(c: ConfigurationView) -> Option<Resources> {
    if c.remote.repair_required || c.storage_operation is Some || c.storage_lifecycle.maintenance
        is Some || c.storage_lifecycle.missing is Some || c.storage_lifecycle.disabled {
        None
    } else {
        c.allocated_resources
    }
}

/// The resources that the worker certainly has.
pub fn configuration_effective_resources(config: &Configuration) -> (r: Option<Resources>)
    ensures
        r == effective(config@),
{
    if config.remote.repair_required || config.storage_operation.is_some()
        || config.storage_lifecycle.maintenance.is_some()
        || config.storage_lifecycle.missing.is_some() || config.storage_lifecycle.disabled {
        None
    } else {
        config.allocated_resources
    }
}

/// What the fleet may ask of this computer.
#[derive(Debug)]
pub struct ConfigurationCapabilities {
    pub disk_growth: bool,
    pub disk_growth_reason: String,
    pub storage: bool,
    pub storage_reason: String,
    pub local_approval: Vec<String>,
}

/// The content of a `ConfigurationCapabilities`.
#[verifier::ext_equal]
pub struct ConfigurationCapabilitiesView {
    pub disk_growth: bool,
    pub disk_growth_reason: Seq<char>,
    pub storage: bool,
    pub storage_reason: Seq<char>,
    pub local_approval: Seq<Seq<char>>,
}

impl View for ConfigurationCapabilities {
    type V = ConfigurationCapabilitiesView;

    open spec fn view(&self) -> ConfigurationCapabilitiesView {
        ConfigurationCapabilitiesView {
            disk_growth: self.disk_growth,
            disk_growth_reason: self.disk_growth_reason@,
            storage: self.storage,
            storage_reason: self.storage_reason@,
            local_approval: contents(self.local_approval@),
        }
    }
}

impl Plain for ConfigurationCapabilities {
    fn duplicate(&self) -> (r: Self) {
        ConfigurationCapabilities {
            disk_growth: self.disk_growth,
            disk_growth_reason: self.disk_growth_reason.clone(),
            storage: self.storage,
            storage_reason: self.storage_reason.clone(),
            local_approval: copy_list(self.local_approval.as_slice()),
        }
    }

    fn alike(&self, other: &Self) -> (r: bool) {
        self.disk_growth == other.disk_growth
            && self.disk_growth_reason.alike(&other.disk_growth_reason)
            && self.storage == other.storage
            && self.storage_reason.alike(&other.storage_reason)
            && lists_alike(self.local_approval.as_slice(), other.local_approval.as_slice())
    }
}

impl Clone for ConfigurationCapabilities {
    fn clone(&self) -> (r: Self)
        ensures
            r@ == self@,
    {
        self.duplicate()
    }
}
/// What the fleet is told of the settings of this computer.
#[derive(Debug)]
pub struct ConfigurationReport {
    pub consent: bool,
    pub revision: u64,
    pub policy: Option<Policy>,
    pub hardware: Option<Resources>,
    pub allocated_resources: Option<Resources>,
    pub capabilities: ConfigurationCapabilities,
    pub worker_disk_location: Option<String>,
    pub storage_inventory: Vec<Volume>,
    pub storage: Option<Inventory>,
    pub receipts: Vec<ConfigurationReceipt>,
}

/// The content of a `ConfigurationReport`.
#[verifier::ext_equal]
pub struct ConfigurationReportView {
    pub consent: bool,
    pub revision: u64,
    pub policy: Option<PolicyView>,
    pub hardware: Option<Resources>,
    pub allocated_resources: Option<Resources>,
    pub capabilities: ConfigurationCapabilitiesView,
    pub worker_disk_location: Option<Seq<char>>,
    pub storage_inventory: Seq<VolumeView>,
    pub storage: Option<InventoryView>,
    pub receipts: Seq<ConfigurationReceiptView>,
}

impl View for ConfigurationReport {
    type V = ConfigurationReportView;

    open spec fn view(&self) -> ConfigurationReportView {
        ConfigurationReportView {
            consent: self.consent,
            revision: self.revision,
            policy: content(self.policy),
            hardware: self.hardware,
            allocated_resources: self.allocated_resources,
            capabilities: self.capabilities@,
            worker_disk_location: content(self.worker_disk_location),
            storage_inventory: contents(self.storage_inventory@),
            storage: content(self.storage),
            receipts: contents(self.receipts@),
        }
    }
}

impl Plain for ConfigurationReport {
    fn duplicate(&self) -> (r: Self) {
        ConfigurationReport {
            consent: self.consent,
            revision: self.revision,
            policy: copy_option(&self.policy),
            hardware: self.hardware,
            allocated_resources: self.allocated_resources,
            capabilities: self.capabilities.duplicate(),
            worker_disk_location: copy_option(&self.worker_disk_location),
            storage_inventory: copy_list(self.storage_inventory.as_slice()),
            storage: copy_option(&self.storage),
            receipts: copy_list(self.receipts.as_slice()),
        }
    }

    fn alike(&self, other: &Self) -> (r: bool) {
        self.consent == other.consent
            && self.revision == other.revision
            && options_alike(&self.policy, &other.policy)
            && self.hardware == other.hardware
            && self.allocated_resources == other.allocated_resources
            && self.capabilities.alike(&other.capabilities)
            && options_alike(&self.worker_disk_location, &other.worker_disk_location)
            && lists_alike(self.storage_inventory.as_slice(), other.storage_inventory.as_slice())
            && options_alike(&self.storage, &other.storage)
            && lists_alike(self.receipts.as_slice(), other.receipts.as_slice())
    }
}

impl Clone for ConfigurationReport {
    fn clone(&self) -> (r: Self)
        ensures
            r@ == self@,
    {
        self.duplicate()
    }
}

/// Whether the worker's own disk can grow: it is a Lima disk on a known volume.
pub open spec fn can_grow(c: ConfigurationView, disk: Option<VolumeView>) -> bool {
    c.storage_locations.len() == 0 && c.vm_provider == VmProvider::Lima && disk is Some
}

/// Why the worker's own disk can or cannot grow.
pub open spec fn growth_text(c: ConfigurationView, disk: Option<VolumeView>) -> Seq<char> {
    if can_grow(c, disk) {
        "Existing-disk growth uses capacity on the application-managed Lima disk's filesystem. Use the storage review for shrinking, replacement, and location changes."@
    } else if c.storage_locations.len() > 0 {
        "Change the combined disk allowance through Storage locations. CPU and memory edits preserve the separate worker system disk."@
    } else {
        "Use the node's storage review for supported single-disk changes. The review reports native capacity inspection and local approval requirements."@
    }
}

/// What a computer has for its worker: a Lima disk can take what is free beside
/// it and what it has already.
pub open spec fn usable(c: ConfigurationView, hardware: Resources, disk: Option<VolumeView>)
    -> Resources {
    if c.storage_locations.len() == 0 && c.vm_provider == VmProvider::Lima {
        let free = match disk {
            Some(d) => d.available_gib as int,
            None => 0,
        };
        let used = match c.allocated_resources {
            Some(r) => r.disk_gib as int,
            None => 0,
        };
        Resources {
            disk_gib: if free + used > u64::MAX {
                u64::MAX
            } else {
                (free + used) as u64
            },
            ..hardware
        }
    } else {
        hardware
    }
}

/// Where the worker's own disk lies.
pub open spec fn worker_disk(c: ConfigurationView, settings: Seq<char>) -> Seq<char> {
    paths::join_path(runtime_home_of(c, settings), "worker/disk"@)
}

/// What the fleet can be told of the settings. The worker's own disk stands on
/// the given volume, where that is known.
pub open spec fn report_of(
    c: ConfigurationView,
    settings: Seq<char>,
    hardware: Resources,
    storage: InventoryView,
    disk: Option<VolumeView>,
) -> ConfigurationReportView {
    ConfigurationReportView {
        consent: c.remote.consent,
        revision: c.remote.revision,
        policy: Some(c.policy),
        hardware: Some(usable(c, hardware, disk)),
        allocated_resources: effective(c),
        capabilities: ConfigurationCapabilitiesView {
            disk_growth: can_grow(c, disk),
            disk_growth_reason: growth_text(c, disk),
            storage: true,
            storage_reason: if storage.supported {
                "Review additions, moves, growth, shrink and removal on the node. Disk changes use the same verified storage lifecycle as local changes."@
            } else {
                storage.reason
            },
            local_approval: seq!["startAtLogin"@],
        },
        worker_disk_location: if c.remote.consent && c.vm_provider == VmProvider::Lima {
            Some(worker_disk(c, settings))
        } else {
            None
        },
        storage_inventory: if c.remote.consent {
            storage.volumes
        } else {
            Seq::empty()
        },
        storage: if c.remote.consent {
            Some(storage)
        } else {
            None
        },
        receipts: c.remote.receipts,
    }
}

fn usable_hardware(config: &Configuration, hardware: Resources, disk: Option<&Volume>) -> (r:
    Resources)
    ensures
        r == usable(
            config@,
            hardware,
            match disk {
                Some(d) => Some(d@),
                None => None,
            },
        ),
{
    let mut resources = hardware;
    if config.storage_locations.len() == 0 && config.vm_provider == VmProvider::Lima {
        let free: u64 = match disk {
            Some(d) => d.available_gib,
            None => 0,
        };
        let used: u64 = match config.allocated_resources {
            Some(r) => r.disk_gib,
            None => 0,
        };
        resources.disk_gib = match free.checked_add(used) {
            Some(sum) => sum,
            None => u64::MAX,
        };
    }
    resources
}

fn capabilities(config: &Configuration, storage: &Inventory, disk: bool) -> (r:
    ConfigurationCapabilities)
    ensures
        forall|d: Option<VolumeView>| (d is Some) == disk ==> r@ == #[trigger] report_of(
            config@,
            ""@,
            config.policy.resources,
            storage@,
            d,
        ).capabilities,
{
    let disk_growth = config.storage_locations.len() == 0 && config.vm_provider
        == VmProvider::Lima && disk;
    let disk_growth_reason = if disk_growth {
        "Existing-disk growth uses capacity on the application-managed Lima disk's filesystem. Use the storage review for shrinking, replacement, and location changes.".to_owned()
    } else if config.storage_locations.len() > 0 {
        "Change the combined disk allowance through Storage locations. CPU and memory edits preserve the separate worker system disk.".to_owned()
    } else {
        "Use the node's storage review for supported single-disk changes. The review reports native capacity inspection and local approval requirements.".to_owned()
    };
    let storage_reason = if storage.supported {
        "Review additions, moves, growth, shrink and removal on the node. Disk changes use the same verified storage lifecycle as local changes.".to_owned()
    } else {
        storage.reason.clone()
    };
    let mut local_approval: Vec<String> = Vec::new();
    local_approval.push("startAtLogin".to_owned());
    assert(contents(local_approval@) =~= seq!["startAtLogin"@]);
    ConfigurationCapabilities {
        disk_growth,
        disk_growth_reason,
        storage: true,
        storage_reason,
        local_approval,
    }
}

/// What the fleet can be told of the settings. The worker's own disk stands on
/// the given volume, where that is known.
pub fn configuration_report(
    config: &Configuration,
    settings: &str,
    hardware: Resources,
    storage: &Inventory,
    disk: Option<&Volume>,
) -> (r: ConfigurationReport)
    ensures
        r@ == report_of(
            config@,
            settings@,
            hardware,
            storage@,
            match disk {
                Some(d) => Some(d@),
                None => None,
            },
        ),
{
    let ghost place = match disk {
        Some(d) => Some(d@),
        None => None,
    };
    let home = config.runtime_home(settings);
    let worker_disk_location = if config.remote.consent && config.vm_provider == VmProvider::Lima {
        Some(paths::join(home.as_str(), "worker/disk"))
    } else {
        None
    };
    let storage_inventory = if config.remote.consent {
        copy_list(storage.volumes.as_slice())
    } else {
        Vec::new()
    };
    assert(!config.remote.consent ==> contents(storage_inventory@)
        =~= Seq::<VolumeView>::empty());
    let shown = if config.remote.consent {
        Some(storage.duplicate())
    } else {
        None
    };
    let capabilities = self::capabilities(config, storage, disk.is_some());
    assert(capabilities@ == report_of(
        config@,
        ""@,
        config.policy.resources,
        storage@,
        place,
    ).capabilities);
    ConfigurationReport {
        consent: config.remote.consent,
        revision: config.remote.revision,
        policy: Some(config.policy.duplicate()),
        hardware: Some(usable_hardware(config, hardware, disk)),
        allocated_resources: configuration_effective_resources(config),
        capabilities,
        worker_disk_location,
        storage_inventory,
        storage: shown,
        receipts: copy_list(config.remote.receipts.as_slice()),
    }
}

/// A report as it leaves the computer: without the owner's consent it holds
/// nothing of the rules, the hardware or the storage.
pub open spec fn sent(report: ConfigurationReportView) -> ConfigurationReportView {
    if report.consent {
        report
    } else {
        ConfigurationReportView {
            policy: None,
            hardware: None,
            storage_inventory: Seq::empty(),
            storage: None,
            ..report
        }
    }
}

/// A report as it leaves the computer.
pub fn send_report(report: ConfigurationReport) -> (r: ConfigurationReport)
    ensures
        r@ == sent(report@),
{
    if report.consent {
        return report;
    }
    let r = ConfigurationReport {
        consent: report.consent,
        revision: report.revision,
        policy: None,
        hardware: None,
        allocated_resources: report.allocated_resources,
        capabilities: report.capabilities,
        worker_disk_location: report.worker_disk_location,
        storage_inventory: Vec::new(),
        storage: None,
        receipts: report.receipts,
    };
    assert(contents(r.storage_inventory@) =~= Seq::<VolumeView>::empty());
    r
}

/// Without the owner's consent the fleet learns nothing of the rules, the
/// hardware, the volumes or where the worker's disk lies.
pub proof fn reports_need_consent(
    c: ConfigurationView,
    settings: Seq<char>,
    hardware: Resources,
    storage: InventoryView,
    disk: Option<VolumeView>,
)
    requires
        !c.remote.consent,
    ensures
        sent(report_of(c, settings, hardware, storage, disk)).policy is None,
        sent(report_of(c, settings, hardware, storage, disk)).hardware is None,
        sent(report_of(c, settings, hardware, storage, disk)).storage is None,
        sent(report_of(c, settings, hardware, storage, disk)).storage_inventory.len() == 0,
        sent(report_of(c, settings, hardware, storage, disk)).worker_disk_location is None,
{
}

/// Whether the owner lets the fleet change the settings. Only the owner says so.
pub fn set_remote_consent(config: &mut Configuration, enabled: bool)
    ensures
        final(config)@ == (ConfigurationView {
            remote: RemoteConfigurationView { consent: enabled, ..old(config)@.remote },
            ..old(config)@
        }),
{
    config.remote.consent = enabled;
}

/// The index of the first receipt of a request.
pub open spec fn receipt_of(
    receipts: Seq<ConfigurationReceiptView>,
    id: Seq<char>,
    i: int,
) -> Option<int>
    decreases receipts.len() - i,
{
    if i < 0 || i >= receipts.len() {
        None
    } else if receipts[i].request_id == id {
        Some(i)
    } else {
        receipt_of(receipts, id, i + 1)
    }
}

fn find_receipt(receipts: &[ConfigurationReceipt], id: &str) -> (r: Option<usize>)
    ensures
        match r {
            Some(i) => receipt_of(contents(receipts@), id@, 0) == Some(i as int) && i
                < receipts@.len(),
            None => receipt_of(contents(receipts@), id@, 0) is None,
        },
{
    let ghost all = contents(receipts@);
    for i in 0..receipts.len()
        invariant
            all == contents(receipts@),
            receipt_of(all, id@, 0) == receipt_of(all, id@, i as int),
    {
        assert(all[i as int] == receipts@[i as int]@);
        if text::same(receipts[i].request_id.as_str(), id) {
            return Some(i);
        }
    }
    None
}

/// Whether a plan was shown to the fleet as this computer reviewed it, under the
/// current settings.
pub open spec fn was_reviewed(c: ConfigurationView, plan: JsonView) -> bool {
    exists|i: int|
        0 <= i < c.remote.receipts.len() && (#[trigger] c.remote.receipts[i]).status
            == "reviewed"@ && c.remote.receipts[i].revision == c.remote.revision
            && c.remote.receipts[i].result == Some(plan)
}

fn plan_reviewed(config: &Configuration, plan: &Json) -> (r: bool)
    ensures
        r == was_reviewed(config@, plan@),
{
    let ghost all = config@.remote.receipts;
    for i in 0..config.remote.receipts.len()
        invariant
            all == contents(config.remote.receipts@),
            all == config@.remote.receipts,
            forall|j: int|
                0 <= j < i ==> !((#[trigger] all[j]).status == "reviewed"@ && all[j].revision
                    == config@.remote.revision && all[j].result == Some(plan@)),
    {
        let receipt = &config.remote.receipts[i];
        assert(all[i as int] == receipt@);
        let same = match &receipt.result {
            Some(result) => result.alike(plan),
            None => false,
        };
        if text::same(receipt.status.as_str(), "reviewed") && receipt.revision
            == config.remote.revision && same {
            return true;
        }
    }
    false
}

/// Why a request about the storage is refused. What it holds was found
/// unreadable with that message, or readable.
pub open spec fn operation_refusal(
    c: ConfigurationView,
    operation: ConfigurationOperationView,
    unreadable: Option<Seq<char>>,
) -> Option<Seq<char>> {
    match operation {
        ConfigurationOperationView::StoragePreview { .. } => unreadable,
        ConfigurationOperationView::StorageApply { plan } => first_of(
            unreadable,
            unless(
                was_reviewed(c, plan),
                "Review storage changes on this node before applying; this plan is missing or stale"@,
            ),
        ),
        ConfigurationOperationView::StorageRecovery { .. }
        | ConfigurationOperationView::StorageRetry => None,
    }
}

/// Why a change of the rules is refused.
pub open spec fn rules_refusal(c: ConfigurationView, policy: PolicyView) -> Option<Seq<char>> {
    if c.storage_operation is Some || c.storage_lifecycle.maintenance is Some {
        Some("Wait for storage maintenance to finish before editing sharing rules"@)
    } else if c.storage_locations.len() > 0 && policy.resources.disk_gib
        != c.policy.resources.disk_gib {
        Some("Use the storage review to change the combined disk allowance"@)
    } else if policy.resources.disk_gib != c.policy.resources.disk_gib && c.vm_provider
        != VmProvider::Lima {
        Some(
            "Disk growth requires local approval because this runtime does not report its physical storage location"@,
        )
    } else if c.allocated_resources is Some && policy.resources.disk_gib
        < c.allocated_resources->0.disk_gib {
        Some("Shrinking the worker disk requires local approval to replace the worker"@)
    } else {
        unless(
            !policy.enabled || c.vm_configured,
            "Prepare the worker locally before enabling sharing"@,
        )
    }
}

/// Why the state of this computer does not allow a request.
pub open spec fn runtime_refusal(
    c: ConfigurationView,
    edit: ConfigurationEditView,
    unreadable: Option<Seq<char>>,
) -> Option<Seq<char>> {
    if c.remote.repair_required {
        Some("Inspect the stopped worker locally or replace it before changing configuration"@)
    } else if c.recreation is Some || c.prepare_requested || c.application_update_pending
        || c.stop_requested {
        Some(
            "Wait for the current local worker operation to finish before changing configuration"@,
        )
    } else {
        match edit.operation {
            Some(operation) => operation_refusal(c, operation, unreadable),
            None => rules_refusal(c, edit.policy),
        }
    }
}

/// The message of a failure found elsewhere.
pub open spec fn told(failure: Option<&Failure>) -> Option<Seq<char>> {
    match failure {
        Some(f) => Some(f.message@),
        None => None,
    }
}

fn found(failure: Option<&Failure>) -> (r: Result<(), Failure>)
    ensures
        refusal(r) == told(failure),
{
    match failure {
        Some(f) => Err(Failure { message: f.message.clone() }),
        None => Ok(()),
    }
}

fn check_operation(
    config: &Configuration,
    operation: &ConfigurationOperation,
    unreadable: Option<&Failure>,
) -> (r: Result<(), Failure>)
    ensures
        refusal(r) == operation_refusal(config@, operation@, told(unreadable)),
{
    match operation {
        ConfigurationOperation::StoragePreview { .. } => found(unreadable),
        ConfigurationOperation::StorageApply { plan } => match found(unreadable) {
            Err(e) => Err(e),
            Ok(()) => if plan_reviewed(config, plan) {
                Ok(())
            } else {
                Err(
                    fail(
                        "Review storage changes on this node before applying; this plan is missing or stale",
                    ),
                )
            },
        },
        ConfigurationOperation::StorageRecovery { .. } | ConfigurationOperation::StorageRetry => {
            Ok(())
        },
    }
}

fn check_rules(config: &Configuration, policy: &Policy) -> (r: Result<(), Failure>)
    ensures
        refusal(r) == rules_refusal(config@, policy@),
{
    if config.storage_operation.is_some() || config.storage_lifecycle.maintenance.is_some() {
        return Err(fail("Wait for storage maintenance to finish before editing sharing rules"));
    }
    let moved = policy.resources.disk_gib != config.policy.resources.disk_gib;
    if config.storage_locations.len() > 0 && moved {
        return Err(fail("Use the storage review to change the combined disk allowance"));
    }
    if moved && config.vm_provider != VmProvider::Lima {
        return Err(
            fail(
                "Disk growth requires local approval because this runtime does not report its physical storage location",
            ),
        );
    }
    let shrinks = match config.allocated_resources {
        Some(allocated) => policy.resources.disk_gib < allocated.disk_gib,
        None => false,
    };
    if shrinks {
        return Err(
            fail("Shrinking the worker disk requires local approval to replace the worker"),
        );
    }
    if policy.enabled && !config.vm_configured {
        return Err(fail("Prepare the worker locally before enabling sharing"));
    }
    Ok(())
}

/// Whether the state of this computer allows a request. What the request holds of
/// a storage review was found unreadable, or readable.
pub fn validate_remote_runtime(
    config: &Configuration,
    command: &ConfigurationCommand,
    unreadable: Option<&Failure>,
) -> (r: Result<(), Failure>)
    ensures
        refusal(r) == runtime_refusal(config@, command@.edit, told(unreadable)),
{
    if config.remote.repair_required {
        return Err(
            fail("Inspect the stopped worker locally or replace it before changing configuration"),
        );
    }
    if config.recreation.is_some() || config.prepare_requested || config.application_update_pending
        || config.stop_requested {
        return Err(
            fail(
                "Wait for the current local worker operation to finish before changing configuration",
            ),
        );
    }
    match &command.edit.operation {
        Some(operation) => check_operation(config, operation, unreadable),
        None => check_rules(config, &command.edit.policy),
    }
}

/// What the fleet is told of a request, by the settings as they stand.
pub open spec fn receipt_for(
    c: ConfigurationView,
    id: Seq<char>,
    status: Seq<char>,
    revision: u64,
    error: Option<Seq<char>>,
    at: Seq<char>,
) -> ConfigurationReceiptView {
    ConfigurationReceiptView {
        request_id: id,
        status,
        revision,
        at,
        effective_policy: Some(c.policy),
        effective_resources: effective(c),
        effective_storage: None,
        result: None,
        error,
    }
}

fn new_receipt(
    config: &Configuration,
    id: &str,
    status: &str,
    revision: u64,
    error: Option<String>,
    at: &str,
) -> (r: ConfigurationReceipt)
    ensures
        r@ == receipt_for(config@, id@, status@, revision, content(error), at@),
{
    ConfigurationReceipt {
        request_id: id.to_owned(),
        status: status.to_owned(),
        revision,
        at: at.to_owned(),
        effective_policy: Some(config.policy.duplicate()),
        effective_resources: configuration_effective_resources(config),
        effective_storage: None,
        result: None,
        error,
    }
}

/// What a request changes when it arrives, and what the fleet is told of it, or
/// why it is refused. A request that is pending already changes nothing. The
/// rules found it invalid with that message, or valid.
pub open spec fn received(
    c: ConfigurationView,
    command: ConfigurationCommandView,
    invalid: Option<Seq<char>>,
    unreadable: Option<Seq<char>>,
    at: Seq<char>,
) -> Result<(ConfigurationView, Option<ConfigurationReceiptView>), Seq<char>> {
    match c.remote.pending {
        Some(pending) => if pending.edit == command.edit {
            Ok((c, None))
        } else {
            Err(
                "Another configuration request or different values for this request ID are pending"@,
            )
        },
        None => match receipt_of(c.remote.receipts, command.edit.request_id, 0) {
            Some(i) => Err(
                match c.remote.receipts[i].error {
                    Some(error) => error,
                    None => "This request is already complete; reload its acknowledgment"@,
                },
            ),
            None => match first_of(invalid, runtime_refusal(c, command.edit, unreadable)) {
                Some(message) => Err(message),
                None => Ok(
                    (
                        ConfigurationView {
                            remote: RemoteConfigurationView {
                                pending: Some(command),
                                execution_revision: None,
                                storage_started: false,
                                ..c.remote
                            },
                            ..c
                        },
                        Some(
                            receipt_for(
                                c,
                                command.edit.request_id,
                                "pending"@,
                                c.remote.revision,
                                None,
                                at,
                            ),
                        ),
                    ),
                ),
            },
        },
    }
}

fn check_arrival(
    config: &Configuration,
    command: &ConfigurationCommand,
    invalid: Option<&Failure>,
    unreadable: Option<&Failure>,
) -> (r: Result<bool, Failure>)
    ensures
        match received(config@, command@, told(invalid), told(unreadable), ""@) {
            Ok(next) => r == Ok::<bool, Failure>(next.1 is Some),
            Err(message) => refusal(r) == Some(message),
        },
{
    match &config.remote.pending {
        Some(pending) => {
            return if pending.edit.alike(&command.edit) {
                Ok(false)
            } else {
                Err(
                    fail(
                        "Another configuration request or different values for this request ID are pending",
                    ),
                )
            };
        },
        None => {},
    }
    match find_receipt(
        config.remote.receipts.as_slice(),
        command.edit.request_id.as_str(),
    ) {
        Some(i) => {
            assert(contents(config.remote.receipts@)[i as int] == config.remote.receipts@[i as int]@);
            return Err(
                match &config.remote.receipts[i].error {
                    Some(error) => Failure { message: error.clone() },
                    None => fail("This request is already complete; reload its acknowledgment"),
                },
            );
        },
        None => {},
    }
    match found(invalid) {
        Ok(()) => {},
        Err(e) => {
            return Err(e);
        },
    }
    match validate_remote_runtime(config, command, unreadable) {
        Ok(()) => Ok(true),
        Err(e) => Err(e),
    }
}

/// Take a request. What is returned is recorded for the fleet.
pub fn receive_configuration(
    config: &mut Configuration,
    command: &ConfigurationCommand,
    invalid: Option<&Failure>,
    unreadable: Option<&Failure>,
    at: &str,
) -> (r: Result<Option<ConfigurationReceipt>, Failure>)
    ensures
        match received(old(config)@, command@, told(invalid), told(unreadable), at@) {
            Ok(next) => final(config)@ == next.0 && (r matches Ok(receipt) && content(receipt)
                == next.1),
            Err(message) => refusal(r) == Some(message) && final(config)@ == old(config)@,
        },
{
    match check_arrival(config, command, invalid, unreadable) {
        Err(e) => Err(e),
        Ok(false) => Ok(None),
        Ok(true) => {
            let receipt = new_receipt(
                config,
                command.edit.request_id.as_str(),
                "pending",
                config.remote.revision,
                None,
                at,
            );
            config.remote.execution_revision = None;
            config.remote.storage_started = false;
            config.remote.pending = Some(command.duplicate());
            Ok(Some(receipt))
        },
    }
}

/// A request that the fleet was told of is never carried out again.
pub proof fn answered_requests_are_not_repeated(
    c: ConfigurationView,
    command: ConfigurationCommandView,
    invalid: Option<Seq<char>>,
    unreadable: Option<Seq<char>>,
    at: Seq<char>,
)
    requires
        c.remote.pending is None,
        exists|i: int|
            0 <= i < c.remote.receipts.len() && (#[trigger] c.remote.receipts[i]).request_id
                == command.edit.request_id,
    ensures
        received(c, command, invalid, unreadable, at) is Err,
{
    let i = choose|i: int|
        0 <= i < c.remote.receipts.len() && (#[trigger] c.remote.receipts[i]).request_id
            == command.edit.request_id;
    lemma_receipt_found(c.remote.receipts, command.edit.request_id, 0, i);
}

proof fn lemma_receipt_found(
    receipts: Seq<ConfigurationReceiptView>,
    id: Seq<char>,
    from: int,
    i: int,
)
    requires
        0 <= from <= i < receipts.len(),
        receipts[i].request_id == id,
    ensures
        receipt_of(receipts, id, from) is Some,
    decreases i - from,
{
    if receipts[from].request_id != id {
        lemma_receipt_found(receipts, id, from + 1, i);
    }
}

/// A request that arrives twice is taken once.
pub proof fn repeated_requests_change_nothing(
    c: ConfigurationView,
    command: ConfigurationCommandView,
    at: Seq<char>,
    invalid: Option<Seq<char>>,
    unreadable: Option<Seq<char>>,
    later: Seq<char>,
)
    requires
        received(c, command, None, None, at) is Ok,
    ensures
        received(
            (received(c, command, None, None, at)->Ok_0).0,
            command,
            invalid,
            unreadable,
            later,
        ) == Ok::<(ConfigurationView, Option<ConfigurationReceiptView>), Seq<char>>(
            ((received(c, command, None, None, at)->Ok_0).0, None),
        ),
{
}

/// Tell the fleet that a request is refused, unless it was told of the request
/// already.
pub fn reject_configuration(
    config: &Configuration,
    command: &ConfigurationCommand,
    error: &str,
    at: &str,
) -> (r: Option<ConfigurationReceipt>)
    ensures
        content(r) == (match receipt_of(
            config@.remote.receipts,
            command@.edit.request_id,
            0,
        ) {
            Some(_) => None,
            None => Some(
                receipt_for(
                    config@,
                    command@.edit.request_id,
                    "rejected"@,
                    config@.remote.revision,
                    Some(error@),
                    at@,
                ),
            ),
        }),
{
    match find_receipt(
        config.remote.receipts.as_slice(),
        command.edit.request_id.as_str(),
    ) {
        Some(_) => None,
        None => Some(
            new_receipt(
                config,
                command.edit.request_id.as_str(),
                "rejected",
                config.remote.revision,
                Some(error.to_owned()),
                at,
            ),
        ),
    }
}

/// Whether a request that is being carried out still has the owner's authority.
pub fn check_unchanged(config: &Configuration, command: &ConfigurationCommand) -> (r: Result<
    (),
    Failure,
>)
    ensures
        refusal(r) == unless(
            authorized(config@, command@.edit),
            "The owner changed settings or revoked remote configuration during application"@,
        ),
{
    let wanted = match &config.remote.pending {
        Some(pending) => pending.edit.alike(&command.edit),
        None => false,
    };
    let revision = match config.remote.execution_revision {
        Some(revision) => revision,
        None => command.edit.expected_revision,
    };
    if config.remote.consent && config.remote.revision == revision && wanted {
        Ok(())
    } else {
        Err(fail("The owner changed settings or revoked remote configuration during application"))
    }
}

/// Settings that say, before the worker is touched, that it is about to change.
pub open spec fn claimed(c: ConfigurationView, edit: ConfigurationEditView) -> ConfigurationView {
    ConfigurationView {
        remote: RemoteConfigurationView {
            applying: true,
            repair_required: c.remote.repair_required || (c.vm_created && c.allocated_resources
                != Some(edit.policy.resources)),
            ..c.remote
        },
        ..c
    }
}

/// Say, before the worker is touched, that it is about to change.
pub fn claim_configuration(
    config: &mut Configuration,
    command: &ConfigurationCommand,
    invalid: Option<&Failure>,
    unreadable: Option<&Failure>,
) -> (r: Result<(), Failure>)
    ensures
        refusal(r) == first_of(
            told(invalid),
            runtime_refusal(old(config)@, command@.edit, told(unreadable)),
        ),
        final(config)@ == (if r is Ok {
            claimed(old(config)@, command@.edit)
        } else {
            old(config)@
        }),
{
    match found(invalid) {
        Ok(()) => {},
        Err(e) => {
            return Err(e);
        },
    }
    match validate_remote_runtime(config, command, unreadable) {
        Ok(()) => {},
        Err(e) => {
            return Err(e);
        },
    }
    config.remote.applying = true;
    if config.vm_created && config.allocated_resources != Some(command.edit.policy.resources) {
        config.remote.repair_required = true;
    }
    Ok(())
}

/// Whether the request is the one that the owner still allows, at the revision
/// that it was made for.
pub open spec fn may_commit(c: ConfigurationView, edit: ConfigurationEditView) -> bool {
    c.remote.consent && c.remote.revision == edit.expected_revision && (c.remote.pending matches
        Some(p) && p.edit == edit)
}

/// The settings with the rules of a request.
pub open spec fn committed(c: ConfigurationView, edit: ConfigurationEditView) -> ConfigurationView {
    ConfigurationView {
        remote: RemoteConfigurationView {
            pending: None,
            applying: false,
            repair_required: false,
            ..c.remote
        },
        allocated_resources: if c.vm_created {
            Some(edit.policy.resources)
        } else {
            c.allocated_resources
        },
        policy: edit.policy,
        ..c
    }
}

fn commit_allowed(config: &Configuration, command: &ConfigurationCommand) -> (r: bool)
    ensures
        r == may_commit(config@, command@.edit),
{
    let wanted = match &config.remote.pending {
        Some(pending) => pending.edit.alike(&command.edit),
        None => false,
    };
    config.remote.consent && config.remote.revision == command.edit.expected_revision && wanted
}

/// Adopt the rules of a request that was carried out. What is returned is
/// recorded for the fleet, with the revision that the change leads to.
pub fn commit_configuration(config: &mut Configuration, command: &ConfigurationCommand, at: &str)
    -> (r: Result<ConfigurationReceipt, Failure>)
    requires
        old(config)@.policy != command@.edit.policy ==> old(config)@.remote.revision < u64::MAX,
    ensures
        refusal(r) == unless(
            may_commit(old(config)@, command@.edit),
            "The owner changed settings while configuration was applying"@,
        ),
        final(config)@ == (if r is Ok {
            committed(old(config)@, command@.edit)
        } else {
            old(config)@
        }),
        r matches Ok(receipt) ==> receipt@ == receipt_for(
            committed(old(config)@, command@.edit),
            command@.edit.request_id,
            "applied"@,
            (old(config)@.remote.revision + (if old(config)@.policy != command@.edit.policy {
                1int
            } else {
                0
            })) as u64,
            None,
            at@,
        ),
{
    if !commit_allowed(config, command) {
        return Err(fail("The owner changed settings while configuration was applying"));
    }
    let revision = if config.policy.alike(&command.edit.policy) {
        config.remote.revision
    } else {
        config.remote.revision + 1
    };
    config.remote.pending = None;
    config.remote.applying = false;
    config.remote.repair_required = false;
    if config.vm_created {
        config.allocated_resources = Some(command.edit.policy.resources);
    }
    config.policy = command.edit.policy.duplicate();
    Ok(
        new_receipt(
            config,
            command.edit.request_id.as_str(),
            "applied",
            revision,
            None,
            at,
        ),
    )
}

/// The settings after a request failed: an allocation that was in question is
/// known no longer.
pub open spec fn given_up(c: ConfigurationView) -> ConfigurationView {
    ConfigurationView {
        remote: RemoteConfigurationView { applying: false, pending: None, ..c.remote },
        allocated_resources: if c.remote.repair_required {
            None
        } else {
            c.allocated_resources
        },
        ..c
    }
}

/// What the fleet is told of a failure.
pub open spec fn failure_text(c: ConfigurationView, error: Seq<char>) -> Seq<char> {
    if c.remote.repair_required {
        error
            + ". Allocation is unverified; inspect the stopped worker locally or replace it. Sharing is blocked."@
    } else {
        error
    }
}

/// Give up a request that failed. What is returned is recorded for the fleet.
pub fn fail_configuration(
    config: &mut Configuration,
    command: &ConfigurationCommand,
    error: &str,
    at: &str,
) -> (r: ConfigurationReceipt)
    ensures
        final(config)@ == given_up(old(config)@),
        r@ == receipt_for(
            given_up(old(config)@),
            command@.edit.request_id,
            "rejected"@,
            old(config)@.remote.revision,
            Some(failure_text(old(config)@, error@)),
            at@,
        ),
{
    let message = if config.remote.repair_required {
        config.allocated_resources = None;
        text::join2(
            error,
            ". Allocation is unverified; inspect the stopped worker locally or replace it. Sharing is blocked.",
        )
    } else {
        error.to_owned()
    };
    config.remote.applying = false;
    config.remote.pending = None;
    new_receipt(
        config,
        command.edit.request_id.as_str(),
        "rejected",
        config.remote.revision,
        Some(message),
        at,
    )
}

/// A change of the worker that fails, or is interrupted, leaves its allocation
/// unknown and the worker blocked; nothing is claimed of it.
pub proof fn failed_changes_block_sharing(c: ConfigurationView, edit: ConfigurationEditView)
    requires
        c.vm_created,
        c.allocated_resources != Some(edit.policy.resources),
    ensures
        given_up(claimed(c, edit)).remote.repair_required,
        given_up(claimed(c, edit)).allocated_resources is None,
        effective(given_up(claimed(c, edit))) is None,
        crate::agent::saves::recovered(claimed(c, edit)).remote.repair_required,
        crate::agent::saves::recovered(claimed(c, edit)).allocated_resources is None,
        given_up(claimed(c, edit)).policy == c.policy,
        crate::agent::saves::recovered(claimed(c, edit)).policy == c.policy,
{
}

/// No remote change is adopted once the owner revoked consent or changed
/// settings, and none takes disk away from the worker.
pub proof fn owners_keep_the_last_word(
    c: ConfigurationView,
    edit: ConfigurationEditView,
    unreadable: Option<Seq<char>>,
)
    ensures
        !c.remote.consent ==> !may_commit(c, edit),
        c.remote.revision != edit.expected_revision ==> !may_commit(c, edit),
        edit.operation is None && runtime_refusal(c, edit, unreadable) is None ==> (
        c.allocated_resources matches Some(allocated) ==> committed(
            c,
            edit,
        ).policy.resources.disk_gib >= allocated.disk_gib),
        committed(c, edit).storage_locations == c.storage_locations,
        committed(c, edit).remote.consent == c.remote.consent,
{
}

/// What is done next of a request about the storage.
#[derive(Clone, Copy, Debug, PartialEq, Eq, Structural)]
pub enum RemoteWork {
    Preview,
    Recovery(bool),
    Apply,
    Retry,
    /// Go on with the change under way.
    Change,
    Maintain,
    LookForStorage,
    Nothing,
}

/// What goes on of the storage, or why it cannot.
pub open spec fn storage_work(c: ConfigurationView) -> Result<RemoteWork, Seq<char>> {
    match c.storage_operation {
        Some(op) => if op.paused {
            Err("Storage change is paused; review its current state before retrying"@)
        } else {
            Ok(RemoteWork::Change)
        },
        None => match c.storage_lifecycle.maintenance {
            Some(op) => if op.paused || op.error is Some {
                Err(
                    "Storage maintenance needs attention: "@ + (match op.error {
                        Some(error) => error,
                        None => "paused by owner"@,
                    }),
                )
            } else {
                Ok(RemoteWork::Maintain)
            },
            None => if c.storage_lifecycle.missing is Some {
                Ok(RemoteWork::LookForStorage)
            } else {
                Ok(RemoteWork::Nothing)
            },
        },
    }
}

/// What is done next of a request about the storage, or why nothing is.
pub open spec fn remote_work(
    c: ConfigurationView,
    edit: ConfigurationEditView,
    unreadable: Option<Seq<char>>,
) -> Result<RemoteWork, Seq<char>> {
    match edit.operation {
        None => Err("Missing storage operation"@),
        Some(ConfigurationOperationView::StoragePreview { .. }) => Ok(RemoteWork::Preview),
        Some(ConfigurationOperationView::StorageRecovery { enabled }) => Ok(
            RemoteWork::Recovery(enabled),
        ),
        Some(ConfigurationOperationView::StorageApply { .. }) => if c.remote.storage_started {
            storage_work(c)
        } else {
            match runtime_refusal(c, edit, unreadable) {
                Some(message) => Err(message),
                None => Ok(RemoteWork::Apply),
            }
        },
        Some(ConfigurationOperationView::StorageRetry) => if c.remote.storage_started {
            storage_work(c)
        } else {
            Ok(RemoteWork::Retry)
        },
    }
}

fn ongoing_work(config: &Configuration) -> (r: Result<RemoteWork, Failure>)
    ensures
        match storage_work(config@) {
            Ok(work) => r == Ok::<RemoteWork, Failure>(work),
            Err(message) => refusal(r) == Some(message),
        },
{
    match &config.storage_operation {
        Some(op) => {
            return if op.paused {
                Err(fail("Storage change is paused; review its current state before retrying"))
            } else {
                Ok(RemoteWork::Change)
            };
        },
        None => {},
    }
    match &config.storage_lifecycle.maintenance {
        Some(op) => {
            return match &op.error {
                Some(error) => Err(
                    Failure {
                        message: text::join2(
                            "Storage maintenance needs attention: ",
                            error.as_str(),
                        ),
                    },
                ),
                None => if op.paused {
                    Err(
                        Failure {
                            message: text::join2(
                                "Storage maintenance needs attention: ",
                                "paused by owner",
                            ),
                        },
                    )
                } else {
                    Ok(RemoteWork::Maintain)
                },
            };
        },
        None => {},
    }
    if config.storage_lifecycle.missing.is_some() {
        Ok(RemoteWork::LookForStorage)
    } else {
        Ok(RemoteWork::Nothing)
    }
}

/// What is done next of a request about the storage.
pub fn remote_storage_work(
    config: &Configuration,
    command: &ConfigurationCommand,
    unreadable: Option<&Failure>,
) -> (r: Result<RemoteWork, Failure>)
    ensures
        match remote_work(config@, command@.edit, told(unreadable)) {
            Ok(work) => r == Ok::<RemoteWork, Failure>(work),
            Err(message) => refusal(r) == Some(message),
        },
{
    match &command.edit.operation {
        None => Err(fail("Missing storage operation")),
        Some(ConfigurationOperation::StoragePreview { .. }) => Ok(RemoteWork::Preview),
        Some(ConfigurationOperation::StorageRecovery { enabled }) => Ok(
            RemoteWork::Recovery(*enabled),
        ),
        Some(ConfigurationOperation::StorageApply { .. }) => if config.remote.storage_started {
            ongoing_work(config)
        } else {
            match validate_remote_runtime(config, command, unreadable) {
                Ok(()) => Ok(RemoteWork::Apply),
                Err(e) => Err(e),
            }
        },
        Some(ConfigurationOperation::StorageRetry) => if config.remote.storage_started {
            ongoing_work(config)
        } else {
            Ok(RemoteWork::Retry)
        },
    }
}

/// Whether nothing goes on of the storage any longer.
pub open spec fn storage_settled(c: ConfigurationView) -> bool {
    c.storage_operation is None && c.storage_lifecycle.maintenance is None
        && c.storage_lifecycle.missing is None
}

/// Whether nothing goes on of the storage any longer.
pub fn is_storage_settled(config: &Configuration) -> (r: bool)
    ensures
        r == storage_settled(config@),
{
    config.storage_operation.is_none() && config.storage_lifecycle.maintenance.is_none()
        && config.storage_lifecycle.missing.is_none()
}

/// A change that began is never begun again: the request goes on with what there
/// is, and nothing goes on once an owner paused it.
pub proof fn begun_changes_are_not_repeated(
    c: ConfigurationView,
    edit: ConfigurationEditView,
    unreadable: Option<Seq<char>>,
)
    requires
        c.remote.storage_started,
    ensures
        remote_work(c, edit, unreadable) != Ok::<RemoteWork, Seq<char>>(RemoteWork::Apply),
        remote_work(c, edit, unreadable) != Ok::<RemoteWork, Seq<char>>(RemoteWork::Retry),
        (c.storage_operation matches Some(op) && op.paused) && (edit.operation matches Some(
            ConfigurationOperationView::StorageApply { .. },
        )) ==> remote_work(c, edit, unreadable) is Err,
{
}

/// The settings after a request about the storage ended.
pub open spec fn remote_storage_ended(c: ConfigurationView, edit: ConfigurationEditView)
    -> ConfigurationView {
    if c.remote.pending matches Some(p) && p.edit == edit {
        ConfigurationView {
            remote: RemoteConfigurationView {
                pending: None,
                storage_started: false,
                execution_revision: None,
                ..c.remote
            },
            ..c
        }
    } else {
        c
    }
}

/// How a request about the storage ended.
pub open spec fn ended_status(result: Option<JsonView>, error: Option<Seq<char>>) -> Seq<char> {
    if error is Some {
        "rejected"@
    } else if result is Some {
        "reviewed"@
    } else {
        "applied"@
    }
}

/// End a request about the storage. What is returned is recorded for the fleet;
/// the storage is shown only under the owner's consent.
pub fn finish_remote_storage(
    config: &mut Configuration,
    command: &ConfigurationCommand,
    result: Option<Json>,
    error: Option<String>,
    storage: Json,
    at: &str,
) -> (r: ConfigurationReceipt)
    ensures
        final(config)@ == remote_storage_ended(old(config)@, command@.edit),
        r@ == (ConfigurationReceiptView {
            effective_storage: if old(config)@.remote.consent {
                Some(storage@)
            } else {
                None
            },
            result: content(result),
            ..receipt_for(
                remote_storage_ended(old(config)@, command@.edit),
                command@.edit.request_id,
                ended_status(content(result), content(error)),
                old(config)@.remote.revision,
                content(error),
                at@,
            )
        }),
{
    let wanted = match &config.remote.pending {
        Some(pending) => pending.edit.alike(&command.edit),
        None => false,
    };
    if wanted {
        config.remote.pending = None;
        config.remote.storage_started = false;
        config.remote.execution_revision = None;
    }
    let status = if error.is_some() {
        "rejected"
    } else if result.is_some() {
        "reviewed"
    } else {
        "applied"
    };
    let receipt = new_receipt(
        config,
        command.edit.request_id.as_str(),
        status,
        config.remote.revision,
        error,
        at,
    );
    let shown = if config.remote.consent {
        Some(storage)
    } else {
        None
    };
    ConfigurationReceipt {
        request_id: receipt.request_id,
        status: receipt.status,
        revision: receipt.revision,
        at: receipt.at,
        effective_policy: receipt.effective_policy,
        effective_resources: receipt.effective_resources,
        effective_storage: shown,
        result,
        error: receipt.error,
    }
}

/// The settings when a request about the storage failed: what it began is
/// stopped.
pub open spec fn remote_storage_failed(c: ConfigurationView, edit: ConfigurationEditView)
    -> ConfigurationView {
    if (c.remote.pending matches Some(p) && p.edit == edit) && c.remote.storage_started {
        with_remote_storage_paused(c)
    } else {
        c
    }
}

/// Stop what a failed request began of the storage.
pub fn stop_remote_storage(config: &mut Configuration, command: &ConfigurationCommand)
    ensures
        final(config)@ == remote_storage_failed(old(config)@, command@.edit),
{
    let wanted = match &config.remote.pending {
        Some(pending) => pending.edit.alike(&command.edit),
        None => false,
    };
    if wanted && config.remote.storage_started {
        Store::pause_remote_storage(config);
    }
}

/// Whether the worker is stopped after a request about the storage failed.
pub fn stops_worker(config: &Configuration) -> (r: bool)
    ensures
        r == (config@.storage_operation is Some || config@.storage_lifecycle.maintenance is Some),
{
    config.storage_operation.is_some() || config.storage_lifecycle.maintenance.is_some()
}

/// What is told of a failed request about the storage. Stopping the worker
/// failed with that message, or did not fail.
pub fn remote_storage_error(error: &str, stop: Option<&Failure>) -> (r: String)
    ensures
        r@ == (match stop {
            Some(f) => error@
                + ". Inspect storage status and preserved copies, resolve the problem, then retry maintenance or review again."@
                + " Worker stop also failed: "@ + f.message@,
            None => error@
                + ". Inspect storage status and preserved copies, resolve the problem, then retry maintenance or review again."@,
        }),
{
    match stop {
        Some(f) => text::join4(
            error,
            ". Inspect storage status and preserved copies, resolve the problem, then retry maintenance or review again.",
            " Worker stop also failed: ",
            f.message.as_str(),
        ),
        None => text::join2(
            error,
            ". Inspect storage status and preserved copies, resolve the problem, then retry maintenance or review again.",
        ),
    }
}

/// An interrupted change of the disks is never resumed by itself: what a failed
/// request began is paused or dropped.
pub proof fn failed_storage_requests_rest(c: ConfigurationView, edit: ConfigurationEditView)
    requires
        c.remote.pending matches Some(p) && p.edit == edit,
        c.remote.storage_started,
    ensures
        remote_storage_failed(c, edit).storage_operation matches Some(op) ==> op.paused,
        remote_storage_failed(c, edit).storage_lifecycle.maintenance matches Some(op) ==> op.paused,
{
}

} // verus!
