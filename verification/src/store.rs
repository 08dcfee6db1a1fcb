//! The settings of this computer: what is accepted, and what every change does
//! to their revision.
use crate::failure::{fail, refusal, unless, Failure};
use crate::identity;
use crate::lima::VmProvider;
use crate::host_paths::{self, host_join};
use crate::policy::{Policy, PolicyView, Resources};
use crate::remote::{
    no_remote, ConfigurationCommandView, ConfigurationEdit, ConfigurationEditView,
    ConfigurationReceipt, ConfigurationReceiptView, RemoteConfiguration, RemoteConfigurationView,
};
use crate::runtime_storage::{Relocation, RelocationView};
use crate::storage::{Location, LocationView, Operation, OperationView};
use crate::storage_layout::{Layout, LayoutView};
use crate::storage_lifecycle::{
    fresh_lifecycle, Lifecycle, LifecycleView, MaintenanceView, Phase,
};
use crate::text;
use crate::values::{
    content, contents, copy_list, copy_option, lists_alike, options_alike, Plain,
};
use vstd::prelude::*;

verus! {

/// A replacement of the worker that the owner asked for.
#[derive(Debug)]
pub struct WorkerRecreation {
    pub request_id: u128,
    pub access_removed: bool,
    pub target_provider: Option<VmProvider>,
}

/// The content of a `WorkerRecreation`.
#[verifier::ext_equal]
pub struct WorkerRecreationView {
    pub request_id: u128,
    pub access_removed: bool,
    pub target_provider: Option<VmProvider>,
}

impl View for WorkerRecreation {
    type V = WorkerRecreationView;

    open spec fn view(&self) -> WorkerRecreationView {
        WorkerRecreationView {
            request_id: self.request_id,
            access_removed: self.access_removed,
            target_provider: self.target_provider,
        }
    }
}

impl Plain for WorkerRecreation {
    fn duplicate(&self) -> (r: Self) {
        WorkerRecreation {
            request_id: self.request_id,
            access_removed: self.access_removed,
            target_provider: self.target_provider,
        }
    }

    fn alike(&self, other: &Self) -> (r: bool) {
        self.request_id == other.request_id
            && self.access_removed == other.access_removed
            && self.target_provider == other.target_provider
    }
}

impl Clone for WorkerRecreation {
    fn clone(&self) -> (r: Self)
        ensures
            r@ == self@,
    {
        self.duplicate()
    }
}

/// The settings of this computer.
#[derive(Debug)]
pub struct Configuration {
    pub format_version: u32,
    pub setup_notice: Option<String>,
    pub remote: RemoteConfiguration,
    pub automatic_updates: bool,
    pub application_update_pending: bool,
    pub vm_provider: VmProvider,
    pub device_id: String,
    pub name: String,
    pub policy: Policy,
    pub controller_url: Option<String>,
    pub device_token: Option<String>,
    pub prepare_requested: bool,
    pub stop_requested: bool,
    pub draining_since: Option<u64>,
    pub vm_created: bool,
    pub vm_configured: bool,
    pub allocated_resources: Option<Resources>,
    pub storage_locations: Vec<Location>,
    pub storage_layout: Option<Layout>,
    pub storage_revision: u64,
    pub storage_generation: u64,
    pub storage_operation: Option<Operation>,
    pub storage_retained: Vec<Location>,
    pub storage_boot_gib: u64,
    pub storage_lifecycle: Lifecycle,
    pub runtime_relocation: Option<Relocation>,
    /// Runtime directories that are no longer used and await removal.
    pub runtime_retained: Vec<Layout>,
    pub recreation: Option<WorkerRecreation>,
}

/// The content of a `Configuration`.
pub struct ConfigurationView {
    pub format_version: u32,
    pub setup_notice: Option<Seq<char>>,
    pub remote: RemoteConfigurationView,
    pub automatic_updates: bool,
    pub application_update_pending: bool,
    pub vm_provider: VmProvider,
    pub device_id: Seq<char>,
    pub name: Seq<char>,
    pub policy: PolicyView,
    pub controller_url: Option<Seq<char>>,
    pub device_token: Option<Seq<char>>,
    pub prepare_requested: bool,
    pub stop_requested: bool,
    pub draining_since: Option<u64>,
    pub vm_created: bool,
    pub vm_configured: bool,
    pub allocated_resources: Option<Resources>,
    pub storage_locations: Seq<LocationView>,
    pub storage_layout: Option<LayoutView>,
    pub storage_revision: u64,
    pub storage_generation: u64,
    pub storage_operation: Option<OperationView>,
    pub storage_retained: Seq<LocationView>,
    pub storage_boot_gib: u64,
    pub storage_lifecycle: LifecycleView,
    pub runtime_relocation: Option<RelocationView>,
    pub runtime_retained: Seq<LayoutView>,
    pub recreation: Option<WorkerRecreationView>,
}

impl View for Configuration {
    type V = ConfigurationView;

    open spec fn view(&self) -> ConfigurationView {
        ConfigurationView {
            format_version: self.format_version,
            setup_notice: content(self.setup_notice),
            remote: self.remote@,
            automatic_updates: self.automatic_updates,
            application_update_pending: self.application_update_pending,
            vm_provider: self.vm_provider,
            device_id: self.device_id@,
            name: self.name@,
            policy: self.policy@,
            controller_url: content(self.controller_url),
            device_token: content(self.device_token),
            prepare_requested: self.prepare_requested,
            stop_requested: self.stop_requested,
            draining_since: self.draining_since,
            vm_created: self.vm_created,
            vm_configured: self.vm_configured,
            allocated_resources: self.allocated_resources,
            storage_locations: contents(self.storage_locations@),
            storage_layout: content(self.storage_layout),
            storage_revision: self.storage_revision,
            storage_generation: self.storage_generation,
            storage_operation: content(self.storage_operation),
            storage_retained: contents(self.storage_retained@),
            storage_boot_gib: self.storage_boot_gib,
            storage_lifecycle: self.storage_lifecycle@,
            runtime_relocation: content(self.runtime_relocation),
            runtime_retained: contents(self.runtime_retained@),
            recreation: content(self.recreation),
        }
    }
}

impl Plain for Configuration {
    fn duplicate(&self) -> (r: Self) {
        Configuration {
            format_version: self.format_version,
            setup_notice: copy_option(&self.setup_notice),
            remote: self.remote.duplicate(),
            automatic_updates: self.automatic_updates,
            application_update_pending: self.application_update_pending,
            vm_provider: self.vm_provider,
            device_id: self.device_id.clone(),
            name: self.name.clone(),
            policy: self.policy.duplicate(),
            controller_url: copy_option(&self.controller_url),
            device_token: copy_option(&self.device_token),
            prepare_requested: self.prepare_requested,
            stop_requested: self.stop_requested,
            draining_since: self.draining_since,
            vm_created: self.vm_created,
            vm_configured: self.vm_configured,
            allocated_resources: self.allocated_resources,
            storage_locations: copy_list(self.storage_locations.as_slice()),
            storage_layout: copy_option(&self.storage_layout),
            storage_revision: self.storage_revision,
            storage_generation: self.storage_generation,
            storage_operation: copy_option(&self.storage_operation),
            storage_retained: copy_list(self.storage_retained.as_slice()),
            storage_boot_gib: self.storage_boot_gib,
            storage_lifecycle: self.storage_lifecycle.duplicate(),
            runtime_relocation: copy_option(&self.runtime_relocation),
            runtime_retained: copy_list(self.runtime_retained.as_slice()),
            recreation: copy_option(&self.recreation),
        }
    }

    fn alike(&self, other: &Self) -> (r: bool) {
        self.format_version == other.format_version
            && options_alike(&self.setup_notice, &other.setup_notice)
            && self.remote.alike(&other.remote)
            && self.automatic_updates == other.automatic_updates
            && self.application_update_pending == other.application_update_pending
            && self.vm_provider == other.vm_provider
            && self.device_id.alike(&other.device_id)
            && self.name.alike(&other.name)
            && self.policy.alike(&other.policy)
            && options_alike(&self.controller_url, &other.controller_url)
            && options_alike(&self.device_token, &other.device_token)
            && self.prepare_requested == other.prepare_requested
            && self.stop_requested == other.stop_requested
            && self.draining_since == other.draining_since
            && self.vm_created == other.vm_created
            && self.vm_configured == other.vm_configured
            && self.allocated_resources == other.allocated_resources
            && lists_alike(self.storage_locations.as_slice(), other.storage_locations.as_slice())
            && options_alike(&self.storage_layout, &other.storage_layout)
            && self.storage_revision == other.storage_revision
            && self.storage_generation == other.storage_generation
            && options_alike(&self.storage_operation, &other.storage_operation)
            && lists_alike(self.storage_retained.as_slice(), other.storage_retained.as_slice())
            && self.storage_boot_gib == other.storage_boot_gib
            && self.storage_lifecycle.alike(&other.storage_lifecycle)
            && options_alike(&self.runtime_relocation, &other.runtime_relocation)
            && lists_alike(self.runtime_retained.as_slice(), other.runtime_retained.as_slice())
            && options_alike(&self.recreation, &other.recreation)
    }
}

impl Clone for Configuration {
    fn clone(&self) -> (r: Self)
        ensures
            r@ == self@,
    {
        self.duplicate()
    }
}

/// The newest format of the settings.
pub const NEWEST_FORMAT: u32 = 7;

/// Whether new settings have automatic updates.
pub fn updates_enabled() -> (r: bool)
    ensures
        r,
{
    true
}

/// The settings of a new installation.
pub open spec fn fresh_settings(
    provider: VmProvider,
    id: u128,
    name: Seq<char>,
    policy: PolicyView,
) -> ConfigurationView {
    ConfigurationView {
        format_version: if provider == VmProvider::Lima {
            2
        } else {
            1
        },
        setup_notice: None,
        remote: no_remote(),
        automatic_updates: true,
        application_update_pending: false,
        vm_provider: provider,
        device_id: identity::hyphenated_form(id),
        name,
        policy,
        controller_url: None,
        device_token: None,
        prepare_requested: false,
        stop_requested: false,
        draining_since: None,
        vm_created: false,
        vm_configured: false,
        allocated_resources: None,
        storage_locations: Seq::empty(),
        storage_layout: None,
        storage_revision: 0,
        storage_generation: 0,
        storage_operation: None,
        storage_retained: Seq::empty(),
        storage_boot_gib: 0,
        storage_lifecycle: fresh_lifecycle(),
        runtime_relocation: None,
        runtime_retained: Seq::empty(),
        recreation: None,
    }
}

/// The name of this computer in the fleet.
pub open spec fn computer_name(host: Option<Seq<char>>) -> Seq<char> {
    match host {
        Some(name) => name,
        None => "My computer"@,
    }
}

/// The runtime that a platform starts with.
pub open spec fn first_provider(platform: Seq<char>) -> VmProvider {
    if platform == "linux"@ {
        VmProvider::Lima
    } else {
        VmProvider::Multipass
    }
}

/// The runtime that a platform starts with.
pub fn initial_provider(platform: &str) -> (r: VmProvider)
    ensures
        r == first_provider(platform@),
{
    if text::same(platform, "linux") {
        VmProvider::Lima
    } else {
        VmProvider::Multipass
    }
}

impl Configuration {
    /// The settings of a new installation with the given identity. The host may
    /// have no name; the sharing rules are those that an owner starts with.
    pub fn fresh(provider: VmProvider, id: u128, host: Option<String>, policy: Policy) -> (r: Self)
        ensures
            r@ == fresh_settings(provider, id, computer_name(content(host)), policy@),
            settings_refusal(r@) is None,
    {
        let name = match host {
            Some(name) => name,
            None => "My computer".to_owned(),
        };
        let ghost name_view = name@;
        let ghost policy_view = policy@;
        let r = Configuration {
            format_version: if provider == VmProvider::Lima {
                2
            } else {
                1
            },
            setup_notice: None,
            remote: RemoteConfiguration::default(),
            automatic_updates: updates_enabled(),
            application_update_pending: false,
            vm_provider: provider,
            device_id: identity::hyphenated_text(id),
            name,
            policy,
            controller_url: None,
            device_token: None,
            prepare_requested: false,
            stop_requested: false,
            draining_since: None,
            vm_created: false,
            vm_configured: false,
            allocated_resources: None,
            storage_locations: Vec::new(),
            storage_layout: None,
            storage_revision: 0,
            storage_generation: 0,
            storage_operation: None,
            storage_retained: Vec::new(),
            storage_boot_gib: 0,
            storage_lifecycle: Lifecycle::default(),
            runtime_relocation: None,
            runtime_retained: Vec::new(),
            recreation: None,
        };
        assert(r@.storage_locations =~= Seq::<LocationView>::empty());
        assert(r@.storage_retained =~= Seq::<LocationView>::empty());
        assert(r@.runtime_retained =~= Seq::<LayoutView>::empty());
        assert(r@ == fresh_settings(provider, id, name_view, policy_view));
        r
    }

    /// The settings of a new installation: its identity is drawn at random.
    pub fn new(platform: &str, host: Option<String>, policy: Policy) -> (r: Self)
        ensures
            exists|id: u128|
                identity::is_random(id) && r@ == #[trigger] fresh_settings(
                    first_provider(platform@),
                    id,
                    computer_name(content(host)),
                    policy@,
                ),
            settings_refusal(r@) is None,
    {
        let id = identity::random_uuid();
        Configuration::fresh(initial_provider(platform), id, host, policy)
    }
}

/// Why settings that were read are not accepted.
pub open spec fn settings_refusal(c: ConfigurationView) -> Option<Seq<char>> {
    if !(1 <= c.format_version <= NEWEST_FORMAT) {
        Some("These settings require a newer NodeHarbor application"@)
    } else if c.vm_provider == VmProvider::Lima && c.format_version < 2 {
        Some(
            "The worker runtime requires versioned settings; the original file has been preserved"@,
        )
    } else if c.storage_locations.len() > 0 && c.format_version < 3 {
        Some("Storage locations require versioned settings; the original file has been preserved"@)
    } else if !untouched_storage(c) && c.format_version < 4 {
        Some("Storage operations require versioned settings; the original file has been preserved"@)
    } else if !identity::is_identity(c.device_id) {
        Some("Invalid saved device identity"@)
    } else {
        None
    }
}

/// Whether no storage operation left a trace in the settings.
pub open spec fn untouched_storage(c: ConfigurationView) -> bool {
    c.storage_operation is None && c.storage_generation == 0 && c.storage_revision == 0
        && c.storage_retained.len() == 0 && c.storage_boot_gib == 0
}

/// The format in which settings are written. Earlier agents understand local
/// storage journals but cannot enforce a remote request's consent and revision.
pub open spec fn written_format(c: ConfigurationView) -> u32 {
    let remote = if c.remote.consent || c.remote.pending is Some || c.remote.receipts.len() > 0 {
        6u32
    } else {
        0u32
    };
    let storage = if c.storage_lifecycle != fresh_lifecycle() {
        5u32
    } else {
        0u32
    };
    let first = if c.format_version > remote {
        c.format_version
    } else {
        remote
    };
    if first > storage {
        first
    } else {
        storage
    }
}

/// Settings with a remote storage change stopped: what had not begun is
/// dropped, what had is paused.
pub open spec fn with_remote_storage_paused(c: ConfigurationView) -> ConfigurationView {
    ConfigurationView {
        storage_operation: match c.storage_operation {
            Some(op) => if op.phase == "pending"@ {
                None
            } else {
                Some(OperationView { paused: true, ..op })
            },
            None => None,
        },
        storage_lifecycle: LifecycleView {
            maintenance: match c.storage_lifecycle.maintenance {
                Some(op) => if op.phase == Phase::Drain {
                    None
                } else {
                    Some(MaintenanceView { paused: true, ..op })
                },
                None => None,
            },
            ..c.storage_lifecycle
        },
        ..c
    }
}

/// Whether a change counts: it advances the revision that the owner and the
/// fleet compare.
pub open spec fn advances(before: ConfigurationView, after: ConfigurationView) -> bool {
    ||| before.policy != after.policy
    ||| before.remote.consent != after.remote.consent
    ||| before.device_id != after.device_id
    ||| before.vm_provider != after.vm_provider
    ||| before.controller_url != after.controller_url
    ||| before.device_token != after.device_token
    ||| before.storage_revision != after.storage_revision
    ||| before.storage_locations != after.storage_locations
    ||| before.storage_lifecycle.recovery_enabled != after.storage_lifecycle.recovery_enabled
    ||| before.remote.revision != after.remote.revision
    ||| (before.recreation is Some) != (after.recreation is Some)
    ||| before.application_update_pending != after.application_update_pending
}

/// The index of the first receipt that is pending.
pub open spec fn pending_receipt(receipts: Seq<ConfigurationReceiptView>, i: int) -> Option<int>
    decreases receipts.len() - i,
{
    if i < 0 || i >= receipts.len() {
        None
    } else if receipts[i].status == "pending"@ {
        Some(i)
    } else {
        pending_receipt(receipts, i + 1)
    }
}

/// The receipts with the revision of the first pending one set.
pub open spec fn with_pending_at(
    receipts: Seq<ConfigurationReceiptView>,
    revision: u64,
) -> Seq<ConfigurationReceiptView> {
    match pending_receipt(receipts, 0) {
        Some(i) => receipts.update(i, ConfigurationReceiptView { revision, ..receipts[i] }),
        None => receipts,
    }
}

/// Settings after a change that a remote request made.
pub open spec fn advanced_by_request(
    before: ConfigurationView,
    after: ConfigurationView,
    revision: u64,
) -> ConfigurationView {
    ConfigurationView {
        remote: RemoteConfigurationView {
            revision,
            execution_revision: Some(revision),
            storage_started: after.remote.storage_started || before.storage_revision
                != after.storage_revision,
            receipts: with_pending_at(after.remote.receipts, revision),
            ..after.remote
        },
        ..after
    }
}

/// Settings after a change that the owner made: a pending request is dropped,
/// and what it had begun of the storage is stopped.
pub open spec fn advanced_by_owner(after: ConfigurationView, revision: u64) -> ConfigurationView {
    let stopped = if after.remote.pending is Some && after.remote.storage_started {
        with_remote_storage_paused(after)
    } else {
        after
    };
    ConfigurationView {
        remote: if after.remote.pending is Some {
            RemoteConfigurationView {
                revision,
                pending: None,
                execution_revision: None,
                storage_started: false,
                ..after.remote
            }
        } else {
            RemoteConfigurationView { revision, ..after.remote }
        },
        ..stopped
    }
}

/// What the fleet is told of a request that the owner's change dropped.
pub open spec fn dropped_receipt(
    c: ConfigurationView,
    command: ConfigurationCommandView,
    at: Seq<char>,
) -> ConfigurationReceiptView {
    dropped_receipt_for(c, command.edit.request_id, at)
}

/// What the fleet is told of the dropped request of that identifier.
pub open spec fn dropped_receipt_for(
    c: ConfigurationView,
    request_id: Seq<char>,
    at: Seq<char>,
) -> ConfigurationReceiptView {
    ConfigurationReceiptView {
        request_id,
        status: "rejected"@,
        revision: c.remote.revision,
        at,
        effective_policy: Some(c.policy),
        effective_resources: if c.remote.applying || c.storage_operation is Some
            || c.storage_lifecycle.maintenance is Some {
            None
        } else {
            c.allocated_resources
        },
        effective_storage: None,
        result: None,
        error: Some("The owner changed settings or consent; reload current settings"@),
    }
}

/// The settings to write after a change and the receipt to record, or why the
/// change is refused. `scoped` tells a change that a remote request makes.
pub open spec fn settled(
    before: ConfigurationView,
    after: ConfigurationView,
    scoped: bool,
    at: Seq<char>,
) -> Result<(ConfigurationView, Option<ConfigurationReceiptView>), Seq<char>> {
    if !advances(before, after) {
        Ok((after, None))
    } else if before.remote.revision == u64::MAX {
        Err("Configuration revision exhausted; local recovery required"@)
    } else {
        let revision = (before.remote.revision + 1) as u64;
        if scoped {
            Ok((advanced_by_request(before, after, revision), None))
        } else {
            let c = advanced_by_owner(after, revision);
            Ok(
                (
                    c,
                    match after.remote.pending {
                        Some(command) => Some(dropped_receipt(c, command, at)),
                        None => None,
                    },
                ),
            )
        }
    }
}

/// Whether a remote request still has the owner's authority.
pub open spec fn authorized(c: ConfigurationView, edit: ConfigurationEditView) -> bool {
    c.remote.consent && (c.remote.pending matches Some(p) && p.edit == edit)
        && c.remote.revision == (match c.remote.execution_revision {
        Some(revision) => revision,
        None => edit.expected_revision,
    })
}

pub open spec fn authority_refusal(
    request: Option<ConfigurationEditView>,
    c: ConfigurationView,
) -> Option<Seq<char>> {
    match request {
        Some(edit) => unless(
            authorized(c, edit),
            "The owner changed settings or revoked remote configuration; unapplied changes are canceled"@,
        ),
        None => None,
    }
}

/// What opening the settings does.
#[derive(Clone, Copy, Debug, PartialEq, Eq, Structural)]
pub enum Opening {
    /// The settings stay as they are.
    Keep,
    /// There are none yet; the first ones are written.
    Begin,
    /// The settings of an obsolete runtime are archived, and new ones written.
    Archive,
}

/// Opened settings.
#[derive(Debug)]
pub struct Opened {
    pub opening: Opening,
    pub settings: Configuration,
}

/// The content of opened settings.
#[verifier::ext_equal]
pub struct OpenedView {
    pub opening: Opening,
    pub settings: ConfigurationView,
}

impl View for Opened {
    type V = OpenedView;

    open spec fn view(&self) -> OpenedView {
        OpenedView { opening: self.opening, settings: self.settings@ }
    }
}

/// The settings that take the place of archived ones.
pub open spec fn replacing_settings(id: u128, name: Seq<char>, policy: PolicyView) -> ConfigurationView {
    ConfigurationView {
        setup_notice: Some(obsolete_notice()),
        ..fresh_settings(VmProvider::Lima, id, name, policy)
    }
}

/// Whether settings are those of a runtime that the platform has given up.
pub open spec fn is_obsolete(c: ConfigurationView, platform: Seq<char>) -> bool {
    platform == "linux"@ && c.vm_provider == VmProvider::Multipass
}

/// What opening the settings that were saved does, or why they cannot be used. New
/// settings get the identity.
pub open spec fn opened(
    saved: Option<ConfigurationView>,
    platform: Seq<char>,
    provider: VmProvider,
    id: u128,
    name: Seq<char>,
    policy: PolicyView,
) -> Result<OpenedView, Seq<char>> {
    match saved {
        None => Ok(
            OpenedView {
                opening: Opening::Begin,
                settings: fresh_settings(provider, id, name, policy),
            },
        ),
        Some(c) => match settings_refusal(c) {
            Some(message) => Err(message),
            None => if is_obsolete(c, platform) {
                Ok(
                    OpenedView {
                        opening: Opening::Archive,
                        settings: replacing_settings(id, name, policy),
                    },
                )
            } else {
                Ok(OpenedView { opening: Opening::Keep, settings: c })
            },
        },
    }
}

/// Settings as they are written.
pub open spec fn written_settings(c: ConfigurationView) -> ConfigurationView {
    ConfigurationView { format_version: written_format(c), ..c }
}

/// What the settings file holds after the settings were opened.
pub open spec fn stored_after(o: OpenedView) -> ConfigurationView {
    if o.opening == Opening::Keep {
        o.settings
    } else {
        written_settings(o.settings)
    }
}

/// The settings directory, and the remote request that changes are scoped to.
#[derive(Debug)]
pub struct Store {
    pub directory: String,
    pub configuration_request: Option<ConfigurationEdit>,
}

fn stopped_remote_storage(config: &mut Configuration)
    ensures
        final(config)@ == with_remote_storage_paused(old(config)@),
{
    let operation = match &config.storage_operation {
        Some(op) => if text::same(op.phase.as_str(), "pending") {
            None
        } else {
            Some(op.with_pause(true))
        },
        None => None,
    };
    let maintenance = match &config.storage_lifecycle.maintenance {
        Some(op) => if op.phase == Phase::Drain {
            None
        } else {
            Some(op.with_pause(true))
        },
        None => None,
    };
    config.storage_operation = operation;
    config.storage_lifecycle.maintenance = maintenance;
}

fn change_advances(before: &Configuration, after: &Configuration) -> (r: bool)
    ensures
        r == advances(before@, after@),
{
    !before.policy.alike(&after.policy) || before.remote.consent != after.remote.consent
        || !before.device_id.alike(&after.device_id) || before.vm_provider != after.vm_provider
        || !options_alike(&before.controller_url, &after.controller_url) || !options_alike(
        &before.device_token,
        &after.device_token,
    ) || before.storage_revision != after.storage_revision || !lists_alike(
        before.storage_locations.as_slice(),
        after.storage_locations.as_slice(),
    ) || before.storage_lifecycle.recovery_enabled != after.storage_lifecycle.recovery_enabled
        || before.remote.revision != after.remote.revision || before.recreation.is_some()
        != after.recreation.is_some() || before.application_update_pending
        != after.application_update_pending
}

fn marked(receipts: &[ConfigurationReceipt], revision: u64) -> (r: Vec<ConfigurationReceipt>)
    ensures
        contents(r@) == with_pending_at(contents(receipts@), revision),
{
    let ghost v = contents(receipts@);
    let mut r = copy_list(receipts);
    for i in 0..receipts.len()
        invariant
            r@.len() == receipts@.len(),
            contents(r@) == v,
            v == contents(receipts@),
            pending_receipt(v, 0) == pending_receipt(v, i as int),
    {
        assert(v[i as int] == receipts@[i as int]@);
        if text::same(receipts[i].status.as_str(), "pending") {
            let mut receipt = receipts[i].duplicate();
            receipt.revision = revision;
            r.set(i, receipt);
            assert(contents(r@) =~= with_pending_at(v, revision));
            return r;
        }
    }
    r
}

fn settle_for_request(before: &Configuration, config: &mut Configuration, revision: u64)
    ensures
        final(config)@ == advanced_by_request(before@, old(config)@, revision),
{
    let started = config.remote.storage_started || before.storage_revision
        != config.storage_revision;
    let receipts = marked(config.remote.receipts.as_slice(), revision);
    config.remote = RemoteConfiguration {
        consent: config.remote.consent,
        revision,
        pending: copy_option(&config.remote.pending),
        receipts,
        execution_revision: Some(revision),
        storage_started: started,
        applying: config.remote.applying,
        repair_required: config.remote.repair_required,
    };
}

/// The receipt of a request that the owner's change dropped.
fn drop_receipt(config: &Configuration, request_id: String, at: &str) -> (r: ConfigurationReceipt)
    ensures
        r@ == dropped_receipt_for(config@, request_id@, at@),
{
    ConfigurationReceipt {
        request_id,
        status: "rejected".to_owned(),
        revision: config.remote.revision,
        at: at.to_owned(),
        effective_policy: Some(config.policy.duplicate()),
        effective_resources: if config.remote.applying || config.storage_operation.is_some()
            || config.storage_lifecycle.maintenance.is_some() {
            None
        } else {
            config.allocated_resources
        },
        effective_storage: None,
        result: None,
        error: Some("The owner changed settings or consent; reload current settings".to_owned()),
    }
}

fn settle_for_owner(config: &mut Configuration, revision: u64, at: &str) -> (r: Option<
    ConfigurationReceipt,
>)
    ensures
        final(config)@ == advanced_by_owner(old(config)@, revision),
        content(r) == (match old(config)@.remote.pending {
            Some(command) => Some(dropped_receipt(final(config)@, command, at@)),
            None => None,
        }),
{
    let request = match &config.remote.pending {
        Some(command) => Some(command.edit.request_id.clone()),
        None => None,
    };
    match request {
        None => {
            config.remote.revision = revision;
            assert(config@ == advanced_by_owner(old(config)@, revision));
            None
        },
        Some(request_id) => {
            if config.remote.storage_started {
                stopped_remote_storage(config);
            }
            config.remote = RemoteConfiguration {
                consent: config.remote.consent,
                revision,
                pending: None,
                receipts: copy_list(config.remote.receipts.as_slice()),
                execution_revision: None,
                storage_started: false,
                applying: config.remote.applying,
                repair_required: config.remote.repair_required,
            };
            assert(config@ == advanced_by_owner(old(config)@, revision));
            Some(drop_receipt(config, request_id, at))
        },
    }
}

impl Store {
    pub fn new(directory: &str) -> (r: Self)
        ensures
            r.directory@ == directory@,
            r.configuration_request is None,
    {
        Store { directory: directory.to_owned(), configuration_request: None }
    }

    /// Where the settings of a user stand.
    pub fn default_directory(platform: &str, config_directory: Option<&str>) -> (r: Result<
        String,
        Failure,
    >)
        ensures
            match config_directory {
                Some(d) => r matches Ok(p) && p@ == host_join(platform@, d@, "nodeharbor"@),
                None => refusal(r) == Some("Cannot locate this user’s settings directory"@),
            },
    {
        match config_directory {
            Some(d) => Ok(host_paths::join(platform, d, "nodeharbor")),
            None => Err(fail("Cannot locate this user’s settings directory")),
        }
    }

    /// Where the settings file stands.
    pub fn path(&self, platform: &str) -> (r: String)
        ensures
            r@ == host_join(platform@, self.directory@, "config.json"@),
    {
        host_paths::join(platform, self.directory.as_str(), "config.json")
    }

    /// Open the settings that were saved: the first ones are begun, and the obsolete
    /// runtime of Linux is given up. New settings get the identity.
    pub fn open(
        saved: Option<Configuration>,
        platform: &str,
        provider: VmProvider,
        id: u128,
        host: Option<String>,
        policy: Policy,
    ) -> (r: Result<Opened, Failure>)
        ensures
            match opened(
                content(saved),
                platform@,
                provider,
                id,
                computer_name(content(host)),
                policy@,
            ) {
                Ok(o) => r matches Ok(found) && found@ == o,
                Err(message) => refusal(r) == Some(message),
            },
            r matches Ok(found) ==> settings_refusal(found@.settings) is None,
    {
        match saved {
            None => Ok(
                Opened {
                    opening: Opening::Begin,
                    settings: Configuration::fresh(provider, id, host, policy),
                },
            ),
            Some(config) => {
                match Store::load(&config) {
                    Ok(()) => {},
                    Err(e) => {
                        return Err(e);
                    },
                }
                if text::same(platform, "linux") && config.vm_provider == VmProvider::Multipass {
                    Ok(
                        Opened {
                            opening: Opening::Archive,
                            settings: Store::replacement(id, host, policy),
                        },
                    )
                } else {
                    Ok(Opened { opening: Opening::Keep, settings: config })
                }
            },
        }
    }

    /// The settings that take the place of archived ones.
    pub fn replacement(id: u128, host: Option<String>, policy: Policy) -> (r: Configuration)
        ensures
            r@ == replacing_settings(id, computer_name(content(host)), policy@),
            settings_refusal(r@) is None,
    {
        let mut r = Configuration::fresh(VmProvider::Lima, id, host, policy);
        r.setup_notice = Some(
            "The previous Linux Multipass setup is obsolete and its settings were archived privately. Please enroll again and select drives to prepare a new Lima worker. Sharing is disabled.".to_owned(),
        );
        r
    }

    /// The file name under which obsolete settings are archived.
    pub fn archive_name(id: u128) -> (r: String)
        ensures
            r@ == "obsolete-multipass-"@ + identity::hyphenated_form(id) + ".json"@,
    {
        let text = identity::hyphenated_text(id);
        text::join3("obsolete-multipass-", text.as_str(), ".json")
    }

    /// Whether settings that were read can be used.
    pub fn load(config: &Configuration) -> (r: Result<(), Failure>)
        ensures
            refusal(r) == settings_refusal(config@),
    {
        if config.format_version < 1 || config.format_version > NEWEST_FORMAT {
            return Err(fail("These settings require a newer NodeHarbor application"));
        }
        if config.vm_provider == VmProvider::Lima && config.format_version < 2 {
            return Err(
                fail(
                    "The worker runtime requires versioned settings; the original file has been preserved",
                ),
            );
        }
        if config.storage_locations.len() > 0 && config.format_version < 3 {
            return Err(
                fail(
                    "Storage locations require versioned settings; the original file has been preserved",
                ),
            );
        }
        let untouched = config.storage_operation.is_none() && config.storage_generation == 0
            && config.storage_revision == 0 && config.storage_retained.len() == 0
            && config.storage_boot_gib == 0;
        if !untouched && config.format_version < 4 {
            return Err(
                fail(
                    "Storage operations require versioned settings; the original file has been preserved",
                ),
            );
        }
        if !identity::names_device(config.device_id.as_str()) {
            return Err(fail("Invalid saved device identity"));
        }
        Ok(())
    }

    /// Settle a change of the stored settings: all entry points, in this process and in
    /// others, advance the same revision. What is stored changes with a change that is
    /// accepted only; a receipt to record may come with it.
    pub fn update(&self, stored: &mut Configuration, after: Configuration, at: &str) -> (r: Result<
        Option<ConfigurationReceipt>,
        Failure,
    >)
        ensures
            match authority_refusal(content(self.configuration_request), old(stored)@) {
                Some(message) => refusal(r) == Some(message),
                None => match settled(
                    old(stored)@,
                    after@,
                    self.configuration_request is Some,
                    at@,
                ) {
                    Ok(wanted) => r matches Ok(receipt) && final(stored)@ == wanted.0 && content(
                        receipt,
                    ) == wanted.1,
                    Err(message) => refusal(r) == Some(message),
                },
            },
            r is Err ==> final(stored)@ == old(stored)@,
    {
        match self.check_configuration_authority(stored) {
            Ok(()) => {},
            Err(e) => {
                return Err(e);
            },
        }
        let mut config = after;
        if !change_advances(stored, &config) {
            *stored = config;
            return Ok(None);
        }
        let revision = match stored.remote.revision.checked_add(1) {
            Some(revision) => revision,
            None => {
                return Err(fail("Configuration revision exhausted; local recovery required"));
            },
        };
        let receipt = if self.configuration_request.is_some() {
            settle_for_request(stored, &mut config, revision);
            None
        } else {
            settle_for_owner(&mut config, revision, at)
        };
        *stored = config;
        Ok(receipt)
    }

    /// The same store, scoped to a single authenticated request: every durable
    /// write checks the latest owner consent.
    pub fn for_configuration(&self, edit: &ConfigurationEdit) -> (r: Self)
        ensures
            r.directory@ == self.directory@,
            content(r.configuration_request) == Some(edit@),
    {
        Store {
            directory: self.directory.clone(),
            configuration_request: Some(edit.duplicate()),
        }
    }

    /// Whether a scoped store may still act.
    pub fn check_configuration_authority(&self, config: &Configuration) -> (r: Result<(), Failure>)
        ensures
            refusal(r) == authority_refusal(content(self.configuration_request), config@),
    {
        match &self.configuration_request {
            None => Ok(()),
            Some(edit) => {
                let wanted = match &config.remote.pending {
                    Some(pending) => pending.edit.alike(edit),
                    None => false,
                };
                let revision = match config.remote.execution_revision {
                    Some(revision) => revision,
                    None => edit.expected_revision,
                };
                if config.remote.consent && wanted && config.remote.revision == revision {
                    Ok(())
                } else {
                    Err(
                        fail(
                            "The owner changed settings or revoked remote configuration; unapplied changes are canceled",
                        ),
                    )
                }
            },
        }
    }

    /// Stop what a remote request began of the storage.
    pub fn pause_remote_storage(config: &mut Configuration)
        ensures
            final(config)@ == with_remote_storage_paused(old(config)@),
    {
        stopped_remote_storage(config);
    }

    /// The settings as they are written.
    pub fn formatted(config: &Configuration) -> (r: Configuration)
        ensures
            r@ == written_settings(config@),
    {
        let mut r = config.duplicate();
        if (r.remote.consent || r.remote.pending.is_some() || r.remote.receipts.len() > 0)
            && r.format_version < 6 {
            r.format_version = 6;
        }
        let fresh = Lifecycle::default();
        if !r.storage_lifecycle.alike(&fresh) && r.format_version < 5 {
            r.format_version = 5;
        }
        r
    }
}

/// What the owner of archived settings is told.
pub open spec fn obsolete_notice() -> Seq<char> {
    "The previous Linux Multipass setup is obsolete and its settings were archived privately. Please enroll again and select drives to prepare a new Lima worker. Sharing is disabled."@
}

/// Opening settings that were opened before changes nothing, whatever identity, name
/// and rules new ones would get: the identity stays, and nothing is archived again.
pub proof fn openings_are_lasting(
    saved: Option<ConfigurationView>,
    platform: Seq<char>,
    provider: VmProvider,
    id: u128,
    name: Seq<char>,
    policy: PolicyView,
    other_id: u128,
    other_name: Seq<char>,
    other_policy: PolicyView,
)
    requires
        platform == "linux"@ ==> provider == VmProvider::Lima,
        opened(saved, platform, provider, id, name, policy) matches Ok(o) && settings_refusal(
            o.settings,
        ) is None,
    ensures
        ({
            let stored = stored_after(opened(saved, platform, provider, id, name, policy)->Ok_0);
            opened(Some(stored), platform, provider, other_id, other_name, other_policy) == Ok::<
                OpenedView,
                Seq<char>,
            >(OpenedView { opening: Opening::Keep, settings: stored })
        }),
{
    let o = opened(saved, platform, provider, id, name, policy)->Ok_0;
    written_settings_are_accepted(o.settings);
}

/// Obsolete settings are archived, and those in their place are of a new device that
/// is in no fleet, on the native runtime and with a notice.
pub proof fn obsolete_settings_are_replaced(
    c: ConfigurationView,
    platform: Seq<char>,
    provider: VmProvider,
    id: u128,
    name: Seq<char>,
    policy: PolicyView,
)
    requires
        settings_refusal(c) is None,
        is_obsolete(c, platform),
    ensures
        opened(Some(c), platform, provider, id, name, policy) matches Ok(o) && o.opening
            == Opening::Archive && o.settings.vm_provider == VmProvider::Lima
            && o.settings.device_token is None && o.settings.device_id
            == identity::hyphenated_form(id) && o.settings.policy == policy
            && o.settings.setup_notice == Some(obsolete_notice()),
{
}

/// Settings that could be read can be read again in the format in which they
/// are written.
pub proof fn written_settings_are_accepted(c: ConfigurationView)
    requires
        settings_refusal(c) is None,
    ensures
        settings_refusal(ConfigurationView { format_version: written_format(c), ..c }) is None,
        written_format(c) >= c.format_version,
{
}

/// No change ever takes the revision back, and one that counts raises it by one.
pub proof fn revisions_rise(
    before: ConfigurationView,
    after: ConfigurationView,
    scoped: bool,
    at: Seq<char>,
)
    requires
        settled(before, after, scoped, at) is Ok,
    ensures
        ({
            let now = settled(before, after, scoped, at)->Ok_0.0;
            now.remote.revision == before.remote.revision + (if advances(before, after) {
                1int
            } else {
                0int
            })
        }),
{
}

/// After any change that counts and that the owner made, no remote request is
/// pending, and one that was pending is told so.
pub proof fn owner_changes_drop_requests(
    before: ConfigurationView,
    after: ConfigurationView,
    at: Seq<char>,
)
    requires
        advances(before, after),
        settled(before, after, false, at) is Ok,
    ensures
        ({
            let settled = settled(before, after, false, at)->Ok_0;
            &&& settled.0.remote.pending is None
            &&& settled.1 is Some <==> after.remote.pending is Some
            &&& settled.1 matches Some(receipt) ==> receipt.status == "rejected"@
                && receipt.request_id == after.remote.pending->0.edit.request_id
        }),
{
}

/// A request loses its authority with any change that the owner makes: neither
/// its edit is pending any longer, nor is its revision the current one.
pub proof fn owner_changes_end_authority(
    before: ConfigurationView,
    after: ConfigurationView,
    at: Seq<char>,
    edit: ConfigurationEditView,
)
    requires
        advances(before, after),
        settled(before, after, false, at) is Ok,
    ensures
        !authorized(settled(before, after, false, at)->Ok_0.0, edit),
{
}

/// A request that changes the settings keeps its authority over them.
pub proof fn own_changes_keep_authority(
    before: ConfigurationView,
    after: ConfigurationView,
    at: Seq<char>,
    edit: ConfigurationEditView,
)
    requires
        authorized(before, edit),
        after.remote.consent,
        after.remote.pending == before.remote.pending,
        after.remote.execution_revision == before.remote.execution_revision,
        settled(before, after, true, at) is Ok,
    ensures
        authorized(settled(before, after, true, at)->Ok_0.0, edit),
{
}

} // verus!
