//! What the owner asks of this computer, and what the owner is shown of it.
use crate::agent::saves::drain_start;
use crate::agent::steps::{is_overdue, overdue, Starting};
use crate::failure::{fail, first_of, refusal, unless, Failure};
use crate::identity;
use crate::json::{Json, JsonView};
use crate::lima::{native_provider, VmProvider};
use crate::policy::{Policy, PolicyView};
use crate::remote::RemoteConfigurationView;
use crate::storage::{
    places_disks, require_location_support, sum_gib, total_gib, unsupported_text, Operation,
    OperationView,
};
use crate::storage_lifecycle::{LifecycleView, Maintenance, MaintenanceView};
use crate::store::{Configuration, ConfigurationView, WorkerRecreation, WorkerRecreationView};
use crate::text;
use crate::values::{
    content, contents, copy_list, copy_option, lists_alike, options_alike, Plain,
};
use crate::vm::{no_vm, VmInfo, VmInfoView};
use vstd::prelude::*;

verus! {

/// What the supervisor remembers between its steps.
#[derive(Debug)]
pub struct Runtime {
    pub state: Option<String>,
    pub reason: Option<String>,
    pub worker: VmInfo,
    pub workloads: Vec<Json>,
    pub system_pod_uids: Vec<String>,
    pub remote_paused: bool,
    pub starting: Option<Starting>,
    pub stopping_now: bool,
    pub application_update_ready: bool,
    pub update_idle_observed: bool,
}

/// The content of a `Runtime`.
#[verifier::ext_equal]
pub struct RuntimeView {
    pub state: Option<Seq<char>>,
    pub reason: Option<Seq<char>>,
    pub worker: VmInfoView,
    pub workloads: Seq<JsonView>,
    pub system_pod_uids: Seq<Seq<char>>,
    pub remote_paused: bool,
    pub starting: Option<Starting>,
    pub stopping_now: bool,
    pub application_update_ready: bool,
    pub update_idle_observed: bool,
}

impl View for Runtime {
    type V = RuntimeView;

    open spec fn view(&self) -> RuntimeView {
        RuntimeView {
            state: content(self.state),
            reason: content(self.reason),
            worker: self.worker@,
            workloads: contents(self.workloads@),
            system_pod_uids: contents(self.system_pod_uids@),
            remote_paused: self.remote_paused,
            starting: self.starting,
            stopping_now: self.stopping_now,
            application_update_ready: self.application_update_ready,
            update_idle_observed: self.update_idle_observed,
        }
    }
}

impl Plain for Runtime {
    fn duplicate(&self) -> (r: Self) {
        Runtime {
            state: copy_option(&self.state),
            reason: copy_option(&self.reason),
            worker: self.worker.duplicate(),
            workloads: copy_list(self.workloads.as_slice()),
            system_pod_uids: copy_list(self.system_pod_uids.as_slice()),
            remote_paused: self.remote_paused,
            starting: self.starting,
            stopping_now: self.stopping_now,
            application_update_ready: self.application_update_ready,
            update_idle_observed: self.update_idle_observed,
        }
    }

    fn alike(&self, other: &Self) -> (r: bool) {
        options_alike(&self.state, &other.state)
            && options_alike(&self.reason, &other.reason)
            && self.worker.alike(&other.worker)
            && lists_alike(self.workloads.as_slice(), other.workloads.as_slice())
            && lists_alike(self.system_pod_uids.as_slice(), other.system_pod_uids.as_slice())
            && self.remote_paused == other.remote_paused
            && self.starting == other.starting
            && self.stopping_now == other.stopping_now
            && self.application_update_ready == other.application_update_ready
            && self.update_idle_observed == other.update_idle_observed
    }
}

impl Clone for Runtime {
    fn clone(&self) -> (r: Self)
        ensures
            r@ == self@,
    {
        self.duplicate()
    }
}

impl Default for Runtime {
    fn default() -> (r: Self)
        ensures
            r@ == fresh_runtime(),
    {
        let r = Runtime {
            state: None,
            reason: None,
            worker: VmInfo::default(),
            workloads: Vec::new(),
            system_pod_uids: Vec::new(),
            remote_paused: false,
            starting: None,
            stopping_now: false,
            application_update_ready: false,
            update_idle_observed: false,
        };
        assert(r@ =~= fresh_runtime());
        r
    }
}

/// What the supervisor remembers at its start.
pub open spec fn fresh_runtime() -> RuntimeView {
    RuntimeView {
        state: None,
        reason: None,
        worker: no_vm(),
        workloads: Seq::empty(),
        system_pod_uids: Seq::empty(),
        remote_paused: false,
        starting: None,
        stopping_now: false,
        application_update_ready: false,
        update_idle_observed: false,
    }
}

impl Runtime {
    /// Set what the owner is shown. Only a change of it is logged.
    pub fn set_status(&mut self, state: &str, reason: &str) -> (r: bool)
        ensures
            r == (old(self)@.state != Some(state@) || old(self)@.reason != Some(reason@)),
            final(self)@ == (RuntimeView {
                state: Some(state@),
                reason: Some(reason@),
                ..old(self)@
            }),
    {
        let same_state = match &self.state {
            Some(s) => text::same(s.as_str(), state),
            None => false,
        };
        let same_reason = match &self.reason {
            Some(s) => text::same(s.as_str(), reason),
            None => false,
        };
        self.state = Some(state.to_owned());
        self.reason = Some(reason.to_owned());
        !same_state || !same_reason
    }

    /// Nothing is known of an update's readiness.
    pub fn forget_update(&mut self)
        ensures
            final(self)@ == (RuntimeView {
                application_update_ready: false,
                update_idle_observed: false,
                ..old(self)@
            }),
    {
        self.application_update_ready = false;
        self.update_idle_observed = false;
    }

    /// The worker stopped.
    pub fn worker_stopped(&mut self)
        ensures
            final(self)@ == (RuntimeView {
                worker: VmInfoView { running: false, ..old(self)@.worker },
                workloads: Seq::empty(),
                ..old(self)@
            }),
    {
        self.worker.running = false;
        self.workloads = Vec::new();
        assert(self@.workloads =~= Seq::<JsonView>::empty());
    }

    /// Whether an application may be replaced now, or why the worker's
    /// maintenance failed.
    pub fn application_update_ready(&self, pending: bool) -> (r: Result<bool, Failure>)
        ensures
            refusal(r) == (if self@.state == Some("error"@) {
                Some(
                    match self@.reason {
                        Some(reason) => reason,
                        None => "Worker maintenance failed"@,
                    },
                )
            } else {
                None
            }),
            r matches Ok(ready) ==> ready == (pending && self.application_update_ready),
    {
        let failed = match &self.state {
            Some(s) => text::same(s.as_str(), "error"),
            None => false,
        };
        if failed {
            return Err(
                match &self.reason {
                    Some(reason) => Failure { message: reason.clone() },
                    None => fail("Worker maintenance failed"),
                },
            );
        }
        Ok(pending && self.application_update_ready)
    }
}

/// How important a state is in the log.
pub fn log_level(state: &str) -> (r: &'static str)
    ensures
        r@ == (if state@ == "error"@ {
            "error"@
        } else {
            "info"@
        }),
{
    if text::same(state, "error") {
        "error"
    } else {
        "info"
    }
}

/// Whether the worker is in no operation that an update would have to wait for.
pub open spec fn may_update(c: ConfigurationView) -> bool {
    c.recreation is None && c.storage_operation is None && c.storage_lifecycle.maintenance is None
        && !c.prepare_requested && !c.stop_requested
}

/// Ask for the worker to be made ready for an update of the application.
pub fn begin_application_update(config: &mut Configuration) -> (r: Result<(), Failure>)
    ensures
        refusal(r) == unless(
            may_update(old(config)@),
            "Waiting for the current worker operation before updating"@,
        ),
        final(config)@ == (if r is Ok {
            ConfigurationView { application_update_pending: true, ..old(config)@ }
        } else {
            old(config)@
        }),
{
    if config.recreation.is_none() && config.storage_operation.is_none()
        && config.storage_lifecycle.maintenance.is_none() && !config.prepare_requested
        && !config.stop_requested {
        config.application_update_pending = true;
        Ok(())
    } else {
        Err(fail("Waiting for the current worker operation before updating"))
    }
}

/// Give up an update of the application. The owner's rules stay as they are.
pub fn cancel_application_update(config: &mut Configuration)
    ensures
        final(config)@ == (ConfigurationView { application_update_pending: false, ..old(config)@ }),
{
    config.application_update_pending = false;
}

/// The settings of a new installation with the runtime of its platform.
pub open spec fn with_native_runtime(
    c: ConfigurationView,
    fresh: bool,
    platform: Seq<char>,
) -> ConfigurationView {
    if fresh && native_provider(platform) == VmProvider::Lima {
        ConfigurationView {
            vm_provider: VmProvider::Lima,
            format_version: if c.format_version < 2 {
                2
            } else {
                c.format_version
            },
            ..c
        }
    } else {
        c
    }
}

/// Use the runtime of the platform in a new installation.
pub fn adopt_native_runtime(config: &mut Configuration, fresh: bool, platform: &str)
    ensures
        final(config)@ == with_native_runtime(old(config)@, fresh, platform@),
{
    if fresh && VmProvider::native(platform) == VmProvider::Lima {
        config.vm_provider = VmProvider::Lima;
        if config.format_version < 2 {
            config.format_version = 2;
        }
    }
}

/// The current time as it is saved: no time before 1970 is known.
pub fn now_seconds(timestamp: i64) -> (r: u64)
    ensures
        r == (if timestamp < 0 {
            0
        } else {
            timestamp as int
        }),
{
    if timestamp < 0 {
        0
    } else {
        timestamp as u64
    }
}

/// Whether a drain has used up its grace period.
pub open spec fn drain_expired(c: ConfigurationView, now: u64) -> bool {
    overdue(c.draining_since, now, c.policy.drain_seconds)
}

/// Whether a drain has used up its grace period.
pub fn deadline_expired(config: &Configuration, now: u64) -> (r: bool)
    ensures
        r == drain_expired(config@, now),
{
    is_overdue(config.draining_since, now, config.policy.drain_seconds)
}

/// Whether the end of a drain interrupts the supervisor. A storage change
/// coordinates its own drain, and is not interrupted.
pub open spec fn drain_interrupts(c: ConfigurationView, now: u64) -> bool {
    c.storage_operation is None && c.storage_lifecycle.maintenance is None && drain_expired(c, now)
}

/// Whether the end of a drain interrupts the supervisor.
pub fn deadline_interrupts(config: &Configuration, now: u64) -> (r: bool)
    ensures
        r == drain_interrupts(config@, now),
{
    config.storage_operation.is_none() && config.storage_lifecycle.maintenance.is_none()
        && deadline_expired(config, now)
}

/// Whether the owner interrupts the supervisor in its step. A pause of running
/// work still drains; a start that the owner no longer wants does not go on.
pub open spec fn owner_interrupts(
    c: ConfigurationView,
    starting: Option<Starting>,
    stopping: bool,
    now: u64,
) -> bool {
    !stopping && (c.stop_requested || (match starting {
        Some(Starting::Preparation) => !c.prepare_requested,
        Some(Starting::Resume) => !c.policy.enabled,
        None => false,
    }) || (c.storage_operation matches Some(op) && op.paused && op.phase != "pending"@) || (
    c.storage_lifecycle.maintenance matches Some(op) && op.paused) || drain_interrupts(c, now))
}

/// Whether the owner interrupts the supervisor in its step.
pub fn interrupted(config: &Configuration, starting: Option<Starting>, stopping: bool, now: u64)
    -> (r: bool)
    ensures
        r == owner_interrupts(config@, starting, stopping, now),
{
    if stopping {
        return false;
    }
    let pause = match starting {
        Some(Starting::Preparation) => !config.prepare_requested,
        Some(Starting::Resume) => !config.policy.enabled,
        None => false,
    };
    let storage = match &config.storage_operation {
        Some(op) => op.paused && !text::same(op.phase.as_str(), "pending"),
        None => false,
    };
    let lifecycle = match &config.storage_lifecycle.maintenance {
        Some(op) => op.paused,
        None => false,
    };
    config.stop_requested || pause || storage || lifecycle || deadline_interrupts(config, now)
}

/// Whether the supervisor takes its next step before its time.
pub fn wakes(config: &Configuration, now: u64, changed: bool, due: bool) -> (r: bool)
    ensures
        r == (config@.stop_requested || drain_expired(config@, now) || changed || due),
{
    config.stop_requested || deadline_expired(config, now) || changed || due
}

/// Whether the worker must drain under the settings, given what the rules say.
pub open spec fn must_drain(c: ConfigurationView, allowed: bool) -> bool {
    c.remote.pending is Some || !allowed || (c.vm_configured && c.allocated_resources != Some(
        c.policy.resources,
    ))
}

/// Whether the worker must drain under the settings, given what the rules say.
pub fn local_drain_required(config: &Configuration, allowed: bool) -> (r: bool)
    ensures
        r == must_drain(config@, allowed),
{
    config.remote.pending.is_some() || !allowed || (config.vm_configured
        && config.allocated_resources != Some(config.policy.resources))
}

/// Whether new rules grant exactly the disks that there are.
pub open spec fn fits_disks(c: ConfigurationView, policy: PolicyView) -> bool {
    c.storage_locations.len() == 0 || policy.resources.disk_gib == total_gib(c.storage_locations)
}

fn disks_fit(config: &Configuration, policy: &Policy) -> (r: bool)
    requires
        total_gib(config@.storage_locations) <= u64::MAX,
    ensures
        r == fits_disks(config@, policy@),
{
    config.storage_locations.len() == 0 || policy.resources.disk_gib == sum_gib(
        config.storage_locations.as_slice(),
    )
}

/// Why rules cannot be edited now.
pub open spec fn edit_refusal(c: ConfigurationView, policy: PolicyView) -> Option<Seq<char>> {
    first_of(
        unless(
            c.storage_operation is None && c.storage_lifecycle.maintenance is None,
            "Wait for the storage change to finish before editing sharing rules"@,
        ),
        unless(
            fits_disks(c, policy),
            "Use Storage locations to change the worker storage allowance"@,
        ),
    )
}

/// Whether rules can be edited now. They are then checked against the computer.
pub fn check_policy_edit(config: &Configuration, policy: &Policy) -> (r: Result<(), Failure>)
    requires
        total_gib(config@.storage_locations) <= u64::MAX,
    ensures
        refusal(r) == edit_refusal(config@, policy@),
{
    if config.storage_operation.is_some() || config.storage_lifecycle.maintenance.is_some() {
        return Err(fail("Wait for the storage change to finish before editing sharing rules"));
    }
    if !disks_fit(config, policy) {
        return Err(fail("Use Storage locations to change the worker storage allowance"));
    }
    Ok(())
}

/// Why new rules cannot be saved. The storage was found unusable with that
/// message, or usable.
pub open spec fn policy_refusal(
    c: ConfigurationView,
    policy: PolicyView,
    expected: Option<u64>,
    storage: Option<Seq<char>>,
) -> Option<Seq<char>> {
    if c.storage_operation is Some || c.storage_lifecycle.maintenance is Some {
        Some("Wait for the storage change to finish before editing sharing rules"@)
    } else if !fits_disks(c, policy) {
        Some("Storage choices changed; reload sharing rules"@)
    } else if expected is Some && expected->0 != c.remote.revision {
        Some("Settings changed locally or remotely; reload current settings before saving"@)
    } else if c.recreation is Some {
        Some("Wait for worker replacement to finish before changing sharing rules"@)
    } else if c.allocated_resources is Some && policy.resources.disk_gib
        < c.allocated_resources->0.disk_gib {
        Some("Shrinking the worker disk requires explicitly recreating the VM"@)
    } else if policy.enabled && c.storage_locations.len() > 0 && storage is Some {
        storage
    } else {
        unless(
            !policy.enabled || c.device_token is Some,
            "Connect this computer to a fleet before enabling sharing"@,
        )
    }
}

/// The settings with new rules. Under them the sharing rules allow the worker or
/// not.
pub open spec fn with_policy(
    c: ConfigurationView,
    policy: PolicyView,
    allowed: bool,
    now: u64,
) -> ConfigurationView {
    let next = ConfigurationView { policy, ..c };
    if c.vm_configured && must_drain(next, allowed) {
        ConfigurationView { draining_since: drain_start(c, now), ..next }
    } else {
        next
    }
}

fn policy_fits(
    config: &Configuration,
    policy: &Policy,
    expected: Option<u64>,
    storage: Option<&Failure>,
) -> (r: Result<(), Failure>)
    requires
        total_gib(config@.storage_locations) <= u64::MAX,
    ensures
        refusal(r) == policy_refusal(
            config@,
            policy@,
            expected,
            match storage {
                Some(f) => Some(f.message@),
                None => None,
            },
        ),
{
    if config.storage_operation.is_some() || config.storage_lifecycle.maintenance.is_some() {
        return Err(fail("Wait for the storage change to finish before editing sharing rules"));
    }
    if !disks_fit(config, policy) {
        return Err(fail("Storage choices changed; reload sharing rules"));
    }
    let current = match expected {
        Some(revision) => revision == config.remote.revision,
        None => true,
    };
    if !current {
        return Err(
            fail("Settings changed locally or remotely; reload current settings before saving"),
        );
    }
    if config.recreation.is_some() {
        return Err(
            fail("Wait for worker replacement to finish before changing sharing rules"),
        );
    }
    let shrinks = match config.allocated_resources {
        Some(allocated) => policy.resources.disk_gib < allocated.disk_gib,
        None => false,
    };
    if shrinks {
        return Err(fail("Shrinking the worker disk requires explicitly recreating the VM"));
    }
    if policy.enabled && config.storage_locations.len() > 0 {
        match storage {
            Some(f) => {
                return Err(Failure { message: f.message.clone() });
            },
            None => {},
        }
    }
    if policy.enabled && config.device_token.is_none() {
        return Err(fail("Connect this computer to a fleet before enabling sharing"));
    }
    Ok(())
}

/// Save new rules.
pub fn save_policy(
    config: &mut Configuration,
    policy: &Policy,
    expected: Option<u64>,
    storage: Option<&Failure>,
    allowed: bool,
    now: u64,
) -> (r: Result<(), Failure>)
    requires
        total_gib(old(config)@.storage_locations) <= u64::MAX,
    ensures
        refusal(r) == policy_refusal(
            old(config)@,
            policy@,
            expected,
            match storage {
                Some(f) => Some(f.message@),
                None => None,
            },
        ),
        final(config)@ == (if r is Ok {
            with_policy(old(config)@, policy@, allowed, now)
        } else {
            old(config)@
        }),
{
    match policy_fits(config, policy, expected, storage) {
        Ok(()) => {},
        Err(e) => {
            return Err(e);
        },
    }
    config.policy = policy.duplicate();
    if config.vm_configured && local_drain_required(config, allowed)
        && config.draining_since.is_none() {
        config.draining_since = Some(now);
    }
    Ok(())
}

/// New rules never take a disk away from a worker, and never turn sharing on for
/// a computer that is in no fleet.
pub proof fn saved_rules_keep_the_disk(
    c: ConfigurationView,
    policy: PolicyView,
    expected: Option<u64>,
    storage: Option<Seq<char>>,
    allowed: bool,
    now: u64,
)
    requires
        policy_refusal(c, policy, expected, storage) is None,
    ensures
        c.allocated_resources matches Some(allocated) ==> with_policy(
            c,
            policy,
            allowed,
            now,
        ).policy.resources.disk_gib >= allocated.disk_gib,
        with_policy(c, policy, allowed, now).policy.enabled ==> c.device_token is Some,
        with_policy(c, policy, allowed, now).storage_locations == c.storage_locations,
{
}

/// Whether a worker can be replaced without losing configured storage.
pub fn check_recreation(config: &Configuration) -> (r: Result<(), Failure>)
    ensures
        refusal(r) == unless(
            config@.storage_locations.len() == 0 && config@.storage_operation is None
                && config@.storage_lifecycle.maintenance is None,
            "Replacing a worker with configured storage disks is unavailable; existing files have been preserved"@,
        ),
{
    if config.storage_locations.len() == 0 && config.storage_operation.is_none()
        && config.storage_lifecycle.maintenance.is_none() {
        Ok(())
    } else {
        Err(
            fail(
                "Replacing a worker with configured storage disks is unavailable; existing files have been preserved",
            ),
        )
    }
}

/// Why a worker cannot be replaced.
pub open spec fn recreation_refusal(
    c: ConfigurationView,
    expected: Option<u64>,
    platform: Seq<char>,
    receipt: bool,
) -> Option<Seq<char>> {
    if c.storage_locations.len() > 0 && !places_disks(c.vm_provider, platform) {
        Some(unsupported_text(c.vm_provider))
    } else if expected is Some && expected->0 != c.remote.revision {
        Some("Settings changed locally or remotely; reload current settings before replacement"@)
    } else if c.application_update_pending {
        Some("Cancel the application update before replacing the worker"@)
    } else if c.recreation is Some {
        Some("Worker replacement is already pending"@)
    } else if c.device_token is None {
        Some("Connect this computer to a fleet first"@)
    } else {
        unless(receipt, "The worker has no ownership receipt; it has been left untouched"@)
    }
}

/// The settings with a replacement of the worker queued. Sharing stays off.
pub open spec fn recreating(
    c: ConfigurationView,
    policy: PolicyView,
    platform: Seq<char>,
    request: u128,
    now: u64,
) -> ConfigurationView {
    ConfigurationView {
        policy: PolicyView { enabled: false, ..policy },
        prepare_requested: false,
        remote: RemoteConfigurationView { repair_required: false, applying: false, ..c.remote },
        recreation: Some(
            WorkerRecreationView {
                request_id: request,
                access_removed: false,
                target_provider: Some(native_provider(platform)),
            },
        ),
        format_version: if c.format_version < 2 {
            2
        } else {
            c.format_version
        },
        draining_since: drain_start(c, now),
        ..c
    }
}

fn recreation_allowed(
    config: &Configuration,
    expected: Option<u64>,
    platform: &str,
    receipt: bool,
) -> (r: Result<(), Failure>)
    ensures
        refusal(r) == recreation_refusal(config@, expected, platform@, receipt),
{
    if config.storage_locations.len() > 0 {
        match require_location_support(config.vm_provider, platform) {
            Ok(()) => {},
            Err(e) => {
                return Err(e);
            },
        }
    }
    let current = match expected {
        Some(revision) => revision == config.remote.revision,
        None => true,
    };
    if !current {
        return Err(
            fail("Settings changed locally or remotely; reload current settings before replacement"),
        );
    }
    if config.application_update_pending {
        return Err(fail("Cancel the application update before replacing the worker"));
    }
    if config.recreation.is_some() {
        return Err(fail("Worker replacement is already pending"));
    }
    if config.device_token.is_none() {
        return Err(fail("Connect this computer to a fleet first"));
    }
    if !receipt {
        return Err(fail("The worker has no ownership receipt; it has been left untouched"));
    }
    Ok(())
}

fn queue_recreation(
    config: &mut Configuration,
    policy: &Policy,
    platform: &str,
    request: u128,
    now: u64,
)
    ensures
        final(config)@ == recreating(old(config)@, policy@, platform@, request, now),
{
    let mut kept = policy.duplicate();
    kept.enabled = false;
    config.policy = kept;
    config.prepare_requested = false;
    config.remote.repair_required = false;
    config.remote.applying = false;
    config.recreation = Some(
        WorkerRecreation {
            request_id: request,
            access_removed: false,
            target_provider: Some(VmProvider::native(platform)),
        },
    );
    if config.format_version < 2 {
        config.format_version = 2;
    }
    if config.draining_since.is_none() {
        config.draining_since = Some(now);
    }
}

/// Queue a replacement of the worker under the given identity. The supervisor
/// performs it from the durable request.
pub fn recreate_worker(
    config: &mut Configuration,
    policy: &Policy,
    expected: Option<u64>,
    platform: &str,
    receipt: bool,
    request: u128,
    now: u64,
) -> (r: Result<(), Failure>)
    ensures
        refusal(r) == recreation_refusal(old(config)@, expected, platform@, receipt),
        final(config)@ == (if r is Ok {
            recreating(old(config)@, policy@, platform@, request, now)
        } else {
            old(config)@
        }),
{
    match recreation_allowed(config, expected, platform, receipt) {
        Ok(()) => {},
        Err(e) => {
            return Err(e);
        },
    }
    queue_recreation(config, policy, platform, request, now);
    Ok(())
}

/// Queue a replacement of the worker under an identity drawn for it.
pub fn request_recreation(
    config: &mut Configuration,
    policy: &Policy,
    expected: Option<u64>,
    platform: &str,
    receipt: bool,
    now: u64,
) -> (r: Result<(), Failure>)
    ensures
        refusal(r) == recreation_refusal(old(config)@, expected, platform@, receipt),
        r is Err ==> final(config)@ == old(config)@,
        r is Ok ==> exists|request: u128|
            identity::is_random(request) && final(config)@ == #[trigger] recreating(
                old(config)@,
                policy@,
                platform@,
                request,
                now,
            ),
{
    let request = identity::random_uuid();
    recreate_worker(config, policy, expected, platform, receipt, request, now)
}

/// What the owner can ask of the worker.
#[derive(Clone, Copy, Debug, PartialEq, Eq, Structural)]
pub enum OwnerAction {
    Prepare,
    Resume,
    Pause,
    Stop,
}

/// The action of a name.
pub open spec fn action_named(name: Seq<char>) -> Option<OwnerAction> {
    if name == "prepare"@ {
        Some(OwnerAction::Prepare)
    } else if name == "resume"@ {
        Some(OwnerAction::Resume)
    } else if name == "pause"@ {
        Some(OwnerAction::Pause)
    } else if name == "stop"@ {
        Some(OwnerAction::Stop)
    } else {
        None
    }
}

/// The action of a name.
pub fn owner_action(name: &str) -> (r: Result<OwnerAction, Failure>)
    ensures
        match action_named(name@) {
            Some(action) => r == Ok::<OwnerAction, Failure>(action),
            None => refusal(r) == Some("Unknown worker action"@),
        },
{
    if text::same(name, "prepare") {
        Ok(OwnerAction::Prepare)
    } else if text::same(name, "resume") {
        Ok(OwnerAction::Resume)
    } else if text::same(name, "pause") {
        Ok(OwnerAction::Pause)
    } else if text::same(name, "stop") {
        Ok(OwnerAction::Stop)
    } else {
        Err(fail("Unknown worker action"))
    }
}

/// Why the worker cannot be prepared or resumed. The storage was found unusable
/// with that message, or usable.
pub open spec fn start_refusal(c: ConfigurationView, storage: Option<Seq<char>>) -> Option<
    Seq<char>,
> {
    if c.storage_locations.len() > 0 && c.storage_operation is None
        && c.storage_lifecycle.maintenance is None && storage is Some {
        storage
    } else if c.recreation is Some {
        Some("Wait for worker replacement to finish before preparing or sharing"@)
    } else if c.device_token is None {
        Some("Connect this computer to a fleet first"@)
    } else {
        unless(
            !c.storage_lifecycle.disabled,
            "Worker storage is disabled; configure storage before preparing the worker"@,
        )
    }
}

/// Why an action is refused.
pub open spec fn action_refusal(
    c: ConfigurationView,
    action: OwnerAction,
    storage: Option<Seq<char>>,
) -> Option<Seq<char>> {
    if c.remote.revision == u64::MAX {
        Some("Configuration revision exhausted"@)
    } else if action == OwnerAction::Prepare && c.application_update_pending {
        Some("Cancel the application update before preparing the worker"@)
    } else {
        match action {
            OwnerAction::Pause | OwnerAction::Stop => None,
            OwnerAction::Prepare => start_refusal(c, storage),
            OwnerAction::Resume => first_of(
                start_refusal(c, storage),
                unless(c.vm_configured, "Prepare the worker before enabling sharing"@),
            ),
        }
    }
}

/// A maintenance, paused or going on.
pub open spec fn maintenance_paused(op: Option<MaintenanceView>, paused: bool) -> Option<
    MaintenanceView,
> {
    match op {
        Some(op) => Some(MaintenanceView { paused, ..op }),
        None => None,
    }
}

/// A storage change, paused or going on.
pub open spec fn change_paused(op: Option<OperationView>, paused: bool) -> Option<OperationView> {
    match op {
        Some(op) => Some(OperationView { paused, ..op }),
        None => None,
    }
}

/// The settings after an action.
pub open spec fn acted(c: ConfigurationView, action: OwnerAction, now: u64) -> ConfigurationView {
    let next = ConfigurationView {
        remote: RemoteConfigurationView {
            revision: (c.remote.revision + 1) as u64,
            ..c.remote
        },
        storage_lifecycle: LifecycleView {
            maintenance: maintenance_paused(
                c.storage_lifecycle.maintenance,
                action == OwnerAction::Pause || action == OwnerAction::Stop,
            ),
            ..c.storage_lifecycle
        },
        storage_operation: if action == OwnerAction::Stop {
            c.storage_operation
        } else {
            change_paused(c.storage_operation, action == OwnerAction::Pause)
        },
        ..c
    };
    match action {
        OwnerAction::Prepare => ConfigurationView {
            prepare_requested: true,
            stop_requested: false,
            ..next
        },
        OwnerAction::Resume => ConfigurationView {
            policy: PolicyView { enabled: true, ..c.policy },
            stop_requested: false,
            draining_since: None,
            ..next
        },
        OwnerAction::Pause => ConfigurationView {
            policy: PolicyView { enabled: false, ..c.policy },
            prepare_requested: false,
            draining_since: if c.vm_created {
                drain_start(c, now)
            } else {
                c.draining_since
            },
            ..next
        },
        OwnerAction::Stop => ConfigurationView {
            policy: PolicyView { enabled: false, ..c.policy },
            prepare_requested: false,
            stop_requested: true,
            ..next
        },
    }
}

fn start_allowed(config: &Configuration, storage: Option<&Failure>) -> (r: Result<(), Failure>)
    ensures
        refusal(r) == start_refusal(
            config@,
            match storage {
                Some(f) => Some(f.message@),
                None => None,
            },
        ),
{
    if config.storage_locations.len() > 0 && config.storage_operation.is_none()
        && config.storage_lifecycle.maintenance.is_none() {
        match storage {
            Some(f) => {
                return Err(Failure { message: f.message.clone() });
            },
            None => {},
        }
    }
    if config.recreation.is_some() {
        return Err(fail("Wait for worker replacement to finish before preparing or sharing"));
    }
    if config.device_token.is_none() {
        return Err(fail("Connect this computer to a fleet first"));
    }
    if config.storage_lifecycle.disabled {
        return Err(
            fail("Worker storage is disabled; configure storage before preparing the worker"),
        );
    }
    Ok(())
}

fn action_allowed(config: &Configuration, action: OwnerAction, storage: Option<&Failure>) -> (r:
    Result<(), Failure>)
    ensures
        refusal(r) == action_refusal(
            config@,
            action,
            match storage {
                Some(f) => Some(f.message@),
                None => None,
            },
        ),
{
    if config.remote.revision == u64::MAX {
        return Err(fail("Configuration revision exhausted"));
    }
    if action == OwnerAction::Prepare && config.application_update_pending {
        return Err(fail("Cancel the application update before preparing the worker"));
    }
    match action {
        OwnerAction::Pause | OwnerAction::Stop => Ok(()),
        OwnerAction::Prepare => start_allowed(config, storage),
        OwnerAction::Resume => match start_allowed(config, storage) {
            Ok(()) => if config.vm_configured {
                Ok(())
            } else {
                Err(fail("Prepare the worker before enabling sharing"))
            },
            Err(e) => Err(e),
        },
    }
}

fn pause_maintenance(op: &Option<Maintenance>, paused: bool) -> (r: Option<Maintenance>)
    ensures
        content(r) == maintenance_paused(content(*op), paused),
{
    match op {
        Some(op) => Some(op.with_pause(paused)),
        None => None,
    }
}

fn pause_change(op: &Option<Operation>, paused: bool) -> (r: Option<Operation>)
    ensures
        content(r) == change_paused(content(*op), paused),
{
    match op {
        Some(op) => Some(op.with_pause(paused)),
        None => None,
    }
}

fn pause_storage(config: &mut Configuration, action: OwnerAction)
    requires
        old(config).remote.revision < u64::MAX,
    ensures
        final(config)@ == (ConfigurationView {
            remote: RemoteConfigurationView {
                revision: (old(config)@.remote.revision + 1) as u64,
                ..old(config)@.remote
            },
            storage_lifecycle: LifecycleView {
                maintenance: maintenance_paused(
                    old(config)@.storage_lifecycle.maintenance,
                    action == OwnerAction::Pause || action == OwnerAction::Stop,
                ),
                ..old(config)@.storage_lifecycle
            },
            storage_operation: if action == OwnerAction::Stop {
                old(config)@.storage_operation
            } else {
                change_paused(old(config)@.storage_operation, action == OwnerAction::Pause)
            },
            ..old(config)@
        }),
{
    let maintenance = pause_maintenance(
        &config.storage_lifecycle.maintenance,
        action == OwnerAction::Pause || action == OwnerAction::Stop,
    );
    config.remote.revision = config.remote.revision + 1;
    config.storage_lifecycle.maintenance = maintenance;
    if action != OwnerAction::Stop {
        let change = pause_change(&config.storage_operation, action == OwnerAction::Pause);
        config.storage_operation = change;
    }
}

/// Do what the owner asks of the worker.
pub fn act(
    config: &mut Configuration,
    action: OwnerAction,
    storage: Option<&Failure>,
    now: u64,
) -> (r: Result<(), Failure>)
    ensures
        refusal(r) == action_refusal(
            old(config)@,
            action,
            match storage {
                Some(f) => Some(f.message@),
                None => None,
            },
        ),
        final(config)@ == (if r is Ok {
            acted(old(config)@, action, now)
        } else {
            old(config)@
        }),
{
    match action_allowed(config, action, storage) {
        Ok(()) => {},
        Err(e) => {
            return Err(e);
        },
    }
    pause_storage(config, action);
    match action {
        OwnerAction::Prepare => {
            config.prepare_requested = true;
            config.stop_requested = false;
        },
        OwnerAction::Resume => {
            config.policy.enabled = true;
            config.stop_requested = false;
            config.draining_since = None;
        },
        OwnerAction::Pause => {
            config.policy.enabled = false;
            config.prepare_requested = false;
            if config.vm_created && config.draining_since.is_none() {
                config.draining_since = Some(now);
            }
        },
        OwnerAction::Stop => {
            config.policy.enabled = false;
            config.prepare_requested = false;
            config.stop_requested = true;
        },
    }
    Ok(())
}

/// The owner can always pause or stop the worker, whatever the controller, the
/// storage or an operation under way says; sharing is off from then on.
pub proof fn owners_can_always_stop(
    c: ConfigurationView,
    action: OwnerAction,
    storage: Option<Seq<char>>,
    now: u64,
)
    requires
        action == OwnerAction::Pause || action == OwnerAction::Stop,
        c.remote.revision < u64::MAX,
    ensures
        action_refusal(c, action, storage) is None,
        !acted(c, action, now).policy.enabled,
        !acted(c, action, now).prepare_requested,
        acted(c, action, now).storage_lifecycle.maintenance matches Some(op) ==> op.paused,
        action == OwnerAction::Stop ==> acted(c, action, now).stop_requested,
{
}

/// A pause undoes no rule but sharing itself: a resume after it gives back the
/// owner's rules.
pub proof fn resuming_restores_the_rules(c: ConfigurationView, now: u64, later: u64)
    requires
        c.policy.enabled,
    ensures
        acted(acted(c, OwnerAction::Pause, now), OwnerAction::Resume, later).policy == c.policy,
        acted(acted(c, OwnerAction::Pause, now), OwnerAction::Resume, later).storage_locations
            == c.storage_locations,
{
    assert(acted(acted(c, OwnerAction::Pause, now), OwnerAction::Resume, later).policy
        =~= c.policy);
}

/// Whether the owner can replace the worker.
pub fn replacement_available(config: &Configuration, receipt: bool) -> (r: bool)
    ensures
        r == (config@.storage_locations.len() == 0 && config@.storage_operation is None
            && config@.storage_lifecycle.maintenance is None && config@.device_token is Some && (
        config@.vm_created || receipt)),
{
    config.storage_locations.len() == 0 && config.storage_operation.is_none()
        && config.storage_lifecycle.maintenance.is_none() && config.device_token.is_some() && (
    config.vm_created || receipt)
}

/// Why the worker is in its state, as the owner is shown it: a notice of the
/// setup stays until the computer is in a fleet.
pub open spec fn reason_shown(
    c: ConfigurationView,
    reason: Option<Seq<char>>,
    decision: Seq<char>,
) -> Seq<char> {
    if c.setup_notice is Some && c.device_token is None {
        c.setup_notice->0
    } else {
        match reason {
            Some(reason) => reason,
            None => decision,
        }
    }
}

/// Why the worker is in its state, as the owner is shown it.
pub fn shown_reason(config: &Configuration, runtime: &Runtime, decision: &str) -> (r: String)
    ensures
        r@ == reason_shown(config@, runtime@.reason, decision@),
{
    match &config.setup_notice {
        Some(notice) => if config.device_token.is_none() {
            return notice.clone();
        },
        None => {},
    }
    match &runtime.reason {
        Some(reason) => reason.clone(),
        None => decision.to_owned(),
    }
}

/// The state that the owner is shown.
pub fn shown_state(runtime: &Runtime) -> (r: String)
    ensures
        r@ == (match runtime@.state {
            Some(state) => state,
            None => "paused"@,
        }),
{
    match &runtime.state {
        Some(state) => state.clone(),
        None => "paused".to_owned(),
    }
}

/// A message as it is logged: without the computer's credential.
pub fn diagnostic_message(config: Option<&Configuration>, message: &str) -> (r: String)
    ensures
        r@ == crate::activity::redacted(
            message@,
            match config {
                Some(c) => match c@.device_token {
                    Some(token) => seq![token],
                    None => Seq::empty(),
                },
                None => Seq::empty(),
            },
        ),
{
    let mut secrets: Vec<String> = Vec::new();
    assert(contents(secrets@) =~= Seq::<Seq<char>>::empty());
    match config {
        Some(c) => match &c.device_token {
            Some(token) => {
                secrets.push(token.clone());
                assert(contents(secrets@) =~= seq![token@]);
            },
            None => {},
        },
        None => {},
    }
    crate::activity::redact(message, secrets.as_slice())
}

} // verus!
