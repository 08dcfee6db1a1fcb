//! What the fleet is told of this node, and how its requests end.
use crate::agent::configuration::{
    can_grow, effective, ended_status, failure_text, receipt_for, remote_storage_failed, report_of,
    sent, storage_settled, storage_work, usable, worker_disk, RemoteWork,
};
use crate::agent::controller::{
    address_refusal, beat_of, enrollment_refusal, is_success, target, UrlPartsView,
};
use crate::agent::owner::{action_named, OwnerAction, RuntimeView};
use crate::json::JsonView;
use crate::lima::VmProvider;
use crate::policy::Resources;
use crate::remote::{ConfigurationEditView, ConfigurationReceiptView};
use crate::storage::{
    system_bytes, total_gib, InventoryView, SystemImage, VolumeView,
};
use crate::store::{
    first_provider, pending_receipt, with_pending_at, with_remote_storage_paused, ConfigurationView,
};
use vstd::prelude::*;

verus! {

/// Each action of the owner has its own word, and there are no others.
pub proof fn actions_have_their_words(name: Seq<char>)
    ensures
        action_named("prepare"@) == Some(OwnerAction::Prepare),
        action_named("resume"@) == Some(OwnerAction::Resume),
        action_named("pause"@) == Some(OwnerAction::Pause),
        action_named("stop"@) == Some(OwnerAction::Stop),
        name != "prepare"@ && name != "resume"@ && name != "pause"@ && name != "stop"@
            ==> action_named(name) is None,
{
    reveal_strlit("prepare");
    reveal_strlit("resume");
    reveal_strlit("pause");
    reveal_strlit("stop");
    assert("resume"@.len() == 6 && "prepare"@.len() == 7 && "pause"@.len() == 5 && "stop"@.len()
        == 4);
}

/// A request that failed is rejected; one that only looked is reviewed; any other is applied.
pub proof fn requests_end_as_they_went(result: Option<JsonView>, error: Option<Seq<char>>)
    ensures
        error is Some ==> ended_status(result, error) == "rejected"@,
        error is None && result is Some ==> ended_status(result, error) == "reviewed"@,
        error is None && result is None ==> ended_status(result, error) == "applied"@,
{
}

proof fn lemma_pending(receipts: Seq<ConfigurationReceiptView>, i: int)
    requires
        0 <= i,
    ensures
        pending_receipt(receipts, i) matches Some(k) ==> i <= k < receipts.len()
            && receipts[k].status == "pending"@ && forall|j: int|
            i <= j < k ==> (#[trigger] receipts[j]).status != "pending"@,
        pending_receipt(receipts, i) is None ==> forall|j: int|
            i <= j < receipts.len() ==> (#[trigger] receipts[j]).status != "pending"@,
    decreases receipts.len() - i,
{
    if i < receipts.len() {
        lemma_pending(receipts, i + 1);
    }
}

/// The pending receipt follows the settings to their new revision; nothing else of it, and no
/// other receipt, changes.
pub proof fn pending_receipts_follow_the_revision(
    receipts: Seq<ConfigurationReceiptView>,
    revision: u64,
    k: int,
)
    requires
        0 <= k < receipts.len(),
    ensures
        ({
            let r = with_pending_at(receipts, revision);
            let first = receipts[k].status == "pending"@ && forall|j: int|
                0 <= j < k ==> (#[trigger] receipts[j]).status != "pending"@;
            &&& r.len() == receipts.len()
            &&& first ==> r[k] == (ConfigurationReceiptView { revision, ..receipts[k] })
            &&& !first ==> r[k] == receipts[k]
        }),
{
    lemma_pending(receipts, 0);
}

/// Storage is settled where no change, no maintenance and nothing missing is left of it.
pub proof fn settled_storage_has_nothing_left(c: ConfigurationView)
    ensures
        storage_settled(c) ==> c.storage_operation is None && c.storage_lifecycle.maintenance
            is None && c.storage_lifecycle.missing is None,
        !storage_settled(c) ==> c.storage_operation is Some || c.storage_lifecycle.maintenance
            is Some || c.storage_lifecycle.missing is Some,
{
}

/// What a worker has is claimed only while nothing of it changes, is missing, off or in need
/// of repair.
pub proof fn allocations_are_claimed_when_steady(c: ConfigurationView)
    ensures
        c.remote.repair_required || c.storage_operation is Some || c.storage_lifecycle.maintenance
            is Some || c.storage_lifecycle.missing is Some || c.storage_lifecycle.disabled
            ==> effective(c) is None,
        !c.remote.repair_required && c.storage_operation is None
            && c.storage_lifecycle.maintenance is None && c.storage_lifecycle.missing is None
            && !c.storage_lifecycle.disabled ==> effective(c) == c.allocated_resources,
{
}

/// A report says what the settings are, and of the computer's storage only what the owner
/// lets the fleet see; without consent neither rules nor hardware are sent.
pub proof fn reports_say_what_the_owner_lets_them(
    c: ConfigurationView,
    settings: Seq<char>,
    hardware: Resources,
    storage: InventoryView,
    disk: Option<VolumeView>,
)
    ensures
        ({
            let r = report_of(c, settings, hardware, storage, disk);
            let s = sent(r);
            &&& r.consent == c.remote.consent
            &&& r.revision == c.remote.revision
            &&& r.policy == Some(c.policy)
            &&& r.hardware == Some(usable(c, hardware, disk))
            &&& r.allocated_resources == effective(c)
            &&& r.receipts == c.remote.receipts
            &&& r.capabilities.storage
            &&& r.capabilities.disk_growth <==> c.storage_locations.len() == 0 && c.vm_provider
                == VmProvider::Lima && disk is Some
            &&& !storage.supported ==> r.capabilities.storage_reason == storage.reason
            &&& r.worker_disk_location is Some <==> c.remote.consent && c.vm_provider
                == VmProvider::Lima
            &&& r.worker_disk_location matches Some(place) ==> place == worker_disk(c, settings)
            &&& c.remote.consent ==> r.storage == Some(storage) && r.storage_inventory
                == storage.volumes && s == r
            &&& !c.remote.consent ==> r.storage is None && r.storage_inventory.len() == 0
                && s.policy is None && s.hardware is None && s.storage is None
                && s.storage_inventory.len() == 0 && s.revision == r.revision && s.receipts
                == r.receipts && s.allocated_resources == r.allocated_resources
        }),
        can_grow(c, disk) <==> c.storage_locations.len() == 0 && c.vm_provider == VmProvider::Lima
            && disk is Some,
{
}

/// A receipt is for its request and says what is in effect; a failure that leaves the worker
/// unverified says so too.
pub proof fn receipts_say_what_is_in_effect(
    c: ConfigurationView,
    id: Seq<char>,
    status: Seq<char>,
    revision: u64,
    error: Option<Seq<char>>,
    at: Seq<char>,
    text: Seq<char>,
)
    ensures
        ({
            let r = receipt_for(c, id, status, revision, error, at);
            &&& r.request_id == id
            &&& r.status == status
            &&& r.revision == revision
            &&& r.at == at
            &&& r.error == error
            &&& r.effective_policy == Some(c.policy)
            &&& r.effective_resources == effective(c)
            &&& r.effective_storage is None && r.result is None
        }),
        !c.remote.repair_required ==> failure_text(c, text) == text,
        c.remote.repair_required ==> failure_text(c, text).len() > text.len() && failure_text(
            c,
            text,
        ).take(text.len() as int) == text,
{
    reveal_strlit(". Allocation is unverified; inspect the stopped worker locally or replace it. Sharing is blocked.");
    if c.remote.repair_required {
        assert(failure_text(c, text).take(text.len() as int) =~= text);
    }
}

/// Storage work that has begun goes on with the change, then the maintenance, then the search
/// for missing storage; what is paused or failed is not gone on with.
pub proof fn begun_storage_work_goes_on(c: ConfigurationView)
    ensures
        c.storage_operation matches Some(op) ==> (op.paused ==> storage_work(c) is Err) && (
        !op.paused ==> storage_work(c) == Ok::<RemoteWork, Seq<char>>(RemoteWork::Change)),
        c.storage_operation is None ==> (c.storage_lifecycle.maintenance matches Some(op) ==> (
        op.paused || op.error is Some ==> storage_work(c) is Err) && (!op.paused && op.error is None
            ==> storage_work(c) == Ok::<RemoteWork, Seq<char>>(RemoteWork::Maintain))),
        c.storage_operation is None && c.storage_lifecycle.maintenance is None ==> storage_work(c)
            == Ok::<RemoteWork, Seq<char>>(
            if c.storage_lifecycle.missing is Some {
                RemoteWork::LookForStorage
            } else {
                RemoteWork::Nothing
            },
        ),
{
}

/// A request that failed after it began storage work leaves that work paused, or taken back
/// where it had not begun; another request's work is left alone.
pub proof fn failed_storage_work_is_paused(c: ConfigurationView, edit: ConfigurationEditView)
    ensures
        (c.remote.pending matches Some(p) && p.edit == edit) && c.remote.storage_started
            ==> remote_storage_failed(c, edit) == with_remote_storage_paused(c),
        !(c.remote.pending matches Some(p) && p.edit == edit) || !c.remote.storage_started
            ==> remote_storage_failed(c, edit) == c,
{
}

/// A heartbeat says what the owner's rules are, offers the worker's disks together or the
/// shared size where there are none, and no disk while storage is off, missing or maintained;
/// it tells the fleet nothing of what goes on with the storage.
pub proof fn heartbeats_say_what_is_offered(
    c: ConfigurationView,
    runtime: RuntimeView,
    allowed: bool,
)
    requires
        total_gib(c.storage_locations) <= u64::MAX,
    ensures
        ({
            let b = beat_of(c, runtime, allowed);
            let away = c.storage_lifecycle.disabled || c.storage_lifecycle.missing is Some
                || c.storage_lifecycle.maintenance is Some;
            &&& b.storage_generation == c.storage_generation
            &&& b.allow_ci == c.policy.allow_ci
            &&& b.allow_services == c.policy.allow_services
            &&& runtime.state matches Some(state) ==> b.state == state
            &&& runtime.state is None ==> b.state == "paused"@
            &&& c.storage_lifecycle.missing is None && c.storage_lifecycle.maintenance is None ==> (
            runtime.reason matches Some(reason) ==> b.reason == reason)
            &&& b.permitted <==> allowed && !away && !c.application_update_pending
                && c.storage_operation is None && c.remote.pending is None
                && !c.remote.repair_required
            &&& b.resources == Resources { disk_gib: b.resources.disk_gib, ..c.policy.resources }
            &&& away ==> b.resources.disk_gib == 0
            &&& !away && c.storage_locations.len() > 0 ==> b.resources.disk_gib == total_gib(
                c.storage_locations,
            )
            &&& !away && c.storage_locations.len() == 0 ==> b.resources.disk_gib
                == c.policy.resources.disk_gib
        }),
{
}

/// A controller is reached over HTTPS, or over HTTP on this computer itself, at an address
/// that holds no credentials, query or fragment; a computer is enrolled once.
pub proof fn addresses_are_plain_and_safe(c: ConfigurationView, url: UrlPartsView)
    ensures
        address_refusal(None) is Some,
        address_refusal(Some(url)) is None <==> {
            &&& url.scheme == "https"@ || (url.scheme == "http"@ && (url.host == Some("127.0.0.1"@)
                || url.host == Some("localhost"@) || url.host == Some("[::1]"@)))
            &&& url.username.len() == 0
            &&& url.password is None
            &&& url.query is None
            &&& url.fragment is None
        },
        enrollment_refusal(c, Some(url)) is None <==> address_refusal(Some(url)) is None
            && c.device_token is None,
{
}

/// A request goes to the saved controller with the device's credential, and nowhere without
/// both.
pub proof fn requests_go_to_the_saved_controller(c: ConfigurationView, path: Seq<char>)
    ensures
        target(c, path) is Ok <==> c.controller_url is Some && c.device_token is Some,
        target(c, path) matches Ok(t) ==> t.0 == c.controller_url->0 + "/api/v1"@ + path && t.1
            == c.device_token->0,
{
}

/// A reply is a success exactly where its status is in the two hundreds.
pub proof fn replies_succeed_in_the_two_hundreds(status: u16)
    ensures
        is_success(status) <==> 200 <= status < 300,
{
}

/// A new computer is set up with Lima on Linux and with Multipass elsewhere.
pub proof fn first_providers_fit_the_host(platform: Seq<char>)
    ensures
        first_provider(platform) == VmProvider::Lima <==> platform == "linux"@,
{
}

/// The operating system's disk is the first image that there is; it counts only as a regular
/// file in its place, and one that cannot be seen is no answer.
pub proof fn system_disks_are_measured_in_place(images: Seq<SystemImage>, image: SystemImage)
    ensures
        system_bytes(Seq::empty()) == Ok::<u64, Seq<char>>(0),
        image is Missing ==> system_bytes(seq![image] + images) == system_bytes(images),
        image is Unreadable ==> system_bytes(seq![image] + images) is Err,
        image matches SystemImage::Present { regular, here, blocks } ==> (!regular || !here
            ==> system_bytes(seq![image] + images) is Err) && (regular && here && blocks * 512
            <= u64::MAX ==> system_bytes(seq![image] + images) == Ok::<u64, Seq<char>>(
            (blocks * 512) as u64,
        )),
{
    let all = seq![image] + images;
    assert(all[0] == image);
    assert(all.drop_first() =~= images);
}

} // verus!
