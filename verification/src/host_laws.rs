//! What the host and its VM runtime are taken for: what is seen of them, and what the
//! runtime is asked to make.
use crate::activity::{concluded, followed, step_begun, ActivityLogView};
use crate::identity;
use crate::json::{at, field, list_of, number_of, text_of, JsonView};
use crate::lima::{disk_request, guest_data, instance_info, pool_request, worker_configuration, VmProvider};
use crate::lima_storage::{
    adapter_refusal, inspected, location_refusal, paths_of, receipt_refusal, reported_disk,
    stopped_refusal, DiskPathsView, DiskReceiptView,
};
use crate::observe::{
    disk_space, fleet_architecture, holding_disk, lowest_level, power_state, BatterySight,
    BatteryState, FreeSpace,
};
use crate::policy::Resources;
use crate::runtime_platform::{
    is_recent, linux_refusal, machine_type, macos_refusal, printed_version,
};
use crate::runtime_storage::{
    clear_refusal, home_refusal, image_capacity, image_refusal, HomeFacts,
};
use crate::storage::{has_id, LocationView};
use crate::storage_layout::LayoutView;
use crate::text;
use crate::vm::{machine_state, multipass_state, named_from, no_vm, CommandOutputView};
use crate::OutputStream;
use vstd::prelude::*;
use vstd::utf8::encode_utf8;

verus! {

proof fn lemma_lowest(batteries: Seq<BatterySight>, n: int)
    requires
        0 <= n <= batteries.len(),
    ensures
        lowest_level(batteries, n) <= 100,
        forall|i: int|
            0 <= i < n ==> lowest_level(batteries, n) <= (#[trigger] batteries[i]).percent,
        lowest_level(batteries, n) == 100 || exists|i: int|
            0 <= i < n && (#[trigger] batteries[i]).percent == lowest_level(batteries, n),
    decreases n,
{
    if n > 0 {
        lemma_lowest(batteries, n - 1);
        if batteries[n - 1].percent < lowest_level(batteries, n - 1) {
            assert(batteries[n - 1].percent == lowest_level(batteries, n));
        }
    }
}

/// A computer is on battery where one of its batteries drains, and its charge is that of the
/// lowest; without a battery it is on power, and nothing is claimed of a battery that cannot
/// be read.
pub proof fn batteries_are_read_with_care(batteries: Seq<BatterySight>)
    ensures
        power_state(None) == (None::<bool>, None::<u8>),
        (exists|i: int|
            0 <= i < batteries.len() && (#[trigger] batteries[i]).state == BatteryState::Unknown)
            ==> power_state(Some(batteries)) == (None::<bool>, None::<u8>),
        batteries.len() == 0 ==> power_state(Some(batteries)) == (Some(false), None::<u8>),
        batteries.len() > 0 && (forall|i: int|
            0 <= i < batteries.len() ==> (#[trigger] batteries[i]).state != BatteryState::Unknown)
            ==> {
            let r = power_state(Some(batteries));
            &&& r.0 is Some && r.1 is Some
            &&& r.0->0 <==> exists|i: int|
                0 <= i < batteries.len() && (#[trigger] batteries[i]).state
                    == BatteryState::Draining
            &&& forall|i: int| 0 <= i < batteries.len() ==> r.1->0 <= (#[trigger] batteries[i]).percent
            &&& r.1->0 == 100 || exists|i: int|
                0 <= i < batteries.len() && (#[trigger] batteries[i]).percent == r.1->0
        },
{
    lemma_lowest(batteries, batteries.len() as int);
}

/// The fleet's names for processors.
pub proof fn processors_have_their_fleet_names(architecture: Seq<char>)
    ensures
        architecture == "x86_64"@ ==> fleet_architecture(architecture) == "amd64"@,
        architecture == "aarch64"@ && architecture != "x86_64"@ ==> fleet_architecture(architecture)
            == "arm64"@,
        architecture != "x86_64"@ && architecture != "aarch64"@ ==> fleet_architecture(architecture)
            == architecture,
{
}

proof fn lemma_holding(platform: Seq<char>, disks: Seq<FreeSpace>, directory: Seq<char>, n: int)
    requires
        0 <= n <= disks.len(),
    ensures
        holding_disk(platform, disks, directory, n) is None ==> forall|i: int|
            0 <= i < n ==> !crate::host_paths::host_within(
                platform,
                directory,
                (#[trigger] disks[i]).mount@,
            ),
        holding_disk(platform, disks, directory, n) matches Some(k) ==> 0 <= k < n
            && crate::host_paths::host_within(platform, directory, disks[k].mount@) && forall|
            i: int,
        |
            0 <= i < n && crate::host_paths::host_within(
                platform,
                directory,
                (#[trigger] disks[i]).mount@,
            ) ==> encode_utf8(disks[i].mount@).len() <= encode_utf8(disks[k].mount@).len(),
    decreases n,
{
    if n > 0 {
        lemma_holding(platform, disks, directory, n - 1);
    }
}

/// The space that may be shared is what is free on the disk that holds the directory, in
/// whole GiB, with what the worker has already; that disk is the one mounted nearest.
pub proof fn shared_space_is_that_of_the_nearest_disk(
    platform: Seq<char>,
    disks: Seq<FreeSpace>,
    directory: Seq<char>,
    allocated: u64,
)
    requires
        allocated <= 1_048_576,
    ensures
        (forall|i: int|
            0 <= i < disks.len() ==> !crate::host_paths::host_within(
                platform,
                directory,
                (#[trigger] disks[i]).mount@,
            )) ==> disk_space(platform, disks, directory, allocated) == allocated,
        (exists|i: int|
            0 <= i < disks.len() && crate::host_paths::host_within(
                platform,
                directory,
                (#[trigger] disks[i]).mount@,
            )) ==> exists|k: int|
            0 <= k < disks.len() && crate::host_paths::host_within(
                platform,
                directory,
                (#[trigger] disks[k]).mount@,
            ) && disk_space(platform, disks, directory, allocated) == allocated + disks[k].bytes
                / 1_073_741_824 && forall|i: int|
                0 <= i < disks.len() && crate::host_paths::host_within(
                    platform,
                    directory,
                    (#[trigger] disks[i]).mount@,
                ) ==> encode_utf8(disks[i].mount@).len() <= encode_utf8(disks[k].mount@).len(),
{
    lemma_holding(platform, disks, directory, disks.len() as int);
    let found = holding_disk(platform, disks, directory, disks.len() as int);
    if found is Some {
        assert(crate::host_paths::host_within(platform, directory, disks[found->0].mount@));
    }
}

/// A worker VM needs a packaged processor on a Mac or on Linux; each has its own kind of
/// machine.
pub proof fn machines_fit_their_host(platform: Seq<char>, architecture: Seq<char>)
    ensures
        machine_type(platform, architecture) is Ok <==> (architecture == "aarch64"@ || architecture
            == "x86_64"@) && (platform == "macos"@ || platform == "linux"@),
        machine_type(platform, architecture) matches Ok(kind) ==> (platform == "macos"@ ==> kind
            == "vz"@) && (platform == "linux"@ && platform != "macos"@ ==> kind == "qemu"@),
{
}

/// Linux runs a worker with QEMU and its image tool of 6.2 or newer and with KVM; a Mac from
/// version 14 on and with hardware virtualization.
pub proof fn hosts_must_run_virtual_machines(
    architecture: Seq<char>,
    emulator: Seq<char>,
    image: Seq<char>,
    kvm: i32,
    version: Seq<char>,
    virtualization: bool,
    v: (u64, u64, u64),
)
    ensures
        is_recent(v) <==> v.0 >= 7 || (v.0 == 6 && v.1 >= 2),
        linux_refusal(architecture, emulator, image, kvm) is None <==> machine_type(
            "linux"@,
            architecture,
        ) is Ok && kvm == 12 && (printed_version(emulator, "QEMU emulator version "@) matches Ok(a)
            && (a.0 >= 7 || (a.0 == 6 && a.1 >= 2))) && (printed_version(
            image,
            "qemu-img version "@,
        ) matches Ok(b) && (b.0 >= 7 || (b.0 == 6 && b.1 >= 2))),
        macos_refusal(version, virtualization) is None <==> virtualization && (text::parse_number(
            text::split_char(version, '.')[0],
        ) matches Some(major) && major >= 14),
{
}

/// A machine runs unless it is stopped, suspended or deleted, is reached only where it says
/// that it runs, and rests only where it says that it is stopped.
pub proof fn machine_states_are_read_with_care(item: JsonView)
    ensures
        ({
            let r = machine_state(item);
            let state = text_of(at(item, "state"@));
            &&& r.installed
            &&& r.reachable <==> state == Some("Running"@)
            &&& r.stopped <==> state == Some("Stopped"@)
            &&& !r.running <==> state == Some("Stopped"@) || state == Some("Suspended"@) || state
                == Some("Deleted"@)
        }),
{
}

proof fn lemma_named(items: Seq<JsonView>, name: Seq<char>, i: int)
    requires
        0 <= i,
    ensures
        named_from(items, name, i) matches Some(k) ==> i <= k < items.len() && text_of(
            at(items[k], "name"@),
        ) == Some(name),
        named_from(items, name, i) is None ==> forall|k: int|
            i <= k < items.len() ==> text_of(at(#[trigger] items[k], "name"@)) != Some(name),
    decreases items.len() - i,
{
    if i < items.len() {
        lemma_named(items, name, i + 1);
    }
}

/// The worker is the listed machine with its name; where none has it there is no worker.
pub proof fn workers_are_found_by_name(output: Seq<char>, name: Seq<char>)
    ensures
        crate::json::parsed_json(encode_utf8(output)) is Err ==> multipass_state(output, name)
            is Err,
        crate::json::parsed_json(encode_utf8(output)) matches Ok(j) ==> (list_of(at(j, "list"@))
            matches Some(items) ==> {
            &&& (forall|k: int|
                0 <= k < items.len() ==> text_of(at(#[trigger] items[k], "name"@)) != Some(name))
                ==> (multipass_state(output, name) matches Ok(r) && r == no_vm())
            &&& multipass_state(output, name) matches Ok(r) && (r == no_vm() || exists|k: int|
                0 <= k < items.len() && text_of(at(#[trigger] items[k], "name"@)) == Some(name) && r
                    == machine_state(items[k]))
        }),
{
    if crate::json::parsed_json(encode_utf8(output)) is Ok {
        let j = crate::json::parsed_json(encode_utf8(output))->Ok_0;
        if list_of(at(j, "list"@)) is Some {
            lemma_named(list_of(at(j, "list"@))->0, name, 0);
        }
    }
}

/// A Lima instance is the worker only under the worker's name; it runs unless it is stopped
/// and is reached only while it runs.
pub proof fn instances_are_the_worker_by_name(value: JsonView)
    ensures
        instance_info(value) is Ok <==> text_of(at(value, "name"@)) == Some("worker"@) && text_of(
            at(value, "status"@),
        ) is Some,
        instance_info(value) matches Ok(r) ==> {
            let status = text_of(at(value, "status"@))->0;
            &&& r.installed
            &&& r.running <==> status != "Stopped"@
            &&& r.stopped <==> status == "Stopped"@
            &&& r.reachable <==> status == "Running"@
            &&& r.addresses.len() == 0
        },
{
}

/// Disks are changed only where no worker is listed or the listed one is stopped.
pub proof fn disks_change_while_the_worker_rests(output: Seq<char>)
    ensures
        text::trim(output).len() == 0 ==> stopped_refusal(output) is None,
        text::trim(output).len() > 0 ==> (stopped_refusal(output) is None <==> (
        crate::json::parsed_json(encode_utf8(text::trim(output))) matches Ok(state) && text_of(
            at(state, "name"@),
        ) == Some("worker"@) && text_of(at(state, "status"@)) == Some("Stopped"@))),
{
}

/// A disk of a device has an identity, a volume, a size within bounds and a plain folder; its
/// receipt is good only with all four and the device.
pub proof fn disks_belong_to_their_receipt(
    receipt: DiskReceiptView,
    device: Seq<char>,
    l: LocationView,
)
    ensures
        location_refusal(device, l) is None <==> {
            &&& identity::is_identity(device)
            &&& crate::lima_storage::is_disk_id(l.id)
            &&& l.volume_id.len() > 0
            &&& 1 <= l.allocation_gib <= 1_048_576
            &&& crate::paths::is_plain_absolute(l.directory)
        },
        receipt_refusal(receipt, device, l) is None <==> location_refusal(device, l) is None
            && receipt.version == 1 && receipt.device_id == device && receipt.disk_id == l.id
            && receipt.volume_id == l.volume_id && receipt.allocation_gib == l.allocation_gib,
{
}

/// A device's disk stands in a folder of the device and of the disk, below the chosen one.
pub proof fn disks_stand_below_their_folder(home: Seq<char>, device: Seq<char>, l: LocationView)
    ensures
        paths_of(home, device, l) is Ok <==> crate::paths::is_plain_absolute(home)
            && location_refusal(device, l) is None,
        paths_of(home, device, l) matches Ok(p) ==> p.directory == crate::paths::join_path(
            crate::paths::join_path(
                crate::paths::join_path(l.directory, ".nodeharbor"@),
                device,
            ),
            l.id,
        ) && p.image == crate::paths::join_path(p.directory, "datadisk"@) && p.receipt
            == crate::paths::join_path(p.directory, "receipt.json"@) && p.link
            == crate::paths::join_path(crate::paths::join_path(home, "_disks"@), l.id),
{
}

/// Disk files are placed for Lima on a Unix host and a known device only.
pub proof fn disk_files_need_lima(
    unix: bool,
    provider: VmProvider,
    device: Seq<char>,
    home: Seq<char>,
)
    ensures
        adapter_refusal(unix, provider, device, home) is None <==> unix && provider
            == VmProvider::Lima && identity::identity_refusal(device) is None
            && crate::paths::is_plain_absolute(home),
{
}

/// A reported disk is the asked one only under its name, in a supported format and in its
/// place, and passes only with its whole capacity.
pub proof fn reported_disks_are_the_asked_ones(
    parsed: Result<JsonView, Seq<char>>,
    l: LocationView,
    link: Result<DiskPathsView, Seq<char>>,
    image: Seq<char>,
    length: u64,
    allocated: u64,
)
    ensures
        reported_disk(parsed, l, link) matches Ok(disk) ==> {
            &&& parsed == Ok::<JsonView, Seq<char>>(disk)
            &&& text_of(at(disk, "name"@)) == Some(l.id)
            &&& text_of(at(disk, "format"@)) == Some("raw"@) || text_of(at(disk, "format"@)) == Some(
                "qcow2"@,
            )
            &&& link matches Ok(p) && (text_of(at(disk, "dir"@)) matches Some(dir)
                && crate::paths::same_path(dir, p.link))
        },
        parsed matches Ok(disk) ==> (inspected(disk, l, image, length, allocated) matches Ok(r)
            ==> {
            &&& number_of(at(disk, "size"@)) == Some(r.size_bytes)
            &&& r.size_bytes == l.allocation_gib * 1_073_741_824
            &&& r.allocated_bytes == allocated
            &&& r.image == image
            &&& text_of(at(disk, "format"@)) == Some(r.format)
            &&& r.format == "raw"@ ==> length == r.size_bytes
        }),
{
}

/// A runtime folder is the owner's where it is a private folder on the layout's volume and
/// its receipt, a regular file of the owner's, names this owner and that volume.
pub proof fn runtime_folders_are_the_owners(layout: LayoutView, owner: Seq<char>, facts: HomeFacts)
    ensures
        home_refusal(layout, owner, facts) is None <==> {
            &&& facts.directory.directory && facts.directory.private
            &&& facts.volume_id@ == layout.volume_id
            &&& facts.file.regular && facts.file.owned
            &&& identity::identity_refusal(owner) is None
            &&& crate::json::parsed_json(facts.saved@) matches Ok(saved)
                && crate::runtime_storage::has_fields(saved, 3) && number_of(at(saved, "version"@)) == Some(
                1u64,
            ) && text_of(at(saved, "deviceId"@)) == Some(owner) && text_of(at(saved, "volumeId"@))
                == Some(layout.volume_id)
        },
{
}

/// A system image is good where it stands on the layout's volume with exactly the layout's
/// size and rests on no other image.
pub proof fn system_images_stand_alone(
    layout: LayoutView,
    volume: Seq<char>,
    magic: Seq<u8>,
    length: u64,
    info: CommandOutputView,
)
    ensures
        image_refusal(layout, volume, magic, length, info) is None <==> volume == layout.volume_id
            && (image_capacity(magic, length, info) matches Ok(size) && size == layout.system_gib
            * 1_073_741_824),
        magic != seq![0x51u8, 0x46u8, 0x49u8, 0xfbu8] ==> image_capacity(magic, length, info)
            == Ok::<u64, Seq<char>>(length),
        magic == seq![0x51u8, 0x46u8, 0x49u8, 0xfbu8] ==> (image_capacity(magic, length, info)
            matches Ok(size) ==> info.success && (crate::json::parsed_json(
            encode_utf8(info.stdout),
        ) matches Ok(j) && text_of(at(j, "format"@)) == Some("qcow2"@) && field(
            j,
            "backing-filename"@,
        ) is None && number_of(at(j, "virtual-size"@)) == Some(size))),
{
}

/// An original runtime is cleared only once its worker is gone and nothing but the runtime's
/// own folders is left.
pub proof fn runtimes_are_cleared_when_empty(worker: bool, directories: Seq<Seq<char>>)
    ensures
        clear_refusal(worker, directories) is None <==> !worker && forall|i: int|
            0 <= i < directories.len() ==> (#[trigger] directories[i]) == "_disks"@
                || directories[i] == "_networks"@ || directories[i] == "_config"@ || directories[i]
                == "_tmp"@ || directories[i] == "_cache"@,
{
    assert forall|i: int| 0 <= i < directories.len() implies (
    crate::runtime_storage::is_disposable(#[trigger] directories[i]) <==> directories[i]
        == "_disks"@ || directories[i] == "_networks"@ || directories[i] == "_config"@
        || directories[i] == "_tmp"@ || directories[i] == "_cache"@) by {}
}

/// A worker VM has what was shared and nothing of the host: no mounts, no agent or keys, no
/// forwarded ports, and a network of its own.
pub proof fn workers_are_kept_apart_from_the_host(
    platform: Seq<char>,
    architecture: Seq<char>,
    device: Seq<char>,
    resources: Resources,
    runtime: JsonView,
    files: JsonView,
)
    ensures
        worker_configuration(platform, architecture, device, resources, runtime, files) matches Ok(
            made,
        ) ==> (made matches JsonView::Object(f) && {
            &&& f.contains(("arch"@, JsonView::Text(architecture)))
            &&& f.contains(("cpus"@, JsonView::Number(resources.cpus as u64)))
            &&& f.contains(
                ("disk"@, JsonView::Text(text::decimal(resources.disk_gib as nat) + "GiB"@)),
            )
            &&& f.contains(
                ("memory"@, JsonView::Text(text::decimal(resources.memory_mib as nat) + "MiB"@)),
            )
            &&& f.contains(("mounts"@, JsonView::List(Seq::empty())))
            &&& f.contains(("plain"@, JsonView::Bool(true)))
            &&& f.contains(("propagateProxyEnv"@, JsonView::Bool(false)))
            &&& f.contains(
                (
                    "networks"@,
                    JsonView::List(
                        seq![JsonView::Object(seq![("lima"@, JsonView::Text("user-v2"@))])],
                    ),
                ),
            )
            &&& f.contains(
                (
                    "ssh"@,
                    JsonView::Object(
                        seq![
                            ("forwardAgent"@, JsonView::Bool(false)),
                            ("forwardX11"@, JsonView::Bool(false)),
                            ("loadDotSSHPubKeys"@, JsonView::Bool(false)),
                            ("overVsock"@, JsonView::Bool(false)),
                        ],
                    ),
                ),
            )
            &&& exists|k: int|
                0 <= k < f.len() && (#[trigger] f[k]).0 == "portForwards"@ && (f[k].1
                    matches JsonView::List(rules) && rules.len() == 1 && (rules[0]
                    matches JsonView::Object(rule) && rule.contains(
                    ("ignore"@, JsonView::Bool(true)),
                ) && rule.contains(("proto"@, JsonView::Text("any"@)))))
            &&& f.contains(
                ("provision"@, JsonView::List(guest_data(device, list_of(files)->0))),
            )
        }),
        worker_configuration(platform, architecture, device, resources, runtime, files) is Ok ==> (
        identity::identity_refusal(device) is None && machine_type(platform, architecture) is Ok),
{
    if worker_configuration(platform, architecture, device, resources, runtime, files) is Ok {
        let f = worker_configuration(
            platform,
            architecture,
            device,
            resources,
            runtime,
            files,
        )->Ok_0->Object_0;
        assert(f[0] == ("arch"@, JsonView::Text(architecture)));
        assert(f[1] == ("cpus"@, JsonView::Number(resources.cpus as u64)));
        assert(f[2] == (
            "disk"@,
            JsonView::Text(text::decimal(resources.disk_gib as nat) + "GiB"@),
        ));
        assert(f[4] == (
            "memory"@,
            JsonView::Text(text::decimal(resources.memory_mib as nat) + "MiB"@),
        ));
        assert(f[7].0 == "networks"@);
        assert(f[8] == ("mounts"@, JsonView::List(Seq::empty())));
        assert(f[10] == ("plain"@, JsonView::Bool(true)));
        assert(f[11].0 == "ssh"@);
        assert(f[12].0 == "portForwards"@);
        let rule = f[12].1->List_0[0]->Object_0;
        assert(rule[3] == ("ignore"@, JsonView::Bool(true)));
        assert(rule[4] == ("proto"@, JsonView::Text("any"@)));
        assert(f[14] == ("propagateProxyEnv"@, JsonView::Bool(false)));
        assert(f[15].0 == "provision"@);
        assert(f.contains(f[7]) && f.contains(f[11]) && f.contains(f[15]));
    }
}

/// A pool is asked for with its device, identity and generation and with every disk in its
/// whole size and in order; only a disk that the worker did not have is made anew.
pub proof fn pools_are_asked_for_whole(
    device: Seq<char>,
    pool_id: Seq<char>,
    locations: Seq<LocationView>,
    previous: Seq<LocationView>,
    generation: u64,
    i: int,
)
    requires
        0 <= i < locations.len(),
    ensures
        pool_request(device, pool_id, locations, previous, generation) matches JsonView::Object(f)
            && f.contains(("deviceId"@, JsonView::Text(device))) && f.contains(
            ("poolId"@, JsonView::Text(pool_id)),
        ) && f.contains(("generation"@, JsonView::Number(generation))) && exists|k: int|
            0 <= k < f.len() && (#[trigger] f[k]).0 == "disks"@ && (f[k].1 matches JsonView::List(
                disks,
            ) && disks.len() == locations.len() && disks[i] == disk_request(
                locations[i],
                i,
                previous,
            )),
        disk_request(locations[i], i, previous) matches JsonView::Object(d) && d.contains(
            ("id"@, JsonView::Text(locations[i].id)),
        ) && d.contains(
            (
                "allocationBytes"@,
                JsonView::Number((locations[i].allocation_gib * 1_073_741_824) as u64),
            ),
        ) && d.contains(
            (
                "initialize"@,
                JsonView::Bool(
                    !exists|k: int|
                        0 <= k < previous.len() && (#[trigger] previous[k]).id == locations[i].id,
                ),
            ),
        ),
{
    let f = pool_request(device, pool_id, locations, previous, generation)->Object_0;
    assert(f[0] == ("deviceId"@, JsonView::Text(device)));
    assert(f[1].0 == "disks"@);
    assert(f[3] == ("generation"@, JsonView::Number(generation)));
    assert(f[4] == ("poolId"@, JsonView::Text(pool_id)));
    let d = disk_request(locations[i], i, previous)->Object_0;
    assert(d[0] == (
        "allocationBytes"@,
        JsonView::Number((locations[i].allocation_gib * 1_073_741_824) as u64),
    ));
    assert(d[2] == ("id"@, JsonView::Text(locations[i].id)));
    assert(d[3] == ("initialize"@, JsonView::Bool(!has_id(previous, locations[i].id))));
    assert(has_id(previous, locations[i].id) <==> exists|k: int|
        0 <= k < previous.len() && (#[trigger] previous[k]).id == locations[i].id);
}

/// A step is shown from its begin to its end: it is recorded once, a guest's own steps are
/// taken as steps, and its end leaves none.
pub proof fn steps_are_shown_until_they_end(
    log: ActivityLogView,
    message: Seq<char>,
    source: Seq<char>,
    success: bool,
    shown: Seq<char>,
    limit: Option<u64>,
    now: Seq<char>,
)
    ensures
        concluded(log, message, source, success, shown, now).step is None,
        log.step matches Some(step) ==> (step.message == message ==> step_begun(
            log,
            message,
            limit,
            now,
        ) == log),
        !(log.step matches Some(step) && step.message == message) ==> (step_begun(
            log,
            message,
            limit,
            now,
        ).step matches Some(step) && step.started_at == now && step.timeout_seconds == limit),
        followed(log, OutputStream::Stderr, source, message, Seq::empty(), now).step == log.step,
{
}

} // verus!
