//! What is read of the worker's pods: which of them are work, and which are the
//! worker's own; and how the runtime and the guest are told what to do.
use crate::json::{at, parsed_json, JsonView};
use crate::lima::VmProvider;
use crate::policy::Resources;
use crate::text;
use crate::vm::{pods_reported, sorted_pods, Vm};
use crate::vm_operations::GuestTask;
use vstd::prelude::*;
use vstd::utf8::encode_utf8;

verus! {

/// Whether a pod runs.
pub open spec fn runs(pod: JsonView) -> bool {
    at(pod, "state"@) == JsonView::Text("SANDBOX_READY"@)
}

/// Whether a pod is one of the worker's own: it is in the system's namespace, or its
/// identity is among those given.
pub open spec fn is_own(pod: JsonView, system: Seq<Seq<char>>) -> bool {
    let metadata = at(pod, "metadata"@);
    at(metadata, "namespace"@) == JsonView::Text("kube-system"@) || exists|k: int|
        0 <= k < system.len() && at(metadata, "uid"@) == JsonView::Text(#[trigger] system[k])
}

/// Whether a pod can be told: it runs under a name in a namespace, or it rests.
pub open spec fn is_told(pod: JsonView) -> bool {
    let metadata = at(pod, "metadata"@);
    ||| at(pod, "state"@) == JsonView::Text("SANDBOX_NOTREADY"@)
    ||| runs(pod) && (at(metadata, "name"@) matches JsonView::Text(name) && name.len() > 0) && (at(
        metadata,
        "namespace"@,
    ) matches JsonView::Text(namespace) && namespace.len() > 0)
}

/// What is shown of a pod: its name, its namespace and that it runs.
pub open spec fn shown(pod: JsonView) -> JsonView {
    let metadata = at(pod, "metadata"@);
    JsonView::Object(
        seq![
            ("name"@, at(metadata, "name"@)),
            ("namespace"@, at(metadata, "namespace"@)),
            ("state"@, JsonView::Text("running"@)),
        ],
    )
}

proof fn lemma_filtered(pods: Seq<JsonView>, n: int, keep: spec_fn(JsonView) -> bool)
    requires
        0 < n <= pods.len(),
    ensures
        pods.take(n).filter(keep) == (if keep(pods[n - 1]) {
            pods.take(n - 1).filter(keep).push(pods[n - 1])
        } else {
            pods.take(n - 1).filter(keep)
        }),
{
    reveal(Seq::filter);
    assert(pods.take(n).drop_last() =~= pods.take(n - 1));
    assert(pods.take(n).last() == pods[n - 1]);
}

proof fn lemma_mapped_push(s: Seq<JsonView>, p: JsonView)
    ensures
        s.push(p).map_values(|q: JsonView| shown(q)) =~= s.map_values(
            |q: JsonView| shown(q),
        ).push(shown(p)),
{
}

/// The pods that run are told apart: those in the system's namespace and those with a
/// given identity are the worker's own, and every other one is a workload. Each is shown
/// once, in the order of the list; pods that rest are neither. The list is read exactly
/// where every pod can be told.
pub proof fn running_pods_are_told_apart(pods: Seq<JsonView>, system: Seq<Seq<char>>, n: int)
    requires
        0 <= n <= pods.len(),
    ensures
        sorted_pods(pods, system, n) is Ok <==> (forall|i: int|
            0 <= i < n ==> is_told(#[trigger] pods[i])),
        sorted_pods(pods, system, n) matches Ok(sorted) ==> sorted.0 == pods.take(n).filter(
            |p: JsonView| runs(p) && !is_own(p, system),
        ).map_values(|p: JsonView| shown(p)) && sorted.1 == pods.take(n).filter(
            |p: JsonView| runs(p) && is_own(p, system),
        ).map_values(|p: JsonView| shown(p)),
    decreases n,
{
    let work = |p: JsonView| runs(p) && !is_own(p, system);
    let own = |p: JsonView| runs(p) && is_own(p, system);
    if n == 0 {
        reveal(Seq::filter);
        assert(pods.take(0).filter(work).map_values(|p: JsonView| shown(p)) =~= Seq::empty());
        assert(pods.take(0).filter(own).map_values(|p: JsonView| shown(p)) =~= Seq::empty());
    } else {
        running_pods_are_told_apart(pods, system, n - 1);
        lemma_filtered(pods, n, work);
        lemma_filtered(pods, n, own);
        let pod = pods[n - 1];
        lemma_mapped_push(pods.take(n - 1).filter(work), pod);
        lemma_mapped_push(pods.take(n - 1).filter(own), pod);
        let metadata = at(pod, "metadata"@);
        reveal_strlit("SANDBOX_READY");
        reveal_strlit("SANDBOX_NOTREADY");
        assert("SANDBOX_READY"@.len() != "SANDBOX_NOTREADY"@.len());
        if let JsonView::Text(uid) = at(metadata, "uid"@) {
            if system.contains(uid) {
                let k = choose|k: int| 0 <= k < system.len() && system[k] == uid;
                assert(at(metadata, "uid"@) == JsonView::Text(system[k]));
            }
        }
        assert forall|k: int|
            0 <= k < system.len() && at(metadata, "uid"@) == JsonView::Text(
                #[trigger] system[k],
            ) implies system.contains(system[k]) by {}
        if sorted_pods(pods, system, n - 1) is Ok {
            assert(is_told(pod) == (crate::vm::pod_sight(pod, system) is Ok));
        }
    }
}

/// What a worker is said to run is what its container runtime lists.
pub proof fn inventories_are_those_of_the_list(output: Seq<char>, system: Seq<Seq<char>>)
    ensures
        pods_reported(output, system) matches Ok(sorted) ==> parsed_json(encode_utf8(output))
            is Ok && (at(parsed_json(encode_utf8(output))->Ok_0, "items"@) matches JsonView::List(
            pods,
        ) && (forall|i: int| 0 <= i < pods.len() ==> is_told(#[trigger] pods[i])) && sorted.0
            == pods.filter(|p: JsonView| runs(p) && !is_own(p, system)).map_values(
            |p: JsonView| shown(p),
        ) && sorted.1 == pods.filter(|p: JsonView| runs(p) && is_own(p, system)).map_values(
            |p: JsonView| shown(p),
        )),
        (parsed_json(encode_utf8(output)) is Ok && (at(
            parsed_json(encode_utf8(output))->Ok_0,
            "items"@,
        ) matches JsonView::List(pods) && (forall|i: int|
            0 <= i < pods.len() ==> is_told(#[trigger] pods[i])))) ==> pods_reported(output, system)
            is Ok,
{
    if parsed_json(encode_utf8(output)) is Ok {
        if let JsonView::List(pods) = at(parsed_json(encode_utf8(output))->Ok_0, "items"@) {
            running_pods_are_told_apart(pods, system, pods.len() as int);
            assert(pods.take(pods.len() as int) =~= pods);
        }
    }
}

/// A command reaches the guest of this VM, and nothing of it is lost.
pub proof fn commands_reach_their_own_guest(vm: Vm, command: Seq<Seq<char>>, i: int)
    requires
        0 <= i < command.len(),
    ensures
        ({
            let r = vm.in_guest(command);
            &&& r.len() == command.len() + 3
            &&& r[i + 3] == command[i]
            &&& vm.provider == VmProvider::Lima ==> r[0] == "shell"@ && r[2] == vm.name@
            &&& vm.provider != VmProvider::Lima ==> r[0] == "exec"@ && r[1] == vm.name@ && r[2]
                == "--"@
        }),
{
}

/// A VM is resized to exactly what is shared, under its own name; Lima keeps the disk unless
/// it is to change too.
pub proof fn resized_workers_have_what_is_shared(
    vm: Vm,
    resources: Resources,
    memory: Seq<char>,
    disk: bool,
)
    ensures
        ({
            let r = vm.resizing(resources, memory, disk);
            let cpus = text::decimal(resources.cpus as nat);
            let mib = text::decimal(resources.memory_mib as nat);
            let gib = text::decimal(resources.disk_gib as nat);
            &&& vm.provider == VmProvider::Lima ==> {
                &&& r.len() == 1
                &&& r[0][0] == "edit"@
                &&& r[0][1] == vm.name@
                &&& r[0][2] == "--cpus="@ + cpus
                &&& r[0][3] == "--memory="@ + memory
                &&& disk ==> r[0].len() == 5 && r[0][4] == "--disk="@ + gib
                &&& !disk ==> r[0].len() == 4
            }
            &&& vm.provider != VmProvider::Lima ==> {
                &&& r.len() == 3
                &&& r[0][0] == "set"@ && r[1][0] == "set"@ && r[2][0] == "set"@
                &&& r[0][1] == "local."@ + vm.name@ + "."@ + "cpus"@ + "="@ + cpus
                &&& r[1][1] == "local."@ + vm.name@ + "."@ + "memory"@ + "="@ + (mib + "M"@)
                &&& r[2][1] == "local."@ + vm.name@ + "."@ + "disk"@ + "="@ + (gib + "G"@)
            }
        }),
{
}

/// A guest is told whose it is in a file that only its root can read.
pub proof fn guests_are_told_their_owner(device: Seq<char>)
    ensures
        Vm::identity_file(device) matches JsonView::Object(f) && f.contains(
            ("content"@, JsonView::Text(device)),
        ) && f.contains(("owner"@, JsonView::Text("root:root"@))) && f.contains(
            ("permissions"@, JsonView::Text("0600"@)),
        ) && f.contains(("path"@, JsonView::Text("/etc/nodeharbor/device-id"@))),
{
    let f = Vm::identity_file(device)->Object_0;
    assert(f[0] == ("content"@, JsonView::Text(device)));
    assert(f[1] == ("owner"@, JsonView::Text("root:root"@)));
    assert(f[2] == ("path"@, JsonView::Text("/etc/nodeharbor/device-id"@)));
    assert(f[3] == ("permissions"@, JsonView::Text("0600"@)));
}

/// The saved configuration is read only of a worker that rests, and is the one it reports.
pub proof fn configurations_are_read_of_resting_workers(output: Seq<char>)
    ensures
        Vm::configuration_in(output) matches Ok(j) ==> j is Object && (crate::lima::lima_info(
            output,
        ) matches Ok(info) && info.stopped) && (parsed_json(encode_utf8(output)) matches Ok(all) && j
            == at(all, "config"@)),
{
}

/// What the guest is asked to run is the task's own program: the lease, the service, the
/// pool and the worker's configuration each have theirs.
pub proof fn guest_tasks_run_their_own_program(vm: Vm, program: Seq<char>, word: Seq<char>)
    ensures
        ({
            let lease = vm.guest_words(GuestTask::RenewLease, program, word);
            let stop = vm.guest_words(GuestTask::StopService, program, word);
            let disable = vm.guest_words(GuestTask::DisableService, program, word);
            let state = vm.guest_words(GuestTask::ServiceState, program, word);
            let pool = vm.guest_words(GuestTask::UsePool, program, word);
            let configure = vm.guest_words(GuestTask::Configure, program, word);
            let pods = vm.guest_words(GuestTask::ListWorkloads, program, word);
            let stream = vm.guest_words(GuestTask::StreamBackup, program, word);
            let inspect = vm.guest_words(GuestTask::InspectBackup, program, word);
            let files = vm.guest_words(GuestTask::InstallFiles, program, word);
            &&& lease.len() == 4 && lease[2] == "/usr/local/lib/nodeharbor/watchdog.py"@ && lease[3]
                == "renew"@
            &&& stop.len() == 4 && stop[1] == "systemctl"@ && stop[2] == "stop"@ && stop[3]
                == "k3s-agent.service"@
            &&& disable.len() == 5 && disable[1] == "systemctl"@ && disable[2] == "disable"@
                && disable[3] == "--now"@ && disable[4] == "k3s-agent.service"@
            &&& state[0] == "systemctl"@ && state[1] == "show"@ && state[2] == "k3s-agent.service"@
            &&& pool.len() == 4 && pool[2] == "/usr/local/lib/nodeharbor/storage_pool.py"@ && pool[3]
                == word
            &&& configure.len() == 3 && configure[2]
                == "/usr/local/lib/nodeharbor/configure_worker.py"@
            &&& pods.len() == 6 && pods[1] == "/usr/local/bin/k3s"@ && pods[2] == "crictl"@
                && pods[3] == "pods"@ && pods[5] == "json"@
            &&& stream.len() == 6 && stream[3] == program && stream[4] == word && stream[5]
                == vm.device_id@
            &&& inspect.len() == 6 && inspect[3] == program && inspect[4] == "inspect"@ && inspect[5]
                == vm.device_id@
            &&& files.len() == 4 && files[3] == program
        }),
{
}

} // verus!
