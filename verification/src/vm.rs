//! The worker VM: what its runtime is asked, and what its answers mean.
use crate::failure::{fail, first_of, refusal, unless, Failure};
use crate::identity;
use crate::json::{
    at, field_views, json_text, json_views, list, list_of, number_of, object, pair, rendered,
    text_of, written_json, Json, JsonView,
};
use crate::lima::{attached_disks, attachments, VmProvider};
use crate::host_paths::{self, host_join, host_within};
use crate::policy::Resources;
use crate::storage::{location_views, Location};
use crate::text;
use crate::values::{contents, copy_list, lists_alike, Plain};
use vstd::prelude::*;
use vstd::utf8::encode_utf8;

verus! {

/// What a command of the runtime gave.
#[derive(Debug)]
pub struct CommandOutput {
    pub success: bool,
    pub stdout: String,
    pub stderr: String,
}

/// The content of a `CommandOutput`.
#[verifier::ext_equal]
pub struct CommandOutputView {
    pub success: bool,
    pub stdout: Seq<char>,
    pub stderr: Seq<char>,
}

impl View for CommandOutput {
    type V = CommandOutputView;

    open spec fn view(&self) -> CommandOutputView {
        CommandOutputView {
            success: self.success,
            stdout: self.stdout@,
            stderr: self.stderr@,
        }
    }
}

impl Plain for CommandOutput {
    fn duplicate(&self) -> (r: Self) {
        CommandOutput {
            success: self.success,
            stdout: self.stdout.clone(),
            stderr: self.stderr.clone(),
        }
    }

    fn alike(&self, other: &Self) -> (r: bool) {
        self.success == other.success
            && self.stdout.alike(&other.stdout)
            && self.stderr.alike(&other.stderr)
    }
}

impl Clone for CommandOutput {
    fn clone(&self) -> (r: Self)
        ensures
            r@ == self@,
    {
        self.duplicate()
    }
}

/// The state of the worker VM.
#[derive(Debug)]
pub struct VmInfo {
    pub installed: bool,
    pub running: bool,
    /// Unknown and transitional states may consume resources but cannot run guest
    /// commands.
    pub reachable: bool,
    pub stopped: bool,
    pub addresses: Vec<String>,
}

/// The content of a `VmInfo`.
#[verifier::ext_equal]
pub struct VmInfoView {
    pub installed: bool,
    pub running: bool,
    pub reachable: bool,
    pub stopped: bool,
    pub addresses: Seq<Seq<char>>,
}

impl View for VmInfo {
    type V = VmInfoView;

    open spec fn view(&self) -> VmInfoView {
        VmInfoView {
            installed: self.installed,
            running: self.running,
            reachable: self.reachable,
            stopped: self.stopped,
            addresses: contents(self.addresses@),
        }
    }
}

impl Plain for VmInfo {
    fn duplicate(&self) -> (r: Self) {
        VmInfo {
            installed: self.installed,
            running: self.running,
            reachable: self.reachable,
            stopped: self.stopped,
            addresses: copy_list(self.addresses.as_slice()),
        }
    }

    fn alike(&self, other: &Self) -> (r: bool) {
        self.installed == other.installed
            && self.running == other.running
            && self.reachable == other.reachable
            && self.stopped == other.stopped
            && lists_alike(self.addresses.as_slice(), other.addresses.as_slice())
    }
}

impl Clone for VmInfo {
    fn clone(&self) -> (r: Self)
        ensures
            r@ == self@,
    {
        self.duplicate()
    }
}

/// The state of a VM that is not there.
pub open spec fn no_vm() -> VmInfoView {
    VmInfoView {
        installed: false,
        running: false,
        reachable: false,
        stopped: false,
        addresses: Seq::empty(),
    }
}

impl Default for VmInfo {
    fn default() -> (r: Self)
        ensures
            r@ == no_vm(),
    {
        let r = VmInfo {
            installed: false,
            running: false,
            reachable: false,
            stopped: false,
            addresses: Vec::new(),
        };
        assert(r@.addresses == Seq::<Seq<char>>::empty());
        r
    }
}

pub(crate) fn words2(a: &str, b: &str) -> (r: Vec<String>)
    ensures
        contents(r@) == seq![a@, b@],
{
    let mut r: Vec<String> = Vec::new();
    r.push(a.to_owned());
    r.push(b.to_owned());
    assert(contents(r@) =~= seq![a@, b@]);
    r
}

pub(crate) fn words3(a: &str, b: &str, c: &str) -> (r: Vec<String>)
    ensures
        contents(r@) == seq![a@, b@, c@],
{
    let mut r: Vec<String> = Vec::new();
    r.push(a.to_owned());
    r.push(b.to_owned());
    r.push(c.to_owned());
    assert(contents(r@) =~= seq![a@, b@, c@]);
    r
}

pub(crate) fn words4(a: &str, b: &str, c: &str, d: &str) -> (r: Vec<String>)
    ensures
        contents(r@) == seq![a@, b@, c@, d@],
{
    let mut r: Vec<String> = Vec::new();
    r.push(a.to_owned());
    r.push(b.to_owned());
    r.push(c.to_owned());
    r.push(d.to_owned());
    assert(contents(r@) =~= seq![a@, b@, c@, d@]);
    r
}

pub(crate) fn words6(a: &str, b: &str, c: &str, d: &str, e: &str, f: &str) -> (r: Vec<String>)
    ensures
        contents(r@) == seq![a@, b@, c@, d@, e@, f@],
{
    let mut r: Vec<String> = Vec::new();
    r.push(a.to_owned());
    r.push(b.to_owned());
    r.push(c.to_owned());
    r.push(d.to_owned());
    r.push(e.to_owned());
    r.push(f.to_owned());
    assert(contents(r@) =~= seq![a@, b@, c@, d@, e@, f@]);
    r
}

/// What runs in the worker, apart from its own components.
#[derive(Debug)]
pub struct WorkloadInventory {
    pub workloads: Vec<Json>,
    pub system_components: Vec<Json>,
}

impl WorkloadInventory {
    /// What the owner sees: the workloads, then the components.
    pub fn into_visible(self) -> (r: Vec<Json>)
        ensures
            json_views(r@) == json_views(self.workloads@) + json_views(self.system_components@),
    {
        let mut r = self.workloads;
        let mut rest = self.system_components;
        r.append(&mut rest);
        assert(json_views(r@) =~= json_views(self.workloads@) + json_views(
            self.system_components@,
        ));
        r
    }
}

/// The runner of Multipass workers.
#[derive(Clone, Copy, Debug, PartialEq, Eq, Structural)]
pub struct MultipassRunner;

/// The worker VM of a computer.
#[derive(Debug)]
pub struct Vm {
    pub name: String,
    pub device_id: String,
    pub provider: VmProvider,
}

/// The name of the VM: Lima's is the only one in its own directory.
pub open spec fn vm_name_of(device: Seq<char>, provider: VmProvider) -> Seq<char> {
    if provider == VmProvider::Lima {
        "worker"@
    } else {
        identity::vm_name(identity::parsed_uuid(device)->Ok_0)
    }
}

/// The record of a VM's creation.
pub open spec fn creation_json(provider: VmProvider, device: Seq<char>, name: Seq<char>) -> JsonView {
    if provider == VmProvider::Lima {
        JsonView::Object(
            seq![
                ("deviceId"@, JsonView::Text(device)),
                ("name"@, JsonView::Text(name)),
                ("provider"@, JsonView::Text("lima"@)),
                ("version"@, JsonView::Number(2)),
            ],
        )
    } else {
        JsonView::Object(
            seq![
                ("deviceId"@, JsonView::Text(device)),
                ("name"@, JsonView::Text(name)),
                ("version"@, JsonView::Number(1)),
            ],
        )
    }
}

/// Whether a saved record is that of the VM.
pub open spec fn is_creation(
    saved: JsonView,
    provider: VmProvider,
    device: Seq<char>,
    name: Seq<char>,
) -> bool {
    (if provider == VmProvider::Lima {
        number_of(at(saved, "version"@)) == Some(2u64) && text_of(at(saved, "provider"@)) == Some(
            "lima"@,
        )
    } else {
        number_of(at(saved, "version"@)) == Some(1u64)
    }) && text_of(at(saved, "deviceId"@)) == Some(device) && text_of(at(saved, "name"@)) == Some(
        name,
    )
}

/// Why a saved record is not that of the VM.
pub open spec fn creation_refusal(
    saved: Seq<u8>,
    provider: VmProvider,
    device: Seq<char>,
    name: Seq<char>,
) -> Option<Seq<char>> {
    match crate::json::parsed_json(saved) {
        Err(_) => Some("The VM creation receipt is damaged"@),
        Ok(j) => unless(
            is_creation(j, provider, device, name),
            "The VM creation receipt does not match this device"@,
        ),
    }
}

/// What a machine of Multipass's inventory is.
pub open spec fn machine_state(item: JsonView) -> VmInfoView {
    let state = text_of(at(item, "state"@));
    VmInfoView {
        installed: true,
        running: state != Some("Stopped"@) && state != Some("Suspended"@) && state != Some(
            "Deleted"@,
        ),
        reachable: state == Some("Running"@),
        stopped: state == Some("Stopped"@),
        addresses: match list_of(at(item, "ipv4"@)) {
            Some(items) => texts_in(items, items.len() as int),
            None => Seq::empty(),
        },
    }
}

/// The texts among the first `n` items.
pub open spec fn texts_in(items: Seq<JsonView>, n: int) -> Seq<Seq<char>>
    decreases n,
{
    if n <= 0 {
        Seq::empty()
    } else {
        match text_of(items[n - 1]) {
            Some(t) => texts_in(items, n - 1).push(t),
            None => texts_in(items, n - 1),
        }
    }
}

fn collect_texts(items: &[Json]) -> (r: Vec<String>)
    ensures
        contents(r@) == texts_in(json_views(items@), items@.len() as int),
{
    let mut r: Vec<String> = Vec::new();
    assert(contents(r@) =~= Seq::<Seq<char>>::empty());
    for i in 0..items.len()
        invariant
            contents(r@) == texts_in(json_views(items@), i as int),
    {
        assert(json_views(items@)[i as int] == items@[i as int]@);
        match items[i].as_text() {
            Some(t) => {
                let ghost before = contents(r@);
                r.push(t.to_owned());
                assert(contents(r@) =~= before.push(t@));
            },
            None => {},
        }
    }
    r
}

/// The first item from `i` on with the name.
pub open spec fn named_from(items: Seq<JsonView>, name: Seq<char>, i: int) -> Option<int>
    decreases items.len() - i,
{
    if i < 0 || i >= items.len() {
        None
    } else if text_of(at(items[i], "name"@)) == Some(name) {
        Some(i)
    } else {
        named_from(items, name, i + 1)
    }
}

/// What Multipass says of a VM, or why that cannot be read.
pub open spec fn multipass_state(output: Seq<char>, name: Seq<char>) -> Result<
    VmInfoView,
    Seq<char>,
> {
    match crate::json::parsed_json(encode_utf8(output)) {
        Err(_) => Err("Multipass returned invalid machine information"@),
        Ok(j) => match list_of(at(j, "list"@)) {
            None => Err("Multipass returned no machine inventory"@),
            Some(items) => match named_from(items, name, 0) {
                None => Ok(no_vm()),
                Some(i) => Ok(machine_state(items[i])),
            },
        },
    }
}

fn read_machine(item: &Json) -> (r: VmInfo)
    ensures
        r@ == machine_state(item@),
{
    let addresses = match item.field_list("ipv4") {
        Some(items) => collect_texts(items.as_slice()),
        None => Vec::new(),
    };
    let r = VmInfo {
        installed: true,
        running: !item.field_is("state", "Stopped") && !item.field_is("state", "Suspended")
            && !item.field_is("state", "Deleted"),
        reachable: item.field_is("state", "Running"),
        stopped: item.field_is("state", "Stopped"),
        addresses,
    };
    assert(r@ =~= machine_state(item@));
    r
}

/// What Multipass says of a VM.
pub fn multipass_info(output: &str, name: &str) -> (r: Result<VmInfo, Failure>)
    ensures
        match multipass_state(output@, name@) {
            Ok(state) => r matches Ok(info) && info@ == state,
            Err(message) => refusal(r) == Some(message),
        },
{
    let value = match crate::json::parse_text(output) {
        Ok(value) => value,
        Err(_) => {
            return Err(fail("Multipass returned invalid machine information"));
        },
    };
    let items = match value.field_list("list") {
        Some(items) => items,
        None => {
            return Err(fail("Multipass returned no machine inventory"));
        },
    };
    let ghost v = json_views(items@);
    let mut i: usize = 0;
    while i < items.len()
        invariant
            i <= items@.len(),
            v == json_views(items@),
            named_from(v, name@, 0) == named_from(v, name@, i as int),
            crate::json::parsed_json(encode_utf8(output@)) == Ok::<JsonView, Seq<char>>(value@),
            list_of(at(value@, "list"@)) == Some(v),
        decreases items@.len() - i,
    {
        assert(v[i as int] == items@[i as int]@);
        if items[i].field_is("name", name) {
            return Ok(read_machine(&items[i]));
        }
        i = i + 1;
    }
    Ok(VmInfo::default())
}

/// The text of an owner's command that failed.
pub open spec fn command_error(provider: VmProvider, stderr: Seq<char>) -> Seq<char> {
    crate::lima::provider_name(provider) + ": "@ + text::trim(text::take_at_most(stderr, 1200))
}

impl Vm {
    /// The worker VM of a computer.
    pub fn new(device_id: &str, provider: VmProvider) -> (r: Result<Self, Failure>)
        ensures
            match identity::identity_refusal(device_id@) {
                Some(message) => refusal(r) == Some(message),
                None => r matches Ok(vm) && vm.name@ == vm_name_of(device_id@, provider)
                    && vm.device_id@ == device_id@ && vm.provider == provider,
            },
    {
        let name = match identity::managed_vm_name(device_id) {
            Ok(name) => name,
            Err(e) => {
                return Err(e);
            },
        };
        let name = if provider == VmProvider::Lima {
            "worker".to_owned()
        } else {
            name
        };
        Ok(Vm { name, device_id: device_id.to_owned(), provider })
    }

    /// Where the record of the VM's creation stands.
    pub fn receipt_path(&self, platform: &str, directory: &str) -> (r: String)
        ensures
            r@ == host_join(platform@, directory@, self.name@ + ".receipt.json"@),
    {
        let name = text::join2(self.name.as_str(), ".receipt.json");
        host_paths::join(platform, directory, name.as_str())
    }

    /// Whether a saved record is that of the VM. A record as it is written is.
    pub fn check_receipt(&self, saved: &[u8]) -> (r: Result<(), Failure>)
        ensures
            refusal(r) == creation_refusal(saved@, self.provider, self.device_id@, self.name@),
            saved@ == encode_utf8(
                written_json(creation_json(self.provider, self.device_id@, self.name@)),
            ) ==> r is Ok,
    {
        proof {
            creations_are_recognized(self.provider, self.device_id@, self.name@);
            lemma_creation_is_flat(self.provider, self.device_id@, self.name@);
        }
        let j = match crate::json::parse(saved) {
            Ok(j) => j,
            Err(_) => {
                return Err(fail("The VM creation receipt is damaged"));
            },
        };
        let version = match j.field_number("version") {
            Some(n) => if self.provider == VmProvider::Lima {
                n == 2 && j.field_is("provider", "lima")
            } else {
                n == 1
            },
            None => false,
        };
        if version && j.field_is("deviceId", self.device_id.as_str()) && j.field_is(
            "name",
            self.name.as_str(),
        ) {
            Ok(())
        } else {
            Err(fail("The VM creation receipt does not match this device"))
        }
    }

    /// The record of the VM's creation.
    pub fn creation_record(&self) -> (r: Json)
        ensures
            r@ == creation_json(self.provider, self.device_id@, self.name@),
    {
        let mut fields: Vec<(String, Json)> = Vec::new();
        fields.push(pair("deviceId", json_text(self.device_id.as_str())));
        fields.push(pair("name", json_text(self.name.as_str())));
        if self.provider == VmProvider::Lima {
            fields.push(pair("provider", json_text("lima")));
            fields.push(pair("version", Json::Number(2)));
        } else {
            fields.push(pair("version", Json::Number(1)));
        }
        assert(field_views(fields@) =~= creation_json(
            self.provider,
            self.device_id@,
            self.name@,
        )->Object_0);
        object(fields)
    }

    /// The output of a command.
    pub fn command_result(&self, output: CommandOutput) -> (r: Result<String, Failure>)
        ensures
            if output.success {
                r matches Ok(t) && t@ == output.stdout@
            } else {
                refusal(r) == Some(command_error(self.provider, output.stderr@))
            },
    {
        if output.success {
            return Ok(output.stdout);
        }
        let cut = text::take_text(output.stderr.as_str(), 1200);
        let told = text::trim_text(cut.as_str());
        Err(Failure { message: text::join3(self.provider.name(), ": ", told.as_str()) })
    }

    /// What the runtime is asked for the state of the VM.
    pub fn list_args(&self) -> (r: Vec<String>)
        ensures
            contents(r@) == (if self.provider == VmProvider::Lima {
                seq!["list"@, "--format=json"@, "--filter=.name == \"worker\""@]
            } else {
                seq!["list"@, "--format"@, "json"@]
            }),
    {
        if self.provider == VmProvider::Lima {
            words3("list", "--format=json", "--filter=.name == \"worker\"")
        } else {
            words3("list", "--format", "json")
        }
    }

    /// The state of the VM.
    pub fn info(&self, output: &str) -> (r: Result<VmInfo, Failure>)
        ensures
            match self.reported(output@) {
                Ok(state) => r matches Ok(info) && info@ == state,
                Err(message) => refusal(r) == Some(message),
            },
    {
        if self.provider == VmProvider::Lima {
            crate::lima::info(output)
        } else {
            multipass_info(output, self.name.as_str())
        }
    }

    /// What the runtime says of the VM.
    pub open spec fn reported(&self, output: Seq<char>) -> Result<VmInfoView, Seq<char>> {
        if self.provider == VmProvider::Lima {
            crate::lima::lima_info(output)
        } else {
            multipass_state(output, self.name@)
        }
    }

    /// How a command is run in the guest.
    pub open spec fn in_guest(&self, command: Seq<Seq<char>>) -> Seq<Seq<char>> {
        (if self.provider == VmProvider::Lima {
            seq!["shell"@, "--workdir=/"@, self.name@]
        } else {
            seq!["exec"@, self.name@, "--"@]
        }) + command
    }

    /// How a command is run in the guest.
    pub fn guest_args(&self, command: &[String]) -> (r: Vec<String>)
        ensures
            contents(r@) == self.in_guest(contents(command@)),
    {
        let mut r = if self.provider == VmProvider::Lima {
            words3("shell", "--workdir=/", self.name.as_str())
        } else {
            words3("exec", self.name.as_str(), "--")
        };
        let ghost first = contents(r@);
        let mut rest = copy_list(command);
        r.append(&mut rest);
        assert(contents(r@) =~= first + contents(command@));
        r
    }

    /// How the owner of the VM is read in the guest.
    pub fn owner_args(&self) -> (r: Vec<String>)
        ensures
            contents(r@) == self.in_guest(seq!["sudo"@, "cat"@, "/etc/nodeharbor/device-id"@]),
    {
        let command = words3("sudo", "cat", "/etc/nodeharbor/device-id");
        self.guest_args(command.as_slice())
    }

    /// Whether the VM belongs to this computer.
    pub fn verify_owner(&self, owner: &str) -> (r: Result<(), Failure>)
        ensures
            refusal(r) == unless(
                text::trim(owner@) == self.device_id@,
                "This VM does not belong to the enrolled device; it has been left untouched"@,
            ),
    {
        let found = text::trim_text(owner);
        if text::same(found.as_str(), self.device_id.as_str()) {
            Ok(())
        } else {
            Err(
                fail("This VM does not belong to the enrolled device; it has been left untouched"),
            )
        }
    }

    /// How the worker's lease is renewed in the guest.
    pub fn lease_args(&self) -> (r: Vec<String>)
        ensures
            contents(r@) == self.in_guest(
                seq!["sudo"@, "python3"@, "/usr/local/lib/nodeharbor/watchdog.py"@, "renew"@],
            ),
    {
        let command = words4("sudo", "python3", "/usr/local/lib/nodeharbor/watchdog.py", "renew");
        self.guest_args(command.as_slice())
    }

    /// How the VM is stopped.
    pub fn stop_args(&self, immediate: bool) -> (r: Vec<String>)
        ensures
            contents(r@) == (if immediate {
                seq!["stop"@, "--force"@, self.name@]
            } else {
                seq!["stop"@, self.name@]
            }),
    {
        if immediate {
            words3("stop", "--force", self.name.as_str())
        } else {
            words2("stop", self.name.as_str())
        }
    }

    /// How the VM is started.
    pub fn start_args(&self) -> (r: Vec<String>)
        ensures
            contents(r@) == (if self.provider == VmProvider::Lima {
                seq!["start"@, "--timeout=10m"@, self.name@]
            } else {
                seq!["start"@, self.name@]
            }),
    {
        if self.provider == VmProvider::Lima {
            words3("start", "--timeout=10m", self.name.as_str())
        } else {
            words2("start", self.name.as_str())
        }
    }

    /// The commands that change the VM's resources. Lima takes the memory in
    /// GiB, as the given text.
    pub fn resize_commands(&self, resources: &Resources, memory_gib: &str, disk: bool) -> (r: Vec<
        Vec<String>,
    >)
        ensures
            command_views(r@) == self.resizing(*resources, memory_gib@, disk),
    {
        let cpus = text::decimal_text(resources.cpus as u64);
        let disk_gib = text::decimal_text(resources.disk_gib);
        let mut r: Vec<Vec<String>> = Vec::new();
        if self.provider == VmProvider::Lima {
            let processors = text::join2("--cpus=", cpus.as_str());
            let memory = text::join2("--memory=", memory_gib);
            let mut args = words4(
                "edit",
                self.name.as_str(),
                processors.as_str(),
                memory.as_str(),
            );
            if disk {
                let ghost before = contents(args@);
                args.push(text::join2("--disk=", disk_gib.as_str()));
                assert(contents(args@) =~= before.push("--disk="@ + disk_gib@));
            }
            r.push(args);
            assert(command_views(r@) =~= self.resizing(*resources, memory_gib@, disk));
            return r;
        }
        let memory_mib = text::decimal_text(resources.memory_mib);
        let memory = text::join2(memory_mib.as_str(), "M");
        let size = text::join2(disk_gib.as_str(), "G");
        r.push(self.set_args("cpus", cpus.as_str()));
        r.push(self.set_args("memory", memory.as_str()));
        r.push(self.set_args("disk", size.as_str()));
        assert(command_views(r@) =~= self.resizing(*resources, memory_gib@, disk));
        r
    }

    /// How Multipass is told a setting of the VM.
    pub open spec fn setting(&self, key: Seq<char>, value: Seq<char>) -> Seq<Seq<char>> {
        seq!["set"@, "local."@ + self.name@ + "."@ + key + "="@ + value]
    }

    fn set_args(&self, key: &str, value: &str) -> (r: Vec<String>)
        ensures
            contents(r@) == self.setting(key@, value@),
    {
        let first = text::join4("local.", self.name.as_str(), ".", key);
        let whole = text::join3(first.as_str(), "=", value);
        words2("set", whole.as_str())
    }

    /// The commands that change the VM's resources.
    pub open spec fn resizing(
        &self,
        resources: Resources,
        memory_gib: Seq<char>,
        disk: bool,
    ) -> Seq<Seq<Seq<char>>> {
        let cpus = text::decimal(resources.cpus as nat);
        let size = text::decimal(resources.disk_gib as nat);
        if self.provider == VmProvider::Lima {
            let args = seq!["edit"@, self.name@, "--cpus="@ + cpus, "--memory="@ + memory_gib];
            seq![
                if disk {
                    args.push("--disk="@ + size)
                } else {
                    args
                },
            ]
        } else {
            seq![
                self.setting("cpus"@, cpus),
                self.setting("memory"@, text::decimal(resources.memory_mib as nat) + "M"@),
                self.setting("disk"@, size + "G"@),
            ]
        }
    }

    /// How the VM is deleted.
    pub fn delete_args(&self) -> (r: Vec<String>)
        ensures
            contents(r@) == (if self.provider == VmProvider::Lima {
                seq!["delete"@, self.name@]
            } else {
                seq!["delete"@, "--purge"@, self.name@]
            }),
    {
        if self.provider == VmProvider::Lima {
            words2("delete", self.name.as_str())
        } else {
            words3("delete", "--purge", self.name.as_str())
        }
    }

    /// Whether a VM with a pool of disks can be made.
    pub fn check_pooled(&self) -> (r: Result<(), Failure>)
        ensures
            refusal(r) == unless(
                self.provider == VmProvider::Lima,
                "This runtime does not support pooled worker disks"@,
            ),
    {
        if self.provider == VmProvider::Lima {
            Ok(())
        } else {
            Err(fail("This runtime does not support pooled worker disks"))
        }
    }

    /// How Lima makes the VM from a configuration file.
    pub fn lima_create_args(&self, file: &str) -> (r: Vec<String>)
        ensures
            contents(r@) == seq!["start"@, "--name="@ + self.name@, "--timeout=15m"@, file@],
    {
        let name = text::join2("--name=", self.name.as_str());
        words4("start", name.as_str(), "--timeout=15m", file)
    }

    /// How Multipass makes the VM from a configuration file.
    pub fn launch_args(&self, resources: &Resources, file: &str) -> (r: Vec<String>)
        ensures
            contents(r@) == seq![
                "launch"@,
                "24.04"@,
                "--name"@,
                self.name@,
                "--cpus"@,
                text::decimal(resources.cpus as nat),
                "--memory"@,
                text::decimal(resources.memory_mib as nat) + "M"@,
                "--disk"@,
                text::decimal(resources.disk_gib as nat) + "G"@,
                "--cloud-init"@,
                file@,
            ],
    {
        let cpus = text::decimal_text(resources.cpus as u64);
        let memory = text::decimal_text(resources.memory_mib);
        let disk = text::decimal_text(resources.disk_gib);
        let memory = text::join2(memory.as_str(), "M");
        let disk = text::join2(disk.as_str(), "G");
        let mut r = words6(
            "launch",
            "24.04",
            "--name",
            self.name.as_str(),
            "--cpus",
            cpus.as_str(),
        );
        let mut rest = words6(
            "--memory",
            memory.as_str(),
            "--disk",
            disk.as_str(),
            "--cloud-init",
            file,
        );
        let ghost a = contents(r@);
        let ghost b = contents(rest@);
        r.append(&mut rest);
        assert(contents(r@) =~= a + b);
        assert(contents(r@) =~= seq![
            "launch"@,
            "24.04"@,
            "--name"@,
            self.name@,
            "--cpus"@,
            text::decimal(resources.cpus as nat),
            "--memory"@,
            text::decimal(resources.memory_mib as nat) + "M"@,
            "--disk"@,
            text::decimal(resources.disk_gib as nat) + "G"@,
            "--cloud-init"@,
            file@,
        ]);
        r
    }

    /// The file that tells a guest whose it is.
    pub open spec fn identity_file(device: Seq<char>) -> JsonView {
        JsonView::Object(
            seq![
                ("content"@, JsonView::Text(device)),
                ("owner"@, JsonView::Text("root:root"@)),
                ("path"@, JsonView::Text("/etc/nodeharbor/device-id"@)),
                ("permissions"@, JsonView::Text("0600"@)),
            ],
        )
    }

    /// What Multipass's guest is configured with, or why it cannot be.
    pub fn cloud_configuration(&self, files: &Json) -> (r: Result<String, Failure>)
        ensures
            match list_of(files@) {
                None => refusal(r) == Some("Invalid worker image files"@),
                Some(items) => r matches Ok(t) && t@ == "#cloud-config\n"@ + rendered(
                    JsonView::Object(
                        seq![
                            (
                                "write_files"@,
                                JsonView::List(
                                    seq![Self::identity_file(self.device_id@)] + items,
                                ),
                            ),
                        ],
                    ),
                ) + "\n"@,
            },
    {
        let items = match files.as_list() {
            Some(items) => items,
            None => {
                return Err(fail("Invalid worker image files"));
            },
        };
        let mut fields: Vec<(String, Json)> = Vec::new();
        fields.push(pair("content", json_text(self.device_id.as_str())));
        fields.push(pair("owner", json_text("root:root")));
        fields.push(pair("path", json_text("/etc/nodeharbor/device-id")));
        fields.push(pair("permissions", json_text("0600")));
        assert(field_views(fields@) =~= Self::identity_file(self.device_id@)->Object_0);
        let mut writes: Vec<Json> = Vec::new();
        writes.push(object(fields));
        assert(json_views(writes@) =~= seq![Self::identity_file(self.device_id@)]);
        for i in 0..items.len()
            invariant
                json_views(writes@) =~= seq![Self::identity_file(self.device_id@)] + json_views(
                    items@,
                ).take(i as int),
        {
            let ghost before = json_views(writes@);
            writes.push(items[i].copy());
            assert(json_views(items@)[i as int] == items@[i as int]@);
            assert(json_views(writes@) =~= before.push(items@[i as int]@));
        }
        assert(json_views(writes@) =~= seq![Self::identity_file(self.device_id@)] + json_views(
            items@,
        ));
        let mut outer: Vec<(String, Json)> = Vec::new();
        outer.push(pair("write_files", list(writes)));
        assert(field_views(outer@) =~= seq![
            (
                "write_files"@,
                JsonView::List(
                    seq![Self::identity_file(self.device_id@)] + json_views(items@),
                ),
            ),
        ]);
        let whole = object(outer);
        let rendered = crate::json::render(&whole);
        Ok(text::join3("#cloud-config\n", rendered.as_str(), "\n"))
    }

    /// How disks are attached to the VM.
    pub fn attachment_args(&self, locations: &[Location]) -> (r: Vec<String>)
        ensures
            contents(r@) == seq![
                "edit"@,
                self.name@,
                "--set"@,
                ".plain = true | .ssh.overVsock = false | .additionalDisks = "@ + rendered(
                    attachments(location_views(locations@)),
                ),
            ],
    {
        let disks = attached_disks(locations);
        let rendered = crate::json::render(&disks);
        let expression = text::join2(
            ".plain = true | .ssh.overVsock = false | .additionalDisks = ",
            rendered.as_str(),
        );
        words4("edit", self.name.as_str(), "--set", expression.as_str())
    }

    /// The saved configuration of the stopped VM, or why its provisioning cannot
    /// be changed.
    pub fn saved_configuration(output: &str) -> (r: Result<Json, Failure>)
        ensures
            match Self::configuration_in(output@) {
                Ok(saved) => r matches Ok(j) && j@ == saved,
                Err(message) => refusal(r) == Some(message),
            },
    {
        let info = match crate::lima::info(output) {
            Ok(info) => info,
            Err(e) => {
                return Err(e);
            },
        };
        if !info.stopped {
            return Err(fail("Stop the worker before changing storage provisioning"));
        }
        let instance = match crate::json::parse_text(output) {
            Ok(instance) => instance,
            Err(e) => {
                return Err(e);
            },
        };
        match instance.get("config") {
            Some(config) => if config.is_object() {
                Ok(config.copy())
            } else {
                Err(fail("Lima did not report the saved worker configuration"))
            },
            None => Err(fail("Lima did not report the saved worker configuration")),
        }
    }

    /// The saved configuration of the stopped VM.
    pub open spec fn configuration_in(output: Seq<char>) -> Result<JsonView, Seq<char>> {
        match crate::lima::lima_info(output) {
            Err(message) => Err(message),
            Ok(info) => if !info.stopped {
                Err("Stop the worker before changing storage provisioning"@)
            } else {
                match crate::json::parsed_json(encode_utf8(output)) {
                    Err(words) => Err(words),
                    Ok(instance) => if at(instance, "config"@) is Object {
                        Ok(at(instance, "config"@))
                    } else {
                        Err("Lima did not report the saved worker configuration"@)
                    },
                }
            },
        }
    }

    /// How the changed parts of a configuration are given to Lima.
    pub fn edit_args(&self, configuration: &Json) -> (r: Vec<String>)
        ensures
            contents(r@) == seq![
                "edit"@,
                self.name@,
                "--set"@,
                ".plain = "@ + "true"@,
                "--set"@,
                ".ssh.overVsock = "@ + "false"@,
                "--set"@,
                ".additionalDisks = "@ + rendered(at(configuration@, "additionalDisks"@)),
                "--set"@,
                ".provision = "@ + rendered(at(configuration@, "provision"@)),
                "--set"@,
                ".probes = "@ + rendered(at(configuration@, "probes"@)),
            ],
    {
        let disks = rendered_field(configuration, "additionalDisks");
        let provision = rendered_field(configuration, "provision");
        let probes = rendered_field(configuration, "probes");
        let plain = text::join2(".plain = ", "true");
        let vsock = text::join2(".ssh.overVsock = ", "false");
        let disks = text::join2(".additionalDisks = ", disks.as_str());
        let provision = text::join2(".provision = ", provision.as_str());
        let probes = text::join2(".probes = ", probes.as_str());
        let mut r = words6(
            "edit",
            self.name.as_str(),
            "--set",
            plain.as_str(),
            "--set",
            vsock.as_str(),
        );
        let mut rest = words6(
            "--set",
            disks.as_str(),
            "--set",
            provision.as_str(),
            "--set",
            probes.as_str(),
        );
        let ghost a = contents(r@);
        let ghost b = contents(rest@);
        r.append(&mut rest);
        assert(contents(r@) =~= a + b);
        assert(contents(r@) =~= seq![
            "edit"@,
            self.name@,
            "--set"@,
            ".plain = "@ + "true"@,
            "--set"@,
            ".ssh.overVsock = "@ + "false"@,
            "--set"@,
            ".additionalDisks = "@ + rendered(at(configuration@, "additionalDisks"@)),
            "--set"@,
            ".provision = "@ + rendered(at(configuration@, "provision"@)),
            "--set"@,
            ".probes = "@ + rendered(at(configuration@, "probes"@)),
        ]);
        r
    }

    /// What the installer in the guest is given.
    pub fn guest_payload(&self, files: Json) -> (r: Json)
        ensures
            r@ == JsonView::Object(
                seq![("deviceId"@, JsonView::Text(self.device_id@)), ("files"@, files@)],
            ),
    {
        let mut fields: Vec<(String, Json)> = Vec::new();
        fields.push(pair("deviceId", json_text(self.device_id.as_str())));
        fields.push(pair("files", files));
        assert(field_views(fields@) =~= seq![
            ("deviceId"@, JsonView::Text(self.device_id@)),
            ("files"@, files@),
        ]);
        object(fields)
    }

    /// Whether a storage command can be given to the guest.
    pub fn check_storage_command(&self, command: &str) -> (r: Result<(), Failure>)
        ensures
            refusal(r) == unless(
                self.provider == VmProvider::Lima && is_storage_command(command@),
                "Unsupported storage operation"@,
            ),
    {
        if self.provider == VmProvider::Lima && (text::same(command, "apply") || text::same(
            command,
            "activate",
        ) || text::same(command, "check") || text::same(command, "migrate") || text::same(
            command,
            "retire",
        ) || text::same(command, "restored")) {
            Ok(())
        } else {
            Err(fail("Unsupported storage operation"))
        }
    }

    /// How a storage command is run in the guest.
    pub fn storage_args(&self, command: &str) -> (r: Vec<String>)
        ensures
            contents(r@) == self.in_guest(
                seq![
                    "sudo"@,
                    "python3"@,
                    "/usr/local/lib/nodeharbor/storage_pool.py"@,
                    command@,
                ],
            ),
    {
        let words = words4(
            "sudo",
            "python3",
            "/usr/local/lib/nodeharbor/storage_pool.py",
            command,
        );
        self.guest_args(words.as_slice())
    }

    /// How the backup program is run in the guest.
    pub fn backup_args(&self, program: &str, action: &str) -> (r: Vec<String>)
        ensures
            contents(r@) == self.in_guest(
                seq!["sudo"@, "python3"@, "-c"@, program@, action@, self.device_id@],
            ),
    {
        let words = words6("sudo", "python3", "-c", program, action, self.device_id.as_str());
        self.guest_args(words.as_slice())
    }

    /// Whether an archive can be streamed for that purpose.
    pub fn check_backup_action(action: &str) -> (r: Result<(), Failure>)
        ensures
            refusal(r) == unless(
                action@ == "backup"@ || action@ == "verify"@ || action@ == "restore"@,
                "Unsupported backup operation"@,
            ),
    {
        if text::same(action, "backup") || text::same(action, "verify") || text::same(
            action,
            "restore",
        ) {
            Ok(())
        } else {
            Err(fail("Unsupported backup operation"))
        }
    }
}

/// The commands that change storage in the guest.
pub open spec fn is_storage_command(command: Seq<char>) -> bool {
    command == "apply"@ || command == "activate"@ || command == "check"@ || command == "migrate"@
        || command == "retire"@ || command == "restored"@
}

/// Whether the worker's service must be stopped before a storage command.
pub fn stops_service(command: &str) -> (r: bool)
    ensures
        r == (command@ == "apply"@ || command@ == "migrate"@),
{
    text::same(command, "apply") || text::same(command, "migrate")
}

/// Whether the guest has the worker's service.
pub fn service_loaded(output: &str) -> (r: bool)
    ensures
        r == (text::trim(output@) == "loaded"@),
{
    let state = text::trim_text(output);
    text::same(state.as_str(), "loaded")
}

/// The contents of a list of commands.
pub open spec fn command_views(commands: Seq<Vec<String>>) -> Seq<Seq<Seq<char>>> {
    commands.map_values(|c: Vec<String>| contents(c@))
}

fn rendered_field(j: &Json, key: &str) -> (r: String)
    ensures
        r@ == rendered(at(j@, key@)),
{
    match j.get(key) {
        Some(v) => crate::json::render(v),
        None => crate::json::render(&Json::Null),
    }
}

/// What a pod of the worker is: nothing while it is not ready, else its record
/// and whether it is a component of the worker; or why it cannot be read.
pub open spec fn pod_sight(pod: JsonView, system: Seq<Seq<char>>) -> Result<
    Option<(JsonView, bool)>,
    Seq<char>,
> {
    match text_of(at(pod, "state"@)) {
        None => Err("A workload has no state"@),
        Some(state) => if state != "SANDBOX_READY"@ && state != "SANDBOX_NOTREADY"@ {
            Err("A workload has an unknown state"@)
        } else if state != "SANDBOX_READY"@ {
            Ok(None)
        } else {
            let metadata = at(pod, "metadata"@);
            match named_field(metadata, "name"@) {
                None => Err("A workload has no name"@),
                Some(name) => match named_field(metadata, "namespace"@) {
                    None => Err("A workload has no namespace"@),
                    Some(namespace) => Ok(
                        Some(
                            (
                                pod_record(name, namespace),
                                namespace == "kube-system"@ || (text_of(at(metadata, "uid"@)) is Some
                                    && system.contains(text_of(at(metadata, "uid"@))->0)),
                            ),
                        ),
                    ),
                },
            }
        },
    }
}

/// A text field that is not empty.
pub open spec fn named_field(j: JsonView, key: Seq<char>) -> Option<Seq<char>> {
    match text_of(at(j, key)) {
        Some(t) => if t.len() > 0 {
            Some(t)
        } else {
            None
        },
        None => None,
    }
}

/// The record of a running pod.
pub open spec fn pod_record(name: Seq<char>, namespace: Seq<char>) -> JsonView {
    JsonView::Object(
        seq![
            ("name"@, JsonView::Text(name)),
            ("namespace"@, JsonView::Text(namespace)),
            ("state"@, JsonView::Text("running"@)),
        ],
    )
}

/// The workloads and the components among the first `n` pods, or the first
/// that cannot be read.
pub open spec fn sorted_pods(pods: Seq<JsonView>, system: Seq<Seq<char>>, n: int) -> Result<
    (Seq<JsonView>, Seq<JsonView>),
    Seq<char>,
>
    decreases n,
{
    if n <= 0 {
        Ok((Seq::empty(), Seq::empty()))
    } else {
        match sorted_pods(pods, system, n - 1) {
            Err(message) => Err(message),
            Ok(before) => match pod_sight(pods[n - 1], system) {
                Err(message) => Err(message),
                Ok(None) => Ok(before),
                Ok(Some(found)) => if found.1 {
                    Ok((before.0, before.1.push(found.0)))
                } else {
                    Ok((before.0.push(found.0), before.1))
                },
            },
        }
    }
}

proof fn lemma_pods_refused(pods: Seq<JsonView>, system: Seq<Seq<char>>, i: int, n: int)
    requires
        0 <= i <= n,
        sorted_pods(pods, system, i) is Err,
    ensures
        sorted_pods(pods, system, n) == sorted_pods(pods, system, i),
    decreases n,
{
    if i < n {
        lemma_pods_refused(pods, system, i, n - 1);
    }
}

/// What runs in the worker, or why that is unknown.
pub open spec fn pods_reported(output: Seq<char>, system: Seq<Seq<char>>) -> Result<
    (Seq<JsonView>, Seq<JsonView>),
    Seq<char>,
> {
    match crate::json::parsed_json(encode_utf8(output)) {
        Err(words) => Err(words),
        Ok(j) => match list_of(at(j, "items"@)) {
            None => Err("The worker returned no workload inventory"@),
            Some(pods) => sorted_pods(pods, system, pods.len() as int),
        },
    }
}

fn holds_text(items: &[String], t: &str) -> (r: bool)
    ensures
        r == contents(items@).contains(t@),
{
    let ghost v = contents(items@);
    for i in 0..items.len()
        invariant
            v == contents(items@),
            forall|j: int| 0 <= j < i ==> v[j] != t@,
    {
        assert(v[i as int] == items@[i as int]@);
        if text::same(items[i].as_str(), t) {
            assert(v[i as int] == t@);
            return true;
        }
    }
    false
}

fn record_pod(name: &str, namespace: &str) -> (r: Json)
    ensures
        r@ == pod_record(name@, namespace@),
{
    let mut fields: Vec<(String, Json)> = Vec::new();
    fields.push(pair("name", json_text(name)));
    fields.push(pair("namespace", json_text(namespace)));
    fields.push(pair("state", json_text("running")));
    assert(field_views(fields@) =~= pod_record(name@, namespace@)->Object_0);
    object(fields)
}

fn name_in<'a>(j: Option<&'a Json>, key: &str) -> (r: Option<&'a str>)
    ensures
        match r {
            Some(t) => named_field(
                match j {
                    Some(v) => v@,
                    None => JsonView::Null,
                },
                key@,
            ) == Some(t@),
            None => named_field(
                match j {
                    Some(v) => v@,
                    None => JsonView::Null,
                },
                key@,
            ) is None,
        },
{
    match j {
        None => None,
        Some(v) => match v.field_text(key) {
            Some(t) => {
                let chars = text::chars_of(t);
                if chars.len() > 0 {
                    Some(t)
                } else {
                    None
                }
            },
            None => None,
        },
    }
}

fn read_pod(pod: &Json, system: &[String]) -> (r: Result<Option<(Json, bool)>, Failure>)
    ensures
        match pod_sight(pod@, contents(system@)) {
            Err(message) => refusal(r) == Some(message),
            Ok(None) => r matches Ok(found) && found is None,
            Ok(Some(record)) => r matches Ok(found) && (found matches Some(f) && f.0@ == record.0
                && f.1 == record.1),
        },
{
    let state = match pod.field_text("state") {
        Some(state) => state,
        None => {
            return Err(fail("A workload has no state"));
        },
    };
    let ready = text::same(state, "SANDBOX_READY");
    if !ready && !text::same(state, "SANDBOX_NOTREADY") {
        return Err(fail("A workload has an unknown state"));
    }
    if !ready {
        return Ok(None);
    }
    let metadata = pod.get("metadata");
    let name = match name_in(metadata, "name") {
        Some(name) => name,
        None => {
            return Err(fail("A workload has no name"));
        },
    };
    let namespace = match name_in(metadata, "namespace") {
        Some(namespace) => namespace,
        None => {
            return Err(fail("A workload has no namespace"));
        },
    };
    let known = match metadata {
        Some(m) => match m.field_text("uid") {
            Some(uid) => holds_text(system, uid),
            None => false,
        },
        None => false,
    };
    Ok(Some((record_pod(name, namespace), text::same(namespace, "kube-system") || known)))
}

/// What runs in the worker, by what its container runtime lists.
pub fn workload_inventory(output: &str, system_pod_uids: &[String]) -> (r: Result<
    WorkloadInventory,
    Failure,
>)
    ensures
        match pods_reported(output@, contents(system_pod_uids@)) {
            Ok(sorted) => r matches Ok(w) && json_views(w.workloads@) == sorted.0 && json_views(
                w.system_components@,
            ) == sorted.1,
            Err(message) => refusal(r) == Some(message),
        },
{
    let value = match crate::json::parse_text(output) {
        Ok(value) => value,
        Err(e) => {
            return Err(e);
        },
    };
    let pods = match value.field_list("items") {
        Some(pods) => pods,
        None => {
            return Err(fail("The worker returned no workload inventory"));
        },
    };
    let ghost v = json_views(pods@);
    let ghost system = contents(system_pod_uids@);
    let mut workloads: Vec<Json> = Vec::new();
    let mut components: Vec<Json> = Vec::new();
    assert(json_views(workloads@) =~= Seq::<JsonView>::empty());
    assert(json_views(components@) =~= Seq::<JsonView>::empty());
    for n in 0..pods.len()
        invariant
            v == json_views(pods@),
            system == contents(system_pod_uids@),
            crate::json::parsed_json(encode_utf8(output@)) == Ok::<JsonView, Seq<char>>(value@),
            list_of(at(value@, "items"@)) == Some(v),
            sorted_pods(v, system, n as int) == Ok::<(Seq<JsonView>, Seq<JsonView>), Seq<char>>(
                (json_views(workloads@), json_views(components@)),
            ),
    {
        assert(v[n as int] == pods@[n as int]@);
        match read_pod(&pods[n], system_pod_uids) {
            Err(e) => {
                proof {
                    lemma_pods_refused(v, system, n + 1, v.len() as int);
                }
                return Err(e);
            },
            Ok(None) => {},
            Ok(Some(found)) => {
                let (record, component) = found;
                let ghost a = json_views(workloads@);
                let ghost b = json_views(components@);
                if component {
                    components.push(record);
                    assert(json_views(components@) =~= b.push(record@));
                } else {
                    workloads.push(record);
                    assert(json_views(workloads@) =~= a.push(record@));
                }
            },
        }
    }
    Ok(WorkloadInventory { workloads, system_components: components })
}

/// The original disk of a Multipass worker, as its host reports it: its
/// directory and its image.
pub fn original_disk(output: &str) -> (r: Result<(String, String), Failure>)
    ensures
        match crate::json::parsed_json(encode_utf8(output@)) {
            Err(words) => refusal(r) == Some(words),
            Ok(j) => match text_of(at(j, "directory"@)) {
                None => refusal(r) == Some("Missing original VM directory"@),
                Some(directory) => match text_of(at(j, "image"@)) {
                    None => refusal(r) == Some("Missing original VM disk"@),
                    Some(image) => r matches Ok(found) && found.0@ == directory && found.1@ == image,
                },
            },
        },
{
    let value = match crate::json::parse_text(output) {
        Ok(value) => value,
        Err(e) => {
            return Err(e);
        },
    };
    let directory = match value.field_text("directory") {
        Some(directory) => directory,
        None => {
            return Err(fail("Missing original VM directory"));
        },
    };
    match value.field_text("image") {
        Some(image) => Ok((directory.to_owned(), image.to_owned())),
        None => Err(fail("Missing original VM disk")),
    }
}

/// Whether the original disk of a Multipass worker stands in its directory.
pub fn check_original_disk(platform: &str, directory: &str, image: &str, regular: bool) -> (r: Result<
    (),
    Failure,
>)
    ensures
        refusal(r) == first_of(
            unless(
                host_within(platform@, image@, directory@),
                "Original worker disk location changed"@,
            ),
            unless(regular, "Original worker disk is not a file"@),
        ),
{
    if !host_paths::within(platform, image, directory) {
        return Err(fail("Original worker disk location changed"));
    }
    if !regular {
        return Err(fail("Original worker disk is not a file"));
    }
    Ok(())
}

proof fn lemma_distinct_keys()
    ensures
        "deviceId"@ != "name"@,
        "deviceId"@ != "provider"@,
        "deviceId"@ != "version"@,
        "name"@ != "provider"@,
        "name"@ != "version"@,
        "provider"@ != "version"@,
{
    reveal_strlit("deviceId");
    reveal_strlit("name");
    reveal_strlit("provider");
    reveal_strlit("version");
    assert("deviceId"@.len() == 8 && "name"@.len() == 4 && "provider"@.len() == 8
        && "version"@.len() == 7);
    assert("deviceId"@[0] != "provider"@[0]);
}

proof fn lemma_creation_is_flat(provider: VmProvider, device: Seq<char>, name: Seq<char>)
    ensures
        crate::json::is_flat_record(creation_json(provider, device, name)),
{
    reveal_strlit("deviceId");
    reveal_strlit("name");
    reveal_strlit("provider");
    reveal_strlit("version");
    assert("deviceId"@.take(0) =~= "name"@.take(0));
    assert("deviceId"@.take(0) =~= "provider"@.take(0));
    assert("deviceId"@.take(0) =~= "version"@.take(0));
    assert("name"@.take(0) =~= "provider"@.take(0));
    assert("name"@.take(0) =~= "version"@.take(0));
    assert("provider"@.take(0) =~= "version"@.take(0));
}

/// The record that is written for a VM is the one that is asked for.
pub proof fn creations_are_recognized(provider: VmProvider, device: Seq<char>, name: Seq<char>)
    ensures
        is_creation(creation_json(provider, device, name), provider, device, name),
{
    lemma_distinct_keys();
    let j = creation_json(provider, device, name);
    let f = j->Object_0;
    reveal_with_fuel(crate::json::key_from, 5);
    assert(crate::json::field(j, "deviceId"@) == Some(f[0].1));
    assert(crate::json::field(j, "name"@) == Some(f[1].1));
    if provider == VmProvider::Lima {
        assert(crate::json::field(j, "provider"@) == Some(f[2].1));
        assert(crate::json::field(j, "version"@) == Some(f[3].1));
    } else {
        assert(crate::json::field(j, "version"@) == Some(f[2].1));
    }
}

/// A pod is counted as a workload exactly when it is ready and no component of
/// the worker: a worker is idle only when no such pod is left.
pub proof fn workloads_are_ready_pods(pods: Seq<JsonView>, system: Seq<Seq<char>>, n: int, i: int)
    requires
        0 <= i < n <= pods.len(),
        sorted_pods(pods, system, n) is Ok,
        sorted_pods(pods, system, n)->Ok_0.0.len() == 0,
    ensures
        pod_sight(pods[i], system) is Ok,
        pod_sight(pods[i], system)->Ok_0 matches Some(found) ==> found.1,
    decreases n,
{
    if i < n - 1 {
        workloads_are_ready_pods(pods, system, n - 1, i);
    }
}

/// Where Multipass can be installed. On Windows it is below the directory of the
/// host's programs.
pub open spec fn multipass_places(platform: Seq<char>, programs: Seq<char>) -> Seq<Seq<char>> {
    if platform == "macos"@ {
        seq!["/usr/local/bin/multipass"@, "/opt/homebrew/bin/multipass"@]
    } else if platform == "linux"@ {
        seq!["/snap/bin/multipass"@, "/usr/bin/multipass"@]
    } else if platform == "windows"@ {
        seq![host_join(platform, programs, "Multipass/bin/multipass.exe"@)]
    } else {
        Seq::empty()
    }
}

impl MultipassRunner {
    /// Where Multipass can be installed.
    pub fn places(platform: &str, programs: &str) -> (r: Vec<String>)
        ensures
            contents(r@) == multipass_places(platform@, programs@),
    {
        let mut r: Vec<String> = Vec::new();
        if text::same(platform, "macos") {
            r.push("/usr/local/bin/multipass".to_owned());
            r.push("/opt/homebrew/bin/multipass".to_owned());
        } else if text::same(platform, "linux") {
            r.push("/snap/bin/multipass".to_owned());
            r.push("/usr/bin/multipass".to_owned());
        } else if text::same(platform, "windows") {
            r.push(host_paths::join(platform, programs, "Multipass/bin/multipass.exe"));
        }
        assert(contents(r@) =~= multipass_places(platform@, programs@));
        r
    }

    /// The program of Multipass: the first of its places that is there, else its
    /// name.
    pub fn program(places: &[String], present: &[bool]) -> (r: String)
        requires
            present@.len() == places@.len(),
        ensures
            match first_present(present@, 0) {
                Some(i) => r@ == places@[i]@,
                None => r@ == "multipass"@,
            },
    {
        for i in 0..places.len()
            invariant
                present@.len() == places@.len(),
                first_present(present@, 0) == first_present(present@, i as int),
        {
            if present[i] {
                return places[i].clone();
            }
        }
        "multipass".to_owned()
    }

    /// Whether Multipass keeps its disks where they can be inspected.
    pub fn check_driver(driver: &CommandOutput) -> (r: Result<(), Failure>)
        ensures
            refusal(r) == unless(
                driver@.success && text::trim(driver@.stdout) == "hyperv"@,
                "Shrink requires verifiable Multipass Hyper-V storage; this driver is unsupported and its settings were preserved"@,
            ),
    {
        let name = text::trim_text(driver.stdout.as_str());
        if driver.success && text::same(name.as_str(), "hyperv") {
            Ok(())
        } else {
            Err(
                fail(
                    "Shrink requires verifiable Multipass Hyper-V storage; this driver is unsupported and its settings were preserved",
                ),
            )
        }
    }
}

/// The first index from `i` on that is set.
pub open spec fn first_present(present: Seq<bool>, i: int) -> Option<int>
    decreases present.len() - i,
{
    if i < 0 || i >= present.len() {
        None
    } else if present[i] {
        Some(i)
    } else {
        first_present(present, i + 1)
    }
}

impl Vm {
    /// How the state of the worker's service is read in the guest.
    pub fn service_args(&self) -> (r: Vec<String>)
        ensures
            contents(r@) == self.in_guest(
                seq![
                    "systemctl"@,
                    "show"@,
                    "k3s-agent.service"@,
                    "--property=LoadState"@,
                    "--value"@,
                ],
            ),
    {
        let mut command = words4(
            "systemctl",
            "show",
            "k3s-agent.service",
            "--property=LoadState",
        );
        let ghost first = contents(command@);
        command.push("--value".to_owned());
        assert(contents(command@) =~= first.push("--value"@));
        assert(contents(command@) =~= seq![
            "systemctl"@,
            "show"@,
            "k3s-agent.service"@,
            "--property=LoadState"@,
            "--value"@,
        ]);
        self.guest_args(command.as_slice())
    }

    /// How the worker's service is stopped in the guest, until the next boot or
    /// for good.
    pub fn stop_service_args(&self, disable: bool) -> (r: Vec<String>)
        ensures
            contents(r@) == self.in_guest(
                if disable {
                    seq!["sudo"@, "systemctl"@, "disable"@, "--now"@, "k3s-agent.service"@]
                } else {
                    seq!["sudo"@, "systemctl"@, "stop"@, "k3s-agent.service"@]
                },
            ),
    {
        if disable {
            let mut command = words4("sudo", "systemctl", "disable", "--now");
            let ghost first = contents(command@);
            command.push("k3s-agent.service".to_owned());
            assert(contents(command@) =~= first.push("k3s-agent.service"@));
            assert(contents(command@) =~= seq![
                "sudo"@,
                "systemctl"@,
                "disable"@,
                "--now"@,
                "k3s-agent.service"@,
            ]);
            self.guest_args(command.as_slice())
        } else {
            let command = words4("sudo", "systemctl", "stop", "k3s-agent.service");
            self.guest_args(command.as_slice())
        }
    }

    /// How the worker is configured in the guest.
    pub fn configure_args(&self) -> (r: Vec<String>)
        ensures
            contents(r@) == self.in_guest(
                seq!["sudo"@, "python3"@, "/usr/local/lib/nodeharbor/configure_worker.py"@],
            ),
    {
        let command = words3("sudo", "python3", "/usr/local/lib/nodeharbor/configure_worker.py");
        self.guest_args(command.as_slice())
    }

    /// How a script is run in the guest.
    pub fn script_args(&self, script: &str) -> (r: Vec<String>)
        ensures
            contents(r@) == self.in_guest(seq!["sudo"@, "python3"@, "-c"@, script@]),
    {
        let command = words4("sudo", "python3", "-c", script);
        self.guest_args(command.as_slice())
    }
}

/// The unit of a quantity that Kubernetes reports.
#[derive(Clone, Copy, Debug, PartialEq, Eq, Structural)]
pub enum Unit {
    Kibi,
    Mebi,
    Gibi,
    Tebi,
    Milli,
    Kilo,
    Mega,
    Giga,
    Tera,
    One,
}

/// The unit that a quantity ends with, and how many characters name it.
pub open spec fn unit_of(t: Seq<char>) -> (Unit, nat) {
    if text::has_suffix(t, "Ki"@) {
        (Unit::Kibi, 2)
    } else if text::has_suffix(t, "Mi"@) {
        (Unit::Mebi, 2)
    } else if text::has_suffix(t, "Gi"@) {
        (Unit::Gibi, 2)
    } else if text::has_suffix(t, "Ti"@) {
        (Unit::Tebi, 2)
    } else if text::has_suffix(t, "m"@) {
        (Unit::Milli, 1)
    } else if text::has_suffix(t, "k"@) || text::has_suffix(t, "K"@) {
        (Unit::Kilo, 1)
    } else if text::has_suffix(t, "M"@) {
        (Unit::Mega, 1)
    } else if text::has_suffix(t, "G"@) {
        (Unit::Giga, 1)
    } else if text::has_suffix(t, "T"@) {
        (Unit::Tera, 1)
    } else {
        (Unit::One, 0)
    }
}

fn read_unit(t: &str) -> (r: (Unit, usize))
    ensures
        r.0 == unit_of(t@).0,
        r.1 == unit_of(t@).1,
{
    if text::ends_with(t, "Ki") {
        (Unit::Kibi, 2)
    } else if text::ends_with(t, "Mi") {
        (Unit::Mebi, 2)
    } else if text::ends_with(t, "Gi") {
        (Unit::Gibi, 2)
    } else if text::ends_with(t, "Ti") {
        (Unit::Tebi, 2)
    } else if text::ends_with(t, "m") {
        (Unit::Milli, 1)
    } else if text::ends_with(t, "k") || text::ends_with(t, "K") {
        (Unit::Kilo, 1)
    } else if text::ends_with(t, "M") {
        (Unit::Mega, 1)
    } else if text::ends_with(t, "G") {
        (Unit::Giga, 1)
    } else if text::ends_with(t, "T") {
        (Unit::Tera, 1)
    } else {
        (Unit::One, 0)
    }
}

/// The storage that Kubernetes reports of a node under that name, as a number and
/// its unit.
pub fn storage_quantity(node: &Json, name: &str) -> (r: Result<(String, Unit), Failure>)
    ensures
        match text_of(at(at(at(node@, "status"@), name@), "ephemeral-storage"@)) {
            None => refusal(r) == Some("Kubernetes did not report worker storage capacity"@),
            Some(t) => r matches Ok(q) && q.1 == unit_of(t).0 && q.0@ == t.take(
                t.len() - unit_of(t).1,
            ),
        },
{
    let reported = match node.get("status") {
        Some(status) => match status.get(name) {
            Some(kind) => kind.field_text("ephemeral-storage"),
            None => None,
        },
        None => None,
    };
    match reported {
        None => Err(fail("Kubernetes did not report worker storage capacity")),
        Some(t) => {
            let (unit, length) = read_unit(t);
            let chars = text::chars_of(t);
            proof {
                reveal_strlit("Ki");
                reveal_strlit("Mi");
                reveal_strlit("Gi");
                reveal_strlit("Ti");
                reveal_strlit("m");
                reveal_strlit("k");
                reveal_strlit("K");
                reveal_strlit("M");
                reveal_strlit("G");
                reveal_strlit("T");
            }
            let number = text::slice_of(chars.as_slice(), 0, chars.len() - length);
            assert(number@ =~= t@.take(t@.len() - length));
            Ok((text::string_of(number.as_slice()), unit))
        },
    }
}

/// The script that removes what a restored worker authenticated itself with.
pub open spec fn credentials_script() -> Seq<char> {
    "from pathlib import Path\np=Path('/var/lib/rancher/k3s/agent')\nfor name in ('client-kubelet.crt','client-kubelet.key','serving-kubelet.crt','serving-kubelet.key','client-kube-proxy.crt','client-kube-proxy.key','client-k3s-controller.crt','client-k3s-controller.key','kubelet.kubeconfig','kubeproxy.kubeconfig','k3scontroller.kubeconfig'):\n (p/name).unlink(missing_ok=True)\nPath('/etc/rancher/node/password').unlink(missing_ok=True)"@
}

/// The script that asks the worker's own Kubernetes about its node.
pub open spec fn node_script() -> Seq<char> {
    "import pathlib,subprocess,sys; root='/var/lib/nodeharbor/storage/k3s' if pathlib.Path('/etc/nodeharbor/storage-state.json').exists() else '/var/lib/rancher/k3s'; subprocess.run(['/usr/local/bin/k3s','kubectl','--kubeconfig',root+'/agent/kubelet.kubeconfig','get','node',sys.argv[1],'-o','json'],check=True)"@
}

/// The script that installs what the storage pool needs.
pub open spec fn packages_script() -> Seq<char> {
    "set -eu; if ! command -v pvs >/dev/null || ! command -v rsync >/dev/null || ! command -v growpart >/dev/null; then export DEBIAN_FRONTEND=noninteractive; apt-get update; apt-get install -y lvm2 e2fsprogs util-linux cloud-guest-utils rsync; fi; if [ \"$(systemctl show lima-guestagent.service --property=LoadState --value)\" = loaded ]; then systemctl disable --now lima-guestagent.service; fi"@
}

impl Vm {
    /// How the guest is told to finish its first start.
    pub fn initialization_args(&self) -> (r: Vec<String>)
        ensures
            contents(r@) == self.in_guest(seq!["sudo"@, "cloud-init"@, "status"@, "--wait"@]),
    {
        let command = words4("sudo", "cloud-init", "status", "--wait");
        self.guest_args(command.as_slice())
    }

    /// How the workloads in the guest are listed.
    pub fn workload_args(&self) -> (r: Vec<String>)
        ensures
            contents(r@) == self.in_guest(
                seq!["sudo"@, "/usr/local/bin/k3s"@, "crictl"@, "pods"@, "-o"@, "json"@],
            ),
    {
        let command = words6("sudo", "/usr/local/bin/k3s", "crictl", "pods", "-o", "json");
        self.guest_args(command.as_slice())
    }

    /// How a restored worker's old credentials are removed.
    pub fn credentials_args(&self) -> (r: Vec<String>)
        ensures
            contents(r@) == self.in_guest(
                seq!["sudo"@, "python3"@, "-c"@, credentials_script()],
            ),
    {
        self.script_args(
            "from pathlib import Path\np=Path('/var/lib/rancher/k3s/agent')\nfor name in ('client-kubelet.crt','client-kubelet.key','serving-kubelet.crt','serving-kubelet.key','client-kube-proxy.crt','client-kube-proxy.key','client-k3s-controller.crt','client-k3s-controller.key','kubelet.kubeconfig','kubeproxy.kubeconfig','k3scontroller.kubeconfig'):\n (p/name).unlink(missing_ok=True)\nPath('/etc/rancher/node/password').unlink(missing_ok=True)",
        )
    }

    /// How the worker's node is read from its own Kubernetes, or why the VM has
    /// no name there.
    pub fn node_args(&self) -> (r: Result<Vec<String>, Failure>)
        ensures
            refusal(r) == identity::identity_refusal(self.device_id@),
            r matches Ok(args) ==> contents(args@) == self.in_guest(
                seq![
                    "sudo"@,
                    "python3"@,
                    "-c"@,
                    node_script(),
                    identity::vm_name(identity::parsed_uuid(self.device_id@)->Ok_0),
                ],
            ),
    {
        match identity::managed_vm_name(self.device_id.as_str()) {
            Ok(name) => {
                let ghost last = name@;
                let mut command = words4(
                    "sudo",
                    "python3",
                    "-c",
                    "import pathlib,subprocess,sys; root='/var/lib/nodeharbor/storage/k3s' if pathlib.Path('/etc/nodeharbor/storage-state.json').exists() else '/var/lib/rancher/k3s'; subprocess.run(['/usr/local/bin/k3s','kubectl','--kubeconfig',root+'/agent/kubelet.kubeconfig','get','node',sys.argv[1],'-o','json'],check=True)",
                );
                let ghost first = contents(command@);
                command.push(name);
                assert(contents(command@) =~= first.push(last));
                assert(first.push(last) =~= seq![
                    "sudo"@,
                    "python3"@,
                    "-c"@,
                    node_script(),
                    last,
                ]);
                Ok(self.guest_args(command.as_slice()))
            },
            Err(e) => Err(e),
        }
    }

    /// How the guest gets what the storage pool needs.
    pub fn package_args(&self) -> (r: Vec<String>)
        ensures
            contents(r@) == self.in_guest(seq!["sudo"@, "sh"@, "-c"@, packages_script()]),
    {
        let command = words4(
            "sudo",
            "sh",
            "-c",
            "set -eu; if ! command -v pvs >/dev/null || ! command -v rsync >/dev/null || ! command -v growpart >/dev/null; then export DEBIAN_FRONTEND=noninteractive; apt-get update; apt-get install -y lvm2 e2fsprogs util-linux cloud-guest-utils rsync; fi; if [ \"$(systemctl show lima-guestagent.service --property=LoadState --value)\" = loaded ]; then systemctl disable --now lima-guestagent.service; fi",
        );
        self.guest_args(command.as_slice())
    }
}

} // verus!
