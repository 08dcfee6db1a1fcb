//! The Lima runtime: its configuration, requests and diagnostics.
use crate::activity::{redact, redacted};
use crate::failure::{fail, refusal, unless, Failure};
use crate::identity;
use crate::json::{
    at, field, field_views, json_text, json_views, list, list_of, object, pair, parsed_json, render,
    rendered, set_field, text_of, with_field, Json, JsonView,
};
use crate::paths;
use crate::policy::Resources;
use crate::storage::{has_id, knows_id, location_views, Location, LocationView, GIB};
use crate::text;
use crate::values::contents;
use crate::vm::{no_vm, CommandOutput, CommandOutputView, VmInfo, VmInfoView};
use vstd::prelude::*;
use vstd::utf8::encode_utf8;

verus! {

/// The runtime that holds the worker VM.
#[derive(Clone, Copy, Debug, PartialEq, Eq, Structural)]
pub enum VmProvider {
    Multipass,
    Lima,
}

impl Default for VmProvider {
    fn default() -> (r: Self)
        ensures
            r == VmProvider::Multipass,
    {
        VmProvider::Multipass
    }
}

/// The runtime of a platform: Lima on macOS and Linux.
pub open spec fn native_provider(platform: Seq<char>) -> VmProvider {
    if platform == "macos"@ || platform == "linux"@ {
        VmProvider::Lima
    } else {
        VmProvider::Multipass
    }
}

pub open spec fn provider_name(provider: VmProvider) -> Seq<char> {
    match provider {
        VmProvider::Multipass => "multipass"@,
        VmProvider::Lima => "lima"@,
    }
}

impl VmProvider {
    /// The runtime that new workers use on a platform.
    pub fn native(platform: &str) -> (r: Self)
        ensures
            r == native_provider(platform@),
    {
        if text::same(platform, "macos") || text::same(platform, "linux") {
            VmProvider::Lima
        } else {
            VmProvider::Multipass
        }
    }

    pub fn name(self) -> (r: &'static str)
        ensures
            r@ == provider_name(self),
    {
        match self {
            VmProvider::Multipass => "multipass",
            VmProvider::Lima => "lima",
        }
    }
}

/// Whether a line of Lima's output says that macOS denied the worker's
/// temporary directory.
pub open spec fn is_denial(line: Seq<char>) -> bool {
    match text::split_once(line, "[hostagent] mkdir "@) {
        None => false,
        Some((_, message)) => match text::split_once(message, ": "@) {
            None => false,
            Some((path, error)) => is_temporary_image(path) && is_permission_error(error),
        },
    }
}

/// Whether a path names a temporary disk image: the mark and a number.
pub open spec fn is_temporary_image(path: Seq<char>) -> bool {
    paths::file_name(path) matches Some(name) && text::has_prefix(name, "diskfs_iso"@)
        && name.len() > "diskfs_iso"@.len() && text::all_digits(
        name.skip("diskfs_iso"@.len() as int),
    )
}

/// Whether an error, up to the first quotation mark, is a refused permission.
pub open spec fn is_permission_error(error: Seq<char>) -> bool {
    let told = text::split_char(error, '"')[0];
    told == "operation not permitted"@ || told == "permission denied"@
}

/// Whether any line of the output is a denial.
pub open spec fn shows_denial(stderr: Seq<char>) -> bool {
    exists|i: int|
        0 <= i < text::split_char(stderr, '\n').len() && is_denial(
            #[trigger] text::line_at(stderr, i),
        )
}

/// What the owner can do about a denied temporary directory.
pub open spec fn guidance() -> Seq<char> {
    "Cannot create worker temporary files. Check NodeHarbor’s folder access in System Settings → Privacy & Security → Files & Folders. For an external drive, enable Removable Volumes for NodeHarbor, then quit and reopen the app.\nLima: "@
}

/// Whether a failed command of Lima is explained to the owner.
pub open spec fn explains(
    platform: Seq<char>,
    operation: Option<Seq<char>>,
    output: CommandOutputView,
) -> bool {
    platform == "macos"@ && (operation == Some("start"@) || operation == Some("create"@))
        && !output.success && shows_denial(output.stderr)
}

/// The output of a command with the explanation where there is one.
pub open spec fn diagnosed(
    platform: Seq<char>,
    operation: Option<Seq<char>>,
    output: CommandOutputView,
) -> CommandOutputView {
    if explains(platform, operation, output) {
        CommandOutputView {
            stderr: guidance() + text::take_at_most(redacted(output.stderr, Seq::empty()), 800),
            ..output
        }
    } else {
        output
    }
}

fn denial(line: &[char]) -> (r: bool)
    ensures
        r == is_denial(line@),
{
    let mark = text::chars_of("[hostagent] mkdir ");
    let message = match text::split_at_first(line, mark.as_slice()) {
        Some(halves) => halves.1,
        None => {
            return false;
        },
    };
    let colon = text::chars_of(": ");
    let (path, error) = match text::split_at_first(message.as_slice(), colon.as_slice()) {
        Some(halves) => (halves.0, halves.1),
        None => {
            return false;
        },
    };
    let place = text::string_of(path.as_slice());
    let temporary = match paths::name_of(place.as_str()) {
        None => false,
        Some(name) => {
            let image = text::chars_of("diskfs_iso");
            match text::strip_prefix(name.as_slice(), image.as_slice()) {
                None => false,
                Some(number) => number.len() > 0 && text::only_digits(number.as_slice()),
            }
        },
    };
    let pieces = text::split_on(error.as_slice(), '"');
    assert(text::piece_views(pieces@)[0] == pieces@[0]@);
    let told = text::string_of(pieces[0].as_slice());
    temporary && (text::same(told.as_str(), "operation not permitted") || text::same(
        told.as_str(),
        "permission denied",
    ))
}

/// Keep the actionable summary ahead of the VM's diagnostic truncation. Raw
/// command lines still reach the activity sink with its existing redactions.
pub fn startup_diagnostic(
    platform: &str,
    operation: Option<&str>,
    output: CommandOutput,
) -> (r: CommandOutput)
    ensures
        r@ == diagnosed(
            platform@,
            match operation {
                Some(o) => Some(o@),
                None => None,
            },
            output@,
        ),
{
    let starting = match operation {
        Some(o) => text::same(o, "start") || text::same(o, "create"),
        None => false,
    };
    if !text::same(platform, "macos") || !starting || output.success {
        return output;
    }
    let chars = text::chars_of(output.stderr.as_str());
    let lines = text::lines_of(chars.as_slice());
    let mut denied = false;
    for i in 0..lines.len()
        invariant
            lines@.len() == text::split_char(output.stderr@, '\n').len(),
            forall|j: int|
                0 <= j < lines@.len() ==> (#[trigger] lines@[j])@ == text::line_at(
                    output.stderr@,
                    j,
                ),
            denied == exists|j: int| 0 <= j < i && is_denial((#[trigger] lines@[j])@),
    {
        if denial(lines[i].as_slice()) {
            denied = true;
        }
    }
    proof {
        if denied {
            let j = choose|j: int| 0 <= j < lines@.len() && is_denial((#[trigger] lines@[j])@);
            assert(is_denial(text::line_at(output.stderr@, j)));
        }
        if shows_denial(output.stderr@) {
            let j = choose|j: int|
                0 <= j < text::split_char(output.stderr@, '\n').len() && is_denial(
                    #[trigger] text::line_at(output.stderr@, j),
                );
            assert(is_denial(lines@[j]@));
        }
    }
    if !denied {
        return output;
    }
    // Redact before shortening so truncation cannot expose part of a secret.
    let none: Vec<String> = Vec::new();
    assert(contents(none@) == Seq::<Seq<char>>::empty());
    let shown = redact(output.stderr.as_str(), none.as_slice());
    let details = text::take_text(shown.as_str(), 800);
    let stderr = text::join2(
        "Cannot create worker temporary files. Check NodeHarbor’s folder access in System Settings → Privacy & Security → Files & Folders. For an external drive, enable Removable Volumes for NodeHarbor, then quit and reopen the app.\nLima: ",
        details.as_str(),
    );
    CommandOutput { success: output.success, stdout: output.stdout, stderr }
}

/// What Lima says of the worker, or why its answer is no such thing.
pub open spec fn lima_info(output: Seq<char>) -> Result<VmInfoView, Seq<char>> {
    if text::trim(output).len() == 0 {
        Ok(no_vm())
    } else {
        match parsed_json(encode_utf8(output)) {
            Err(_) => Err("Lima returned invalid worker information"@),
            Ok(value) => instance_info(value),
        }
    }
}

/// What an instance record of Lima says of the worker.
pub open spec fn instance_info(value: JsonView) -> Result<VmInfoView, Seq<char>> {
    if text_of(at(value, "name"@)) != Some("worker"@) {
        Err("Lima returned a different instance; it has been left untouched"@)
    } else {
        match text_of(at(value, "status"@)) {
            None => Err("Lima returned no worker state"@),
            Some(status) => Ok(
                VmInfoView {
                    installed: true,
                    running: status != "Stopped"@,
                    reachable: status == "Running"@,
                    stopped: status == "Stopped"@,
                    addresses: Seq::empty(),
                },
            ),
        }
    }
}

/// Read an instance record of Lima.
pub fn read_instance(value: &Json) -> (r: Result<VmInfo, Failure>)
    ensures
        match instance_info(value@) {
            Ok(info) => r matches Ok(i) && i@ == info,
            Err(message) => refusal(r) == Some(message),
        },
{
    if !value.field_is("name", "worker") {
        return Err(fail("Lima returned a different instance; it has been left untouched"));
    }
    match value.field_text("status") {
        None => Err(fail("Lima returned no worker state")),
        Some(status) => {
            let stopped = text::same(status, "Stopped");
            let r = VmInfo {
                installed: true,
                running: !stopped,
                reachable: text::same(status, "Running"),
                stopped,
                addresses: Vec::new(),
            };
            assert(r@.addresses == Seq::<Seq<char>>::empty());
            Ok(r)
        },
    }
}

/// Read what Lima lists of the worker. Nothing listed means there is no worker.
pub fn info(output: &str) -> (r: Result<VmInfo, Failure>)
    ensures
        match lima_info(output@) {
            Ok(info) => r matches Ok(i) && i@ == info,
            Err(message) => refusal(r) == Some(message),
        },
{
    let chars = text::chars_of(output);
    let kept = text::trimmed(chars.as_slice());
    if kept.len() == 0 {
        return Ok(VmInfo::default());
    }
    match crate::json::parse_text(output) {
        Err(_) => Err(fail("Lima returned invalid worker information")),
        Ok(value) => read_instance(&value),
    }
}

/// The letter of a data disk's device: the system disk has the first.
pub open spec fn device_letter(index: int) -> char {
    (98 + index) as char
}

/// What the guest is told of one disk.
pub open spec fn disk_request(
    location: LocationView,
    index: int,
    previous: Seq<LocationView>,
) -> JsonView {
    JsonView::Object(
        seq![
            ("allocationBytes"@, JsonView::Number((location.allocation_gib * GIB) as u64)),
            ("device"@, JsonView::Text("/dev/vd"@.push(device_letter(index)))),
            ("id"@, JsonView::Text(location.id)),
            ("initialize"@, JsonView::Bool(!has_id(previous, location.id))),
        ],
    )
}

/// What the guest is told of its storage pool. Only disks that are new to the
/// pool are initialized.
pub open spec fn pool_request(
    device: Seq<char>,
    pool_id: Seq<char>,
    locations: Seq<LocationView>,
    previous: Seq<LocationView>,
    generation: u64,
) -> JsonView {
    JsonView::Object(
        seq![
            ("deviceId"@, JsonView::Text(device)),
            (
                "disks"@,
                JsonView::List(
                    Seq::new(
                        locations.len(),
                        |i: int| disk_request(locations[i], i, previous),
                    ),
                ),
            ),
            ("format"@, JsonView::Number(1)),
            ("generation"@, JsonView::Number(generation)),
            ("poolId"@, JsonView::Text(pool_id)),
        ],
    )
}

/// Locations that a request can describe: few enough for their device letters,
/// and small enough for their sizes in bytes.
pub open spec fn attachable(locations: Seq<LocationView>) -> bool {
    locations.len() <= 158 && forall|i: int|
        0 <= i < locations.len() ==> (#[trigger] locations[i]).allocation_gib * GIB <= u64::MAX
}

fn letter(index: usize) -> (r: char)
    requires
        index < 158,
    ensures
        r == device_letter(index as int),
{
    let code: u8 = 98u8 + index as u8;
    code as char
}

/// What the guest is told of its storage pool.
pub fn storage_request(
    device: &str,
    pool_id: &str,
    locations: &[Location],
    previous: &[Location],
    generation: u64,
) -> (r: Json)
    requires
        attachable(location_views(locations@)),
    ensures
        r@ == pool_request(
            device@,
            pool_id@,
            location_views(locations@),
            location_views(previous@),
            generation,
        ),
{
    let ghost v = location_views(locations@);
    let ghost old_views = location_views(previous@);
    let ghost wanted = Seq::new(v.len(), |i: int| disk_request(v[i], i, old_views));
    let mut disks: Vec<Json> = Vec::new();
    for i in 0..locations.len()
        invariant
            v == location_views(locations@),
            old_views == location_views(previous@),
            attachable(v),
            wanted == Seq::new(v.len(), |i: int| disk_request(v[i], i, old_views)),
            json_views(disks@) == wanted.take(i as int),
    {
        let location = &locations[i];
        assert(v[i as int] == location@);
        let mut device_path = "/dev/vd".to_owned();
        device_path.push(letter(i));
        let fresh = !knows_id(previous, location.id.as_str());
        let bytes = location.allocation_gib * GIB;
        let mut fields: Vec<(String, Json)> = Vec::new();
        fields.push(pair("allocationBytes", Json::Number(bytes)));
        fields.push(pair("device", Json::Text(device_path)));
        fields.push(pair("id", json_text(location.id.as_str())));
        fields.push(pair("initialize", Json::Bool(fresh)));
        assert(field_views(fields@) =~= disk_request(v[i as int], i as int, old_views)->Object_0);
        let ghost before = json_views(disks@);
        disks.push(object(fields));
        assert(json_views(disks@) == before.push(wanted[i as int]));
    }
    assert(wanted.take(locations@.len() as int) == wanted);
    let mut fields: Vec<(String, Json)> = Vec::new();
    fields.push(pair("deviceId", json_text(device)));
    fields.push(pair("disks", list(disks)));
    fields.push(pair("format", Json::Number(1)));
    fields.push(pair("generation", Json::Number(generation)));
    fields.push(pair("poolId", json_text(pool_id)));
    assert(field_views(fields@) =~= pool_request(
        device@,
        pool_id@,
        v,
        old_views,
        generation,
    )->Object_0);
    object(fields)
}

/// What each attached disk is to Lima.
pub open spec fn attachments(locations: Seq<LocationView>) -> JsonView {
    JsonView::List(
        Seq::new(
            locations.len(),
            |i: int|
                JsonView::Object(
                    seq![
                        ("format"@, JsonView::Bool(false)),
                        ("name"@, JsonView::Text(locations[i].id)),
                    ],
                ),
        ),
    )
}

/// What each attached disk is to Lima.
pub fn attached_disks(locations: &[Location]) -> (r: Json)
    ensures
        r@ == attachments(location_views(locations@)),
{
    let ghost v = location_views(locations@);
    let ghost wanted = attachments(v)->List_0;
    let mut disks: Vec<Json> = Vec::new();
    for i in 0..locations.len()
        invariant
            v == location_views(locations@),
            wanted == attachments(v)->List_0,
            json_views(disks@) == wanted.take(i as int),
    {
        assert(v[i as int] == locations@[i as int]@);
        let mut fields: Vec<(String, Json)> = Vec::new();
        fields.push(pair("format", Json::Bool(false)));
        fields.push(pair("name", json_text(locations[i].id.as_str())));
        assert(field_views(fields@) =~= wanted[i as int]->Object_0);
        let ghost before = json_views(disks@);
        disks.push(object(fields));
        assert(json_views(disks@) == before.push(wanted[i as int]));
    }
    assert(wanted.take(locations@.len() as int) == wanted);
    list(disks)
}

/// The guest program that owns the storage pool.
pub open spec fn pool_program() -> Seq<char> {
    "/usr/local/lib/nodeharbor/storage_pool.py"@
}

/// Where the guest finds the request for its storage.
pub open spec fn request_path() -> Seq<char> {
    "/etc/nodeharbor/storage-request.json"@
}

/// Whether a script of the configuration runs the storage pool program.
pub open spec fn runs_pool(entry: JsonView) -> bool {
    text_of(at(entry, "script"@)) matches Some(script) && text::occurs(script, pool_program())
}

/// Whether a provisioning entry is not about the storage pool.
pub open spec fn is_unrelated(entry: JsonView) -> bool {
    text_of(at(entry, "path"@)) != Some(request_path()) && !runs_pool(entry)
}

/// The provisioning entry that hands the request to the guest.
pub open spec fn request_entry(request: JsonView) -> JsonView {
    JsonView::Object(
        seq![
            ("content"@, JsonView::Text(rendered(request))),
            ("mode"@, JsonView::Text("data"@)),
            ("overwrite"@, JsonView::Bool(true)),
            ("owner"@, JsonView::Text("root:root"@)),
            ("path"@, JsonView::Text(request_path())),
            ("permissions"@, JsonView::Text("0600"@)),
        ],
    )
}

/// The script that brings the storage pool up at boot.
pub open spec fn pool_script(migrate: bool) -> Seq<char> {
    "#!/bin/sh\nset -eu\nif ! command -v pvs >/dev/null || ! command -v rsync >/dev/null || ! command -v growpart >/dev/null; then\n  export DEBIAN_FRONTEND=noninteractive\n  apt-get update\n  apt-get install -y lvm2 e2fsprogs util-linux cloud-guest-utils rsync\nfi\nif [ -f /etc/nodeharbor/storage-state.json ] || [ -f /etc/nodeharbor/storage-pending.json ]; then\n  python3 /usr/local/lib/nodeharbor/storage_pool.py activate\nelse\n  python3 /usr/local/lib/nodeharbor/storage_pool.py apply < /etc/nodeharbor/storage-request.json\nfi\n"@
        + (if migrate {
        "python3 /usr/local/lib/nodeharbor/storage_pool.py migrate\n"@
    } else {
        Seq::empty()
    }) + "python3 /usr/local/lib/nodeharbor/storage_pool.py check\n"@
}

/// The provisioning entry that brings the storage pool up at boot.
pub open spec fn script_entry(migrate: bool) -> JsonView {
    JsonView::Object(
        seq![
            ("mode"@, JsonView::Text("system"@)),
            ("script"@, JsonView::Text(pool_script(migrate))),
        ],
    )
}

/// The readiness probe of the storage pool.
pub open spec fn pool_probe() -> JsonView {
    JsonView::Object(
        seq![
            (
                "description"@,
                JsonView::Text("The complete configured worker storage must be mounted"@),
            ),
            ("mode"@, JsonView::Text("readiness"@)),
            (
                "script"@,
                JsonView::Text(
                    "#!/bin/sh\nsudo python3 /usr/local/lib/nodeharbor/storage_pool.py check\n"@,
                ),
            ),
        ],
    )
}

/// The configuration with its runtime settings and attached disks.
pub open spec fn with_attachments(
    configuration: JsonView,
    locations: Seq<LocationView>,
) -> JsonView {
    let plain = with_field(configuration, "plain"@, JsonView::Bool(true));
    let ssh = with_field(
        plain,
        "ssh"@,
        with_field(at(plain, "ssh"@), "overVsock"@, JsonView::Bool(false)),
    );
    with_field(ssh, "additionalDisks"@, attachments(locations))
}

/// The provisioning with the entries of the storage pool replaced.
pub open spec fn provisioned(
    entries: Seq<JsonView>,
    request: JsonView,
    migrate: bool,
) -> Seq<JsonView> {
    entries.filter(|e: JsonView| is_unrelated(e)).push(request_entry(request)).push(
        script_entry(migrate),
    )
}

/// The readiness probes with that of the storage pool replaced.
pub open spec fn probed(probes: Seq<JsonView>) -> Seq<JsonView> {
    probes.filter(|e: JsonView| !runs_pool(e)).push(pool_probe())
}

/// The configuration for the worker's storage, or why there is none.
pub open spec fn storage_configuration(
    configuration: JsonView,
    device: Seq<char>,
    pool_id: Seq<char>,
    locations: Seq<LocationView>,
    previous: Seq<LocationView>,
    generation: u64,
    migrate: bool,
) -> Result<JsonView, Seq<char>> {
    if identity::identity_refusal(device) is Some {
        Err(identity::identity_refusal(device)->0)
    } else if identity::identity_refusal(pool_id) is Some {
        Err(identity::identity_refusal(pool_id)->0)
    } else if locations.len() == 0 || locations.len() > 16 {
        Err("Choose one to sixteen storage disks"@)
    } else {
        let attached = with_attachments(configuration, locations);
        match list_of(at(attached, "provision"@)) {
            None => Err("Missing worker provisioning"@),
            Some(entries) => {
                let request = pool_request(device, pool_id, locations, previous, generation);
                let ready = with_field(
                    attached,
                    "provision"@,
                    JsonView::List(provisioned(entries, request, migrate)),
                );
                match at(ready, "probes"@) {
                    JsonView::Null => Ok(
                        with_field(ready, "probes"@, JsonView::List(probed(Seq::empty()))),
                    ),
                    JsonView::List(probes) => Ok(
                        with_field(ready, "probes"@, JsonView::List(probed(probes))),
                    ),
                    _ => Err("Invalid worker readiness probes"@),
                }
            },
        }
    }
}

fn pool_runs(entry: &Json) -> (r: bool)
    ensures
        r == runs_pool(entry@),
{
    match entry.field_text("script") {
        Some(script) => text::contains_text(script, "/usr/local/lib/nodeharbor/storage_pool.py"),
        None => false,
    }
}

fn make_request_entry(request: &Json) -> (r: Json)
    ensures
        r@ == request_entry(request@),
{
    let content = render(request);
    let mut fields: Vec<(String, Json)> = Vec::new();
    fields.push(pair("content", Json::Text(content)));
    fields.push(pair("mode", json_text("data")));
    fields.push(pair("overwrite", Json::Bool(true)));
    fields.push(pair("owner", json_text("root:root")));
    fields.push(pair("path", json_text("/etc/nodeharbor/storage-request.json")));
    fields.push(pair("permissions", json_text("0600")));
    assert(field_views(fields@) =~= request_entry(request@)->Object_0);
    object(fields)
}

fn make_script_entry(migrate: bool) -> (r: Json)
    ensures
        r@ == script_entry(migrate),
{
    let mut script = "#!/bin/sh\nset -eu\nif ! command -v pvs >/dev/null || ! command -v rsync >/dev/null || ! command -v growpart >/dev/null; then\n  export DEBIAN_FRONTEND=noninteractive\n  apt-get update\n  apt-get install -y lvm2 e2fsprogs util-linux cloud-guest-utils rsync\nfi\nif [ -f /etc/nodeharbor/storage-state.json ] || [ -f /etc/nodeharbor/storage-pending.json ]; then\n  python3 /usr/local/lib/nodeharbor/storage_pool.py activate\nelse\n  python3 /usr/local/lib/nodeharbor/storage_pool.py apply < /etc/nodeharbor/storage-request.json\nfi\n".to_owned();
    if migrate {
        script.append("python3 /usr/local/lib/nodeharbor/storage_pool.py migrate\n");
    }
    script.append("python3 /usr/local/lib/nodeharbor/storage_pool.py check\n");
    assert(script@ =~= pool_script(migrate));
    let mut fields: Vec<(String, Json)> = Vec::new();
    fields.push(pair("mode", json_text("system")));
    fields.push(pair("script", Json::Text(script)));
    assert(field_views(fields@) =~= script_entry(migrate)->Object_0);
    object(fields)
}

fn make_probe() -> (r: Json)
    ensures
        r@ == pool_probe(),
{
    let mut fields: Vec<(String, Json)> = Vec::new();
    fields.push(
        pair(
            "description",
            json_text("The complete configured worker storage must be mounted"),
        ),
    );
    fields.push(pair("mode", json_text("readiness")));
    fields.push(
        pair(
            "script",
            json_text(
                "#!/bin/sh\nsudo python3 /usr/local/lib/nodeharbor/storage_pool.py check\n",
            ),
        ),
    );
    assert(field_views(fields@) =~= pool_probe()->Object_0);
    object(fields)
}

fn unrelated_entries(entries: &[Json]) -> (r: Vec<Json>)
    ensures
        json_views(r@) == json_views(entries@).filter(|e: JsonView| is_unrelated(e)),
{
    let ghost keep = |e: JsonView| is_unrelated(e);
    let ghost v = json_views(entries@);
    let mut r: Vec<Json> = Vec::new();
    assert(v.take(0).filter(keep) == Seq::<JsonView>::empty()) by {
        reveal(Seq::filter);
    }
    assert(json_views(r@) == v.take(0).filter(keep));
    for i in 0..entries.len()
        invariant
            v == json_views(entries@),
            keep == (|e: JsonView| is_unrelated(e)),
            json_views(r@) == v.take(i as int).filter(keep),
    {
        assert(v.take(i + 1) == v.take(i as int).push(v[i as int]));
        assert(v[i as int] == entries@[i as int]@);
        proof {
            crate::storage_lifecycle::lemma_filter_push(v.take(i as int), v[i as int], keep);
        }
        if !entries[i].field_is("path", "/etc/nodeharbor/storage-request.json") && !pool_runs(
            &entries[i],
        ) {
            let ghost before = json_views(r@);
            r.push(entries[i].copy());
            assert(json_views(r@) == before.push(v[i as int]));
        }
    }
    assert(v.take(v.len() as int) == v);
    r
}

fn unrelated_probes(probes: &[Json]) -> (r: Vec<Json>)
    ensures
        json_views(r@) == json_views(probes@).filter(|e: JsonView| !runs_pool(e)),
{
    let ghost keep = |e: JsonView| !runs_pool(e);
    let ghost v = json_views(probes@);
    let mut r: Vec<Json> = Vec::new();
    assert(v.take(0).filter(keep) == Seq::<JsonView>::empty()) by {
        reveal(Seq::filter);
    }
    assert(json_views(r@) == v.take(0).filter(keep));
    for i in 0..probes.len()
        invariant
            v == json_views(probes@),
            keep == (|e: JsonView| !runs_pool(e)),
            json_views(r@) == v.take(i as int).filter(keep),
    {
        assert(v.take(i + 1) == v.take(i as int).push(v[i as int]));
        assert(v[i as int] == probes@[i as int]@);
        proof {
            crate::storage_lifecycle::lemma_filter_push(v.take(i as int), v[i as int], keep);
        }
        if !pool_runs(&probes[i]) {
            let ghost before = json_views(r@);
            r.push(probes[i].copy());
            assert(json_views(r@) == before.push(v[i as int]));
        }
    }
    assert(v.take(v.len() as int) == v);
    r
}

/// The same durable contract is used by first boot and retained-VM replacement.
/// Only the agent's own storage entries are replaced; owner identity, guest
/// files, compute resources, and unrelated provisioning remain intact.
pub fn update_storage_configuration(
    configuration: &Json,
    device: &str,
    pool_id: &str,
    locations: &[Location],
    previous: &[Location],
    generation: u64,
    migrate: bool,
) -> (r: Result<Json, Failure>)
    requires
        configuration@ is Object || configuration@ is Null,
        at(configuration@, "ssh"@) is Object || at(configuration@, "ssh"@) is Null,
        locations@.len() <= 16 ==> attachable(location_views(locations@)),
    ensures
        match storage_configuration(
            configuration@,
            device@,
            pool_id@,
            location_views(locations@),
            location_views(previous@),
            generation,
            migrate,
        ) {
            Ok(updated) => r matches Ok(c) && c@ == updated,
            Err(message) => refusal(r) == Some(message),
        },
{
    match identity::identity_value(device) {
        Ok(_) => {},
        Err(e) => {
            return Err(e);
        },
    }
    match identity::identity_value(pool_id) {
        Ok(_) => {},
        Err(e) => {
            return Err(e);
        },
    }
    if locations.len() == 0 || locations.len() > 16 {
        return Err(fail("Choose one to sixteen storage disks"));
    }
    let plain = set_field(configuration.copy(), "plain", Json::Bool(true));
    let ssh = match plain.get("ssh") {
        Some(ssh) => ssh.copy(),
        None => Json::Null,
    };
    let ssh = set_field(ssh, "overVsock", Json::Bool(false));
    let secured = set_field(plain, "ssh", ssh);
    let attached = set_field(secured, "additionalDisks", attached_disks(locations));
    let entries = match attached.field_list("provision") {
        Some(entries) => entries,
        None => {
            return Err(fail("Missing worker provisioning"));
        },
    };
    let request = storage_request(device, pool_id, locations, previous, generation);
    let ghost old_entries = json_views(entries@);
    let mut provision = unrelated_entries(entries.as_slice());
    let ghost kept = json_views(provision@);
    provision.push(make_request_entry(&request));
    provision.push(make_script_entry(migrate));
    assert(json_views(provision@) =~= kept.push(request_entry(request@)).push(
        script_entry(migrate),
    ));
    let ready = set_field(attached, "provision", list(provision));
    let none: Vec<Json> = Vec::new();
    let mut probes = match ready.get("probes") {
        None => {
            assert(json_views(none@) =~= Seq::<JsonView>::empty());
            unrelated_probes(none.as_slice())
        },
        Some(probes) => {
            if probes.is_null() {
                assert(json_views(none@) =~= Seq::<JsonView>::empty());
                unrelated_probes(none.as_slice())
            } else {
                match probes.as_list() {
                    Some(probes) => unrelated_probes(probes.as_slice()),
                    None => {
                        return Err(fail("Invalid worker readiness probes"));
                    },
                }
            }
        },
    };
    let ghost others = json_views(probes@);
    probes.push(make_probe());
    assert(json_views(probes@) =~= others.push(pool_probe()));
    Ok(set_field(ready, "probes", list(probes)))
}

/// A field that is already set as wanted stays as it is.
proof fn lemma_already_set(j: JsonView, key: Seq<char>, v: JsonView)
    requires
        field(j, key) == Some(v),
    ensures
        with_field(j, key, v) == j,
{
    let fields = j->Object_0;
    crate::json::lemma_key_from(fields, key, 0);
    let i = crate::json::key_from(fields, key, 0)->0;
    assert(fields.update(i, (key, v)) =~= fields);
}

/// Filtering what was filtered changes nothing.
proof fn lemma_filter_again<T>(s: Seq<T>, keep: spec_fn(T) -> bool)
    ensures
        s.filter(keep).filter(keep) == s.filter(keep),
    decreases s.len(),
{
    reveal(Seq::filter);
    if s.len() > 0 {
        lemma_filter_again(s.drop_last(), keep);
        if keep(s.last()) {
            crate::storage_lifecycle::lemma_filter_push(
                s.drop_last().filter(keep),
                s.last(),
                keep,
            );
        }
    }
}

/// The storage entries of the configuration are recognized as such.
proof fn lemma_own_entries(request: JsonView, migrate: bool)
    ensures
        !is_unrelated(request_entry(request)),
        !is_unrelated(script_entry(migrate)),
        runs_pool(pool_probe()),
{
    reveal_strlit("mode");
    reveal_strlit("path");
    reveal_strlit("script");
    reveal_strlit("description");
    reveal_strlit("content");
    reveal_strlit("overwrite");
    reveal_strlit("owner");
    let entry = request_entry(request)->Object_0;
    assert(entry[1].0[0] == 'm' && "path"@[0] == 'p');
    assert(entry[0].0.len() == 7 && entry[2].0.len() == 9 && entry[3].0.len() == 5);
    assert(entry[4].0 == "path"@);
    crate::json::lemma_key_from(entry, "path"@, 0);
    assert(crate::json::key_from(entry, "path"@, 0) == Some(4int));
    let system = script_entry(migrate)->Object_0;
    assert(system[0].0.len() == 4 && "script"@.len() == 6);
    assert(system[1].0 == "script"@);
    assert(crate::json::key_from(system, "script"@, 0) == crate::json::key_from(
        system,
        "script"@,
        1,
    ));
    reveal_strlit("python3 /usr/local/lib/nodeharbor/storage_pool.py check\n");
    reveal_strlit("/usr/local/lib/nodeharbor/storage_pool.py");
    let last = "python3 /usr/local/lib/nodeharbor/storage_pool.py check\n"@;
    let script = pool_script(migrate);
    let program = pool_program();
    let start = script.len() - last.len();
    assert(last.subrange(8, 8int + program.len()) =~= program);
    assert(script.subrange(start + 8, start + 8 + program.len()) =~= last.subrange(
        8,
        8int + program.len(),
    ));
    assert(text::occurs_at(script, program, start + 8));
    let probe = pool_probe()->Object_0;
    assert(probe[0].0.len() == 11 && probe[1].0.len() == 4);
    assert(probe[2].0 == "script"@);
    assert(crate::json::key_from(probe, "script"@, 0) == crate::json::key_from(
        probe,
        "script"@,
        1,
    ));
    assert(crate::json::key_from(probe, "script"@, 1) == crate::json::key_from(
        probe,
        "script"@,
        2,
    ));
    reveal_strlit("#!/bin/sh\nsudo python3 /usr/local/lib/nodeharbor/storage_pool.py check\n");
    let check = "#!/bin/sh\nsudo python3 /usr/local/lib/nodeharbor/storage_pool.py check\n"@;
    assert(check.subrange(23, 23int + program.len()) =~= program);
    assert(text::occurs_at(check, program, 23));
}

/// Replacing the storage entries again changes nothing: neither provisioning
/// nor probes are ever duplicated.
pub proof fn storage_configuration_is_idempotent(
    configuration: JsonView,
    device: Seq<char>,
    pool_id: Seq<char>,
    locations: Seq<LocationView>,
    previous: Seq<LocationView>,
    generation: u64,
    migrate: bool,
)
    requires
        storage_configuration(
            configuration,
            device,
            pool_id,
            locations,
            previous,
            generation,
            migrate,
        ) is Ok,
    ensures
        ({
            let once = storage_configuration(
                configuration,
                device,
                pool_id,
                locations,
                previous,
                generation,
                migrate,
            );
            storage_configuration(
                once->Ok_0,
                device,
                pool_id,
                locations,
                previous,
                generation,
                migrate,
            ) == once
        }),
{
    let once = storage_configuration(
        configuration,
        device,
        pool_id,
        locations,
        previous,
        generation,
        migrate,
    )->Ok_0;
    let request = pool_request(device, pool_id, locations, previous, generation);
    reveal_strlit("plain");
    reveal_strlit("ssh");
    reveal_strlit("overVsock");
    reveal_strlit("additionalDisks");
    reveal_strlit("provision");
    reveal_strlit("probes");
    let t = JsonView::Bool(true);
    let plain = with_field(configuration, "plain"@, t);
    let secure = with_field(at(plain, "ssh"@), "overVsock"@, JsonView::Bool(false));
    let ssh = with_field(plain, "ssh"@, secure);
    let attached = with_field(ssh, "additionalDisks"@, attachments(locations));
    let entries = list_of(at(attached, "provision"@))->0;
    let new_entries = provisioned(entries, request, migrate);
    let ready = with_field(attached, "provision"@, JsonView::List(new_entries));
    let old_probes = match at(ready, "probes"@) {
        JsonView::List(probes) => probes,
        _ => Seq::empty(),
    };
    let new_probes = probed(old_probes);
    assert(once == with_field(ready, "probes"@, JsonView::List(new_probes)));
    assert("plain"@.len() == 5 && "ssh"@.len() == 3 && "additionalDisks"@.len() == 15
        && "provision"@.len() == 9 && "probes"@.len() == 6);
    assert(attached == with_attachments(configuration, locations));
    // Each field holds what it was set to.
    crate::json::set_field_is_read_back(ready, "probes"@, JsonView::List(new_probes), "plain"@);
    crate::json::set_field_is_read_back(ready, "probes"@, JsonView::List(new_probes), "ssh"@);
    crate::json::set_field_is_read_back(
        ready,
        "probes"@,
        JsonView::List(new_probes),
        "additionalDisks"@,
    );
    crate::json::set_field_is_read_back(ready, "probes"@, JsonView::List(new_probes), "provision"@);
    let l = JsonView::List(new_entries);
    crate::json::set_field_is_read_back(attached, "provision"@, l, "plain"@);
    crate::json::set_field_is_read_back(attached, "provision"@, l, "ssh"@);
    crate::json::set_field_is_read_back(attached, "provision"@, l, "additionalDisks"@);
    let a = attachments(locations);
    crate::json::set_field_is_read_back(ssh, "additionalDisks"@, a, "plain"@);
    crate::json::set_field_is_read_back(ssh, "additionalDisks"@, a, "ssh"@);
    crate::json::set_field_is_read_back(plain, "ssh"@, secure, "plain"@);
    crate::json::set_field_is_read_back(configuration, "plain"@, t, "plain"@);
    crate::json::set_field_is_read_back(
        at(plain, "ssh"@),
        "overVsock"@,
        JsonView::Bool(false),
        "overVsock"@,
    );
    assert(field(plain, "plain"@) == Some(t));
    assert(field(ssh, "plain"@) == Some(t));
    assert(field(attached, "plain"@) == Some(t));
    assert(field(ready, "plain"@) == Some(t));
    lemma_already_set(once, "plain"@, t);
    assert(at(once, "ssh"@) == secure);
    lemma_already_set(secure, "overVsock"@, JsonView::Bool(false));
    lemma_already_set(once, "ssh"@, secure);
    lemma_already_set(once, "additionalDisks"@, a);
    assert(with_attachments(once, locations) == once);
    assert(list_of(at(once, "provision"@)) == Some(new_entries));
    // The entries of the storage pool are replaced by the same ones.
    lemma_own_entries(request, migrate);
    let keep = |e: JsonView| is_unrelated(e);
    let kept = entries.filter(keep);
    lemma_filter_again(entries, keep);
    crate::storage_lifecycle::lemma_filter_push(kept, request_entry(request), keep);
    crate::storage_lifecycle::lemma_filter_push(
        kept.push(request_entry(request)),
        script_entry(migrate),
        keep,
    );
    assert(new_entries.filter(keep) == kept);
    assert(provisioned(new_entries, request, migrate) == new_entries);
    lemma_already_set(once, "provision"@, l);
    let other = |e: JsonView| !runs_pool(e);
    let others = old_probes.filter(other);
    lemma_filter_again(old_probes, other);
    crate::storage_lifecycle::lemma_filter_push(others, pool_probe(), other);
    assert(new_probes.filter(other) == others);
    assert(probed(new_probes) == new_probes);
    lemma_already_set(once, "probes"@, JsonView::List(new_probes));
}

/// Every provisioning entry that is not about the storage pool stays.
pub proof fn unrelated_provisioning_is_kept(
    entries: Seq<JsonView>,
    request: JsonView,
    migrate: bool,
    entry: JsonView,
)
    requires
        entries.contains(entry),
        is_unrelated(entry),
    ensures
        provisioned(entries, request, migrate).contains(entry),
{
    let keep = |e: JsonView| is_unrelated(e);
    lemma_filter_contains(entries, keep, entry);
    let kept = entries.filter(keep);
    let i = choose|i: int| 0 <= i < kept.len() && kept[i] == entry;
    assert(provisioned(entries, request, migrate)[i] == entry);
}

proof fn lemma_filter_contains<T>(s: Seq<T>, keep: spec_fn(T) -> bool, x: T)
    requires
        s.contains(x),
        keep(x),
    ensures
        s.filter(keep).contains(x),
    decreases s.len(),
{
    reveal(Seq::filter);
    let i = choose|i: int| 0 <= i < s.len() && s[i] == x;
    let before = s.drop_last();
    if i < s.len() - 1 {
        assert(before[i] == x);
        lemma_filter_contains(before, keep, x);
        let k = choose|k: int| 0 <= k < before.filter(keep).len() && before.filter(keep)[k] == x;
        if keep(s.last()) {
            assert(before.filter(keep).push(s.last())[k] == x);
        }
    } else {
        assert(before.filter(keep).push(x)[before.filter(keep).len() as int] == x);
    }
}

/// The data that provisions the worker: its identity, then the guest files.
pub open spec fn guest_data(device: Seq<char>, files: Seq<JsonView>) -> Seq<JsonView> {
    seq![
        JsonView::Object(
            seq![
                ("content"@, JsonView::Text(device)),
                ("mode"@, JsonView::Text("data"@)),
                ("overwrite"@, JsonView::Bool(false)),
                ("owner"@, JsonView::Text("root:root"@)),
                ("path"@, JsonView::Text("/etc/nodeharbor/device-id"@)),
                ("permissions"@, JsonView::Text("0600"@)),
            ],
        ),
    ] + Seq::new(files.len(), |i: int| guest_file(files[i]))
}

/// The entry that provisions one guest file.
pub open spec fn guest_file(file: JsonView) -> JsonView {
    JsonView::Object(
        seq![
            ("content"@, at(file, "content"@)),
            ("mode"@, JsonView::Text("data"@)),
            ("overwrite"@, JsonView::Bool(false)),
            ("owner"@, at(file, "owner"@)),
            ("path"@, at(file, "path"@)),
            ("permissions"@, at(file, "permissions"@)),
        ],
    )
}

/// The settings that keep the worker apart from its host.
pub open spec fn isolation() -> Seq<(Seq<char>, JsonView)> {
    seq![
        (
            "networks"@,
            JsonView::List(
                seq![JsonView::Object(seq![("lima"@, JsonView::Text("user-v2"@))])],
            ),
        ),
        ("mounts"@, JsonView::List(Seq::empty())),
        (
            "containerd"@,
            JsonView::Object(
                seq![
                    ("system"@, JsonView::Bool(false)),
                    ("user"@, JsonView::Bool(false)),
                ],
            ),
        ),
        ("plain"@, JsonView::Bool(true)),
        (
            "ssh"@,
            JsonView::Object(
                seq![
                    ("forwardAgent"@, JsonView::Bool(false)),
                    ("forwardX11"@, JsonView::Bool(false)),
                    ("loadDotSSHPubKeys"@, JsonView::Bool(false)),
                    ("overVsock"@, JsonView::Bool(false)),
                ],
            ),
        ),
        (
            "portForwards"@,
            JsonView::List(
                seq![
                    JsonView::Object(
                        seq![
                            ("guestIP"@, JsonView::Text("0.0.0.0"@)),
                            ("guestIPMustBeZero"@, JsonView::Bool(false)),
                            (
                                "guestPortRange"@,
                                JsonView::List(
                                    seq![JsonView::Number(1), JsonView::Number(65535)],
                                ),
                            ),
                            ("ignore"@, JsonView::Bool(true)),
                            ("proto"@, JsonView::Text("any"@)),
                        ],
                    ),
                ],
            ),
        ),
        (
            "hostResolver"@,
            JsonView::Object(seq![("enabled"@, JsonView::Bool(true))]),
        ),
        ("propagateProxyEnv"@, JsonView::Bool(false)),
    ]
}

/// The configuration of a worker without its storage, or why there is none. The
/// packaged runtime's description gives its version and images.
pub open spec fn worker_configuration(
    platform: Seq<char>,
    architecture: Seq<char>,
    device: Seq<char>,
    resources: Resources,
    runtime: JsonView,
    files: JsonView,
) -> Result<JsonView, Seq<char>> {
    let image = at(at(runtime, "images"@), architecture);
    if identity::identity_refusal(device) is Some {
        Err(identity::identity_refusal(device)->0)
    } else if !(image is Object) {
        Err("This CPU architecture has no packaged worker image"@)
    } else {
        match list_of(files) {
            None => Err("Invalid worker image files"@),
            Some(items) => match crate::runtime_platform::machine_type(platform, architecture) {
                Err(message) => Err(message),
                Ok(kind) => Ok(
                    JsonView::Object(
                        seq![
                            ("arch"@, JsonView::Text(architecture)),
                            ("cpus"@, JsonView::Number(resources.cpus as u64)),
                            (
                                "disk"@,
                                JsonView::Text(text::decimal(resources.disk_gib as nat) + "GiB"@),
                            ),
                            ("images"@, JsonView::List(seq![image])),
                            (
                                "memory"@,
                                JsonView::Text(
                                    text::decimal(resources.memory_mib as nat) + "MiB"@,
                                ),
                            ),
                            ("minimumLimaVersion"@, at(runtime, "version"@)),
                            ("vmType"@, JsonView::Text(kind)),
                        ] + isolation() + seq![
                            ("provision"@, JsonView::List(guest_data(device, items))),
                        ],
                    ),
                ),
            },
        }
    }
}

fn field_or_null(j: &Json, key: &str) -> (r: Json)
    ensures
        r@ == at(j@, key@),
{
    match j.get(key) {
        Some(v) => v.copy(),
        None => Json::Null,
    }
}

fn make_guest_data(device: &str, files: &[Json]) -> (r: Json)
    ensures
        r@ == JsonView::List(guest_data(device@, json_views(files@))),
{
    let ghost v = json_views(files@);
    let ghost wanted = guest_data(device@, v);
    let mut data: Vec<Json> = Vec::new();
    let mut fields: Vec<(String, Json)> = Vec::new();
    fields.push(pair("content", json_text(device)));
    fields.push(pair("mode", json_text("data")));
    fields.push(pair("overwrite", Json::Bool(false)));
    fields.push(pair("owner", json_text("root:root")));
    fields.push(pair("path", json_text("/etc/nodeharbor/device-id")));
    fields.push(pair("permissions", json_text("0600")));
    assert(field_views(fields@) =~= wanted[0]->Object_0);
    data.push(object(fields));
    assert(json_views(data@) =~= wanted.take(1));
    for i in 0..files.len()
        invariant
            v == json_views(files@),
            wanted == guest_data(device@, v),
            json_views(data@) == wanted.take(i + 1),
    {
        assert(v[i as int] == files@[i as int]@);
        let mut fields: Vec<(String, Json)> = Vec::new();
        fields.push(pair("content", field_or_null(&files[i], "content")));
        fields.push(pair("mode", json_text("data")));
        fields.push(pair("overwrite", Json::Bool(false)));
        fields.push(pair("owner", field_or_null(&files[i], "owner")));
        fields.push(pair("path", field_or_null(&files[i], "path")));
        fields.push(pair("permissions", field_or_null(&files[i], "permissions")));
        assert(field_views(fields@) =~= guest_file(v[i as int])->Object_0);
        let ghost before = json_views(data@);
        data.push(object(fields));
        assert(wanted[i + 1] == guest_file(v[i as int]));
        assert(json_views(data@) =~= before.push(wanted[i + 1]));
        assert(wanted.take(i + 2) =~= wanted.take(i + 1).push(wanted[i + 1]));
    }
    assert(wanted.take(files@.len() + 1int) =~= wanted);
    list(data)
}

fn push_isolation(fields: &mut Vec<(String, Json)>)
    ensures
        field_views(final(fields)@) == field_views(old(fields)@) + isolation(),
{
    let ghost before = field_views(fields@);
    let mut network: Vec<(String, Json)> = Vec::new();
    network.push(pair("lima", json_text("user-v2")));
    assert(field_views(network@) =~= seq![("lima"@, JsonView::Text("user-v2"@))]);
    let mut networks: Vec<Json> = Vec::new();
    networks.push(object(network));
    assert(json_views(networks@) =~= isolation()[0].1->List_0);
    fields.push(pair("networks", list(networks)));
    let none: Vec<Json> = Vec::new();
    assert(json_views(none@) =~= Seq::<JsonView>::empty());
    fields.push(pair("mounts", list(none)));
    let mut containerd: Vec<(String, Json)> = Vec::new();
    containerd.push(pair("system", Json::Bool(false)));
    containerd.push(pair("user", Json::Bool(false)));
    assert(field_views(containerd@) =~= isolation()[2].1->Object_0);
    fields.push(pair("containerd", object(containerd)));
    fields.push(pair("plain", Json::Bool(true)));
    let mut ssh: Vec<(String, Json)> = Vec::new();
    ssh.push(pair("forwardAgent", Json::Bool(false)));
    ssh.push(pair("forwardX11", Json::Bool(false)));
    ssh.push(pair("loadDotSSHPubKeys", Json::Bool(false)));
    ssh.push(pair("overVsock", Json::Bool(false)));
    assert(field_views(ssh@) =~= isolation()[4].1->Object_0);
    fields.push(pair("ssh", object(ssh)));
    let mut range: Vec<Json> = Vec::new();
    range.push(Json::Number(1));
    range.push(Json::Number(65535));
    assert(json_views(range@) =~= seq![JsonView::Number(1), JsonView::Number(65535)]);
    let mut forward: Vec<(String, Json)> = Vec::new();
    forward.push(pair("guestIP", json_text("0.0.0.0")));
    forward.push(pair("guestIPMustBeZero", Json::Bool(false)));
    forward.push(pair("guestPortRange", list(range)));
    forward.push(pair("ignore", Json::Bool(true)));
    forward.push(pair("proto", json_text("any")));
    assert(field_views(forward@) =~= isolation()[5].1->List_0[0]->Object_0);
    let mut forwards: Vec<Json> = Vec::new();
    forwards.push(object(forward));
    assert(json_views(forwards@) =~= isolation()[5].1->List_0);
    fields.push(pair("portForwards", list(forwards)));
    let mut resolver: Vec<(String, Json)> = Vec::new();
    resolver.push(pair("enabled", Json::Bool(true)));
    assert(field_views(resolver@) =~= isolation()[6].1->Object_0);
    fields.push(pair("hostResolver", object(resolver)));
    fields.push(pair("propagateProxyEnv", Json::Bool(false)));
    assert(field_views(fields@) =~= before + isolation());
}

/// The configuration of a worker without its storage.
pub fn configuration(
    platform: &str,
    architecture: &str,
    device: &str,
    resources: &Resources,
    runtime: &Json,
    files: &Json,
) -> (r: Result<Json, Failure>)
    ensures
        match worker_configuration(
            platform@,
            architecture@,
            device@,
            *resources,
            runtime@,
            files@,
        ) {
            Ok(made) => r matches Ok(c) && c@ == made,
            Err(message) => refusal(r) == Some(message),
        },
{
    match identity::identity_value(device) {
        Ok(_) => {},
        Err(e) => {
            return Err(e);
        },
    }
    let images = field_or_null(runtime, "images");
    let image = field_or_null(&images, architecture);
    if !image.is_object() {
        return Err(fail("This CPU architecture has no packaged worker image"));
    }
    let items = match files.as_list() {
        Some(items) => items,
        None => {
            return Err(fail("Invalid worker image files"));
        },
    };
    let kind = match crate::runtime_platform::vm_type(platform, architecture) {
        Ok(kind) => kind,
        Err(e) => {
            return Err(e);
        },
    };
    let data = make_guest_data(device, items.as_slice());
    let memory_text = text::decimal_text(resources.memory_mib);
    let disk_text = text::decimal_text(resources.disk_gib);
    let mut packaged: Vec<Json> = Vec::new();
    let ghost image_view = image@;
    packaged.push(image);
    assert(json_views(packaged@) =~= seq![image_view]);
    let mut fields: Vec<(String, Json)> = Vec::new();
    fields.push(pair("arch", json_text(architecture)));
    fields.push(pair("cpus", Json::Number(resources.cpus as u64)));
    fields.push(pair("disk", Json::Text(text::join2(disk_text.as_str(), "GiB"))));
    fields.push(pair("images", list(packaged)));
    fields.push(pair("memory", Json::Text(text::join2(memory_text.as_str(), "MiB"))));
    fields.push(pair("minimumLimaVersion", field_or_null(runtime, "version")));
    fields.push(pair("vmType", json_text(kind)));
    let ghost head = field_views(fields@);
    let ghost data_view = data@;
    push_isolation(&mut fields);
    let ghost before = field_views(fields@);
    fields.push(pair("provision", data));
    let ghost views = field_views(fields@);
    let r = object(fields);
    proof {
        let wanted = worker_configuration(
            platform@,
            architecture@,
            device@,
            *resources,
            runtime@,
            files@,
        )->Ok_0->Object_0;
        assert(views =~= before.push(("provision"@, data_view)));
        assert(before == head + isolation());
        assert(head =~= wanted.take(7));
        assert(views =~= wanted);
    }
    Ok(r)
}

/// The configuration of a worker with its storage, or why there is none.
pub open spec fn pooled_configuration(
    base: Result<JsonView, Seq<char>>,
    device: Seq<char>,
    locations: Seq<LocationView>,
    pool_id: Seq<char>,
    generation: u64,
) -> Result<JsonView, Seq<char>> {
    match base {
        Err(message) => Err(message),
        Ok(made) => storage_configuration(
            with_field(made, "disk"@, JsonView::Text("16GiB"@)),
            device,
            pool_id,
            locations,
            Seq::empty(),
            generation,
            true,
        ),
    }
}

/// The configuration of a new worker with its storage.
pub fn configuration_with_storage(
    platform: &str,
    architecture: &str,
    device: &str,
    resources: &Resources,
    runtime: &Json,
    files: &Json,
    locations: &[Location],
    pool_id: &str,
    generation: u64,
) -> (r: Result<Json, Failure>)
    requires
        locations@.len() <= 16 ==> attachable(location_views(locations@)),
    ensures
        match pooled_configuration(
            worker_configuration(
                platform@,
                architecture@,
                device@,
                *resources,
                runtime@,
                files@,
            ),
            device@,
            location_views(locations@),
            pool_id@,
            generation,
        ) {
            Ok(made) => r matches Ok(c) && c@ == made,
            Err(message) => refusal(r) == Some(message),
        },
{
    let base = match configuration(platform, architecture, device, resources, runtime, files) {
        Ok(base) => base,
        Err(e) => {
            return Err(e);
        },
    };
    let ghost made = base@;
    let sized = set_field(base, "disk", json_text("16GiB"));
    proof {
        reveal_strlit("disk");
        reveal_strlit("ssh");
        reveal_strlit("minimumLimaVersion");
        reveal_strlit("vmType");
        reveal_strlit("arch");
        reveal_strlit("cpus");
        reveal_strlit("memory");
        reveal_strlit("images");
        reveal_strlit("networks");
        reveal_strlit("mounts");
        reveal_strlit("containerd");
        reveal_strlit("plain");
        let fields = made->Object_0;
        crate::json::set_field_is_read_back(made, "disk"@, JsonView::Text("16GiB"@), "ssh"@);
        crate::json::lemma_key_from(fields, "ssh"@, 0);
        assert(fields[11].0 == "ssh"@);
        assert(fields[0].0.len() == 4 && fields[1].0.len() == 4 && fields[2].0.len() == 4
            && fields[3].0.len() == 6 && fields[4].0.len() == 6 && fields[5].0.len() == 18
            && fields[6].0.len() == 6 && fields[7].0.len() == 8 && fields[8].0.len() == 6
            && fields[9].0.len() == 10 && fields[10].0.len() == 5);
        assert(crate::json::key_from(fields, "ssh"@, 0) == Some(11int));
    }
    let none: Vec<Location> = Vec::new();
    assert(location_views(none@) =~= Seq::<LocationView>::empty());
    update_storage_configuration(
        &sized,
        device,
        pool_id,
        locations,
        none.as_slice(),
        generation,
        true,
    )
}

proof fn lemma_bytes_bounded(t: Seq<char>)
    ensures
        encode_utf8(t).len() <= 4 * t.len(),
    decreases t.len(),
{
    if t.len() > 0 {
        lemma_bytes_bounded(t.drop_first());
    }
}

proof fn lemma_plain_start(t: Seq<char>, n: int)
    requires
        0 <= n <= t.len(),
        forall|i: int| 0 <= i < n ==> (#[trigger] t[i]) as u32 <= 0x7f,
    ensures
        encode_utf8(t).len() <= n + 4 * (t.len() - n),
    decreases t.len(),
{
    if n == 0 {
        lemma_bytes_bounded(t);
    } else {
        let rest = t.drop_first();
        assert forall|i: int| 0 <= i < n - 1 implies (#[trigger] rest[i]) as u32 <= 0x7f by {
            assert(rest[i] == t[i + 1]);
        }
        lemma_plain_start(rest, n - 1);
        assert(t[0] as u32 <= 0x7f);
        assert(vstd::utf8::encode_scalar(t[0] as u32).len() == 1);
    }
}

/// An explanation is short enough to be shown whole: in an error message, which
/// has at most 1200 characters of it, and as a line of the activity log, which
/// has at most 4096 bytes.
pub proof fn explanations_are_shown_whole(
    platform: Seq<char>,
    operation: Option<Seq<char>>,
    output: CommandOutputView,
)
    requires
        explains(platform, operation, output),
    ensures
        diagnosed(platform, operation, output).stderr.len() <= 1200,
        encode_utf8(diagnosed(platform, operation, output).stderr).len() <= 4090,
{
    reveal_strlit(
        "Cannot create worker temporary files. Check NodeHarbor’s folder access in System Settings → Privacy & Security → Files & Folders. For an external drive, enable Removable Volumes for NodeHarbor, then quit and reopen the app.\nLima: ",
    );
    let told = guidance();
    let shown = text::take_at_most(redacted(output.stderr, Seq::empty()), 800);
    let stderr = diagnosed(platform, operation, output).stderr;
    assert(told.len() == 230);
    assert(stderr =~= told + shown);
    assert forall|i: int| 0 <= i < 20 implies (#[trigger] stderr[i]) as u32 <= 0x7f by {
        assert(stderr[i] == told[i]);
    }
    lemma_plain_start(stderr, 20);
}

/// Lima keeps this application's single worker in a private, standard data
/// directory. It does not use or change the owner's other Lima installations.
#[derive(Debug)]
pub struct LimaRunner {
    pub program: String,
    pub home: String,
}

/// The search path of the packaged tools.
pub open spec fn tool_path(bin: Seq<char>) -> Seq<char> {
    bin + ":/usr/bin:/bin:/usr/sbin:/sbin"@
}

impl LimaRunner {
    /// A runner of the program on a data directory.
    pub fn new(program: String, home: String) -> (r: Self)
        ensures
            r.program == program,
            r.home == home,
    {
        LimaRunner { program, home }
    }

    /// The runner of the packaged program on the application's own directory.
    pub fn bundled(platform: &str, executable: &str, directory: &str) -> (r: Result<Self, Failure>)
        ensures
            match crate::runtime_platform::program_path(platform@, executable@) {
                Ok(program) => r matches Ok(runner) && runner.program@ == program && runner.home@
                    == paths::join_path(directory@, "lima"@),
                Err(message) => refusal(r) == Some(message),
            },
    {
        match crate::runtime_platform::bundled_program(platform, executable) {
            Ok(program) => Ok(LimaRunner { program, home: paths::join(directory, "lima") }),
            Err(e) => Err(e),
        }
    }

    /// Whether the program is there.
    pub fn check_program(present: bool) -> (r: Result<(), Failure>)
        ensures
            refusal(r) == unless(
                present,
                "The bundled VM runtime is missing. Reinstall the complete NodeHarbor application"@,
            ),
    {
        if present {
            Ok(())
        } else {
            Err(
                fail(
                    "The bundled VM runtime is missing. Reinstall the complete NodeHarbor application",
                ),
            )
        }
    }

    /// Whether the host's capabilities are checked before a command.
    pub fn needs_preflight(args: &[String]) -> (r: bool)
        ensures
            r == (args@.len() > 0 && (args@[0]@ == "start"@ || args@[0]@ == "create"@)),
    {
        args.len() > 0 && (text::same(args[0].as_str(), "start") || text::same(
            args[0].as_str(),
            "create",
        ))
    }

    /// The arguments of the program for a command.
    pub fn command_args(args: &[String]) -> (r: Vec<String>)
        ensures
            contents(r@) == seq!["--tty=false"@] + contents(args@),
    {
        let mut r: Vec<String> = Vec::new();
        r.push("--tty=false".to_owned());
        let mut rest = crate::values::copy_list(args);
        r.append(&mut rest);
        assert(contents(r@) =~= seq!["--tty=false"@] + contents(args@));
        r
    }

    /// Where the runtime keeps temporary files.
    pub fn temporary(&self) -> (r: String)
        ensures
            r@ == paths::join_path(self.home@, "_tmp"@),
    {
        paths::join(self.home.as_str(), "_tmp")
    }

    /// Where the runtime caches downloads.
    pub fn cache(&self) -> (r: String)
        ensures
            r@ == paths::join_path(self.home@, "_cache"@),
    {
        paths::join(self.home.as_str(), "_cache")
    }

    /// The search path of the packaged tools on macOS.
    pub fn search_path(&self) -> (r: Result<String, Failure>)
        ensures
            match paths::parent_path(self.program@) {
                None => refusal(r) == Some("Cannot locate bundled Lima tools"@),
                Some(bin) => if bin.contains(':') {
                    refusal(r) == Some("The bundled Lima tools stand on an unusable path"@)
                } else {
                    r matches Ok(path) && path@ == tool_path(bin)
                },
            },
    {
        let bin = match paths::parent(self.program.as_str()) {
            Some(bin) => bin,
            None => {
                return Err(fail("Cannot locate bundled Lima tools"));
            },
        };
        let chars = text::chars_of(bin.as_str());
        for i in 0..chars.len()
            invariant
                chars@ == bin@,
                paths::parent_path(self.program@) == Some(bin@),
                forall|j: int| 0 <= j < i ==> chars@[j] != ':',
        {
            if chars[i] == ':' {
                assert(bin@[i as int] == ':');
                return Err(fail("The bundled Lima tools stand on an unusable path"));
            }
        }
        Ok(text::join2(bin.as_str(), ":/usr/bin:/bin:/usr/sbin:/sbin"))
    }
}

} // verus!
