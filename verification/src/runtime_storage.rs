//! The VM's runtime directory on a selected volume: its owner, its contents and
//! its moves.
use crate::failure::{fail, first_of, refusal, unless, Failure};
use crate::identity;
use crate::json::{
    at, field, field_views, json_text, number_of, object, pair, same_json, text_of, written_json,
    Json, JsonView,
};
use crate::lima_storage::{disk_paths, paths_of};
use crate::paths;
use crate::storage::{location_views, Location, LocationView, GIB};
use crate::storage_layout::{Layout, LayoutView};
use crate::text;
use crate::values::{contents, Plain};
use crate::vm::{CommandOutput, CommandOutputView};
use vstd::prelude::*;
use vstd::utf8::encode_utf8;

verus! {

/// A move of the VM's runtime directory under way.
#[derive(Debug)]
pub struct Relocation {
    pub source: String,
    pub source_volume_id: String,
    pub target: Layout,
    pub switched: bool,
}

/// The content of a `Relocation`.
#[verifier::ext_equal]
pub struct RelocationView {
    pub source: Seq<char>,
    pub source_volume_id: Seq<char>,
    pub target: LayoutView,
    pub switched: bool,
}

impl View for Relocation {
    type V = RelocationView;

    open spec fn view(&self) -> RelocationView {
        RelocationView {
            source: self.source@,
            source_volume_id: self.source_volume_id@,
            target: self.target@,
            switched: self.switched,
        }
    }
}

impl Plain for Relocation {
    fn duplicate(&self) -> (r: Self) {
        Relocation {
            source: self.source.clone(),
            source_volume_id: self.source_volume_id.clone(),
            target: self.target.duplicate(),
            switched: self.switched,
        }
    }

    fn alike(&self, other: &Self) -> (r: bool) {
        self.source.alike(&other.source)
            && self.source_volume_id.alike(&other.source_volume_id)
            && self.target.alike(&other.target)
            && self.switched == other.switched
    }
}

impl Clone for Relocation {
    fn clone(&self) -> (r: Self)
        ensures
            r@ == self@,
    {
        self.duplicate()
    }
}

/// What a look at a directory finds.
#[derive(Clone, Copy, Debug, PartialEq, Eq, Structural)]
pub struct DirectoryFacts {
    /// A directory, and no link to one.
    pub directory: bool,
    /// Of the current user alone.
    pub private: bool,
}

/// Why a directory may not be used.
pub open spec fn directory_refusal(facts: DirectoryFacts) -> Option<Seq<char>> {
    first_of(
        unless(facts.directory, "The VM directory was replaced"@),
        unless(
            facts.private,
            "The VM directory must be private and owned by the current user"@,
        ),
    )
}

/// Whether a directory may be used.
pub fn owned_directory(facts: DirectoryFacts) -> (r: Result<(), Failure>)
    ensures
        refusal(r) == directory_refusal(facts),
{
    if !facts.directory {
        return Err(fail("The VM directory was replaced"));
    }
    if !facts.private {
        return Err(fail("The VM directory must be private and owned by the current user"));
    }
    Ok(())
}

pub open spec fn volume_refusal(found: Seq<char>, expected: Seq<char>) -> Option<Seq<char>> {
    unless(
        found == expected,
        "The selected VM volume disappeared or was replaced; storage will not be redirected"@,
    )
}

/// Whether a path stands on the volume that it should.
pub fn check_volume(found: &str, expected: &str) -> (r: Result<(), Failure>)
    ensures
        refusal(r) == volume_refusal(found@, expected@),
{
    if text::same(found, expected) {
        Ok(())
    } else {
        Err(
            fail(
                "The selected VM volume disappeared or was replaced; storage will not be redirected",
            ),
        )
    }
}

/// What a look at an opened file of the runtime finds.
#[derive(Clone, Copy, Debug, PartialEq, Eq, Structural)]
pub struct RuntimeFileFacts {
    pub regular: bool,
    pub owned: bool,
}

pub open spec fn file_refusal(facts: RuntimeFileFacts) -> Option<Seq<char>> {
    first_of(
        unless(facts.regular, "Unexpected VM runtime file"@),
        unless(facts.owned, "The VM runtime file belongs to another user"@),
    )
}

/// Whether an opened file of the runtime may be read.
pub fn check_file(facts: RuntimeFileFacts) -> (r: Result<(), Failure>)
    ensures
        refusal(r) == file_refusal(facts),
{
    if !facts.regular {
        return Err(fail("Unexpected VM runtime file"));
    }
    if !facts.owned {
        return Err(fail("The VM runtime file belongs to another user"));
    }
    Ok(())
}

/// The ownership receipt of a runtime directory.
pub open spec fn receipt_json(owner: Seq<char>, volume: Seq<char>) -> JsonView {
    JsonView::Object(
        seq![
            ("deviceId"@, JsonView::Text(owner)),
            ("version"@, JsonView::Number(1)),
            ("volumeId"@, JsonView::Text(volume)),
        ],
    )
}

/// The ownership receipt of a runtime directory.
pub fn receipt(layout: &Layout, owner: &str) -> (r: Result<Json, Failure>)
    ensures
        match identity::identity_refusal(owner@) {
            Some(message) => refusal(r) == Some(message),
            None => r matches Ok(j) && j@ == receipt_json(owner@, layout.volume_id@),
        },
{
    match identity::identity_value(owner) {
        Ok(_) => {},
        Err(e) => {
            return Err(e);
        },
    }
    let mut fields: Vec<(String, Json)> = Vec::new();
    fields.push(pair("deviceId", json_text(owner)));
    fields.push(pair("version", Json::Number(1)));
    fields.push(pair("volumeId", json_text(layout.volume_id.as_str())));
    assert(field_views(fields@) =~= seq![
        ("deviceId"@, JsonView::Text(owner@)),
        ("version"@, JsonView::Number(1)),
        ("volumeId"@, JsonView::Text(layout.volume_id@)),
    ]);
    Ok(object(fields))
}

/// Whether an object has exactly so many fields.
pub open spec fn has_fields(j: JsonView, n: int) -> bool {
    match j {
        JsonView::Object(fields) => fields.len() == n,
        _ => false,
    }
}

fn field_count(j: &Json, n: usize) -> (r: bool)
    ensures
        r == has_fields(j@, n as int),
{
    proof {
        crate::json::lemma_view(*j);
    }
    match j {
        Json::Object(fields) => fields.len() == n,
        _ => false,
    }
}

/// Whether a saved receipt is that of the owner on the volume. A receipt holds
/// nothing else.
pub open spec fn is_receipt(saved: JsonView, owner: Seq<char>, volume: Seq<char>) -> bool {
    has_fields(saved, 3) && number_of(at(saved, "version"@)) == Some(1u64) && text_of(
        at(saved, "deviceId"@),
    ) == Some(owner) && text_of(at(saved, "volumeId"@)) == Some(volume)
}

/// What a look at a runtime directory finds: the directory, its volume, and its
/// receipt.
#[derive(Debug)]
pub struct HomeFacts {
    pub directory: DirectoryFacts,
    pub volume_id: String,
    pub file: RuntimeFileFacts,
    pub saved: Vec<u8>,
}

/// Why a runtime directory is not the owner's on its volume.
pub open spec fn home_refusal(
    layout: LayoutView,
    owner: Seq<char>,
    facts: HomeFacts,
) -> Option<Seq<char>> {
    first_of(
        directory_refusal(facts.directory),
        first_of(
            volume_refusal(facts.volume_id@, layout.volume_id),
            first_of(
                file_refusal(facts.file),
                match crate::json::parsed_json(facts.saved@) {
                    Err(words) => Some(words),
                    Ok(saved) => first_of(
                        identity::identity_refusal(owner),
                        unless(
                            is_receipt(saved, owner, layout.volume_id),
                            "The VM directory belongs to a different owner or volume"@,
                        ),
                    ),
                },
            ),
        ),
    )
}

/// Whether a runtime directory is the owner's on its volume. With a receipt as it is
/// written there, it is.
pub fn validate_home(layout: &Layout, owner: &str, facts: &HomeFacts) -> (r: Result<(), Failure>)
    ensures
        refusal(r) == home_refusal(layout@, owner@, *facts),
        facts.saved@ == encode_utf8(written_json(receipt_json(owner@, layout@.volume_id)))
            && directory_refusal(facts.directory) is None && facts.volume_id@ == layout@.volume_id
            && file_refusal(facts.file) is None && identity::identity_refusal(owner@) is None
            ==> r is Ok,
        forall|other: Seq<char>, volume: Seq<char>|
            facts.saved@ == encode_utf8(written_json(#[trigger] receipt_json(other, volume)))
                && r is Ok ==> other == owner@ && volume == layout@.volume_id,
{
    proof {
        receipts_are_recognized(owner@, layout@.volume_id);
        lemma_receipt_is_flat(owner@, layout@.volume_id);
        assert forall|other: Seq<char>, volume: Seq<char>|
            true implies crate::json::is_flat_record(#[trigger] receipt_json(other, volume)) by {
            lemma_receipt_is_flat(other, volume);
        }
        assert forall|other: Seq<char>, volume: Seq<char>| is_receipt(
            #[trigger] receipt_json(other, volume),
            owner@,
            layout@.volume_id,
        ) implies other == owner@ && volume == layout@.volume_id by {
            receipts_are_recognized(other, volume);
        }
    }
    match owned_directory(facts.directory) {
        Ok(()) => {},
        Err(e) => {
            return Err(e);
        },
    }
    match check_volume(facts.volume_id.as_str(), layout.volume_id.as_str()) {
        Ok(()) => {},
        Err(e) => {
            return Err(e);
        },
    }
    match check_file(facts.file) {
        Ok(()) => {},
        Err(e) => {
            return Err(e);
        },
    }
    let saved = match crate::json::parse(facts.saved.as_slice()) {
        Ok(saved) => saved,
        Err(e) => {
            return Err(e);
        },
    };
    match identity::identity_value(owner) {
        Ok(_) => {},
        Err(e) => {
            return Err(e);
        },
    }
    let version = match saved.field_number("version") {
        Some(n) => n == 1,
        None => false,
    };
    if field_count(&saved, 3) && version && saved.field_is("deviceId", owner) && saved.field_is(
        "volumeId",
        layout.volume_id.as_str(),
    ) {
        Ok(())
    } else {
        Err(fail("The VM directory belongs to a different owner or volume"))
    }
}

proof fn lemma_receipt_is_flat(owner: Seq<char>, volume: Seq<char>)
    ensures
        crate::json::is_flat_record(receipt_json(owner, volume)),
{
    reveal_strlit("deviceId");
    reveal_strlit("version");
    reveal_strlit("volumeId");
    assert("deviceId"@.take(0) =~= "version"@.take(0));
    assert("deviceId"@.take(0) =~= "volumeId"@.take(0));
    assert("version"@.take(1) =~= "volumeId"@.take(1));
}

/// The receipt that is written for a directory is the one that is asked for.
pub proof fn receipts_are_recognized(owner: Seq<char>, volume: Seq<char>)
    ensures
        is_receipt(receipt_json(owner, volume), owner, volume),
{
    let j = receipt_json(owner, volume);
    reveal_strlit("deviceId");
    reveal_strlit("version");
    reveal_strlit("volumeId");
    assert("deviceId"@ != "version"@) by {
        assert("deviceId"@.len() != "version"@.len());
    }
    assert("deviceId"@ != "volumeId"@) by {
        assert("deviceId"@[0] != "volumeId"@[0]);
    }
    assert("version"@ != "volumeId"@) by {
        assert("version"@.len() != "volumeId"@.len());
    }
    let f = seq![
        ("deviceId"@, JsonView::Text(owner)),
        ("version"@, JsonView::Number(1)),
        ("volumeId"@, JsonView::Text(volume)),
    ];
    reveal_with_fuel(crate::json::key_from, 4);
    assert(field(j, "deviceId"@) == Some(f[0].1));
    assert(field(j, "version"@) == Some(f[1].1));
    assert(field(j, "volumeId"@) == Some(f[2].1));
}

/// What the system image is, by its first bytes.
pub open spec fn is_qcow(magic: Seq<u8>) -> bool {
    magic == seq![0x51u8, 0x46u8, 0x49u8, 0xfbu8]
}

/// The capacity of the system image, or why it is unknown. A raw image has that
/// of its file; any other is asked from the image tool.
pub open spec fn image_capacity(
    magic: Seq<u8>,
    length: u64,
    info: CommandOutputView,
) -> Result<u64, Seq<char>> {
    if !is_qcow(magic) {
        Ok(length)
    } else if !info.success {
        Err("Cannot verify the VM system image: "@ + info.stderr)
    } else {
        match crate::json::parsed_json(encode_utf8(info.stdout)) {
            Err(words) => Err(words),
            Ok(j) => if text_of(at(j, "format"@)) != Some("qcow2"@) || field(
                j,
                "backing-filename"@,
            ) is Some {
                Err(
                    "The system image depends on another image; preserve the original VM until its backing storage can be verified"@,
                )
            } else {
                match number_of(at(j, "virtual-size"@)) {
                    None => Err("Missing VM system image capacity"@),
                    Some(size) => Ok(size),
                }
            },
        }
    }
}

/// Why the system image is not the one that was reviewed.
pub open spec fn image_refusal(
    layout: LayoutView,
    volume: Seq<char>,
    magic: Seq<u8>,
    length: u64,
    info: CommandOutputView,
) -> Option<Seq<char>> {
    if volume != layout.volume_id {
        Some("The VM system image is not on the selected volume"@)
    } else {
        match image_capacity(magic, length, info) {
            Err(message) => Some(message),
            Ok(size) => unless(
                size == layout.system_gib * GIB,
                "The actual VM system image capacity differs from the reviewed allocation"@,
            ),
        }
    }
}

fn is_qcow_image(magic: &[u8]) -> (r: bool)
    ensures
        r == is_qcow(magic@),
{
    let r = magic.len() == 4 && magic[0] == 0x51 && magic[1] == 0x46 && magic[2] == 0x49
        && magic[3] == 0xfb;
    assert(r ==> magic@ =~= seq![0x51u8, 0x46u8, 0x49u8, 0xfbu8]);
    r
}

/// Whether the image tool must be asked about an image with these first bytes.
pub fn needs_image_info(magic: &[u8]) -> (r: bool)
    ensures
        r == is_qcow(magic@),
{
    is_qcow_image(magic)
}

fn capacity_of(magic: &[u8], length: u64, info: &CommandOutput) -> (r: Result<u64, Failure>)
    ensures
        match image_capacity(magic@, length, info@) {
            Ok(size) => r == Ok::<u64, Failure>(size),
            Err(message) => refusal(r) == Some(message),
        },
{
    if !is_qcow_image(magic) {
        return Ok(length);
    }
    if !info.success {
        return Err(
            Failure {
                message: text::join2(
                    "Cannot verify the VM system image: ",
                    info.stderr.as_str(),
                ),
            },
        );
    }
    let j = match crate::json::parse_text(info.stdout.as_str()) {
        Ok(j) => j,
        Err(e) => {
            return Err(e);
        },
    };
    if !j.field_is("format", "qcow2") || j.get("backing-filename").is_some() {
        return Err(
            fail(
                "The system image depends on another image; preserve the original VM until its backing storage can be verified",
            ),
        );
    }
    match j.field_number("virtual-size") {
        Some(size) => Ok(size),
        None => Err(fail("Missing VM system image capacity")),
    }
}

/// Check the real image, not just the disk size that was asked for. The runtime
/// directory is validated before and after.
pub fn verify_boot_image(
    layout: &Layout,
    volume: &str,
    magic: &[u8],
    length: u64,
    info: &CommandOutput,
) -> (r: Result<(), Failure>)
    ensures
        refusal(r) == image_refusal(layout@, volume@, magic@, length, info@),
{
    if !text::same(volume, layout.volume_id.as_str()) {
        return Err(fail("The VM system image is not on the selected volume"));
    }
    let size = match capacity_of(magic, length, info) {
        Ok(size) => size,
        Err(e) => {
            return Err(e);
        },
    };
    let expected = layout.system_gib.checked_mul(GIB);
    let same = match expected {
        Some(n) => n == size,
        None => false,
    };
    if same {
        Ok(())
    } else {
        Err(fail("The actual VM system image capacity differs from the reviewed allocation"))
    }
}

/// Whether a name is that of a file that only lives while the VM runs.
pub open spec fn is_transient(name: Seq<char>) -> bool {
    text::has_suffix(name, ".pid"@) || text::has_suffix(name, ".sock"@) || text::has_suffix(
        name,
        ".lock"@,
    )
}

/// Whether a name is that of a file that only lives while the VM runs.
pub fn transient(name: &str) -> (r: bool)
    ensures
        r == is_transient(name@),
{
    text::ends_with(name, ".pid") || text::ends_with(name, ".sock") || text::ends_with(
        name,
        ".lock",
    )
}

/// The record of a file of the stopped VM.
pub open spec fn file_record_json(size: u64, inode: u64, modified: Seq<char>) -> JsonView {
    JsonView::Object(
        seq![
            ("inode"@, JsonView::Number(inode)),
            ("modified"@, JsonView::Text(modified)),
            ("size"@, JsonView::Number(size)),
        ],
    )
}

/// The record of a file of the stopped VM.
pub fn file_record(size: u64, inode: u64, modified: &str) -> (r: Json)
    ensures
        r@ == file_record_json(size, inode, modified@),
{
    let mut fields: Vec<(String, Json)> = Vec::new();
    fields.push(pair("inode", Json::Number(inode)));
    fields.push(pair("modified", json_text(modified)));
    fields.push(pair("size", Json::Number(size)));
    assert(field_views(fields@) =~= seq![
        ("inode"@, JsonView::Number(inode)),
        ("modified"@, JsonView::Text(modified@)),
        ("size"@, JsonView::Number(size)),
    ]);
    object(fields)
}

/// The record of a link of the stopped VM.
pub fn link_record(link: &str) -> (r: Json)
    ensures
        r@ == JsonView::Object(seq![("link"@, JsonView::Text(link@))]),
{
    let mut fields: Vec<(String, Json)> = Vec::new();
    fields.push(pair("link", json_text(link)));
    assert(field_views(fields@) =~= seq![("link"@, JsonView::Text(link@))]);
    object(fields)
}

/// The record of a directory of the stopped VM: what stands in it under each name,
/// but for the files that only live while the VM runs.
pub open spec fn recorded_files(entries: Seq<(Seq<char>, JsonView)>, n: int) -> JsonView
    decreases n,
{
    if n <= 0 {
        JsonView::Object(Seq::empty())
    } else if is_transient(entries[n - 1].0) {
        recorded_files(entries, n - 1)
    } else {
        crate::json::with_field(
            recorded_files(entries, n - 1),
            entries[n - 1].0,
            entries[n - 1].1,
        )
    }
}

/// The record of a directory of the stopped VM, from the records of what stands in
/// it.
pub fn directory_record(entries: &[(String, Json)]) -> (r: Json)
    ensures
        r@ == recorded_files(field_views(entries@), entries@.len() as int),
{
    let ghost v = field_views(entries@);
    let fields: Vec<(String, Json)> = Vec::new();
    assert(field_views(fields@) =~= Seq::<(Seq<char>, JsonView)>::empty());
    let mut r = object(fields);
    for i in 0..entries.len()
        invariant
            v == field_views(entries@),
            r@ == recorded_files(v, i as int),
    {
        assert(v[i as int] == (entries@[i as int].0@, entries@[i as int].1@));
        if !transient(entries[i].0.as_str()) {
            r = crate::json::set_field(r, entries[i].0.as_str(), entries[i].1.copy());
        }
    }
    r
}

/// No name stands twice in a directory.
pub open spec fn are_distinct(entries: Seq<(Seq<char>, JsonView)>) -> bool {
    forall|i: int, j: int|
        0 <= i < j < entries.len() ==> (#[trigger] entries[i]).0 != (#[trigger] entries[j]).0
}

/// What stands under a name in a directory, but for the files that only live while
/// the VM runs.
pub open spec fn lasting(entries: Seq<(Seq<char>, JsonView)>, name: Seq<char>, n: int) -> Option<
    JsonView,
>
    decreases n,
{
    if n <= 0 {
        None
    } else if entries[n - 1].0 == name {
        if is_transient(name) {
            None
        } else {
            Some(entries[n - 1].1)
        }
    } else {
        lasting(entries, name, n - 1)
    }
}

/// The record of a directory shows under each name what lastingly stands there, and
/// nothing else.
pub proof fn records_show_every_lasting_file(
    entries: Seq<(Seq<char>, JsonView)>,
    name: Seq<char>,
    n: int,
)
    requires
        are_distinct(entries),
        0 <= n <= entries.len(),
    ensures
        recorded_files(entries, n) is Object,
        field(recorded_files(entries, n), name) == lasting(entries, name, n),
    decreases n,
{
    if n > 0 {
        records_show_every_lasting_file(entries, name, n - 1);
        let before = recorded_files(entries, n - 1);
        crate::json::set_field_is_read_back(before, entries[n - 1].0, entries[n - 1].1, name);
        if entries[n - 1].0 == name && is_transient(name) {
            lemma_name_stands_once(entries, name, n - 1);
        }
    }
}

proof fn lemma_name_stands_once(entries: Seq<(Seq<char>, JsonView)>, name: Seq<char>, n: int)
    requires
        are_distinct(entries),
        0 <= n < entries.len(),
        exists|k: int| n <= k < entries.len() && (#[trigger] entries[k]).0 == name,
    ensures
        lasting(entries, name, n) is None,
    decreases n,
{
    if n > 0 {
        let k = choose|k: int| n <= k < entries.len() && (#[trigger] entries[k]).0 == name;
        assert(entries[n - 1].0 != entries[k].0);
        lemma_name_stands_once(entries, name, n - 1);
    }
}

/// Directories with the same record have the same lasting files: one that is added,
/// removed or rewritten changes the record.
pub proof fn records_tell_files_apart(
    a: Seq<(Seq<char>, JsonView)>,
    b: Seq<(Seq<char>, JsonView)>,
    name: Seq<char>,
)
    requires
        are_distinct(a),
        are_distinct(b),
        recorded_files(a, a.len() as int) == recorded_files(b, b.len() as int),
    ensures
        lasting(a, name, a.len() as int) == lasting(b, name, b.len() as int),
{
    records_show_every_lasting_file(a, name, a.len() as int);
    records_show_every_lasting_file(b, name, b.len() as int);
}

/// A layout as it is saved.
pub open spec fn layout_json(layout: LayoutView) -> JsonView {
    JsonView::Object(
        seq![
            ("runtimeDirectory"@, JsonView::Text(layout.runtime_directory)),
            ("systemGib"@, JsonView::Number(layout.system_gib)),
            ("systemLocationId"@, JsonView::Text(layout.system_location_id)),
            ("version"@, JsonView::Number(layout.version as u64)),
            ("volumeId"@, JsonView::Text(layout.volume_id)),
        ],
    )
}

fn saved_layout(layout: &Layout) -> (r: Json)
    ensures
        r@ == layout_json(layout@),
{
    let mut fields: Vec<(String, Json)> = Vec::new();
    fields.push(pair("runtimeDirectory", json_text(layout.runtime_directory.as_str())));
    fields.push(pair("systemGib", Json::Number(layout.system_gib)));
    fields.push(pair("systemLocationId", json_text(layout.system_location_id.as_str())));
    fields.push(pair("version", Json::Number(layout.version as u64)));
    fields.push(pair("volumeId", json_text(layout.volume_id.as_str())));
    assert(field_views(fields@) =~= layout_json(layout@)->Object_0);
    object(fields)
}

/// The record that a move leaves in the original directory.
pub open spec fn marker_json(
    owner: Seq<char>,
    target: LayoutView,
    volume: Seq<char>,
    files: JsonView,
) -> JsonView {
    JsonView::Object(
        seq![
            ("deviceId"@, JsonView::Text(owner)),
            ("files"@, files),
            ("target"@, layout_json(target)),
            ("volumeId"@, JsonView::Text(volume)),
        ],
    )
}

/// The record that a move leaves in the original directory: whose it is, where it
/// goes, the volume and the files that were found.
pub fn relocation_marker(owner: &str, target: &Layout, volume: &str, files: Json) -> (r: Json)
    ensures
        r@ == marker_json(owner@, target@, volume@, files@),
{
    let ghost found = files@;
    let mut fields: Vec<(String, Json)> = Vec::new();
    fields.push(pair("deviceId", json_text(owner)));
    fields.push(pair("files", files));
    fields.push(pair("target", saved_layout(target)));
    fields.push(pair("volumeId", json_text(volume)));
    assert(field_views(fields@) =~= marker_json(owner@, target@, volume@, found)->Object_0);
    object(fields)
}

proof fn lemma_layout_is_recognized(layout: LayoutView)
    ensures
        is_layout(layout_json(layout), layout),
{
    let j = layout_json(layout);
    reveal_strlit("runtimeDirectory");
    reveal_strlit("systemGib");
    reveal_strlit("systemLocationId");
    reveal_strlit("version");
    reveal_strlit("volumeId");
    let f = j->Object_0;
    assert(f[0].0.len() == 16 && f[1].0.len() == 9 && f[2].0.len() == 16 && f[3].0.len() == 7
        && f[4].0.len() == 8);
    assert(f[0].0[0] == 'r' && f[2].0[0] == 's');
    reveal_with_fuel(crate::json::key_from, 6);
    assert(field(j, "runtimeDirectory"@) == Some(f[0].1));
    assert(field(j, "systemGib"@) == Some(f[1].1));
    assert(field(j, "systemLocationId"@) == Some(f[2].1));
    assert(field(j, "version"@) == Some(f[3].1));
    assert(field(j, "volumeId"@) == Some(f[4].1));
}

/// The record of a move is accepted for the same owner, place and volume as long as
/// the original has the same files, and refused with others.
pub proof fn markers_are_recognized(
    owner: Seq<char>,
    target: LayoutView,
    volume: Seq<char>,
    files: JsonView,
    found: JsonView,
)
    ensures
        source_refusal(marker_json(owner, target, volume, files), target, owner, volume) is None,
        changed_refusal(marker_json(owner, target, volume, files), target, owner, volume, found)
            is None <==> found == files,
{
    let j = marker_json(owner, target, volume, files);
    reveal_strlit("deviceId");
    reveal_strlit("files");
    reveal_strlit("target");
    reveal_strlit("volumeId");
    let f = j->Object_0;
    assert(f[0].0.len() == 8 && f[1].0.len() == 5 && f[2].0.len() == 6 && f[3].0.len() == 8);
    assert(f[0].0[0] == 'd' && f[3].0[0] == 'v');
    reveal_with_fuel(crate::json::key_from, 5);
    assert(field(j, "deviceId"@) == Some(f[0].1));
    assert(field(j, "files"@) == Some(f[1].1));
    assert(field(j, "target"@) == Some(f[2].1));
    assert(field(j, "volumeId"@) == Some(f[3].1));
    lemma_layout_is_recognized(target);
}

/// Whether a saved layout is the given one.
pub open spec fn is_layout(j: JsonView, layout: LayoutView) -> bool {
    has_fields(j, 5) && number_of(at(j, "version"@)) == Some(layout.version as u64) && text_of(
        at(j, "systemLocationId"@),
    ) == Some(layout.system_location_id) && text_of(at(j, "volumeId"@)) == Some(layout.volume_id)
        && text_of(at(j, "runtimeDirectory"@)) == Some(layout.runtime_directory) && number_of(
        at(j, "systemGib"@),
    ) == Some(layout.system_gib)
}

fn layout_saved(j: &Json, layout: &Layout) -> (r: bool)
    ensures
        r == is_layout(j@, layout@),
{
    let version = match j.field_number("version") {
        Some(n) => n == layout.version as u64,
        None => false,
    };
    let gib = match j.field_number("systemGib") {
        Some(n) => n == layout.system_gib,
        None => false,
    };
    field_count(j, 5) && version && j.field_is(
        "systemLocationId",
        layout.system_location_id.as_str(),
    ) && j.field_is("volumeId", layout.volume_id.as_str()) && j.field_is(
        "runtimeDirectory",
        layout.runtime_directory.as_str(),
    ) && gib
}

/// Why the original directory is not the one that was copied.
pub open spec fn source_refusal(
    saved: JsonView,
    target: LayoutView,
    owner: Seq<char>,
    volume: Seq<char>,
) -> Option<Seq<char>> {
    unless(
        text_of(at(saved, "deviceId"@)) == Some(owner) && is_layout(at(saved, "target"@), target)
            && text_of(at(saved, "volumeId"@)) == Some(volume),
        "The original VM volume or owner changed; its files have been preserved"@,
    )
}

/// Whether the original directory is the one that was copied.
pub fn verify_source_receipt(saved: &Json, target: &Layout, owner: &str, volume: &str) -> (r:
    Result<(), Failure>)
    ensures
        refusal(r) == source_refusal(saved@, target@, owner@, volume@),
{
    let there = match saved.get("target") {
        Some(j) => layout_saved(j, target),
        None => {
            assert(!is_layout(at(saved@, "target"@), target@));
            false
        },
    };
    if saved.field_is("deviceId", owner) && there && saved.field_is("volumeId", volume) {
        Ok(())
    } else {
        Err(fail("The original VM volume or owner changed; its files have been preserved"))
    }
}

/// Why the original directory is not as it was when it was copied.
pub open spec fn changed_refusal(
    saved: JsonView,
    target: LayoutView,
    owner: Seq<char>,
    volume: Seq<char>,
    files: JsonView,
) -> Option<Seq<char>> {
    first_of(
        source_refusal(saved, target, owner, volume),
        unless(
            field(saved, "files"@) == Some(files),
            "The original VM changed after relocation; its files have been preserved"@,
        ),
    )
}

/// Whether the original directory still is as it was when it was copied.
pub fn verify_source(
    saved: &Json,
    target: &Layout,
    owner: &str,
    volume: &str,
    files: &Json,
) -> (r: Result<(), Failure>)
    ensures
        refusal(r) == changed_refusal(saved@, target@, owner@, volume@, files@),
{
    match verify_source_receipt(saved, target, owner, volume) {
        Ok(()) => {},
        Err(e) => {
            return Err(e);
        },
    }
    let same = match saved.get("files") {
        Some(j) => same_json(j, files),
        None => false,
    };
    if same {
        Ok(())
    } else {
        Err(fail("The original VM changed after relocation; its files have been preserved"))
    }
}

/// Whether a directory of a stopped runtime may go with it.
pub open spec fn is_disposable(name: Seq<char>) -> bool {
    name == "_disks"@ || name == "_networks"@ || name == "_config"@ || name == "_tmp"@ || name
        == "_cache"@
}

fn disposable(name: &str) -> (r: bool)
    ensures
        r == is_disposable(name@),
{
    text::same(name, "_disks") || text::same(name, "_networks") || text::same(name, "_config")
        || text::same(name, "_tmp") || text::same(name, "_cache")
}

/// Why a stopped runtime cannot be cleared: it still has a VM, or a directory
/// that is not the runtime's.
pub open spec fn clear_refusal(worker: bool, directories: Seq<Seq<char>>) -> Option<Seq<char>> {
    first_of(
        unless(
            !worker,
            "Remove the original VM through Lima before cleaning up its directory"@,
        ),
        unless(
            forall|i: int| 0 <= i < directories.len() ==> is_disposable(#[trigger] directories[i]),
            "An unexpected VM directory remains; original runtime cleanup was stopped"@,
        ),
    )
}

fn clear_stopped_home(worker: bool, directories: &[String]) -> (r: Result<(), Failure>)
    ensures
        refusal(r) == clear_refusal(worker, contents(directories@)),
{
    if worker {
        return Err(fail("Remove the original VM through Lima before cleaning up its directory"));
    }
    let ghost v = contents(directories@);
    for i in 0..directories.len()
        invariant
            v == contents(directories@),
            !worker,
            forall|j: int| 0 <= j < i ==> is_disposable(#[trigger] v[j]),
    {
        assert(v[i as int] == directories@[i as int]@);
        if !disposable(directories[i].as_str()) {
            return Err(
                fail("An unexpected VM directory remains; original runtime cleanup was stopped"),
            );
        }
    }
    Ok(())
}

/// Whether a retired runtime directory may be removed.
pub fn remove_retired_home(
    layout: &Layout,
    owner: &str,
    facts: &HomeFacts,
    worker: bool,
    directories: &[String],
) -> (r: Result<(), Failure>)
    ensures
        refusal(r) == first_of(
            home_refusal(layout@, owner@, *facts),
            clear_refusal(worker, contents(directories@)),
        ),
{
    match validate_home(layout, owner, facts) {
        Ok(()) => clear_stopped_home(worker, directories),
        Err(e) => Err(e),
    }
}

/// Whether the original runtime directory may be removed after a move.
pub fn remove_source_home(
    saved: &Json,
    target: &Layout,
    owner: &str,
    volume: &str,
    worker: bool,
    directories: &[String],
) -> (r: Result<(), Failure>)
    ensures
        refusal(r) == first_of(
            source_refusal(saved@, target@, owner@, volume@),
            clear_refusal(worker, contents(directories@)),
        ),
{
    match verify_source_receipt(saved, target, owner, volume) {
        Ok(()) => clear_stopped_home(worker, directories),
        Err(e) => Err(e),
    }
}

/// What a look at an entry of the original runtime finds.
#[derive(Debug)]
pub enum EntrySight {
    /// A link, where it points, and where that resolves.
    Link { link: String, resolved: Option<String> },
    Directory,
    File,
    Special,
}

/// What stands where a link is to go.
#[derive(Debug)]
pub enum LinkSight {
    Absent,
    /// A link, and where it points.
    Link(String),
    /// Something that is not read as a link, in the words of that error.
    Unreadable(String),
}

/// What is to be done with an entry of the original runtime.
#[derive(Debug)]
pub enum EntryPlan {
    Skip,
    MakeLink { to: String, link: String },
    /// The link is there already.
    KeepLink,
    MakeDirectory { to: String },
    CopyFile { to: String },
}

/// The content of an `EntryPlan`.
pub enum EntryPlanView {
    Skip,
    MakeLink { to: Seq<char>, link: Seq<char> },
    KeepLink,
    MakeDirectory { to: Seq<char> },
    CopyFile { to: Seq<char> },
}

impl View for EntryPlan {
    type V = EntryPlanView;

    open spec fn view(&self) -> EntryPlanView {
        match self {
            EntryPlan::Skip => EntryPlanView::Skip,
            EntryPlan::MakeLink { to, link } => EntryPlanView::MakeLink { to: to@, link: link@ },
            EntryPlan::KeepLink => EntryPlanView::KeepLink,
            EntryPlan::MakeDirectory { to } => EntryPlanView::MakeDirectory { to: to@ },
            EntryPlan::CopyFile { to } => EntryPlanView::CopyFile { to: to@ },
        }
    }
}

/// Whether an entry is not copied: what lives only while the VM runs, what can
/// be made again, and the records of the copy itself.
pub open spec fn is_left_out(name: Seq<char>) -> bool {
    name == "_networks"@ || name == "_tmp"@ || name == "_cache"@ || text::has_prefix(
        name,
        ".boot-"@,
    ) || name == ".nodeharbor-copy-worker"@ || name == ".nodeharbor-relocation-source.json"@
        || name == ".nodeharbor-runtime.json"@ || is_transient(name)
}

fn left_out(name: &str) -> (r: bool)
    ensures
        r == is_left_out(name@),
{
    text::same(name, "_networks") || text::same(name, "_tmp") || text::same(name, "_cache")
        || text::starts_with(name, ".boot-") || text::same(name, ".nodeharbor-copy-worker")
        || text::same(name, ".nodeharbor-relocation-source.json") || text::same(
        name,
        ".nodeharbor-runtime.json",
    ) || transient(name)
}

/// What is left of a path within a directory.
pub open spec fn path_below(t: Seq<char>, base: Seq<char>) -> Seq<char> {
    paths::joined_parts(paths::parts(t).skip(paths::parts(base).len() as int))
}

fn below(t: &str, base: &str) -> (r: String)
    requires
        paths::is_within(t@, base@),
    ensures
        r@ == path_below(t@, base@),
{
    let all = paths::path_parts(t);
    let first = paths::path_parts(base);
    assert(paths::parts(base@).len() <= paths::parts(t@).len());
    let r = paths::join_parts(all.as_slice(), first.len());
    r
}

/// Where an entry goes. While the new directory has no VM, the VM's own files
/// are staged beside its place.
pub open spec fn destination(home: Seq<char>, relative: Seq<char>, worker: bool) -> Seq<char> {
    if !worker && paths::is_within(relative, "worker"@) {
        paths::join_path(
            paths::join_path(home, ".nodeharbor-copy-worker"@),
            path_below(relative, "worker"@),
        )
    } else {
        paths::join_path(home, relative)
    }
}

fn destination_of(home: &str, relative: &str, worker: bool) -> (r: String)
    ensures
        r@ == destination(home@, relative@, worker),
{
    if !worker && paths::within(relative, "worker") {
        let staged = paths::join(home, ".nodeharbor-copy-worker");
        let rest = below(relative, "worker");
        paths::join(staged.as_str(), rest.as_str())
    } else {
        paths::join(home, relative)
    }
}

/// Where a copied link points: into the new directory where it pointed into the
/// old one.
pub open spec fn link_target(link: Seq<char>, source: Seq<char>, home: Seq<char>) -> Seq<char> {
    if paths::is_absolute(link) && paths::is_within(link, source) {
        paths::join_path(home, path_below(link, source))
    } else {
        link
    }
}

/// What is to be done with an entry of the original runtime, or why the copy
/// must stop.
pub open spec fn entry_choice(
    source: Seq<char>,
    home: Seq<char>,
    relative: Seq<char>,
    name: Seq<char>,
    worker: bool,
    allowed: Seq<Seq<char>>,
    sight: EntrySight,
    there: LinkSight,
) -> Result<EntryPlanView, Seq<char>> {
    let to = destination(home, relative, worker);
    if is_left_out(name) {
        Ok(EntryPlanView::Skip)
    } else {
        match sight {
            EntrySight::Link { link, resolved } => match resolved {
                None => Err("The original VM has an unavailable link"@),
                Some(place) => if !paths::is_within(place@, source) && !exists|i: int|
                    0 <= i < allowed.len() && paths::same_path(#[trigger] allowed[i], place@) {
                    Err("The VM contains an unowned external link"@)
                } else {
                    let target = link_target(link@, source, home);
                    match there {
                        LinkSight::Absent => Ok(EntryPlanView::MakeLink { to, link: target }),
                        LinkSight::Link(found) => if paths::same_path(found@, target) {
                            Ok(EntryPlanView::KeepLink)
                        } else {
                            Err("The destination VM link changed"@)
                        },
                        LinkSight::Unreadable(words) => Err(words@),
                    }
                },
            },
            EntrySight::Directory => Ok(EntryPlanView::MakeDirectory { to }),
            EntrySight::File => Ok(EntryPlanView::CopyFile { to }),
            EntrySight::Special => Err("Unexpected special file in the stopped VM runtime"@),
        }
    }
}

/// Whatever stands under a name of a file that only lives while the VM runs is left
/// out of a copy; every other file goes to its destination, unless the runtime makes
/// its kind anew.
pub proof fn transient_files_are_left_out(
    source: Seq<char>,
    home: Seq<char>,
    relative: Seq<char>,
    name: Seq<char>,
    worker: bool,
    allowed: Seq<Seq<char>>,
    sight: EntrySight,
    there: LinkSight,
)
    ensures
        is_transient(name) ==> entry_choice(
            source,
            home,
            relative,
            name,
            worker,
            allowed,
            sight,
            there,
        ) == Ok::<EntryPlanView, Seq<char>>(EntryPlanView::Skip),
        !is_left_out(name) && sight is File ==> entry_choice(
            source,
            home,
            relative,
            name,
            worker,
            allowed,
            sight,
            there,
        ) == Ok::<EntryPlanView, Seq<char>>(
            EntryPlanView::CopyFile { to: destination(home, relative, worker) },
        ),
{
}

fn allows(allowed: &[String], place: &str) -> (r: bool)
    ensures
        r == exists|i: int|
            0 <= i < contents(allowed@).len() && paths::same_path(
                #[trigger] contents(allowed@)[i],
                place@,
            ),
{
    let ghost v = contents(allowed@);
    for i in 0..allowed.len()
        invariant
            v == contents(allowed@),
            forall|j: int| 0 <= j < i ==> !paths::same_path(#[trigger] v[j], place@),
    {
        assert(v[i as int] == allowed@[i as int]@);
        if paths::path_eq(allowed[i].as_str(), place) {
            return true;
        }
    }
    false
}

fn choose_link(
    source: &str,
    home: &str,
    to: String,
    allowed: &[String],
    link: &str,
    place: &str,
    there: &LinkSight,
) -> (r: Result<EntryPlan, Failure>)
    ensures
        if !paths::is_within(place@, source@) && !exists|i: int|
            0 <= i < contents(allowed@).len() && paths::same_path(
                #[trigger] contents(allowed@)[i],
                place@,
            ) {
            refusal(r) == Some("The VM contains an unowned external link"@)
        } else {
            match *there {
                LinkSight::Absent => r matches Ok(p) && p@ == (EntryPlanView::MakeLink {
                    to: to@,
                    link: link_target(link@, source@, home@),
                }),
                LinkSight::Link(found) => if paths::same_path(
                    found@,
                    link_target(link@, source@, home@),
                ) {
                    r matches Ok(p) && p@ == EntryPlanView::KeepLink
                } else {
                    refusal(r) == Some("The destination VM link changed"@)
                },
                LinkSight::Unreadable(words) => refusal(r) == Some(words@),
            }
        },
{
    if !paths::within(place, source) && !allows(allowed, place) {
        return Err(fail("The VM contains an unowned external link"));
    }
    let target = if paths::absolute(link) && paths::within(link, source) {
        let rest = below(link, source);
        paths::join(home, rest.as_str())
    } else {
        link.to_owned()
    };
    match there {
        LinkSight::Absent => Ok(EntryPlan::MakeLink { to, link: target }),
        LinkSight::Link(found) => if paths::path_eq(found.as_str(), target.as_str()) {
            Ok(EntryPlan::KeepLink)
        } else {
            Err(fail("The destination VM link changed"))
        },
        LinkSight::Unreadable(words) => Err(Failure { message: words.clone() }),
    }
}

/// What is to be done with an entry of the original runtime. Its path is
/// relative to that; the new directory has a VM or not.
pub fn plan_entry(
    source: &str,
    home: &str,
    relative: &str,
    name: &str,
    worker: bool,
    allowed: &[String],
    sight: &EntrySight,
    there: &LinkSight,
) -> (r: Result<EntryPlan, Failure>)
    ensures
        match entry_choice(
            source@,
            home@,
            relative@,
            name@,
            worker,
            contents(allowed@),
            *sight,
            *there,
        ) {
            Ok(plan) => r matches Ok(p) && p@ == plan,
            Err(message) => refusal(r) == Some(message),
        },
{
    if left_out(name) {
        return Ok(EntryPlan::Skip);
    }
    let to = destination_of(home, relative, worker);
    match sight {
        EntrySight::Link { link, resolved } => match resolved {
            None => Err(fail("The original VM has an unavailable link")),
            Some(place) => choose_link(
                source,
                home,
                to,
                allowed,
                link.as_str(),
                place.as_str(),
                there,
            ),
        },
        EntrySight::Directory => Ok(EntryPlan::MakeDirectory { to }),
        EntrySight::File => Ok(EntryPlan::CopyFile { to }),
        EntrySight::Special => Err(fail("Unexpected special file in the stopped VM runtime")),
    }
}

/// Where an entry goes in the new directory, for the look at what stands there.
pub fn entry_destination(home: &str, relative: &str, worker: bool) -> (r: String)
    ensures
        r@ == destination(home@, relative@, worker),
{
    destination_of(home, relative, worker)
}

/// While the new directory has no VM, nothing is copied into the VM's place:
/// Lima never discovers a partly copied VM.
pub proof fn partial_copies_stay_hidden(home: Seq<char>, relative: Seq<char>)
    requires
        paths::is_absolute(home),
        !paths::is_absolute(relative),
        paths::segments(relative)[0] != seq!['.'],
    ensures
        !paths::is_within(
            destination(home, relative, false),
            paths::join_path(home, "worker"@),
        ),
{
    reveal_strlit("worker");
    reveal_strlit(".nodeharbor-copy-worker");
    let worker = "worker"@;
    let staged = ".nodeharbor-copy-worker"@;
    assert(worker.len() == 6 && staged.len() == 23);
    paths::names_are_single_parts(worker);
    paths::names_are_single_parts(staged);
    assert(worker[0] == 'w' && staged[0] == '.');
    assert(paths::segments(worker)[0] == worker);
    assert(paths::segments(staged)[0] == staged);
    assert(worker != seq!['.'] && staged != seq!['.']) by {
        assert(worker.len() != seq!['.'].len() && staged.len() != seq!['.'].len());
    }
    paths::joined_path_has_both(home, worker);
    let k = paths::parts(home).len() as int;
    let place = paths::parts(paths::join_path(home, worker));
    assert(place[k] == worker);
    let to = destination(home, relative, false);
    if paths::is_within(to, paths::join_path(home, worker)) {
        assert(paths::parts(to).subrange(0, place.len() as int) =~= place);
        assert(paths::parts(to)[k] == worker);
        if paths::is_within(relative, worker) {
            paths::joined_path_has_both(home, staged);
            let beside = paths::join_path(home, staged);
            let rest = path_below(relative, worker);
            let names = paths::parts(relative).skip(1);
            paths::parts_are_names(relative);
            if names.len() > 0 {
                assert forall|j: int| 0 <= j < names.len() implies paths::is_name(
                    #[trigger] names[j],
                ) by {
                    assert(names[j] == paths::parts(relative)[j + 1]);
                }
                assert(names[0] == paths::parts(relative)[1]);
                paths::joined_names_are_relative(names);
            } else {
                assert(rest =~= Seq::<char>::empty());
                assert(paths::segments(rest)[0] =~= Seq::<char>::empty());
                assert(paths::segments(rest)[0].len() != seq!['.'].len());
            }
            assert(beside.len() > 0);
            paths::joined_path_has_both(beside, rest);
            assert(paths::parts(to)[k] == staged);
            assert(worker[0] != staged[0]);
        } else {
            paths::joined_path_has_both(home, relative);
            assert(paths::parts(to)[k] == paths::parts(relative)[0]);
            assert(seq![worker].is_prefix_of(paths::parts(relative))) by {
                assert(paths::parts(relative).subrange(0, 1) =~= seq![worker]);
            }
        }
    }
}

/// The directories that links of the original runtime may lead to: those of its
/// disks.
pub open spec fn link_directories(
    source: Seq<char>,
    owner: Seq<char>,
    disks: Seq<LocationView>,
    n: int,
) -> Result<Seq<Seq<char>>, Seq<char>>
    decreases n,
{
    if n <= 0 {
        Ok(Seq::empty())
    } else {
        match link_directories(source, owner, disks, n - 1) {
            Err(message) => Err(message),
            Ok(before) => match paths_of(source, owner, disks[n - 1]) {
                Err(message) => Err(message),
                Ok(p) => Ok(before.push(p.directory)),
            },
        }
    }
}

proof fn lemma_links_refused(
    source: Seq<char>,
    owner: Seq<char>,
    disks: Seq<LocationView>,
    i: int,
    n: int,
)
    requires
        0 <= i <= n,
        link_directories(source, owner, disks, i) is Err,
    ensures
        link_directories(source, owner, disks, n) == link_directories(source, owner, disks, i),
    decreases n,
{
    if i < n {
        lemma_links_refused(source, owner, disks, i, n - 1);
    }
}

/// The directories that links of the original runtime may lead to.
pub fn allowed_links(source: &str, owner: &str, disks: &[Location]) -> (r: Result<
    Vec<String>,
    Failure,
>)
    ensures
        match link_directories(source@, owner@, location_views(disks@), disks@.len() as int) {
            Ok(d) => r matches Ok(v) && contents(v@) == d,
            Err(message) => refusal(r) == Some(message),
        },
{
    let ghost v = location_views(disks@);
    let mut r: Vec<String> = Vec::new();
    assert(contents(r@) =~= Seq::<Seq<char>>::empty());
    for i in 0..disks.len()
        invariant
            v == location_views(disks@),
            link_directories(source@, owner@, v, i as int) == Ok::<Seq<Seq<char>>, Seq<char>>(
                contents(r@),
            ),
    {
        assert(v[i as int] == disks@[i as int]@);
        match disk_paths(source, owner, &disks[i]) {
            Ok(p) => {
                let ghost before = contents(r@);
                r.push(p.directory);
                assert(contents(r@) =~= before.push(p@.directory));
            },
            Err(e) => {
                proof {
                    lemma_links_refused(source@, owner@, v, i + 1, disks@.len() as int);
                }
                return Err(e);
            },
        }
    }
    Ok(r)
}

/// Whether two runtime directories are apart.
pub open spec fn are_apart(source: Seq<char>, home: Seq<char>) -> bool {
    !paths::same_path(source, home) && !paths::is_within(home, source) && !paths::is_within(
        source,
        home,
    )
}

/// Whether two runtime directories are apart.
pub fn apart(source: &str, home: &str) -> (r: bool)
    ensures
        r == are_apart(source@, home@),
{
    !paths::path_eq(source, home) && !paths::within(home, source) && !paths::within(source, home)
}

/// Whether a copied piece has the bytes of its source; the difference is what is said
/// otherwise.
pub fn check_piece(expected: &[u8], found: &[u8], difference: &str) -> (r: Result<(), Failure>)
    ensures
        refusal(r) == unless(expected@ == found@, difference@),
{
    if expected.len() != found.len() {
        return Err(Failure { message: difference.to_owned() });
    }
    for i in 0..expected.len()
        invariant
            expected@.len() == found@.len(),
            forall|j: int| 0 <= j < i ==> expected@[j] == found@[j],
    {
        if expected[i] != found[i] {
            return Err(Failure { message: difference.to_owned() });
        }
    }
    assert(expected@ =~= found@);
    Ok(())
}

/// How much of a range is copied or compared at once.
pub fn chunk(at: u64, end: u64) -> (r: usize)
    requires
        at < end,
    ensures
        0 < r <= 1_048_576,
        r == 1_048_576 || r == end - at,
        at + r <= end,
{
    let left = end - at;
    if left < 1_048_576 {
        left as usize
    } else {
        1_048_576
    }
}

/// Whether a copied file is a disk image, which a retry verifies and keeps.
pub fn is_image_name(name: &str) -> (r: bool)
    ensures
        r == (name@ == "disk"@ || name@ == "diffdisk"@),
{
    text::same(name, "disk") || text::same(name, "diffdisk")
}

/// A refusal of an operation on a runtime directory.
#[derive(Clone, Copy, Debug, PartialEq, Eq, Structural)]
pub enum HomeRefusal {
    DestinationTaken,
    Overlap,
    DestinationChanged,
}

/// The message of a refusal.
pub open spec fn home_refusal_text(n: HomeRefusal) -> Seq<char> {
    match n {
        HomeRefusal::DestinationTaken => "The VM destination already contains files without a matching ownership receipt"@,
        HomeRefusal::Overlap => "VM runtime directories cannot overlap"@,
        HomeRefusal::DestinationChanged => "The VM destination changed during copying"@,
    }
}

/// The message of a refusal.
pub fn home_refusal_message(n: HomeRefusal) -> (r: &'static str)
    ensures
        r@ == home_refusal_text(n),
{
    match n {
        HomeRefusal::DestinationTaken => "The VM destination already contains files without a matching ownership receipt",
        HomeRefusal::Overlap => "VM runtime directories cannot overlap",
        HomeRefusal::DestinationChanged => "The VM destination changed during copying",
    }
}

/// How an operation on a runtime directory ends.
#[derive(Clone, Copy, Debug, PartialEq, Eq, Structural)]
pub enum HomeOutcome {
    Done,
    /// With the error of the last step.
    Failed,
    Refused(HomeRefusal),
}

/// What an operation on a runtime directory asks for next.
#[derive(Clone, Copy, Debug, PartialEq, Eq, Structural)]
pub enum HomeStep {
    /// Whether the selected folder exists.
    FolderExists,
    /// Whether the folder stands on the selected volume.
    FolderVolume,
    /// Whether the folder above it does.
    ParentVolume,
    MakeFolder,
    ReceiptExists,
    Validate,
    MakeHome,
    HomeEmpty,
    HomeVolume,
    WriteReceipt,
    SyncHome,
    /// Whether the owner still wants this.
    Authority,
    Prepare,
    SourceVolume,
    MarkerExists,
    VerifySource,
    WriteMarker,
    SyncSource,
    /// The directories that links may lead to.
    AllowedLinks,
    /// Copy every entry.
    Walk,
    StagedExists,
    WorkerExists,
    RenameStaged,
    OpenSource,
    /// Whether the image was copied before.
    Copied,
    OpenCopy,
    CopyVolume,
    CompareCopy,
    SourceUnchanged,
    DestinationVolume,
    MakeTemporary,
    TemporaryVolume,
    CopyRanges,
    SyncTemporary,
    CompareTemporary,
    Persist,
    SyncDestination,
    Finish(HomeOutcome),
}

/// What an operation on a runtime directory hears back.
#[derive(Clone, Copy, Debug, PartialEq, Eq, Structural)]
pub enum HomeEvent {
    Begin,
    Done,
    Failed,
    Answer(bool),
}

/// Where the preparation of a runtime directory stands.
#[derive(Clone, Copy, Debug, PartialEq, Eq, Structural)]
pub enum HomeAt {
    Start,
    FolderSeen,
    AnchorChecked,
    ParentChecked,
    FolderMade,
    FolderChecked,
    ReceiptSeen,
    HomeMade,
    EmptySeen,
    HomeChecked,
    ReceiptWritten,
    Synced,
    Validated,
    Over,
}

/// The preparation of a runtime directory under way.
#[derive(Clone, Copy, Debug, PartialEq, Eq, Structural)]
pub struct Preparing {
    pub at: HomeAt,
    /// Whether the selected volume was found there.
    pub anchored: bool,
}

/// The preparation is over.
pub open spec fn home_end(p: Preparing, outcome: HomeOutcome) -> (Preparing, HomeStep) {
    (Preparing { at: HomeAt::Over, ..p }, HomeStep::Finish(outcome))
}

/// The preparation is over.
fn do_home_end(p: Preparing, outcome: HomeOutcome) -> (r: (Preparing, HomeStep))
    ensures
        r == home_end(p, outcome),
{
    (Preparing { at: HomeAt::Over, ..p }, HomeStep::Finish(outcome))
}

/// What the preparation of a runtime directory makes of an answer. Only the final
/// selected folder can be new: a missing mount is never recreated.
pub open spec fn home_after(p: Preparing, e: HomeEvent) -> (Preparing, HomeStep) {
    match (p.at, e) {
        (HomeAt::Start, HomeEvent::Begin) => (
            Preparing { at: HomeAt::FolderSeen, ..p },
            HomeStep::FolderExists,
        ),
        (HomeAt::FolderSeen, HomeEvent::Answer(exists)) => if exists {
            (Preparing { at: HomeAt::AnchorChecked, ..p }, HomeStep::FolderVolume)
        } else {
            (Preparing { at: HomeAt::ParentChecked, ..p }, HomeStep::ParentVolume)
        },
        (HomeAt::ParentChecked, HomeEvent::Done) => {
            (Preparing { at: HomeAt::FolderMade, anchored: true, ..p }, HomeStep::MakeFolder)
        },
        (HomeAt::FolderMade, HomeEvent::Done) => (
            Preparing { at: HomeAt::FolderChecked, ..p },
            HomeStep::FolderVolume,
        ),
        (HomeAt::AnchorChecked, HomeEvent::Done) => {
            (Preparing { at: HomeAt::FolderChecked, anchored: true, ..p }, HomeStep::FolderVolume)
        },
        (HomeAt::FolderChecked, HomeEvent::Done) => (
            Preparing { at: HomeAt::ReceiptSeen, ..p },
            HomeStep::ReceiptExists,
        ),
        (HomeAt::ReceiptSeen, HomeEvent::Answer(exists)) => if exists {
            (Preparing { at: HomeAt::Validated, ..p }, HomeStep::Validate)
        } else {
            (Preparing { at: HomeAt::HomeMade, ..p }, HomeStep::MakeHome)
        },
        (HomeAt::HomeMade, HomeEvent::Done) => (
            Preparing { at: HomeAt::EmptySeen, ..p },
            HomeStep::HomeEmpty,
        ),
        (HomeAt::EmptySeen, HomeEvent::Answer(empty)) => if empty {
            (Preparing { at: HomeAt::HomeChecked, ..p }, HomeStep::HomeVolume)
        } else {
            home_end(p, HomeOutcome::Refused(HomeRefusal::DestinationTaken))
        },
        (HomeAt::HomeChecked, HomeEvent::Done) => (
            Preparing { at: HomeAt::ReceiptWritten, ..p },
            HomeStep::WriteReceipt,
        ),
        (HomeAt::ReceiptWritten, HomeEvent::Done) => (
            Preparing { at: HomeAt::Synced, ..p },
            HomeStep::SyncHome,
        ),
        (HomeAt::Synced, HomeEvent::Done) => (
            Preparing { at: HomeAt::Validated, ..p },
            HomeStep::Validate,
        ),
        (HomeAt::Validated, HomeEvent::Done) => home_end(p, HomeOutcome::Done),
        _ => home_end(p, HomeOutcome::Failed),
    }
}

/// What the preparation of a runtime directory makes of an answer. Only the final
/// selected folder can be new: a missing mount is never recreated.
fn do_home_after(p: Preparing, e: HomeEvent) -> (r: (Preparing, HomeStep))
    ensures
        r == home_after(p, e),
{
    match (p.at, e) {
        (HomeAt::Start, HomeEvent::Begin) => (
            Preparing { at: HomeAt::FolderSeen, ..p },
            HomeStep::FolderExists,
        ),
        (HomeAt::FolderSeen, HomeEvent::Answer(exists)) => if exists {
            (Preparing { at: HomeAt::AnchorChecked, ..p }, HomeStep::FolderVolume)
        } else {
            (Preparing { at: HomeAt::ParentChecked, ..p }, HomeStep::ParentVolume)
        },
        (HomeAt::ParentChecked, HomeEvent::Done) => {
            (Preparing { at: HomeAt::FolderMade, anchored: true, ..p }, HomeStep::MakeFolder)
        },
        (HomeAt::FolderMade, HomeEvent::Done) => (
            Preparing { at: HomeAt::FolderChecked, ..p },
            HomeStep::FolderVolume,
        ),
        (HomeAt::AnchorChecked, HomeEvent::Done) => {
            (Preparing { at: HomeAt::FolderChecked, anchored: true, ..p }, HomeStep::FolderVolume)
        },
        (HomeAt::FolderChecked, HomeEvent::Done) => (
            Preparing { at: HomeAt::ReceiptSeen, ..p },
            HomeStep::ReceiptExists,
        ),
        (HomeAt::ReceiptSeen, HomeEvent::Answer(exists)) => if exists {
            (Preparing { at: HomeAt::Validated, ..p }, HomeStep::Validate)
        } else {
            (Preparing { at: HomeAt::HomeMade, ..p }, HomeStep::MakeHome)
        },
        (HomeAt::HomeMade, HomeEvent::Done) => (
            Preparing { at: HomeAt::EmptySeen, ..p },
            HomeStep::HomeEmpty,
        ),
        (HomeAt::EmptySeen, HomeEvent::Answer(empty)) => if empty {
            (Preparing { at: HomeAt::HomeChecked, ..p }, HomeStep::HomeVolume)
        } else {
            do_home_end(p, HomeOutcome::Refused(HomeRefusal::DestinationTaken))
        },
        (HomeAt::HomeChecked, HomeEvent::Done) => (
            Preparing { at: HomeAt::ReceiptWritten, ..p },
            HomeStep::WriteReceipt,
        ),
        (HomeAt::ReceiptWritten, HomeEvent::Done) => (
            Preparing { at: HomeAt::Synced, ..p },
            HomeStep::SyncHome,
        ),
        (HomeAt::Synced, HomeEvent::Done) => (
            Preparing { at: HomeAt::Validated, ..p },
            HomeStep::Validate,
        ),
        (HomeAt::Validated, HomeEvent::Done) => do_home_end(p, HomeOutcome::Done),
        _ => do_home_end(p, HomeOutcome::Failed),
    }
}

impl Preparing {
    /// A preparation that has not begun.
    pub fn new() -> (r: Self)
        ensures
            r == (Preparing { at: HomeAt::Start, anchored: false }),
    {
        Preparing { at: HomeAt::Start, anchored: false }
    }

    /// What the preparation makes of an answer, and what it asks for next.
    pub fn next(self, e: HomeEvent) -> (r: (Preparing, HomeStep))
        ensures
            r == home_after(self, e),
    {
        do_home_after(self, e)
    }
}

/// What holds at each point of a preparation.
pub open spec fn preparable(p: Preparing) -> bool {
    match p.at {
        HomeAt::Start | HomeAt::FolderSeen | HomeAt::AnchorChecked | HomeAt::ParentChecked
        | HomeAt::Over => true,
        _ => p.anchored,
    }
}

/// Nothing is made before the selected volume was found in its place, and the
/// receipt goes only into an empty directory on it.
pub proof fn directories_stay_on_their_volume(p: Preparing, e: HomeEvent)
    requires
        preparable(p),
    ensures
        preparable(home_after(p, e).0),
        home_after(p, e).1 is MakeFolder ==> home_after(p, e).0.anchored && p.at
            == HomeAt::ParentChecked && e == HomeEvent::Done,
        home_after(p, e).1 is MakeHome || home_after(p, e).1 is WriteReceipt ==> p.anchored,
        home_after(p, e).1 is WriteReceipt ==> p.at == HomeAt::HomeChecked && e
            == HomeEvent::Done,
{
}

/// Where the copy of a runtime stands.
#[derive(Clone, Copy, Debug, PartialEq, Eq, Structural)]
pub enum MoveAt {
    Start,
    Allowed,
    Prepared,
    SourceSeen,
    MarkerSeen,
    SourceVerified,
    MarkerWritten,
    SourceSynced,
    LinksKnown,
    Walked,
    StillAllowed,
    HomeSynced,
    SourceUnchanged,
    StagedSeen,
    WorkerSeen,
    Renamed,
    LastSynced,
    Validated,
    Over,
}

/// The copy of a runtime under way.
#[derive(Clone, Copy, Debug, PartialEq, Eq, Structural)]
pub struct Copying {
    pub at: MoveAt,
    /// Whether the two directories are apart.
    pub apart: bool,
    /// Whether every entry was copied.
    pub copied: bool,
    /// Whether the original was found unchanged after that.
    pub verified: bool,
}

/// The copy is over.
pub open spec fn move_end(c: Copying, outcome: HomeOutcome) -> (Copying, HomeStep) {
    (Copying { at: MoveAt::Over, ..c }, HomeStep::Finish(outcome))
}

/// The copy is over.
fn do_move_end(c: Copying, outcome: HomeOutcome) -> (r: (Copying, HomeStep))
    ensures
        r == move_end(c, outcome),
{
    (Copying { at: MoveAt::Over, ..c }, HomeStep::Finish(outcome))
}

/// The new directory is looked at once more.
pub open spec fn move_validate(c: Copying) -> (Copying, HomeStep) {
    (Copying { at: MoveAt::Validated, ..c }, HomeStep::Validate)
}

/// The new directory is looked at once more.
fn do_move_validate(c: Copying) -> (r: (Copying, HomeStep))
    ensures
        r == move_validate(c),
{
    (Copying { at: MoveAt::Validated, ..c }, HomeStep::Validate)
}

/// What the copy of a runtime makes of an answer. The caller has verified the VM's
/// creation receipt and stopped the VM.
pub open spec fn move_after(c: Copying, e: HomeEvent) -> (Copying, HomeStep) {
    match (c.at, e) {
        (MoveAt::Start, HomeEvent::Begin) => (
            Copying { at: MoveAt::Allowed, ..c },
            HomeStep::Authority,
        ),
        (MoveAt::Allowed, HomeEvent::Done) => (
            Copying { at: MoveAt::Prepared, ..c },
            HomeStep::Prepare,
        ),
        (MoveAt::Prepared, HomeEvent::Done) => (
            Copying { at: MoveAt::SourceSeen, ..c },
            HomeStep::SourceVolume,
        ),
        (MoveAt::SourceSeen, HomeEvent::Done) => (
            Copying { at: MoveAt::MarkerSeen, ..c },
            HomeStep::MarkerExists,
        ),
        (MoveAt::MarkerSeen, HomeEvent::Answer(exists)) => if exists {
            (Copying { at: MoveAt::SourceVerified, ..c }, HomeStep::VerifySource)
        } else {
            (Copying { at: MoveAt::MarkerWritten, ..c }, HomeStep::WriteMarker)
        },
        (MoveAt::MarkerWritten, HomeEvent::Done) => (
            Copying { at: MoveAt::SourceSynced, ..c },
            HomeStep::SyncSource,
        ),
        (MoveAt::SourceVerified, HomeEvent::Done) | (MoveAt::SourceSynced, HomeEvent::Done) => {
            if c.apart {
                (Copying { at: MoveAt::LinksKnown, ..c }, HomeStep::AllowedLinks)
            } else {
                move_end(c, HomeOutcome::Refused(HomeRefusal::Overlap))
            }
        },
        (MoveAt::LinksKnown, HomeEvent::Done) => (
            Copying { at: MoveAt::Walked, ..c },
            HomeStep::Walk,
        ),
        (MoveAt::Walked, HomeEvent::Done) => (
            Copying { at: MoveAt::StillAllowed, copied: true, ..c },
            HomeStep::Authority,
        ),
        (MoveAt::StillAllowed, HomeEvent::Done) => (
            Copying { at: MoveAt::HomeSynced, ..c },
            HomeStep::SyncHome,
        ),
        (MoveAt::HomeSynced, HomeEvent::Done) => (
            Copying { at: MoveAt::SourceUnchanged, ..c },
            HomeStep::VerifySource,
        ),
        (MoveAt::SourceUnchanged, HomeEvent::Done) => {
            (Copying { at: MoveAt::StagedSeen, verified: true, ..c }, HomeStep::StagedExists)
        },
        (MoveAt::StagedSeen, HomeEvent::Answer(exists)) => if exists {
            (Copying { at: MoveAt::WorkerSeen, ..c }, HomeStep::WorkerExists)
        } else {
            move_validate(c)
        },
        (MoveAt::WorkerSeen, HomeEvent::Answer(exists)) => if exists {
            move_end(c, HomeOutcome::Refused(HomeRefusal::DestinationChanged))
        } else {
            (Copying { at: MoveAt::Renamed, ..c }, HomeStep::RenameStaged)
        },
        (MoveAt::Renamed, HomeEvent::Done) => (
            Copying { at: MoveAt::LastSynced, ..c },
            HomeStep::SyncHome,
        ),
        (MoveAt::LastSynced, HomeEvent::Done) => move_validate(c),
        (MoveAt::Validated, HomeEvent::Done) => move_end(c, HomeOutcome::Done),
        _ => move_end(c, HomeOutcome::Failed),
    }
}

/// What the copy of a runtime makes of an answer. The caller has verified the VM's
/// creation receipt and stopped the VM.
fn do_move_after(c: Copying, e: HomeEvent) -> (r: (Copying, HomeStep))
    ensures
        r == move_after(c, e),
{
    match (c.at, e) {
        (MoveAt::Start, HomeEvent::Begin) => (
            Copying { at: MoveAt::Allowed, ..c },
            HomeStep::Authority,
        ),
        (MoveAt::Allowed, HomeEvent::Done) => (
            Copying { at: MoveAt::Prepared, ..c },
            HomeStep::Prepare,
        ),
        (MoveAt::Prepared, HomeEvent::Done) => (
            Copying { at: MoveAt::SourceSeen, ..c },
            HomeStep::SourceVolume,
        ),
        (MoveAt::SourceSeen, HomeEvent::Done) => (
            Copying { at: MoveAt::MarkerSeen, ..c },
            HomeStep::MarkerExists,
        ),
        (MoveAt::MarkerSeen, HomeEvent::Answer(exists)) => if exists {
            (Copying { at: MoveAt::SourceVerified, ..c }, HomeStep::VerifySource)
        } else {
            (Copying { at: MoveAt::MarkerWritten, ..c }, HomeStep::WriteMarker)
        },
        (MoveAt::MarkerWritten, HomeEvent::Done) => (
            Copying { at: MoveAt::SourceSynced, ..c },
            HomeStep::SyncSource,
        ),
        (MoveAt::SourceVerified, HomeEvent::Done) | (MoveAt::SourceSynced, HomeEvent::Done) => {
            if c.apart {
                (Copying { at: MoveAt::LinksKnown, ..c }, HomeStep::AllowedLinks)
            } else {
                do_move_end(c, HomeOutcome::Refused(HomeRefusal::Overlap))
            }
        },
        (MoveAt::LinksKnown, HomeEvent::Done) => (
            Copying { at: MoveAt::Walked, ..c },
            HomeStep::Walk,
        ),
        (MoveAt::Walked, HomeEvent::Done) => (
            Copying { at: MoveAt::StillAllowed, copied: true, ..c },
            HomeStep::Authority,
        ),
        (MoveAt::StillAllowed, HomeEvent::Done) => (
            Copying { at: MoveAt::HomeSynced, ..c },
            HomeStep::SyncHome,
        ),
        (MoveAt::HomeSynced, HomeEvent::Done) => (
            Copying { at: MoveAt::SourceUnchanged, ..c },
            HomeStep::VerifySource,
        ),
        (MoveAt::SourceUnchanged, HomeEvent::Done) => {
            (Copying { at: MoveAt::StagedSeen, verified: true, ..c }, HomeStep::StagedExists)
        },
        (MoveAt::StagedSeen, HomeEvent::Answer(exists)) => if exists {
            (Copying { at: MoveAt::WorkerSeen, ..c }, HomeStep::WorkerExists)
        } else {
            do_move_validate(c)
        },
        (MoveAt::WorkerSeen, HomeEvent::Answer(exists)) => if exists {
            do_move_end(c, HomeOutcome::Refused(HomeRefusal::DestinationChanged))
        } else {
            (Copying { at: MoveAt::Renamed, ..c }, HomeStep::RenameStaged)
        },
        (MoveAt::Renamed, HomeEvent::Done) => (
            Copying { at: MoveAt::LastSynced, ..c },
            HomeStep::SyncHome,
        ),
        (MoveAt::LastSynced, HomeEvent::Done) => do_move_validate(c),
        (MoveAt::Validated, HomeEvent::Done) => do_move_end(c, HomeOutcome::Done),
        _ => do_move_end(c, HomeOutcome::Failed),
    }
}

impl Copying {
    /// A copy that has not begun.
    pub fn new(source: &str, home: &str) -> (r: Self)
        ensures
            r == (Copying {
                at: MoveAt::Start,
                apart: are_apart(source@, home@),
                copied: false,
                verified: false,
            }),
    {
        Copying { at: MoveAt::Start, apart: apart(source, home), copied: false, verified: false }
    }

    /// What the copy makes of an answer, and what it asks for next.
    pub fn next(self, e: HomeEvent) -> (r: (Copying, HomeStep))
        ensures
            r == move_after(self, e),
    {
        do_move_after(self, e)
    }
}

/// What holds at each point of a copy.
pub open spec fn copyable(c: Copying) -> bool {
    match c.at {
        MoveAt::LinksKnown | MoveAt::Walked => c.apart,
        MoveAt::StillAllowed | MoveAt::HomeSynced | MoveAt::SourceUnchanged => c.apart && c.copied,
        MoveAt::StagedSeen | MoveAt::WorkerSeen | MoveAt::Renamed | MoveAt::LastSynced
        | MoveAt::Validated => c.apart && c.copied && c.verified,
        _ => true,
    }
}

/// The copied VM gets its name, and the copy ends well, only after everything
/// was copied and the original found unchanged; and directories that overlap are
/// never copied.
#[verifier::rlimit(40)]
pub proof fn copies_appear_whole(c: Copying, e: HomeEvent)
    requires
        copyable(c),
    ensures
        copyable(move_after(c, e).0),
        move_after(c, e).1 is Walk ==> c.apart,
        move_after(c, e).1 is RenameStaged ==> c.copied && c.verified && e
            == HomeEvent::Answer(false),
        move_after(c, e).1 == HomeStep::Finish(HomeOutcome::Done) ==> c.copied && c.verified,
{
}

/// Where the copy of a file stands.
#[derive(Clone, Copy, Debug, PartialEq, Eq, Structural)]
pub enum FileAt {
    Start,
    Opened,
    SourceChecked,
    CopySeen,
    CopyOpened,
    CopyChecked,
    CopyCompared,
    CopyCurrent,
    ParentChecked,
    TemporaryMade,
    TemporaryChecked,
    Filled,
    Synced,
    Compared,
    Current,
    StillAllowed,
    ParentStill,
    Persisted,
    ParentSynced,
    Over,
}

/// The copy of a file under way.
#[derive(Clone, Copy, Debug, PartialEq, Eq, Structural)]
pub struct FileCopy {
    pub at: FileAt,
    /// Whether the copy was compared with its source.
    pub compared: bool,
    /// Whether the source was found unchanged after that.
    pub current: bool,
}

/// The copy is over.
pub open spec fn file_end(f: FileCopy, outcome: HomeOutcome) -> (FileCopy, HomeStep) {
    (FileCopy { at: FileAt::Over, ..f }, HomeStep::Finish(outcome))
}

/// The copy is over.
fn do_file_end(f: FileCopy, outcome: HomeOutcome) -> (r: (FileCopy, HomeStep))
    ensures
        r == file_end(f, outcome),
{
    (FileCopy { at: FileAt::Over, ..f }, HomeStep::Finish(outcome))
}

/// What the copy of a file makes of an answer. An image that was copied before is
/// compared and kept.
pub open spec fn file_after(f: FileCopy, e: HomeEvent) -> (FileCopy, HomeStep) {
    match (f.at, e) {
        (FileAt::Start, HomeEvent::Begin) => (
            FileCopy { at: FileAt::Opened, ..f },
            HomeStep::OpenSource,
        ),
        (FileAt::Opened, HomeEvent::Done) => (
            FileCopy { at: FileAt::SourceChecked, ..f },
            HomeStep::SourceVolume,
        ),
        (FileAt::SourceChecked, HomeEvent::Done) => (
            FileCopy { at: FileAt::CopySeen, ..f },
            HomeStep::Copied,
        ),
        (FileAt::CopySeen, HomeEvent::Answer(copied)) => if copied {
            (FileCopy { at: FileAt::CopyOpened, ..f }, HomeStep::OpenCopy)
        } else {
            (FileCopy { at: FileAt::ParentChecked, ..f }, HomeStep::DestinationVolume)
        },
        (FileAt::CopyOpened, HomeEvent::Done) => (
            FileCopy { at: FileAt::CopyChecked, ..f },
            HomeStep::CopyVolume,
        ),
        (FileAt::CopyChecked, HomeEvent::Done) => (
            FileCopy { at: FileAt::CopyCompared, ..f },
            HomeStep::CompareCopy,
        ),
        (FileAt::CopyCompared, HomeEvent::Done) => {
            (FileCopy { at: FileAt::CopyCurrent, compared: true, ..f }, HomeStep::SourceUnchanged)
        },
        (FileAt::CopyCurrent, HomeEvent::Done) => {
            file_end(FileCopy { current: true, ..f }, HomeOutcome::Done)
        },
        (FileAt::ParentChecked, HomeEvent::Done) => (
            FileCopy { at: FileAt::TemporaryMade, ..f },
            HomeStep::MakeTemporary,
        ),
        (FileAt::TemporaryMade, HomeEvent::Done) => (
            FileCopy { at: FileAt::TemporaryChecked, ..f },
            HomeStep::TemporaryVolume,
        ),
        (FileAt::TemporaryChecked, HomeEvent::Done) => (
            FileCopy { at: FileAt::Filled, ..f },
            HomeStep::CopyRanges,
        ),
        (FileAt::Filled, HomeEvent::Done) => (
            FileCopy { at: FileAt::Synced, ..f },
            HomeStep::SyncTemporary,
        ),
        (FileAt::Synced, HomeEvent::Done) => (
            FileCopy { at: FileAt::Compared, ..f },
            HomeStep::CompareTemporary,
        ),
        (FileAt::Compared, HomeEvent::Done) => {
            (FileCopy { at: FileAt::Current, compared: true, ..f }, HomeStep::SourceUnchanged)
        },
        (FileAt::Current, HomeEvent::Done) => {
            (FileCopy { at: FileAt::StillAllowed, current: true, ..f }, HomeStep::Authority)
        },
        (FileAt::StillAllowed, HomeEvent::Done) => (
            FileCopy { at: FileAt::ParentStill, ..f },
            HomeStep::DestinationVolume,
        ),
        (FileAt::ParentStill, HomeEvent::Done) => (
            FileCopy { at: FileAt::Persisted, ..f },
            HomeStep::Persist,
        ),
        (FileAt::Persisted, HomeEvent::Done) => (
            FileCopy { at: FileAt::ParentSynced, ..f },
            HomeStep::SyncDestination,
        ),
        (FileAt::ParentSynced, HomeEvent::Done) => file_end(f, HomeOutcome::Done),
        _ => file_end(f, HomeOutcome::Failed),
    }
}

/// What the copy of a file makes of an answer. An image that was copied before is
/// compared and kept.
fn do_file_after(f: FileCopy, e: HomeEvent) -> (r: (FileCopy, HomeStep))
    ensures
        r == file_after(f, e),
{
    match (f.at, e) {
        (FileAt::Start, HomeEvent::Begin) => (
            FileCopy { at: FileAt::Opened, ..f },
            HomeStep::OpenSource,
        ),
        (FileAt::Opened, HomeEvent::Done) => (
            FileCopy { at: FileAt::SourceChecked, ..f },
            HomeStep::SourceVolume,
        ),
        (FileAt::SourceChecked, HomeEvent::Done) => (
            FileCopy { at: FileAt::CopySeen, ..f },
            HomeStep::Copied,
        ),
        (FileAt::CopySeen, HomeEvent::Answer(copied)) => if copied {
            (FileCopy { at: FileAt::CopyOpened, ..f }, HomeStep::OpenCopy)
        } else {
            (FileCopy { at: FileAt::ParentChecked, ..f }, HomeStep::DestinationVolume)
        },
        (FileAt::CopyOpened, HomeEvent::Done) => (
            FileCopy { at: FileAt::CopyChecked, ..f },
            HomeStep::CopyVolume,
        ),
        (FileAt::CopyChecked, HomeEvent::Done) => (
            FileCopy { at: FileAt::CopyCompared, ..f },
            HomeStep::CompareCopy,
        ),
        (FileAt::CopyCompared, HomeEvent::Done) => {
            (FileCopy { at: FileAt::CopyCurrent, compared: true, ..f }, HomeStep::SourceUnchanged)
        },
        (FileAt::CopyCurrent, HomeEvent::Done) => {
            do_file_end(FileCopy { current: true, ..f }, HomeOutcome::Done)
        },
        (FileAt::ParentChecked, HomeEvent::Done) => (
            FileCopy { at: FileAt::TemporaryMade, ..f },
            HomeStep::MakeTemporary,
        ),
        (FileAt::TemporaryMade, HomeEvent::Done) => (
            FileCopy { at: FileAt::TemporaryChecked, ..f },
            HomeStep::TemporaryVolume,
        ),
        (FileAt::TemporaryChecked, HomeEvent::Done) => (
            FileCopy { at: FileAt::Filled, ..f },
            HomeStep::CopyRanges,
        ),
        (FileAt::Filled, HomeEvent::Done) => (
            FileCopy { at: FileAt::Synced, ..f },
            HomeStep::SyncTemporary,
        ),
        (FileAt::Synced, HomeEvent::Done) => (
            FileCopy { at: FileAt::Compared, ..f },
            HomeStep::CompareTemporary,
        ),
        (FileAt::Compared, HomeEvent::Done) => {
            (FileCopy { at: FileAt::Current, compared: true, ..f }, HomeStep::SourceUnchanged)
        },
        (FileAt::Current, HomeEvent::Done) => {
            (FileCopy { at: FileAt::StillAllowed, current: true, ..f }, HomeStep::Authority)
        },
        (FileAt::StillAllowed, HomeEvent::Done) => (
            FileCopy { at: FileAt::ParentStill, ..f },
            HomeStep::DestinationVolume,
        ),
        (FileAt::ParentStill, HomeEvent::Done) => (
            FileCopy { at: FileAt::Persisted, ..f },
            HomeStep::Persist,
        ),
        (FileAt::Persisted, HomeEvent::Done) => (
            FileCopy { at: FileAt::ParentSynced, ..f },
            HomeStep::SyncDestination,
        ),
        (FileAt::ParentSynced, HomeEvent::Done) => do_file_end(f, HomeOutcome::Done),
        _ => do_file_end(f, HomeOutcome::Failed),
    }
}

impl FileCopy {
    /// A copy that has not begun.
    pub fn new() -> (r: Self)
        ensures
            r == (FileCopy { at: FileAt::Start, compared: false, current: false }),
    {
        FileCopy { at: FileAt::Start, compared: false, current: false }
    }

    /// What the copy makes of an answer, and what it asks for next.
    pub fn next(self, e: HomeEvent) -> (r: (FileCopy, HomeStep))
        ensures
            r == file_after(self, e),
    {
        do_file_after(self, e)
    }
}

/// What holds at each point of the copy of a file.
pub open spec fn file_copyable(f: FileCopy) -> bool {
    match f.at {
        FileAt::CopyCurrent | FileAt::Current => f.compared,
        FileAt::StillAllowed | FileAt::ParentStill | FileAt::Persisted
        | FileAt::ParentSynced => f.compared && f.current,
        _ => true,
    }
}

/// A copied file gets its name, and its copy ends well, only after it was
/// compared with a source that did not change.
pub proof fn copied_files_are_compared(f: FileCopy, e: HomeEvent)
    requires
        file_copyable(f),
    ensures
        file_copyable(file_after(f, e).0),
        file_after(f, e).1 is Persist ==> f.compared && f.current,
        file_after(f, e).1 == HomeStep::Finish(HomeOutcome::Done) ==> f.compared && file_after(
            f,
            e,
        ).0.current,
{
}

/// What a look at a VM on an unavailable drive is answered: that there is none.
/// Nothing else is answered without the drive.
pub fn unavailable_answer(args: &[String]) -> (r: Option<CommandOutput>)
    ensures
        match r {
            Some(output) => args@.len() > 0 && args@[0]@ == "list"@ && output@
                == (CommandOutputView {
                success: true,
                stdout: Seq::empty(),
                stderr: Seq::empty(),
            }),
            None => args@.len() == 0 || args@[0]@ != "list"@,
        },
{
    if args.len() > 0 && text::same(args[0].as_str(), "list") {
        let output = CommandOutput { success: true, stdout: String::new(), stderr: String::new() };
        assert(output@ =~= CommandOutputView {
            success: true,
            stdout: Seq::empty(),
            stderr: Seq::empty(),
        });
        Some(output)
    } else {
        None
    }
}

} // verus!
