//! Owned file-backed Lima disks. The caller owns the durable maintenance journal
//! and worker ownership check; this adapter also refuses running-worker writes.
use crate::failure::{fail, first_of, refusal, unless, Failure};
use crate::identity;
use crate::json::{at, number_of, text_of, Json, JsonView};
use crate::lima::VmProvider;
use crate::paths;
use crate::storage::{Location, LocationView, GIB, MAXIMUM_GIB};
use crate::text;
use crate::values::{contents, Plain};
use crate::vm::{words3, words4, CommandOutput};
use vstd::prelude::*;
use vstd::utf8::encode_utf8;

verus! {

/// Where the files of a disk stand.
#[derive(Debug)]
pub struct DiskPaths {
    pub directory: String,
    pub image: String,
    pub receipt: String,
    pub link: String,
}

/// The content of a `DiskPaths`.
#[verifier::ext_equal]
pub struct DiskPathsView {
    pub directory: Seq<char>,
    pub image: Seq<char>,
    pub receipt: Seq<char>,
    pub link: Seq<char>,
}

impl View for DiskPaths {
    type V = DiskPathsView;

    open spec fn view(&self) -> DiskPathsView {
        DiskPathsView {
            directory: self.directory@,
            image: self.image@,
            receipt: self.receipt@,
            link: self.link@,
        }
    }
}

impl Plain for DiskPaths {
    fn duplicate(&self) -> (r: Self) {
        DiskPaths {
            directory: self.directory.clone(),
            image: self.image.clone(),
            receipt: self.receipt.clone(),
            link: self.link.clone(),
        }
    }

    fn alike(&self, other: &Self) -> (r: bool) {
        self.directory.alike(&other.directory)
            && self.image.alike(&other.image)
            && self.receipt.alike(&other.receipt)
            && self.link.alike(&other.link)
    }
}

impl Clone for DiskPaths {
    fn clone(&self) -> (r: Self)
        ensures
            r@ == self@,
    {
        self.duplicate()
    }
}

/// What shows whose a disk is.
#[derive(Debug)]
pub struct DiskReceipt {
    pub version: u32,
    pub device_id: String,
    pub disk_id: String,
    pub volume_id: String,
    pub allocation_gib: u64,
}

/// The content of a `DiskReceipt`.
#[verifier::ext_equal]
pub struct DiskReceiptView {
    pub version: u32,
    pub device_id: Seq<char>,
    pub disk_id: Seq<char>,
    pub volume_id: Seq<char>,
    pub allocation_gib: u64,
}

impl View for DiskReceipt {
    type V = DiskReceiptView;

    open spec fn view(&self) -> DiskReceiptView {
        DiskReceiptView {
            version: self.version,
            device_id: self.device_id@,
            disk_id: self.disk_id@,
            volume_id: self.volume_id@,
            allocation_gib: self.allocation_gib,
        }
    }
}

impl Plain for DiskReceipt {
    fn duplicate(&self) -> (r: Self) {
        DiskReceipt {
            version: self.version,
            device_id: self.device_id.clone(),
            disk_id: self.disk_id.clone(),
            volume_id: self.volume_id.clone(),
            allocation_gib: self.allocation_gib,
        }
    }

    fn alike(&self, other: &Self) -> (r: bool) {
        self.version == other.version
            && self.device_id.alike(&other.device_id)
            && self.disk_id.alike(&other.disk_id)
            && self.volume_id.alike(&other.volume_id)
            && self.allocation_gib == other.allocation_gib
    }
}

impl Clone for DiskReceipt {
    fn clone(&self) -> (r: Self)
        ensures
            r@ == self@,
    {
        self.duplicate()
    }
}

/// What a look at a disk gives.
#[derive(Debug)]
pub struct DiskInspection {
    pub size_bytes: u64,
    pub allocated_bytes: u64,
    pub format: String,
    pub image: String,
}

/// The content of a `DiskInspection`.
#[verifier::ext_equal]
pub struct DiskInspectionView {
    pub size_bytes: u64,
    pub allocated_bytes: u64,
    pub format: Seq<char>,
    pub image: Seq<char>,
}

impl View for DiskInspection {
    type V = DiskInspectionView;

    open spec fn view(&self) -> DiskInspectionView {
        DiskInspectionView {
            size_bytes: self.size_bytes,
            allocated_bytes: self.allocated_bytes,
            format: self.format@,
            image: self.image@,
        }
    }
}

impl Plain for DiskInspection {
    fn duplicate(&self) -> (r: Self) {
        DiskInspection {
            size_bytes: self.size_bytes,
            allocated_bytes: self.allocated_bytes,
            format: self.format.clone(),
            image: self.image.clone(),
        }
    }

    fn alike(&self, other: &Self) -> (r: bool) {
        self.size_bytes == other.size_bytes
            && self.allocated_bytes == other.allocated_bytes
            && self.format.alike(&other.format)
            && self.image.alike(&other.image)
    }
}

impl Clone for DiskInspection {
    fn clone(&self) -> (r: Self)
        ensures
            r@ == self@,
    {
        self.duplicate()
    }
}

pub open spec fn is_letter(c: char) -> bool {
    'a' <= c <= 'z' || 'A' <= c <= 'Z'
}

/// Whether a text can identify a disk in Lima.
pub open spec fn is_disk_id(t: Seq<char>) -> bool {
    0 < t.len() <= 11 && is_letter(t[0]) && forall|i: int|
        0 <= i < t.len() ==> (is_letter(#[trigger] t[i]) || text::is_digit(t[i]) || t[i] == '-')
}

fn letter(c: char) -> (r: bool)
    ensures
        r == is_letter(c),
{
    ('a' <= c && c <= 'z') || ('A' <= c && c <= 'Z')
}

/// Whether a text can identify a disk in Lima.
pub fn names_disk(t: &str) -> (r: bool)
    ensures
        r == is_disk_id(t@),
{
    let chars = text::chars_of(t);
    if chars.len() == 0 || chars.len() > 11 || !letter(chars[0]) {
        return false;
    }
    for i in 0..chars.len()
        invariant
            chars@ == t@,
            forall|k: int|
                0 <= k < i ==> (is_letter(#[trigger] t@[k]) || text::is_digit(t@[k]) || t@[k]
                    == '-'),
    {
        let c = chars[i];
        if !letter(c) && !text::ascii_digit(c) && c != '-' {
            assert(t@[i as int] == c);
            return false;
        }
    }
    true
}

pub open spec fn path_refusal(path: Seq<char>) -> Option<Seq<char>> {
    unless(
        paths::is_plain_absolute(path),
        "Worker storage requires an absolute path without parent traversal"@,
    )
}

/// Whether a path can hold worker storage.
pub fn absolute_path(path: &str) -> (r: Result<(), Failure>)
    ensures
        refusal(r) == path_refusal(path@),
{
    if paths::plain_absolute(path) {
        Ok(())
    } else {
        Err(fail("Worker storage requires an absolute path without parent traversal"))
    }
}

/// Why a location cannot be a disk of the device.
pub open spec fn location_refusal(device: Seq<char>, l: LocationView) -> Option<Seq<char>> {
    if !identity::is_identity(device) {
        Some("Invalid storage owner identity"@)
    } else if !is_disk_id(l.id) {
        Some("Invalid worker disk identifier"@)
    } else if l.volume_id.len() == 0 {
        Some("Missing storage volume identity"@)
    } else if !(1 <= l.allocation_gib <= MAXIMUM_GIB) {
        Some("Invalid worker disk allocation"@)
    } else {
        path_refusal(l.directory)
    }
}

/// Whether a location can be a disk of the device.
pub fn validate_location(device: &str, location: &Location) -> (r: Result<(), Failure>)
    ensures
        refusal(r) == location_refusal(device@, location@),
{
    if !identity::names_device(device) {
        return Err(fail("Invalid storage owner identity"));
    }
    if !names_disk(location.id.as_str()) {
        return Err(fail("Invalid worker disk identifier"));
    }
    let volume = text::chars_of(location.volume_id.as_str());
    if volume.len() == 0 {
        return Err(fail("Missing storage volume identity"));
    }
    if location.allocation_gib < 1 || location.allocation_gib > MAXIMUM_GIB {
        return Err(fail("Invalid worker disk allocation"));
    }
    absolute_path(location.directory.as_str())
}

/// The directory of a disk.
pub open spec fn disk_directory(device: Seq<char>, l: LocationView) -> Seq<char> {
    paths::join_path(
        paths::join_path(paths::join_path(l.directory, ".nodeharbor"@), device),
        l.id,
    )
}

/// Where the files of a disk stand, or why they have no place.
pub open spec fn paths_of(home: Seq<char>, device: Seq<char>, l: LocationView) -> Result<
    DiskPathsView,
    Seq<char>,
> {
    match first_of(path_refusal(home), location_refusal(device, l)) {
        Some(message) => Err(message),
        None => {
            let directory = disk_directory(device, l);
            Ok(
                DiskPathsView {
                    directory,
                    image: paths::join_path(directory, "datadisk"@),
                    receipt: paths::join_path(directory, "receipt.json"@),
                    link: paths::join_path(paths::join_path(home, "_disks"@), l.id),
                },
            )
        },
    }
}

/// Where the files of a disk stand.
pub fn disk_paths(home: &str, device: &str, location: &Location) -> (r: Result<DiskPaths, Failure>)
    ensures
        match paths_of(home@, device@, location@) {
            Ok(p) => r matches Ok(made) && made@ == p,
            Err(message) => refusal(r) == Some(message),
        },
{
    match absolute_path(home) {
        Ok(()) => {},
        Err(e) => {
            return Err(e);
        },
    }
    match validate_location(device, location) {
        Ok(()) => {},
        Err(e) => {
            return Err(e);
        },
    }
    let private = paths::join(location.directory.as_str(), ".nodeharbor");
    let owned = paths::join(private.as_str(), device);
    let directory = paths::join(owned.as_str(), location.id.as_str());
    let registry = paths::join(home, "_disks");
    Ok(
        DiskPaths {
            image: paths::join(directory.as_str(), "datadisk"),
            receipt: paths::join(directory.as_str(), "receipt.json"),
            link: paths::join(registry.as_str(), location.id.as_str()),
            directory,
        },
    )
}

/// The receipt of a disk.
pub open spec fn receipt_of(device: Seq<char>, l: LocationView) -> DiskReceiptView {
    DiskReceiptView {
        version: 1,
        device_id: device,
        disk_id: l.id,
        volume_id: l.volume_id,
        allocation_gib: l.allocation_gib,
    }
}

pub open spec fn receipt_refusal(
    receipt: DiskReceiptView,
    device: Seq<char>,
    l: LocationView,
) -> Option<Seq<char>> {
    first_of(
        location_refusal(device, l),
        unless(
            receipt == receipt_of(device, l),
            "Disk ownership receipt does not match this owner, volume, or allocation"@,
        ),
    )
}

impl DiskReceipt {
    /// The receipt of a disk of the device.
    pub fn new(device: &str, location: &Location) -> (r: Result<Self, Failure>)
        ensures
            match location_refusal(device@, location@) {
                None => r matches Ok(receipt) && receipt@ == receipt_of(device@, location@),
                Some(message) => refusal(r) == Some(message),
            },
    {
        match validate_location(device, location) {
            Ok(()) => Ok(
                DiskReceipt {
                    version: 1,
                    device_id: device.to_owned(),
                    disk_id: location.id.clone(),
                    volume_id: location.volume_id.clone(),
                    allocation_gib: location.allocation_gib,
                },
            ),
            Err(e) => Err(e),
        }
    }

    /// Whether the receipt is that of a disk of the device.
    pub fn verify(&self, device: &str, location: &Location) -> (r: Result<(), Failure>)
        ensures
            refusal(r) == receipt_refusal(self@, device@, location@),
    {
        match validate_location(device, location) {
            Ok(()) => {},
            Err(e) => {
                return Err(e);
            },
        }
        if self.version == 1 && text::same(self.device_id.as_str(), device) && self.disk_id.alike(
            &location.id,
        ) && self.volume_id.alike(&location.volume_id) && self.allocation_gib
            == location.allocation_gib {
            Ok(())
        } else {
            Err(fail("Disk ownership receipt does not match this owner, volume, or allocation"))
        }
    }
}

/// A disk's own receipt shows it to be that disk.
pub proof fn receipts_verify_their_disk(device: Seq<char>, l: LocationView)
    requires
        location_refusal(device, l) is None,
    ensures
        receipt_refusal(receipt_of(device, l), device, l) is None,
{
}

/// No other disk, no other owner and no other volume passes with a receipt.
pub proof fn receipts_name_one_disk(
    device: Seq<char>,
    l: LocationView,
    other_device: Seq<char>,
    other: LocationView,
)
    requires
        receipt_refusal(receipt_of(device, l), other_device, other) is None,
    ensures
        device == other_device,
        l.id == other.id,
        l.volume_id == other.volume_id,
        l.allocation_gib == other.allocation_gib,
{
    let a = receipt_of(device, l);
    let b = receipt_of(other_device, other);
    assert(a.device_id == b.device_id);
}

/// Whose disks are worked on, and where Lima keeps its registry.
#[derive(Debug)]
pub struct LimaStorage {
    pub home: String,
    pub device: String,
}

pub open spec fn adapter_refusal(
    unix: bool,
    provider: VmProvider,
    device: Seq<char>,
    home: Seq<char>,
) -> Option<Seq<char>> {
    if !unix {
        Some("File-backed worker disks require macOS or Linux"@)
    } else if provider != VmProvider::Lima {
        Some("This storage adapter requires Lima"@)
    } else {
        first_of(identity::identity_refusal(device), path_refusal(home))
    }
}

/// The size of a disk in bytes.
pub open spec fn disk_bytes(l: LocationView) -> int {
    l.allocation_gib * GIB
}

/// What the runtime says of a disk, or why that is not accepted.
pub open spec fn reported_disk(
    parsed: Result<JsonView, Seq<char>>,
    l: LocationView,
    link: Result<DiskPathsView, Seq<char>>,
) -> Result<JsonView, Seq<char>> {
    match parsed {
        Err(_) => Err("Lima did not report the configured disk"@),
        Ok(disk) => if text_of(at(disk, "name"@)) != Some(l.id) || (text_of(at(disk, "format"@))
            != Some("raw"@) && text_of(at(disk, "format"@)) != Some("qcow2"@)) {
            Err("Lima returned a different or unsupported disk"@)
        } else {
            match link {
                Err(message) => Err(message),
                Ok(p) => match text_of(at(disk, "dir"@)) {
                    Some(dir) => if paths::same_path(dir, p.link) {
                        Ok(disk)
                    } else {
                        Err("Lima reported an unexpected disk directory"@)
                    },
                    None => Err("Lima reported an unexpected disk directory"@),
                },
            }
        },
    }
}

/// What a look at a disk gives, or why it is not as it should be. Its image file
/// has that many bytes and takes that many.
pub open spec fn inspected(
    disk: JsonView,
    l: LocationView,
    image: Seq<char>,
    length: u64,
    allocated: u64,
) -> Result<DiskInspectionView, Seq<char>> {
    match number_of(at(disk, "size"@)) {
        None => Err("Lima did not report disk capacity"@),
        Some(size) => if size != disk_bytes(l) {
            Err("The worker disk capacity differs from its saved allocation"@)
        } else {
            match text_of(at(disk, "format"@)) {
                None => Err("Missing disk format"@),
                Some(format) => if format == "raw"@ && length != size {
                    Err("The raw worker disk is incomplete"@)
                } else {
                    Ok(
                        DiskInspectionView {
                            size_bytes: size,
                            allocated_bytes: allocated,
                            format,
                            image,
                        },
                    )
                },
            }
        },
    }
}

impl LimaStorage {
    /// The adapter for a device's disks.
    pub fn new(unix: bool, provider: VmProvider, home: &str, device: &str) -> (r: Result<
        Self,
        Failure,
    >)
        ensures
            match adapter_refusal(unix, provider, device@, home@) {
                None => r matches Ok(s) && s.home@ == home@ && s.device@ == device@,
                Some(message) => refusal(r) == Some(message),
            },
    {
        if !unix {
            return Err(fail("File-backed worker disks require macOS or Linux"));
        }
        if provider != VmProvider::Lima {
            return Err(fail("This storage adapter requires Lima"));
        }
        match identity::identity_value(device) {
            Ok(_) => {},
            Err(e) => {
                return Err(e);
            },
        }
        match absolute_path(home) {
            Ok(()) => Ok(LimaStorage { home: home.to_owned(), device: device.to_owned() }),
            Err(e) => Err(e),
        }
    }

    /// Where the files of a disk stand.
    pub fn paths(&self, location: &Location) -> (r: Result<DiskPaths, Failure>)
        ensures
            match paths_of(self.home@, self.device@, location@) {
                Ok(p) => r matches Ok(made) && made@ == p,
                Err(message) => refusal(r) == Some(message),
            },
    {
        disk_paths(self.home.as_str(), self.device.as_str(), location)
    }

    /// The output of a command of the runtime.
    pub fn command(output: CommandOutput) -> (r: Result<String, Failure>)
        ensures
            if output.success {
                r matches Ok(t) && t@ == output.stdout@
            } else {
                refusal(r) == Some("Lima storage operation failed: "@ + output.stderr@)
            },
    {
        if output.success {
            Ok(output.stdout)
        } else {
            Err(
                Failure {
                    message: text::join2(
                        "Lima storage operation failed: ",
                        output.stderr.as_str(),
                    ),
                },
            )
        }
    }

    /// Whether the worker is stopped, by what the runtime lists of it.
    pub fn stopped(output: &str) -> (r: Result<(), Failure>)
        ensures
            refusal(r) == stopped_refusal(output@),
    {
        let listed = text::trim_text(output);
        let chars = text::chars_of(listed.as_str());
        if chars.len() == 0 {
            return Ok(());
        }
        match crate::json::parse_text(listed.as_str()) {
            Err(e) => Err(e),
            Ok(state) => if state.field_is("name", "worker") && state.field_is(
                "status",
                "Stopped",
            ) {
                Ok(())
            } else {
                Err(fail("Stop the worker before changing its storage"))
            },
        }
    }

    /// What the runtime says of a disk.
    pub fn runtime_disk(&self, location: &Location, output: &str) -> (r: Result<Json, Failure>)
        ensures
            match reported_disk(
                crate::json::parsed_json(encode_utf8(text::trim(output@))),
                location@,
                paths_of(self.home@, self.device@, location@),
            ) {
                Ok(disk) => r matches Ok(d) && d@ == disk,
                Err(message) => refusal(r) == Some(message),
            },
    {
        let listed = text::trim_text(output);
        let disk = match crate::json::parse_text(listed.as_str()) {
            Ok(disk) => disk,
            Err(_) => {
                return Err(fail("Lima did not report the configured disk"));
            },
        };
        if !disk.field_is("name", location.id.as_str()) || (!disk.field_is("format", "raw")
            && !disk.field_is("format", "qcow2")) {
            return Err(fail("Lima returned a different or unsupported disk"));
        }
        let link = match self.paths(location) {
            Ok(p) => p.link,
            Err(e) => {
                return Err(e);
            },
        };
        let expected = match disk.field_text("dir") {
            Some(dir) => paths::path_eq(dir, link.as_str()),
            None => false,
        };
        if expected {
            Ok(disk)
        } else {
            Err(fail("Lima reported an unexpected disk directory"))
        }
    }

    /// What a look at a disk gives.
    pub fn inspect(location: &Location, disk: &Json, image: &str, length: u64, allocated: u64)
        -> (r: Result<DiskInspection, Failure>)
        requires
            disk_bytes(location@) <= u64::MAX,
        ensures
            match inspected(disk@, location@, image@, length, allocated) {
                Ok(i) => r matches Ok(made) && made@ == i,
                Err(message) => refusal(r) == Some(message),
            },
    {
        let size = match disk.field_number("size") {
            Some(size) => size,
            None => {
                return Err(fail("Lima did not report disk capacity"));
            },
        };
        if size != location.allocation_gib * GIB {
            return Err(fail("The worker disk capacity differs from its saved allocation"));
        }
        match disk.field_text("format") {
            None => Err(fail("Missing disk format")),
            Some(format) => if text::same(format, "raw") && length != size {
                Err(fail("The raw worker disk is incomplete"))
            } else {
                Ok(
                    DiskInspection {
                        size_bytes: size,
                        allocated_bytes: allocated,
                        format: format.to_owned(),
                        image: image.to_owned(),
                    },
                )
            },
        }
    }

    /// Whether a new disk is as it was asked for and free.
    pub fn check_new(location: &Location, disk: &Json) -> (r: Result<(), Failure>)
        requires
            disk_bytes(location@) <= u64::MAX,
        ensures
            refusal(r) == unless(
                number_of(at(disk@, "size"@)) == Some(disk_bytes(location@) as u64)
                    && is_free(disk@),
                "New disk has unexpected capacity or is attached to another instance"@,
            ),
    {
        let free = match disk.field_text("instance") {
            Some(instance) => {
                let chars = text::chars_of(instance);
                chars.len() == 0
            },
            None => true,
        };
        let sized = match disk.field_number("size") {
            Some(size) => size == location.allocation_gib * GIB,
            None => false,
        };
        if sized && free {
            Ok(())
        } else {
            Err(fail("New disk has unexpected capacity or is attached to another instance"))
        }
    }
}

/// Whether no instance uses the disk.
pub open spec fn is_free(disk: JsonView) -> bool {
    match text_of(at(disk, "instance"@)) {
        Some(instance) => instance.len() == 0,
        None => true,
    }
}

/// Why the storage may not be changed, by what the runtime lists of the worker.
pub open spec fn stopped_refusal(output: Seq<char>) -> Option<Seq<char>> {
    let listed = text::trim(output);
    if listed.len() == 0 {
        None
    } else {
        match crate::json::parsed_json(encode_utf8(listed)) {
            Err(words) => Some(words),
            Ok(state) => unless(
                text_of(at(state, "name"@)) == Some("worker"@) && text_of(at(state, "status"@))
                    == Some("Stopped"@),
                "Stop the worker before changing its storage"@,
            ),
        }
    }
}

/// Whether a change is of the same disk.
pub fn same_disk(old: &Location, new: &Location) -> (r: Result<(), Failure>)
    ensures
        refusal(r) == unless(
            old@.id == new@.id,
            "A storage change must preserve its disk identity"@,
        ),
{
    if old.id.alike(&new.id) {
        Ok(())
    } else {
        Err(fail("A storage change must preserve its disk identity"))
    }
}

/// A refusal of a disk operation, with a fixed message.
#[derive(Clone, Copy, Debug, PartialEq, Eq, Structural)]
pub enum DiskRefusal {
    DirectoryTaken,
    RuntimeTaken,
    UnexpectedRuntimeFiles,
    NotSameDisk,
    GrowthMoves,
    CommitResizes,
    UnexpectedSize,
    GrowthNotApplied,
    UnexpectedManagedFiles,
    StillReferenced,
    RegistrationChanged,
    StillRegistered,
    UnexpectedRetainedFiles,
    NoRetainedReceipt,
    DestinationTaken,
    PendingTaken,
    UnexpectedPendingFiles,
}

/// The message of a refusal.
pub open spec fn disk_refusal_text(n: DiskRefusal) -> Seq<char> {
    match n {
        DiskRefusal::DirectoryTaken => "The selected disk directory already exists; it has been left untouched"@,
        DiskRefusal::RuntimeTaken => "The runtime disk already exists; it has been left untouched"@,
        DiskRefusal::UnexpectedRuntimeFiles => "Unexpected runtime disk files; original directory retained"@,
        DiskRefusal::NotSameDisk => "A storage change must preserve its disk identity"@,
        DiskRefusal::GrowthMoves => "Disk growth cannot move or shrink existing storage"@,
        DiskRefusal::CommitResizes => "A storage move cannot change allocation"@,
        DiskRefusal::UnexpectedSize => "Unexpected disk size during growth recovery"@,
        DiskRefusal::GrowthNotApplied => "Lima did not apply disk growth"@,
        DiskRefusal::UnexpectedManagedFiles => "Unexpected files in managed disk; preserved"@,
        DiskRefusal::StillReferenced => "The runtime retained this disk because another instance still references it; image preserved"@,
        DiskRefusal::RegistrationChanged => "Retired disk registration changed; preserved"@,
        DiskRefusal::StillRegistered => "Cannot remove a registered worker disk"@,
        DiskRefusal::UnexpectedRetainedFiles => "Unexpected files in retained disk directory; files preserved"@,
        DiskRefusal::NoRetainedReceipt => "Retained image has no ownership receipt; files preserved"@,
        DiskRefusal::DestinationTaken => "Destination disk already belongs to different storage"@,
        DiskRefusal::PendingTaken => "Pending disk belongs to different storage"@,
        DiskRefusal::UnexpectedPendingFiles => "Unexpected files in pending disk directory"@,
    }
}

/// The message of a refusal.
pub fn disk_refusal_message(n: DiskRefusal) -> (r: &'static str)
    ensures
        r@ == disk_refusal_text(n),
{
    match n {
        DiskRefusal::DirectoryTaken => "The selected disk directory already exists; it has been left untouched",
        DiskRefusal::RuntimeTaken => "The runtime disk already exists; it has been left untouched",
        DiskRefusal::UnexpectedRuntimeFiles => "Unexpected runtime disk files; original directory retained",
        DiskRefusal::NotSameDisk => "A storage change must preserve its disk identity",
        DiskRefusal::GrowthMoves => "Disk growth cannot move or shrink existing storage",
        DiskRefusal::CommitResizes => "A storage move cannot change allocation",
        DiskRefusal::UnexpectedSize => "Unexpected disk size during growth recovery",
        DiskRefusal::GrowthNotApplied => "Lima did not apply disk growth",
        DiskRefusal::UnexpectedManagedFiles => "Unexpected files in managed disk; preserved",
        DiskRefusal::StillReferenced => "The runtime retained this disk because another instance still references it; image preserved",
        DiskRefusal::RegistrationChanged => "Retired disk registration changed; preserved",
        DiskRefusal::StillRegistered => "Cannot remove a registered worker disk",
        DiskRefusal::UnexpectedRetainedFiles => "Unexpected files in retained disk directory; files preserved",
        DiskRefusal::NoRetainedReceipt => "Retained image has no ownership receipt; files preserved",
        DiskRefusal::DestinationTaken => "Destination disk already belongs to different storage",
        DiskRefusal::PendingTaken => "Pending disk belongs to different storage",
        DiskRefusal::UnexpectedPendingFiles => "Unexpected files in pending disk directory",
    }
}

/// How an operation on a disk ends.
#[derive(Clone, Copy, Debug, PartialEq, Eq, Structural)]
pub enum DiskOutcome {
    Done,
    /// With the error of the last step.
    Failed,
    Refused(DiskRefusal),
}

/// What an operation on a disk asks for next.
#[derive(Clone, Copy, Debug, PartialEq, Eq, Structural)]
pub enum DiskStep {
    /// No other storage operation may run.
    Lock,
    /// Whether the worker is stopped.
    Stopped,
    /// Whether the disk is registered with Lima.
    LinkExists,
    /// Whether a creation of the disk was begun.
    PendingExists,
    VerifyPending,
    /// Whether the disk's own files are this computer's.
    BackingValid,
    /// As `BackingValid`, for the disk at its old place.
    OldBackingValid,
    /// What is registered in place of the disk.
    LinkState,
    /// Whether the registered directory is private to the owner.
    PrivateLink,
    RemoveLinkDirectory,
    InstallLink,
    SyncRegistry,
    Inspect,
    RemovePending,
    DirectoryExists,
    WritePending,
    PrepareParent,
    PrepareRegistry,
    CreateRuntimeDisk,
    LinkIsSymlink,
    /// Whether the runtime's new disk is as it was asked for.
    NewDiskValid,
    RestrictImage,
    StageCopy,
    /// Whether the registered directory holds nothing but the image.
    OnlyImage,
    RemoveRuntimeImage,
    /// Whether the disk is registered with its new size.
    LinkedNew,
    /// Whether the disk is registered with its old size.
    LinkedOld,
    OldVolume,
    RuntimeSize,
    Resize,
    SyncImage,
    WriteReceipt,
    /// Whether Lima already uses the disk's new place.
    LinkedToNew,
    LinkedToOld,
    PendingLinkExists,
    VerifyPendingLink,
    InstallPendingLink,
    RenameLink,
    AncestorVolume,
    PrivateDirectory,
    /// Whether the disk's directory holds nothing but its files.
    OnlyDiskFiles,
    ImageExists,
    ReceiptExists,
    VerifyReceipt,
    ImageVolume,
    VerifyLink,
    DeleteRuntimeDisk,
    RemoveImage,
    RemoveReceipt,
    RemoveDirectory,
    SyncDirectory,
    SyncParent,
    /// Where the registration points.
    LinkTarget,
    RemoveLink,
    /// Whether Lima uses another place for the disk.
    RegisteredElsewhere,
    /// Whether that other place is really another.
    RegisteredApart,
    DirectoryVolume,
    TargetExists,
    PrivateTarget,
    /// Whether the receipt at the target is the wanted one.
    TargetReceiptMatches,
    VerifyCopy,
    PendingCopyExists,
    PrivatePending,
    PendingVolume,
    PendingReceiptMatches,
    OnlyPendingFiles,
    PendingImageExists,
    PendingImageVolume,
    RemovePendingImage,
    MakePending,
    WritePendingReceipt,
    SparseCopy,
    SyncPending,
    RenamePending,
    Finish(DiskOutcome),
}

/// What stands where Lima looks for a disk.
#[derive(Clone, Copy, Debug, PartialEq, Eq, Structural)]
pub enum LinkState {
    Missing,
    /// An empty directory.
    Empty,
    Other,
}

/// Where a registration points.
#[derive(Clone, Copy, Debug, PartialEq, Eq, Structural)]
pub enum LinkTarget {
    Absent,
    Here,
    Elsewhere,
}

/// What an operation on a disk hears back.
#[derive(Clone, Copy, Debug, PartialEq, Eq, Structural)]
pub enum DiskEvent {
    Begin,
    Done,
    Failed,
    Answer(bool),
    Link(LinkState),
    Target(LinkTarget),
    Size(u64),
}

/// Where the creation of a disk stands.
#[derive(Clone, Copy, Debug, PartialEq, Eq, Structural)]
pub enum MakeAt {
    Start,
    Locked,
    Stopped,
    LinkSeen,
    PendingSeen,
    Inspected,
    PendingVerified,
    BackingSeen,
    StateSeen,
    EmptyPrivate,
    EmptyRemoved,
    LinkInstalled,
    LinkSynced,
    LinkInspected,
    PendingRemoved,
    DirectorySeen,
    LinkRechecked,
    PendingWritten,
    ParentReady,
    RegistryReady,
    RuntimeSeen,
    RuntimeMade,
    SymlinkSeen,
    LinkPrivate,
    DiskValid,
    ImageRestricted,
    Staged,
    Relocked,
    Restopped,
    Backed,
    FilesSeen,
    ImageRemoved,
    DirectoryRemoved,
    Linked,
    Synced,
    Forgotten,
    LastInspected,
    Over,
}

/// The creation of a disk under way.
#[derive(Clone, Copy, Debug, PartialEq, Eq, Structural)]
pub struct Creating {
    pub at: MakeAt,
    pub linked: bool,
    /// Whether the creation was shown to be this one, or nothing stood in its
    /// place.
    pub owned: bool,
    /// Whether the image was copied to its place and verified there.
    pub staged: bool,
    /// Whether the disk's own files were checked after that.
    pub backed: bool,
}

/// The creation is over.
pub open spec fn create_end(c: Creating, outcome: DiskOutcome) -> (Creating, DiskStep) {
    (Creating { at: MakeAt::Over, ..c }, DiskStep::Finish(outcome))
}

/// The creation is over.
fn do_create_end(c: Creating, outcome: DiskOutcome) -> (r: (Creating, DiskStep))
    ensures
        r == create_end(c, outcome),
{
    (Creating { at: MakeAt::Over, ..c }, DiskStep::Finish(outcome))
}

/// The place of the disk is prepared.
pub open spec fn create_prepare(c: Creating) -> (Creating, DiskStep) {
    (Creating { at: MakeAt::ParentReady, ..c }, DiskStep::PrepareParent)
}

/// The place of the disk is prepared.
fn do_create_prepare(c: Creating) -> (r: (Creating, DiskStep))
    ensures
        r == create_prepare(c),
{
    (Creating { at: MakeAt::ParentReady, ..c }, DiskStep::PrepareParent)
}

/// A creation that was begun goes on. Its verified copy may have been completed
/// before a crash interrupted the replacement of the runtime directory.
pub open spec fn resume_after(c: Creating, e: DiskEvent) -> (Creating, DiskStep) {
    match (c.at, e) {
        (MakeAt::PendingVerified, DiskEvent::Done) => {
            (Creating { at: MakeAt::BackingSeen, owned: true, ..c }, DiskStep::BackingValid)
        },
        (MakeAt::BackingSeen, DiskEvent::Done) => (
            Creating { at: MakeAt::StateSeen, ..c },
            DiskStep::LinkState,
        ),
        (MakeAt::BackingSeen, DiskEvent::Failed) => create_prepare(c),
        (MakeAt::StateSeen, DiskEvent::Link(LinkState::Missing)) => {
            (Creating { at: MakeAt::LinkInstalled, ..c }, DiskStep::InstallLink)
        },
        (MakeAt::StateSeen, DiskEvent::Link(LinkState::Empty)) => {
            (Creating { at: MakeAt::EmptyPrivate, ..c }, DiskStep::PrivateLink)
        },
        (MakeAt::StateSeen, DiskEvent::Link(LinkState::Other)) => create_prepare(c),
        (MakeAt::EmptyPrivate, DiskEvent::Done) => (
            Creating { at: MakeAt::EmptyRemoved, ..c },
            DiskStep::RemoveLinkDirectory,
        ),
        (MakeAt::EmptyRemoved, DiskEvent::Done) => (
            Creating { at: MakeAt::LinkInstalled, ..c },
            DiskStep::InstallLink,
        ),
        (MakeAt::LinkInstalled, DiskEvent::Done) => (
            Creating { at: MakeAt::LinkSynced, ..c },
            DiskStep::SyncRegistry,
        ),
        (MakeAt::LinkSynced, DiskEvent::Done) => (
            Creating { at: MakeAt::LinkInspected, ..c },
            DiskStep::Inspect,
        ),
        (MakeAt::LinkInspected, DiskEvent::Done) => (
            Creating { at: MakeAt::PendingRemoved, ..c },
            DiskStep::RemovePending,
        ),
        (MakeAt::PendingRemoved, DiskEvent::Done) => create_end(c, DiskOutcome::Done),
        _ => create_end(c, DiskOutcome::Failed),
    }
}

/// A creation that was begun goes on. Its verified copy may have been completed
/// before a crash interrupted the replacement of the runtime directory.
fn do_resume_after(c: Creating, e: DiskEvent) -> (r: (Creating, DiskStep))
    ensures
        r == resume_after(c, e),
{
    match (c.at, e) {
        (MakeAt::PendingVerified, DiskEvent::Done) => {
            (Creating { at: MakeAt::BackingSeen, owned: true, ..c }, DiskStep::BackingValid)
        },
        (MakeAt::BackingSeen, DiskEvent::Done) => (
            Creating { at: MakeAt::StateSeen, ..c },
            DiskStep::LinkState,
        ),
        (MakeAt::BackingSeen, DiskEvent::Failed) => do_create_prepare(c),
        (MakeAt::StateSeen, DiskEvent::Link(LinkState::Missing)) => {
            (Creating { at: MakeAt::LinkInstalled, ..c }, DiskStep::InstallLink)
        },
        (MakeAt::StateSeen, DiskEvent::Link(LinkState::Empty)) => {
            (Creating { at: MakeAt::EmptyPrivate, ..c }, DiskStep::PrivateLink)
        },
        (MakeAt::StateSeen, DiskEvent::Link(LinkState::Other)) => do_create_prepare(c),
        (MakeAt::EmptyPrivate, DiskEvent::Done) => (
            Creating { at: MakeAt::EmptyRemoved, ..c },
            DiskStep::RemoveLinkDirectory,
        ),
        (MakeAt::EmptyRemoved, DiskEvent::Done) => (
            Creating { at: MakeAt::LinkInstalled, ..c },
            DiskStep::InstallLink,
        ),
        (MakeAt::LinkInstalled, DiskEvent::Done) => (
            Creating { at: MakeAt::LinkSynced, ..c },
            DiskStep::SyncRegistry,
        ),
        (MakeAt::LinkSynced, DiskEvent::Done) => (
            Creating { at: MakeAt::LinkInspected, ..c },
            DiskStep::Inspect,
        ),
        (MakeAt::LinkInspected, DiskEvent::Done) => (
            Creating { at: MakeAt::PendingRemoved, ..c },
            DiskStep::RemovePending,
        ),
        (MakeAt::PendingRemoved, DiskEvent::Done) => do_create_end(c, DiskOutcome::Done),
        _ => do_create_end(c, DiskOutcome::Failed),
    }
}

/// The runtime makes the disk, its image is copied to its place and verified
/// there, and only then the runtime's own image is replaced by a link.
pub open spec fn place_after(c: Creating, e: DiskEvent) -> (Creating, DiskStep) {
    match (c.at, e) {
        (MakeAt::ParentReady, DiskEvent::Done) => (
            Creating { at: MakeAt::RegistryReady, ..c },
            DiskStep::PrepareRegistry,
        ),
        (MakeAt::RegistryReady, DiskEvent::Done) => (
            Creating { at: MakeAt::RuntimeSeen, ..c },
            DiskStep::LinkExists,
        ),
        (MakeAt::RuntimeSeen, DiskEvent::Answer(exists)) => if exists {
            (Creating { at: MakeAt::SymlinkSeen, ..c }, DiskStep::LinkIsSymlink)
        } else {
            (Creating { at: MakeAt::RuntimeMade, ..c }, DiskStep::CreateRuntimeDisk)
        },
        (MakeAt::RuntimeMade, DiskEvent::Done) => (
            Creating { at: MakeAt::SymlinkSeen, ..c },
            DiskStep::LinkIsSymlink,
        ),
        (MakeAt::SymlinkSeen, DiskEvent::Answer(symlink)) => if symlink {
            (Creating { at: MakeAt::LinkInspected, ..c }, DiskStep::Inspect)
        } else {
            (Creating { at: MakeAt::LinkPrivate, ..c }, DiskStep::PrivateLink)
        },
        (MakeAt::LinkPrivate, DiskEvent::Done) => (
            Creating { at: MakeAt::DiskValid, ..c },
            DiskStep::NewDiskValid,
        ),
        (MakeAt::DiskValid, DiskEvent::Done) => (
            Creating { at: MakeAt::ImageRestricted, ..c },
            DiskStep::RestrictImage,
        ),
        (MakeAt::ImageRestricted, DiskEvent::Done) => (
            Creating { at: MakeAt::Staged, ..c },
            DiskStep::StageCopy,
        ),
        (MakeAt::Staged, DiskEvent::Done) => (
            Creating { at: MakeAt::Relocked, staged: true, ..c },
            DiskStep::Lock,
        ),
        (MakeAt::Relocked, DiskEvent::Done) => (
            Creating { at: MakeAt::Restopped, ..c },
            DiskStep::Stopped,
        ),
        (MakeAt::Restopped, DiskEvent::Done) => (
            Creating { at: MakeAt::Backed, ..c },
            DiskStep::BackingValid,
        ),
        (MakeAt::Backed, DiskEvent::Done) => (
            Creating { at: MakeAt::FilesSeen, backed: true, ..c },
            DiskStep::OnlyImage,
        ),
        (MakeAt::FilesSeen, DiskEvent::Answer(only)) => if only {
            (Creating { at: MakeAt::ImageRemoved, ..c }, DiskStep::RemoveRuntimeImage)
        } else {
            create_end(c, DiskOutcome::Refused(DiskRefusal::UnexpectedRuntimeFiles))
        },
        (MakeAt::ImageRemoved, DiskEvent::Done) => (
            Creating { at: MakeAt::DirectoryRemoved, ..c },
            DiskStep::RemoveLinkDirectory,
        ),
        (MakeAt::DirectoryRemoved, DiskEvent::Done) => (
            Creating { at: MakeAt::Linked, ..c },
            DiskStep::InstallLink,
        ),
        (MakeAt::Linked, DiskEvent::Done) => (
            Creating { at: MakeAt::Synced, ..c },
            DiskStep::SyncRegistry,
        ),
        (MakeAt::Synced, DiskEvent::Done) => (
            Creating { at: MakeAt::Forgotten, ..c },
            DiskStep::RemovePending,
        ),
        (MakeAt::Forgotten, DiskEvent::Done) => (
            Creating { at: MakeAt::LastInspected, ..c },
            DiskStep::Inspect,
        ),
        (MakeAt::LastInspected, DiskEvent::Done) => create_end(c, DiskOutcome::Done),
        _ => resume_after(c, e),
    }
}

/// The runtime makes the disk, its image is copied to its place and verified
/// there, and only then the runtime's own image is replaced by a link.
fn do_place_after(c: Creating, e: DiskEvent) -> (r: (Creating, DiskStep))
    ensures
        r == place_after(c, e),
{
    match (c.at, e) {
        (MakeAt::ParentReady, DiskEvent::Done) => (
            Creating { at: MakeAt::RegistryReady, ..c },
            DiskStep::PrepareRegistry,
        ),
        (MakeAt::RegistryReady, DiskEvent::Done) => (
            Creating { at: MakeAt::RuntimeSeen, ..c },
            DiskStep::LinkExists,
        ),
        (MakeAt::RuntimeSeen, DiskEvent::Answer(exists)) => if exists {
            (Creating { at: MakeAt::SymlinkSeen, ..c }, DiskStep::LinkIsSymlink)
        } else {
            (Creating { at: MakeAt::RuntimeMade, ..c }, DiskStep::CreateRuntimeDisk)
        },
        (MakeAt::RuntimeMade, DiskEvent::Done) => (
            Creating { at: MakeAt::SymlinkSeen, ..c },
            DiskStep::LinkIsSymlink,
        ),
        (MakeAt::SymlinkSeen, DiskEvent::Answer(symlink)) => if symlink {
            (Creating { at: MakeAt::LinkInspected, ..c }, DiskStep::Inspect)
        } else {
            (Creating { at: MakeAt::LinkPrivate, ..c }, DiskStep::PrivateLink)
        },
        (MakeAt::LinkPrivate, DiskEvent::Done) => (
            Creating { at: MakeAt::DiskValid, ..c },
            DiskStep::NewDiskValid,
        ),
        (MakeAt::DiskValid, DiskEvent::Done) => (
            Creating { at: MakeAt::ImageRestricted, ..c },
            DiskStep::RestrictImage,
        ),
        (MakeAt::ImageRestricted, DiskEvent::Done) => (
            Creating { at: MakeAt::Staged, ..c },
            DiskStep::StageCopy,
        ),
        (MakeAt::Staged, DiskEvent::Done) => (
            Creating { at: MakeAt::Relocked, staged: true, ..c },
            DiskStep::Lock,
        ),
        (MakeAt::Relocked, DiskEvent::Done) => (
            Creating { at: MakeAt::Restopped, ..c },
            DiskStep::Stopped,
        ),
        (MakeAt::Restopped, DiskEvent::Done) => (
            Creating { at: MakeAt::Backed, ..c },
            DiskStep::BackingValid,
        ),
        (MakeAt::Backed, DiskEvent::Done) => (
            Creating { at: MakeAt::FilesSeen, backed: true, ..c },
            DiskStep::OnlyImage,
        ),
        (MakeAt::FilesSeen, DiskEvent::Answer(only)) => if only {
            (Creating { at: MakeAt::ImageRemoved, ..c }, DiskStep::RemoveRuntimeImage)
        } else {
            do_create_end(c, DiskOutcome::Refused(DiskRefusal::UnexpectedRuntimeFiles))
        },
        (MakeAt::ImageRemoved, DiskEvent::Done) => (
            Creating { at: MakeAt::DirectoryRemoved, ..c },
            DiskStep::RemoveLinkDirectory,
        ),
        (MakeAt::DirectoryRemoved, DiskEvent::Done) => (
            Creating { at: MakeAt::Linked, ..c },
            DiskStep::InstallLink,
        ),
        (MakeAt::Linked, DiskEvent::Done) => (
            Creating { at: MakeAt::Synced, ..c },
            DiskStep::SyncRegistry,
        ),
        (MakeAt::Synced, DiskEvent::Done) => (
            Creating { at: MakeAt::Forgotten, ..c },
            DiskStep::RemovePending,
        ),
        (MakeAt::Forgotten, DiskEvent::Done) => (
            Creating { at: MakeAt::LastInspected, ..c },
            DiskStep::Inspect,
        ),
        (MakeAt::LastInspected, DiskEvent::Done) => do_create_end(c, DiskOutcome::Done),
        _ => do_resume_after(c, e),
    }
}

/// What the creation of a disk makes of an answer. A disk that is registered
/// already is only looked at, and nothing that stands in its place is touched.
pub open spec fn create_after(c: Creating, e: DiskEvent) -> (Creating, DiskStep) {
    match (c.at, e) {
        (MakeAt::Start, DiskEvent::Begin) => (Creating { at: MakeAt::Locked, ..c }, DiskStep::Lock),
        (MakeAt::Locked, DiskEvent::Done) => (
            Creating { at: MakeAt::Stopped, ..c },
            DiskStep::Stopped,
        ),
        (MakeAt::Stopped, DiskEvent::Done) => (
            Creating { at: MakeAt::LinkSeen, ..c },
            DiskStep::LinkExists,
        ),
        (MakeAt::LinkSeen, DiskEvent::Answer(linked)) => (
            Creating { at: MakeAt::PendingSeen, linked, ..c },
            DiskStep::PendingExists,
        ),
        (MakeAt::PendingSeen, DiskEvent::Answer(pending)) => if pending {
            (Creating { at: MakeAt::PendingVerified, ..c }, DiskStep::VerifyPending)
        } else if c.linked {
            (Creating { at: MakeAt::Inspected, ..c }, DiskStep::Inspect)
        } else {
            (Creating { at: MakeAt::DirectorySeen, ..c }, DiskStep::DirectoryExists)
        },
        (MakeAt::Inspected, DiskEvent::Done) => create_end(c, DiskOutcome::Done),
        (MakeAt::DirectorySeen, DiskEvent::Answer(exists)) => if exists {
            create_end(c, DiskOutcome::Refused(DiskRefusal::DirectoryTaken))
        } else {
            (Creating { at: MakeAt::LinkRechecked, ..c }, DiskStep::LinkExists)
        },
        (MakeAt::LinkRechecked, DiskEvent::Answer(exists)) => if exists {
            create_end(c, DiskOutcome::Refused(DiskRefusal::RuntimeTaken))
        } else {
            (Creating { at: MakeAt::PendingWritten, owned: true, ..c }, DiskStep::WritePending)
        },
        (MakeAt::PendingWritten, DiskEvent::Done) => create_prepare(c),
        _ => place_after(c, e),
    }
}

/// What the creation of a disk makes of an answer. A disk that is registered
/// already is only looked at, and nothing that stands in its place is touched.
fn do_create_after(c: Creating, e: DiskEvent) -> (r: (Creating, DiskStep))
    ensures
        r == create_after(c, e),
{
    match (c.at, e) {
        (MakeAt::Start, DiskEvent::Begin) => (Creating { at: MakeAt::Locked, ..c }, DiskStep::Lock),
        (MakeAt::Locked, DiskEvent::Done) => (
            Creating { at: MakeAt::Stopped, ..c },
            DiskStep::Stopped,
        ),
        (MakeAt::Stopped, DiskEvent::Done) => (
            Creating { at: MakeAt::LinkSeen, ..c },
            DiskStep::LinkExists,
        ),
        (MakeAt::LinkSeen, DiskEvent::Answer(linked)) => (
            Creating { at: MakeAt::PendingSeen, linked, ..c },
            DiskStep::PendingExists,
        ),
        (MakeAt::PendingSeen, DiskEvent::Answer(pending)) => if pending {
            (Creating { at: MakeAt::PendingVerified, ..c }, DiskStep::VerifyPending)
        } else if c.linked {
            (Creating { at: MakeAt::Inspected, ..c }, DiskStep::Inspect)
        } else {
            (Creating { at: MakeAt::DirectorySeen, ..c }, DiskStep::DirectoryExists)
        },
        (MakeAt::Inspected, DiskEvent::Done) => do_create_end(c, DiskOutcome::Done),
        (MakeAt::DirectorySeen, DiskEvent::Answer(exists)) => if exists {
            do_create_end(c, DiskOutcome::Refused(DiskRefusal::DirectoryTaken))
        } else {
            (Creating { at: MakeAt::LinkRechecked, ..c }, DiskStep::LinkExists)
        },
        (MakeAt::LinkRechecked, DiskEvent::Answer(exists)) => if exists {
            do_create_end(c, DiskOutcome::Refused(DiskRefusal::RuntimeTaken))
        } else {
            (Creating { at: MakeAt::PendingWritten, owned: true, ..c }, DiskStep::WritePending)
        },
        (MakeAt::PendingWritten, DiskEvent::Done) => do_create_prepare(c),
        _ => do_place_after(c, e),
    }
}

/// A creation that has not begun.
pub open spec fn fresh_creation() -> Creating {
    Creating { at: MakeAt::Start, linked: false, owned: false, staged: false, backed: false }
}

impl Creating {
    /// A creation that has not begun.
    pub fn new() -> (r: Self)
        ensures
            r == fresh_creation(),
    {
        Creating { at: MakeAt::Start, linked: false, owned: false, staged: false, backed: false }
    }

    /// What the creation of a disk makes of an answer, and what it asks for next.
    pub fn next(self, e: DiskEvent) -> (r: (Creating, DiskStep))
        ensures
            r == create_after(self, e),
    {
        do_create_after(self, e)
    }
}

/// What holds at each point of a creation.
pub open spec fn makeable(c: Creating) -> bool {
    match c.at {
        MakeAt::Start | MakeAt::Locked | MakeAt::Stopped | MakeAt::LinkSeen | MakeAt::PendingSeen
        | MakeAt::Inspected | MakeAt::PendingVerified | MakeAt::DirectorySeen
        | MakeAt::LinkRechecked | MakeAt::Over => true,
        MakeAt::Relocked | MakeAt::Restopped | MakeAt::Backed => c.owned && c.staged,
        MakeAt::FilesSeen | MakeAt::ImageRemoved | MakeAt::DirectoryRemoved | MakeAt::Linked
        | MakeAt::Synced | MakeAt::Forgotten | MakeAt::LastInspected => c.owned && c.staged
            && c.backed,
        _ => c.owned,
    }
}

/// The runtime's own image is removed only after its copy was verified at its
/// place and the disk's files were checked; and nothing is written before it was
/// shown that the creation is this one or that its place is free.
#[verifier::rlimit(40)]
pub proof fn runtime_images_go_after_their_copy(c: Creating, e: DiskEvent)
    requires
        makeable(c),
    ensures
        makeable(create_after(c, e).0),
        create_after(c, e).1 is RemoveRuntimeImage ==> c.owned && c.staged && c.backed,
        create_after(c, e).1 is PrepareParent || create_after(c, e).1 is CreateRuntimeDisk
            || create_after(c, e).1 is StageCopy || create_after(c, e).1 is InstallLink
            ==> c.owned,
{
}

/// A growth, as far as it is decided on.
#[derive(Clone, Copy, Debug, PartialEq, Eq, Structural)]
pub struct Growth {
    pub same_id: bool,
    /// In place, and not smaller.
    pub in_place: bool,
    pub old_bytes: u64,
    pub new_bytes: u64,
}

pub open spec fn growth_of(old: LocationView, new: LocationView) -> Growth {
    Growth {
        same_id: old.id == new.id,
        in_place: old.directory == new.directory && old.volume_id == new.volume_id
            && new.allocation_gib >= old.allocation_gib,
        old_bytes: disk_bytes(old) as u64,
        new_bytes: disk_bytes(new) as u64,
    }
}

/// The growth from one size of a disk to another.
pub fn growth(old: &Location, new: &Location) -> (r: Growth)
    requires
        disk_bytes(old@) <= u64::MAX,
        disk_bytes(new@) <= u64::MAX,
    ensures
        r == growth_of(old@, new@),
{
    Growth {
        same_id: old.id.alike(&new.id),
        in_place: old.directory.alike(&new.directory) && old.volume_id.alike(&new.volume_id)
            && new.allocation_gib >= old.allocation_gib,
        old_bytes: old.allocation_gib * GIB,
        new_bytes: new.allocation_gib * GIB,
    }
}

/// Where a growth stands.
#[derive(Clone, Copy, Debug, PartialEq, Eq, Structural)]
pub enum GrowAt {
    Start,
    Locked,
    Stopped,
    NewSeen,
    NewInspected,
    OldSeen,
    VolumeSeen,
    SizeRead,
    Resized,
    Synced,
    SizeApplied,
    ReceiptWritten,
    Inspected,
    Over,
}

/// A growth under way.
#[derive(Clone, Copy, Debug, PartialEq, Eq, Structural)]
pub struct Growing {
    pub at: GrowAt,
    pub growth: Growth,
    pub applied: bool,
}

/// The growth is over.
pub open spec fn grow_end(g: Growing, outcome: DiskOutcome) -> (Growing, DiskStep) {
    (Growing { at: GrowAt::Over, ..g }, DiskStep::Finish(outcome))
}

/// The growth is over.
fn do_grow_end(g: Growing, outcome: DiskOutcome) -> (r: (Growing, DiskStep))
    ensures
        r == grow_end(g, outcome),
{
    (Growing { at: GrowAt::Over, ..g }, DiskStep::Finish(outcome))
}

/// What a growth makes of an answer: an interrupted one is taken up where the
/// runtime's size shows it to be.
pub open spec fn grow_after(g: Growing, e: DiskEvent) -> (Growing, DiskStep) {
    match (g.at, e) {
        (GrowAt::Start, DiskEvent::Begin) => (Growing { at: GrowAt::Locked, ..g }, DiskStep::Lock),
        (GrowAt::Locked, DiskEvent::Done) => (
            Growing { at: GrowAt::Stopped, ..g },
            DiskStep::Stopped,
        ),
        (GrowAt::Stopped, DiskEvent::Done) => if !g.growth.same_id {
            grow_end(g, DiskOutcome::Refused(DiskRefusal::NotSameDisk))
        } else if !g.growth.in_place {
            grow_end(g, DiskOutcome::Refused(DiskRefusal::GrowthMoves))
        } else {
            (Growing { at: GrowAt::NewSeen, ..g }, DiskStep::LinkedNew)
        },
        (GrowAt::NewSeen, DiskEvent::Done) => (
            Growing { at: GrowAt::NewInspected, ..g },
            DiskStep::Inspect,
        ),
        (GrowAt::NewSeen, DiskEvent::Failed) => (
            Growing { at: GrowAt::OldSeen, ..g },
            DiskStep::LinkedOld,
        ),
        (GrowAt::NewInspected, DiskEvent::Done) => grow_end(g, DiskOutcome::Done),
        (GrowAt::OldSeen, DiskEvent::Done) => (
            Growing { at: GrowAt::VolumeSeen, ..g },
            DiskStep::OldVolume,
        ),
        (GrowAt::VolumeSeen, DiskEvent::Done) => (
            Growing { at: GrowAt::SizeRead, ..g },
            DiskStep::RuntimeSize,
        ),
        (GrowAt::SizeRead, DiskEvent::Size(size)) => if size != g.growth.old_bytes && size
            != g.growth.new_bytes {
            grow_end(g, DiskOutcome::Refused(DiskRefusal::UnexpectedSize))
        } else if size < g.growth.new_bytes {
            (Growing { at: GrowAt::Resized, ..g }, DiskStep::Resize)
        } else {
            (Growing { at: GrowAt::Synced, ..g }, DiskStep::SyncImage)
        },
        (GrowAt::Resized, DiskEvent::Done) => (
            Growing { at: GrowAt::Synced, ..g },
            DiskStep::SyncImage,
        ),
        (GrowAt::Synced, DiskEvent::Done) => (
            Growing { at: GrowAt::SizeApplied, ..g },
            DiskStep::RuntimeSize,
        ),
        (GrowAt::SizeApplied, DiskEvent::Size(size)) => if size == g.growth.new_bytes {
            (Growing { at: GrowAt::ReceiptWritten, applied: true, ..g }, DiskStep::WriteReceipt)
        } else {
            grow_end(g, DiskOutcome::Refused(DiskRefusal::GrowthNotApplied))
        },
        (GrowAt::ReceiptWritten, DiskEvent::Done) => (
            Growing { at: GrowAt::Inspected, ..g },
            DiskStep::Inspect,
        ),
        (GrowAt::Inspected, DiskEvent::Done) => grow_end(g, DiskOutcome::Done),
        _ => grow_end(g, DiskOutcome::Failed),
    }
}

/// What a growth makes of an answer: an interrupted one is taken up where the
/// runtime's size shows it to be.
fn do_grow_after(g: Growing, e: DiskEvent) -> (r: (Growing, DiskStep))
    ensures
        r == grow_after(g, e),
{
    match (g.at, e) {
        (GrowAt::Start, DiskEvent::Begin) => (Growing { at: GrowAt::Locked, ..g }, DiskStep::Lock),
        (GrowAt::Locked, DiskEvent::Done) => (
            Growing { at: GrowAt::Stopped, ..g },
            DiskStep::Stopped,
        ),
        (GrowAt::Stopped, DiskEvent::Done) => if !g.growth.same_id {
            do_grow_end(g, DiskOutcome::Refused(DiskRefusal::NotSameDisk))
        } else if !g.growth.in_place {
            do_grow_end(g, DiskOutcome::Refused(DiskRefusal::GrowthMoves))
        } else {
            (Growing { at: GrowAt::NewSeen, ..g }, DiskStep::LinkedNew)
        },
        (GrowAt::NewSeen, DiskEvent::Done) => (
            Growing { at: GrowAt::NewInspected, ..g },
            DiskStep::Inspect,
        ),
        (GrowAt::NewSeen, DiskEvent::Failed) => (
            Growing { at: GrowAt::OldSeen, ..g },
            DiskStep::LinkedOld,
        ),
        (GrowAt::NewInspected, DiskEvent::Done) => do_grow_end(g, DiskOutcome::Done),
        (GrowAt::OldSeen, DiskEvent::Done) => (
            Growing { at: GrowAt::VolumeSeen, ..g },
            DiskStep::OldVolume,
        ),
        (GrowAt::VolumeSeen, DiskEvent::Done) => (
            Growing { at: GrowAt::SizeRead, ..g },
            DiskStep::RuntimeSize,
        ),
        (GrowAt::SizeRead, DiskEvent::Size(size)) => if size != g.growth.old_bytes && size
            != g.growth.new_bytes {
            do_grow_end(g, DiskOutcome::Refused(DiskRefusal::UnexpectedSize))
        } else if size < g.growth.new_bytes {
            (Growing { at: GrowAt::Resized, ..g }, DiskStep::Resize)
        } else {
            (Growing { at: GrowAt::Synced, ..g }, DiskStep::SyncImage)
        },
        (GrowAt::Resized, DiskEvent::Done) => (
            Growing { at: GrowAt::Synced, ..g },
            DiskStep::SyncImage,
        ),
        (GrowAt::Synced, DiskEvent::Done) => (
            Growing { at: GrowAt::SizeApplied, ..g },
            DiskStep::RuntimeSize,
        ),
        (GrowAt::SizeApplied, DiskEvent::Size(size)) => if size == g.growth.new_bytes {
            (Growing { at: GrowAt::ReceiptWritten, applied: true, ..g }, DiskStep::WriteReceipt)
        } else {
            do_grow_end(g, DiskOutcome::Refused(DiskRefusal::GrowthNotApplied))
        },
        (GrowAt::ReceiptWritten, DiskEvent::Done) => (
            Growing { at: GrowAt::Inspected, ..g },
            DiskStep::Inspect,
        ),
        (GrowAt::Inspected, DiskEvent::Done) => do_grow_end(g, DiskOutcome::Done),
        _ => do_grow_end(g, DiskOutcome::Failed),
    }
}

impl Growing {
    /// A growth that has not begun.
    pub fn new(growth: Growth) -> (r: Self)
        ensures
            r == (Growing { at: GrowAt::Start, growth, applied: false }),
    {
        Growing { at: GrowAt::Start, growth, applied: false }
    }

    /// What a growth makes of an answer, and what it asks for next.
    pub fn next(self, e: DiskEvent) -> (r: (Growing, DiskStep))
        ensures
            r == grow_after(self, e),
    {
        do_grow_after(self, e)
    }
}

/// What holds at each point of a growth.
pub open spec fn growable(g: Growing) -> bool {
    match g.at {
        GrowAt::Start | GrowAt::Locked | GrowAt::Stopped | GrowAt::Over => true,
        _ => g.growth.same_id && g.growth.in_place,
    }
}

/// A disk is resized only in place, never to less than it had, and from its old
/// size; its receipt follows only a size that was applied.
pub proof fn disks_never_shrink(g: Growing, e: DiskEvent)
    requires
        growable(g),
    ensures
        growable(grow_after(g, e).0),
        grow_after(g, e).1 is Resize ==> g.growth.same_id && g.growth.in_place && e
            == DiskEvent::Size(g.growth.old_bytes) && g.growth.old_bytes < g.growth.new_bytes,
        grow_after(g, e).1 is WriteReceipt ==> e == DiskEvent::Size(g.growth.new_bytes),
{
}

/// Whether a disk may move as it is asked for.
pub fn check_move(old: &Location, new: &Location) -> (r: Result<(), Failure>)
    ensures
        refusal(r) == first_of(
            unless(old@.id == new@.id, "A storage change must preserve its disk identity"@),
            unless(
                old@.directory != new@.directory && old@.allocation_gib == new@.allocation_gib,
                "Moving storage must preserve its disk allocation"@,
            ),
        ),
{
    match same_disk(old, new) {
        Ok(()) => {},
        Err(e) => {
            return Err(e);
        },
    }
    if !old.directory.alike(&new.directory) && old.allocation_gib == new.allocation_gib {
        Ok(())
    } else {
        Err(fail("Moving storage must preserve its disk allocation"))
    }
}

/// Where the end of a move stands.
#[derive(Clone, Copy, Debug, PartialEq, Eq, Structural)]
pub enum CommitAt {
    Start,
    Locked,
    Stopped,
    OldBacked,
    NewBacked,
    NewLinked,
    OldLinked,
    PendingSeen,
    PendingReady,
    Renamed,
    Synced,
    Over,
}

/// The end of a move under way.
#[derive(Clone, Copy, Debug, PartialEq, Eq, Structural)]
pub struct Committing {
    pub at: CommitAt,
    pub same_id: bool,
    pub same_size: bool,
    /// Whether the disk's files at both places were checked.
    pub backed: bool,
}

/// The move is over.
pub open spec fn commit_end(c: Committing, outcome: DiskOutcome) -> (Committing, DiskStep) {
    (Committing { at: CommitAt::Over, ..c }, DiskStep::Finish(outcome))
}

/// The move is over.
fn do_commit_end(c: Committing, outcome: DiskOutcome) -> (r: (Committing, DiskStep))
    ensures
        r == commit_end(c, outcome),
{
    (Committing { at: CommitAt::Over, ..c }, DiskStep::Finish(outcome))
}

/// The registration is switched at once.
pub open spec fn commit_rename(c: Committing) -> (Committing, DiskStep) {
    (Committing { at: CommitAt::Renamed, ..c }, DiskStep::RenameLink)
}

/// The registration is switched at once.
fn do_commit_rename(c: Committing) -> (r: (Committing, DiskStep))
    ensures
        r == commit_rename(c),
{
    (Committing { at: CommitAt::Renamed, ..c }, DiskStep::RenameLink)
}

/// What the end of a move makes of an answer.
pub open spec fn commit_after(c: Committing, e: DiskEvent) -> (Committing, DiskStep) {
    match (c.at, e) {
        (CommitAt::Start, DiskEvent::Begin) => (
            Committing { at: CommitAt::Locked, ..c },
            DiskStep::Lock,
        ),
        (CommitAt::Locked, DiskEvent::Done) => (
            Committing { at: CommitAt::Stopped, ..c },
            DiskStep::Stopped,
        ),
        (CommitAt::Stopped, DiskEvent::Done) => if !c.same_id {
            commit_end(c, DiskOutcome::Refused(DiskRefusal::NotSameDisk))
        } else if !c.same_size {
            commit_end(c, DiskOutcome::Refused(DiskRefusal::CommitResizes))
        } else {
            (Committing { at: CommitAt::OldBacked, ..c }, DiskStep::OldBackingValid)
        },
        (CommitAt::OldBacked, DiskEvent::Done) => (
            Committing { at: CommitAt::NewBacked, ..c },
            DiskStep::BackingValid,
        ),
        (CommitAt::NewBacked, DiskEvent::Done) => {
            (Committing { at: CommitAt::NewLinked, backed: true, ..c }, DiskStep::LinkedToNew)
        },
        (CommitAt::NewLinked, DiskEvent::Done) => commit_end(c, DiskOutcome::Done),
        (CommitAt::NewLinked, DiskEvent::Failed) => (
            Committing { at: CommitAt::OldLinked, ..c },
            DiskStep::LinkedToOld,
        ),
        (CommitAt::OldLinked, DiskEvent::Done) => (
            Committing { at: CommitAt::PendingSeen, ..c },
            DiskStep::PendingLinkExists,
        ),
        (CommitAt::PendingSeen, DiskEvent::Answer(exists)) => if exists {
            (Committing { at: CommitAt::PendingReady, ..c }, DiskStep::VerifyPendingLink)
        } else {
            (Committing { at: CommitAt::PendingReady, ..c }, DiskStep::InstallPendingLink)
        },
        (CommitAt::PendingReady, DiskEvent::Done) => commit_rename(c),
        (CommitAt::Renamed, DiskEvent::Done) => (
            Committing { at: CommitAt::Synced, ..c },
            DiskStep::SyncRegistry,
        ),
        (CommitAt::Synced, DiskEvent::Done) => commit_end(c, DiskOutcome::Done),
        _ => commit_end(c, DiskOutcome::Failed),
    }
}

/// What the end of a move makes of an answer.
fn do_commit_after(c: Committing, e: DiskEvent) -> (r: (Committing, DiskStep))
    ensures
        r == commit_after(c, e),
{
    match (c.at, e) {
        (CommitAt::Start, DiskEvent::Begin) => (
            Committing { at: CommitAt::Locked, ..c },
            DiskStep::Lock,
        ),
        (CommitAt::Locked, DiskEvent::Done) => (
            Committing { at: CommitAt::Stopped, ..c },
            DiskStep::Stopped,
        ),
        (CommitAt::Stopped, DiskEvent::Done) => if !c.same_id {
            do_commit_end(c, DiskOutcome::Refused(DiskRefusal::NotSameDisk))
        } else if !c.same_size {
            do_commit_end(c, DiskOutcome::Refused(DiskRefusal::CommitResizes))
        } else {
            (Committing { at: CommitAt::OldBacked, ..c }, DiskStep::OldBackingValid)
        },
        (CommitAt::OldBacked, DiskEvent::Done) => (
            Committing { at: CommitAt::NewBacked, ..c },
            DiskStep::BackingValid,
        ),
        (CommitAt::NewBacked, DiskEvent::Done) => {
            (Committing { at: CommitAt::NewLinked, backed: true, ..c }, DiskStep::LinkedToNew)
        },
        (CommitAt::NewLinked, DiskEvent::Done) => do_commit_end(c, DiskOutcome::Done),
        (CommitAt::NewLinked, DiskEvent::Failed) => (
            Committing { at: CommitAt::OldLinked, ..c },
            DiskStep::LinkedToOld,
        ),
        (CommitAt::OldLinked, DiskEvent::Done) => (
            Committing { at: CommitAt::PendingSeen, ..c },
            DiskStep::PendingLinkExists,
        ),
        (CommitAt::PendingSeen, DiskEvent::Answer(exists)) => if exists {
            (Committing { at: CommitAt::PendingReady, ..c }, DiskStep::VerifyPendingLink)
        } else {
            (Committing { at: CommitAt::PendingReady, ..c }, DiskStep::InstallPendingLink)
        },
        (CommitAt::PendingReady, DiskEvent::Done) => do_commit_rename(c),
        (CommitAt::Renamed, DiskEvent::Done) => (
            Committing { at: CommitAt::Synced, ..c },
            DiskStep::SyncRegistry,
        ),
        (CommitAt::Synced, DiskEvent::Done) => do_commit_end(c, DiskOutcome::Done),
        _ => do_commit_end(c, DiskOutcome::Failed),
    }
}

impl Committing {
    /// The end of a move, which has not begun.
    pub fn new(old: &Location, new: &Location) -> (r: Self)
        ensures
            r == (Committing {
                at: CommitAt::Start,
                same_id: old@.id == new@.id,
                same_size: old@.allocation_gib == new@.allocation_gib,
                backed: false,
            }),
    {
        Committing {
            at: CommitAt::Start,
            same_id: old.id.alike(&new.id),
            same_size: old.allocation_gib == new.allocation_gib,
            backed: false,
        }
    }

    /// What the end of a move makes of an answer, and what it asks for next.
    pub fn next(self, e: DiskEvent) -> (r: (Committing, DiskStep))
        ensures
            r == commit_after(self, e),
    {
        do_commit_after(self, e)
    }
}

/// What holds at each point of the end of a move.
pub open spec fn committable(c: Committing) -> bool {
    match c.at {
        CommitAt::NewLinked | CommitAt::OldLinked | CommitAt::PendingSeen
        | CommitAt::PendingReady | CommitAt::Renamed | CommitAt::Synced => c.same_id
            && c.same_size && c.backed,
        CommitAt::OldBacked | CommitAt::NewBacked => c.same_id && c.same_size,
        _ => true,
    }
}

/// Lima is pointed to a disk's new place only when both places hold that very
/// disk.
pub proof fn moves_end_on_checked_disks(c: Committing, e: DiskEvent)
    requires
        committable(c),
    ensures
        committable(commit_after(c, e).0),
        commit_after(c, e).1 is RenameLink ==> c.same_id && c.same_size && c.backed,
{
}

/// Where the removal of a disk stands.
#[derive(Clone, Copy, Debug, PartialEq, Eq, Structural)]
pub enum RemoveAt {
    Start,
    Locked,
    Stopped,
    Anchored,
    DirectorySeen,
    DirectoryPrivate,
    FilesSeen,
    ImageSeen,
    ImageReceipt,
    ImageVolume,
    LinkSeen,
    LinkVerified,
    RuntimeDeleted,
    LinkGone,
    ImageRemoved,
    ImageSynced,
    ReceiptSeen,
    ReceiptVerified,
    ReceiptRemoved,
    ReceiptSynced,
    DirectoryRemoved,
    TargetSeen,
    LinkRemoved,
    Synced,
    Over,
}

/// The removal of a disk under way.
#[derive(Clone, Copy, Debug, PartialEq, Eq, Structural)]
pub struct Removing {
    pub at: RemoveAt,
    /// Whether the original volume is there.
    pub anchored: bool,
    /// Whether the image was shown to be the disk's.
    pub owned: bool,
}

/// The removal is over.
pub open spec fn remove_end(m: Removing, outcome: DiskOutcome) -> (Removing, DiskStep) {
    (Removing { at: RemoveAt::Over, ..m }, DiskStep::Finish(outcome))
}

/// The removal is over.
fn do_remove_end(m: Removing, outcome: DiskOutcome) -> (r: (Removing, DiskStep))
    ensures
        r == remove_end(m, outcome),
{
    (Removing { at: RemoveAt::Over, ..m }, DiskStep::Finish(outcome))
}

/// What is left is the registration.
pub open spec fn remove_link(m: Removing) -> (Removing, DiskStep) {
    (Removing { at: RemoveAt::TargetSeen, ..m }, DiskStep::LinkTarget)
}

/// What is left is the registration.
fn do_remove_link(m: Removing) -> (r: (Removing, DiskStep))
    ensures
        r == remove_link(m),
{
    (Removing { at: RemoveAt::TargetSeen, ..m }, DiskStep::LinkTarget)
}

/// The image is gone; its receipt goes next.
pub open spec fn remove_receipt(m: Removing) -> (Removing, DiskStep) {
    (Removing { at: RemoveAt::ReceiptSeen, ..m }, DiskStep::ReceiptExists)
}

/// The image is gone; its receipt goes next.
fn do_remove_receipt(m: Removing) -> (r: (Removing, DiskStep))
    ensures
        r == remove_receipt(m),
{
    (Removing { at: RemoveAt::ReceiptSeen, ..m }, DiskStep::ReceiptExists)
}

/// The receipt, the directory and the registration of a removed disk.
pub open spec fn unlink_after(m: Removing, e: DiskEvent) -> (Removing, DiskStep) {
    match (m.at, e) {
        (RemoveAt::ReceiptSeen, DiskEvent::Answer(exists)) => if exists {
            (Removing { at: RemoveAt::ReceiptVerified, ..m }, DiskStep::VerifyReceipt)
        } else {
            (Removing { at: RemoveAt::DirectoryRemoved, ..m }, DiskStep::RemoveDirectory)
        },
        (RemoveAt::ReceiptVerified, DiskEvent::Done) => (
            Removing { at: RemoveAt::ReceiptRemoved, ..m },
            DiskStep::RemoveReceipt,
        ),
        (RemoveAt::ReceiptRemoved, DiskEvent::Done) => (
            Removing { at: RemoveAt::ReceiptSynced, ..m },
            DiskStep::SyncDirectory,
        ),
        (RemoveAt::ReceiptSynced, DiskEvent::Done) => (
            Removing { at: RemoveAt::DirectoryRemoved, ..m },
            DiskStep::RemoveDirectory,
        ),
        (RemoveAt::DirectoryRemoved, DiskEvent::Done) => remove_link(m),
        (RemoveAt::TargetSeen, DiskEvent::Target(LinkTarget::Absent)) => {
            remove_end(m, DiskOutcome::Done)
        },
        (RemoveAt::TargetSeen, DiskEvent::Target(LinkTarget::Elsewhere)) => {
            remove_end(m, DiskOutcome::Refused(DiskRefusal::RegistrationChanged))
        },
        (RemoveAt::TargetSeen, DiskEvent::Target(LinkTarget::Here)) => {
            (Removing { at: RemoveAt::LinkRemoved, ..m }, DiskStep::RemoveLink)
        },
        (RemoveAt::LinkRemoved, DiskEvent::Done) => (
            Removing { at: RemoveAt::Synced, ..m },
            DiskStep::SyncRegistry,
        ),
        (RemoveAt::Synced, DiskEvent::Done) => remove_end(m, DiskOutcome::Done),
        _ => remove_end(m, DiskOutcome::Failed),
    }
}

/// The receipt, the directory and the registration of a removed disk.
fn do_unlink_after(m: Removing, e: DiskEvent) -> (r: (Removing, DiskStep))
    ensures
        r == unlink_after(m, e),
{
    match (m.at, e) {
        (RemoveAt::ReceiptSeen, DiskEvent::Answer(exists)) => if exists {
            (Removing { at: RemoveAt::ReceiptVerified, ..m }, DiskStep::VerifyReceipt)
        } else {
            (Removing { at: RemoveAt::DirectoryRemoved, ..m }, DiskStep::RemoveDirectory)
        },
        (RemoveAt::ReceiptVerified, DiskEvent::Done) => (
            Removing { at: RemoveAt::ReceiptRemoved, ..m },
            DiskStep::RemoveReceipt,
        ),
        (RemoveAt::ReceiptRemoved, DiskEvent::Done) => (
            Removing { at: RemoveAt::ReceiptSynced, ..m },
            DiskStep::SyncDirectory,
        ),
        (RemoveAt::ReceiptSynced, DiskEvent::Done) => (
            Removing { at: RemoveAt::DirectoryRemoved, ..m },
            DiskStep::RemoveDirectory,
        ),
        (RemoveAt::DirectoryRemoved, DiskEvent::Done) => do_remove_link(m),
        (RemoveAt::TargetSeen, DiskEvent::Target(LinkTarget::Absent)) => {
            do_remove_end(m, DiskOutcome::Done)
        },
        (RemoveAt::TargetSeen, DiskEvent::Target(LinkTarget::Elsewhere)) => {
            do_remove_end(m, DiskOutcome::Refused(DiskRefusal::RegistrationChanged))
        },
        (RemoveAt::TargetSeen, DiskEvent::Target(LinkTarget::Here)) => {
            (Removing { at: RemoveAt::LinkRemoved, ..m }, DiskStep::RemoveLink)
        },
        (RemoveAt::LinkRemoved, DiskEvent::Done) => (
            Removing { at: RemoveAt::Synced, ..m },
            DiskStep::SyncRegistry,
        ),
        (RemoveAt::Synced, DiskEvent::Done) => do_remove_end(m, DiskOutcome::Done),
        _ => do_remove_end(m, DiskOutcome::Failed),
    }
}

/// What the removal of a disk makes of an answer. Retries tolerate a completed
/// deletion, never a missing mount masquerading as an empty directory.
pub open spec fn remove_after(m: Removing, e: DiskEvent) -> (Removing, DiskStep) {
    match (m.at, e) {
        (RemoveAt::Start, DiskEvent::Begin) => (
            Removing { at: RemoveAt::Locked, ..m },
            DiskStep::Lock,
        ),
        (RemoveAt::Locked, DiskEvent::Done) => (
            Removing { at: RemoveAt::Stopped, ..m },
            DiskStep::Stopped,
        ),
        (RemoveAt::Stopped, DiskEvent::Done) => (
            Removing { at: RemoveAt::Anchored, ..m },
            DiskStep::AncestorVolume,
        ),
        (RemoveAt::Anchored, DiskEvent::Done) => {
            (Removing { at: RemoveAt::DirectorySeen, anchored: true, ..m }, DiskStep::DirectoryExists)
        },
        (RemoveAt::DirectorySeen, DiskEvent::Answer(exists)) => if exists {
            (Removing { at: RemoveAt::DirectoryPrivate, ..m }, DiskStep::PrivateDirectory)
        } else {
            remove_link(m)
        },
        (RemoveAt::DirectoryPrivate, DiskEvent::Done) => (
            Removing { at: RemoveAt::FilesSeen, ..m },
            DiskStep::OnlyDiskFiles,
        ),
        (RemoveAt::FilesSeen, DiskEvent::Answer(only)) => if only {
            (Removing { at: RemoveAt::ImageSeen, ..m }, DiskStep::ImageExists)
        } else {
            remove_end(m, DiskOutcome::Refused(DiskRefusal::UnexpectedManagedFiles))
        },
        (RemoveAt::ImageSeen, DiskEvent::Answer(exists)) => if exists {
            (Removing { at: RemoveAt::ImageReceipt, ..m }, DiskStep::VerifyReceipt)
        } else {
            remove_receipt(m)
        },
        (RemoveAt::ImageReceipt, DiskEvent::Done) => (
            Removing { at: RemoveAt::ImageVolume, ..m },
            DiskStep::ImageVolume,
        ),
        (RemoveAt::ImageVolume, DiskEvent::Done) => (
            Removing { at: RemoveAt::LinkSeen, owned: true, ..m },
            DiskStep::LinkExists,
        ),
        (RemoveAt::LinkSeen, DiskEvent::Answer(exists)) => if exists {
            (Removing { at: RemoveAt::LinkVerified, ..m }, DiskStep::VerifyLink)
        } else {
            (Removing { at: RemoveAt::ImageRemoved, ..m }, DiskStep::RemoveImage)
        },
        (RemoveAt::LinkVerified, DiskEvent::Done) => (
            Removing { at: RemoveAt::RuntimeDeleted, ..m },
            DiskStep::DeleteRuntimeDisk,
        ),
        (RemoveAt::RuntimeDeleted, DiskEvent::Done) => (
            Removing { at: RemoveAt::LinkGone, ..m },
            DiskStep::LinkExists,
        ),
        (RemoveAt::LinkGone, DiskEvent::Answer(exists)) => if exists {
            remove_end(m, DiskOutcome::Refused(DiskRefusal::StillReferenced))
        } else {
            (Removing { at: RemoveAt::ImageRemoved, ..m }, DiskStep::RemoveImage)
        },
        (RemoveAt::ImageRemoved, DiskEvent::Done) => (
            Removing { at: RemoveAt::ImageSynced, ..m },
            DiskStep::SyncDirectory,
        ),
        (RemoveAt::ImageSynced, DiskEvent::Done) => remove_receipt(m),
        _ => unlink_after(m, e),
    }
}

/// What the removal of a disk makes of an answer. Retries tolerate a completed
/// deletion, never a missing mount masquerading as an empty directory.
fn do_remove_after(m: Removing, e: DiskEvent) -> (r: (Removing, DiskStep))
    ensures
        r == remove_after(m, e),
{
    match (m.at, e) {
        (RemoveAt::Start, DiskEvent::Begin) => (
            Removing { at: RemoveAt::Locked, ..m },
            DiskStep::Lock,
        ),
        (RemoveAt::Locked, DiskEvent::Done) => (
            Removing { at: RemoveAt::Stopped, ..m },
            DiskStep::Stopped,
        ),
        (RemoveAt::Stopped, DiskEvent::Done) => (
            Removing { at: RemoveAt::Anchored, ..m },
            DiskStep::AncestorVolume,
        ),
        (RemoveAt::Anchored, DiskEvent::Done) => {
            (Removing { at: RemoveAt::DirectorySeen, anchored: true, ..m }, DiskStep::DirectoryExists)
        },
        (RemoveAt::DirectorySeen, DiskEvent::Answer(exists)) => if exists {
            (Removing { at: RemoveAt::DirectoryPrivate, ..m }, DiskStep::PrivateDirectory)
        } else {
            do_remove_link(m)
        },
        (RemoveAt::DirectoryPrivate, DiskEvent::Done) => (
            Removing { at: RemoveAt::FilesSeen, ..m },
            DiskStep::OnlyDiskFiles,
        ),
        (RemoveAt::FilesSeen, DiskEvent::Answer(only)) => if only {
            (Removing { at: RemoveAt::ImageSeen, ..m }, DiskStep::ImageExists)
        } else {
            do_remove_end(m, DiskOutcome::Refused(DiskRefusal::UnexpectedManagedFiles))
        },
        (RemoveAt::ImageSeen, DiskEvent::Answer(exists)) => if exists {
            (Removing { at: RemoveAt::ImageReceipt, ..m }, DiskStep::VerifyReceipt)
        } else {
            do_remove_receipt(m)
        },
        (RemoveAt::ImageReceipt, DiskEvent::Done) => (
            Removing { at: RemoveAt::ImageVolume, ..m },
            DiskStep::ImageVolume,
        ),
        (RemoveAt::ImageVolume, DiskEvent::Done) => (
            Removing { at: RemoveAt::LinkSeen, owned: true, ..m },
            DiskStep::LinkExists,
        ),
        (RemoveAt::LinkSeen, DiskEvent::Answer(exists)) => if exists {
            (Removing { at: RemoveAt::LinkVerified, ..m }, DiskStep::VerifyLink)
        } else {
            (Removing { at: RemoveAt::ImageRemoved, ..m }, DiskStep::RemoveImage)
        },
        (RemoveAt::LinkVerified, DiskEvent::Done) => (
            Removing { at: RemoveAt::RuntimeDeleted, ..m },
            DiskStep::DeleteRuntimeDisk,
        ),
        (RemoveAt::RuntimeDeleted, DiskEvent::Done) => (
            Removing { at: RemoveAt::LinkGone, ..m },
            DiskStep::LinkExists,
        ),
        (RemoveAt::LinkGone, DiskEvent::Answer(exists)) => if exists {
            do_remove_end(m, DiskOutcome::Refused(DiskRefusal::StillReferenced))
        } else {
            (Removing { at: RemoveAt::ImageRemoved, ..m }, DiskStep::RemoveImage)
        },
        (RemoveAt::ImageRemoved, DiskEvent::Done) => (
            Removing { at: RemoveAt::ImageSynced, ..m },
            DiskStep::SyncDirectory,
        ),
        (RemoveAt::ImageSynced, DiskEvent::Done) => do_remove_receipt(m),
        _ => do_unlink_after(m, e),
    }
}

impl Removing {
    /// A removal that has not begun.
    pub fn new() -> (r: Self)
        ensures
            r == (Removing { at: RemoveAt::Start, anchored: false, owned: false }),
    {
        Removing { at: RemoveAt::Start, anchored: false, owned: false }
    }

    /// What the removal of a disk makes of an answer, and what it asks for next.
    pub fn next(self, e: DiskEvent) -> (r: (Removing, DiskStep))
        ensures
            r == remove_after(self, e),
    {
        do_remove_after(self, e)
    }
}

/// What holds at each point of a removal.
pub open spec fn removable(m: Removing) -> bool {
    match m.at {
        RemoveAt::Start | RemoveAt::Locked | RemoveAt::Stopped | RemoveAt::Anchored
        | RemoveAt::Over => true,
        RemoveAt::LinkSeen | RemoveAt::LinkVerified | RemoveAt::RuntimeDeleted
        | RemoveAt::LinkGone | RemoveAt::ImageRemoved | RemoveAt::ImageSynced => m.anchored
            && m.owned,
        _ => m.anchored,
    }
}

/// A disk's image is deleted only on its original volume and with its receipt
/// verified, and never while Lima still refers to it.
#[verifier::rlimit(40)]
pub proof fn images_go_only_when_owned(m: Removing, e: DiskEvent)
    requires
        removable(m),
    ensures
        removable(remove_after(m, e).0),
        remove_after(m, e).1 is RemoveImage || remove_after(m, e).1 is DeleteRuntimeDisk
            ==> m.anchored && m.owned,
        remove_after(m, e).1 is RemoveImage ==> e == DiskEvent::Answer(false),
        remove_after(m, e).1 is RemoveReceipt ==> m.at == RemoveAt::ReceiptVerified && e
            == DiskEvent::Done,
{
}

/// Where the removal of an old copy stands.
#[derive(Clone, Copy, Debug, PartialEq, Eq, Structural)]
pub enum DiscardAt {
    Start,
    Locked,
    Stopped,
    ElsewhereSeen,
    DirectorySeen,
    Anchored,
    DirectoryPrivate,
    ApartSeen,
    VolumeSeen,
    FilesSeen,
    ReceiptSeen,
    ImageSeen,
    ReceiptVerified,
    ImageVolume,
    ImageRemoved,
    ImageSynced,
    ReceiptRemoved,
    ReceiptSynced,
    DirectoryRemoved,
    Synced,
    Over,
}

/// The removal of an old copy under way.
#[derive(Clone, Copy, Debug, PartialEq, Eq, Structural)]
pub struct Discarding {
    pub at: DiscardAt,
    pub receipt: bool,
    pub image: bool,
    /// Whether Lima was shown to use another place.
    pub apart: bool,
    /// Whether the receipt was verified.
    pub owned: bool,
}

/// The removal is over.
pub open spec fn discard_end(d: Discarding, outcome: DiskOutcome) -> (Discarding, DiskStep) {
    (Discarding { at: DiscardAt::Over, ..d }, DiskStep::Finish(outcome))
}

/// The removal is over.
fn do_discard_end(d: Discarding, outcome: DiskOutcome) -> (r: (Discarding, DiskStep))
    ensures
        r == discard_end(d, outcome),
{
    (Discarding { at: DiscardAt::Over, ..d }, DiskStep::Finish(outcome))
}

/// What is left is the directory.
pub open spec fn discard_directory(d: Discarding) -> (Discarding, DiskStep) {
    (Discarding { at: DiscardAt::DirectoryRemoved, ..d }, DiskStep::RemoveDirectory)
}

/// What is left is the directory.
fn do_discard_directory(d: Discarding) -> (r: (Discarding, DiskStep))
    ensures
        r == discard_directory(d),
{
    (Discarding { at: DiscardAt::DirectoryRemoved, ..d }, DiskStep::RemoveDirectory)
}

/// The image is gone; its receipt goes next.
pub open spec fn discard_receipt(d: Discarding) -> (Discarding, DiskStep) {
    if d.receipt {
        (Discarding { at: DiscardAt::ReceiptRemoved, ..d }, DiskStep::RemoveReceipt)
    } else {
        discard_directory(d)
    }
}

/// The image is gone; its receipt goes next.
fn do_discard_receipt(d: Discarding) -> (r: (Discarding, DiskStep))
    ensures
        r == discard_receipt(d),
{
    if d.receipt {
        (Discarding { at: DiscardAt::ReceiptRemoved, ..d }, DiskStep::RemoveReceipt)
    } else {
        do_discard_directory(d)
    }
}

/// The copy is this computer's.
pub open spec fn discard_image(d: Discarding) -> (Discarding, DiskStep) {
    if d.image {
        (Discarding { at: DiscardAt::ImageVolume, ..d }, DiskStep::ImageVolume)
    } else {
        discard_receipt(d)
    }
}

/// The copy is this computer's.
fn do_discard_image(d: Discarding) -> (r: (Discarding, DiskStep))
    ensures
        r == discard_image(d),
{
    if d.image {
        (Discarding { at: DiscardAt::ImageVolume, ..d }, DiskStep::ImageVolume)
    } else {
        do_discard_receipt(d)
    }
}

/// What the removal of an old copy makes of an answer. It never removes a directory
/// that is still registered with Lima.
pub open spec fn discard_after(d: Discarding, e: DiskEvent) -> (Discarding, DiskStep) {
    match (d.at, e) {
        (DiscardAt::Start, DiskEvent::Begin) => (
            Discarding { at: DiscardAt::Locked, ..d },
            DiskStep::Lock,
        ),
        (DiscardAt::Locked, DiskEvent::Done) => (
            Discarding { at: DiscardAt::Stopped, ..d },
            DiskStep::Stopped,
        ),
        (DiscardAt::Stopped, DiskEvent::Done) => (
            Discarding { at: DiscardAt::ElsewhereSeen, ..d },
            DiskStep::RegisteredElsewhere,
        ),
        (DiscardAt::ElsewhereSeen, DiskEvent::Answer(elsewhere)) => if elsewhere {
            (Discarding { at: DiscardAt::DirectorySeen, ..d }, DiskStep::DirectoryExists)
        } else {
            discard_end(d, DiskOutcome::Refused(DiskRefusal::StillRegistered))
        },
        (DiscardAt::DirectorySeen, DiskEvent::Answer(exists)) => if exists {
            (Discarding { at: DiscardAt::DirectoryPrivate, ..d }, DiskStep::PrivateDirectory)
        } else {
            (Discarding { at: DiscardAt::Anchored, ..d }, DiskStep::AncestorVolume)
        },
        (DiscardAt::Anchored, DiskEvent::Done) => discard_end(d, DiskOutcome::Done),
        (DiscardAt::DirectoryPrivate, DiskEvent::Done) => (
            Discarding { at: DiscardAt::ApartSeen, ..d },
            DiskStep::RegisteredApart,
        ),
        (DiscardAt::ApartSeen, DiskEvent::Answer(apart)) => if apart {
            (Discarding { at: DiscardAt::VolumeSeen, apart: true, ..d }, DiskStep::DirectoryVolume)
        } else {
            discard_end(d, DiskOutcome::Refused(DiskRefusal::StillRegistered))
        },
        (DiscardAt::VolumeSeen, DiskEvent::Done) => (
            Discarding { at: DiscardAt::FilesSeen, ..d },
            DiskStep::OnlyDiskFiles,
        ),
        (DiscardAt::FilesSeen, DiskEvent::Answer(only)) => if only {
            (Discarding { at: DiscardAt::ReceiptSeen, ..d }, DiskStep::ReceiptExists)
        } else {
            discard_end(d, DiskOutcome::Refused(DiskRefusal::UnexpectedRetainedFiles))
        },
        (DiscardAt::ReceiptSeen, DiskEvent::Answer(receipt)) => {
            (Discarding { at: DiscardAt::ImageSeen, receipt, ..d }, DiskStep::ImageExists)
        },
        (DiscardAt::ImageSeen, DiskEvent::Answer(image)) => if image && !d.receipt {
            discard_end(d, DiskOutcome::Refused(DiskRefusal::NoRetainedReceipt))
        } else if d.receipt {
            (Discarding { at: DiscardAt::ReceiptVerified, image, ..d }, DiskStep::VerifyReceipt)
        } else {
            discard_image(Discarding { image, ..d })
        },
        (DiscardAt::ReceiptVerified, DiskEvent::Done) => {
            discard_image(Discarding { owned: true, ..d })
        },
        (DiscardAt::ImageVolume, DiskEvent::Done) => (
            Discarding { at: DiscardAt::ImageRemoved, ..d },
            DiskStep::RemoveImage,
        ),
        (DiscardAt::ImageRemoved, DiskEvent::Done) => (
            Discarding { at: DiscardAt::ImageSynced, ..d },
            DiskStep::SyncDirectory,
        ),
        (DiscardAt::ImageSynced, DiskEvent::Done) => discard_receipt(d),
        (DiscardAt::ReceiptRemoved, DiskEvent::Done) => (
            Discarding { at: DiscardAt::ReceiptSynced, ..d },
            DiskStep::SyncDirectory,
        ),
        (DiscardAt::ReceiptSynced, DiskEvent::Done) => discard_directory(d),
        (DiscardAt::DirectoryRemoved, DiskEvent::Done) => (
            Discarding { at: DiscardAt::Synced, ..d },
            DiskStep::SyncParent,
        ),
        (DiscardAt::Synced, DiskEvent::Done) => discard_end(d, DiskOutcome::Done),
        _ => discard_end(d, DiskOutcome::Failed),
    }
}

/// What the removal of an old copy makes of an answer. It never removes a directory
/// that is still registered with Lima.
fn do_discard_after(d: Discarding, e: DiskEvent) -> (r: (Discarding, DiskStep))
    ensures
        r == discard_after(d, e),
{
    match (d.at, e) {
        (DiscardAt::Start, DiskEvent::Begin) => (
            Discarding { at: DiscardAt::Locked, ..d },
            DiskStep::Lock,
        ),
        (DiscardAt::Locked, DiskEvent::Done) => (
            Discarding { at: DiscardAt::Stopped, ..d },
            DiskStep::Stopped,
        ),
        (DiscardAt::Stopped, DiskEvent::Done) => (
            Discarding { at: DiscardAt::ElsewhereSeen, ..d },
            DiskStep::RegisteredElsewhere,
        ),
        (DiscardAt::ElsewhereSeen, DiskEvent::Answer(elsewhere)) => if elsewhere {
            (Discarding { at: DiscardAt::DirectorySeen, ..d }, DiskStep::DirectoryExists)
        } else {
            do_discard_end(d, DiskOutcome::Refused(DiskRefusal::StillRegistered))
        },
        (DiscardAt::DirectorySeen, DiskEvent::Answer(exists)) => if exists {
            (Discarding { at: DiscardAt::DirectoryPrivate, ..d }, DiskStep::PrivateDirectory)
        } else {
            (Discarding { at: DiscardAt::Anchored, ..d }, DiskStep::AncestorVolume)
        },
        (DiscardAt::Anchored, DiskEvent::Done) => do_discard_end(d, DiskOutcome::Done),
        (DiscardAt::DirectoryPrivate, DiskEvent::Done) => (
            Discarding { at: DiscardAt::ApartSeen, ..d },
            DiskStep::RegisteredApart,
        ),
        (DiscardAt::ApartSeen, DiskEvent::Answer(apart)) => if apart {
            (Discarding { at: DiscardAt::VolumeSeen, apart: true, ..d }, DiskStep::DirectoryVolume)
        } else {
            do_discard_end(d, DiskOutcome::Refused(DiskRefusal::StillRegistered))
        },
        (DiscardAt::VolumeSeen, DiskEvent::Done) => (
            Discarding { at: DiscardAt::FilesSeen, ..d },
            DiskStep::OnlyDiskFiles,
        ),
        (DiscardAt::FilesSeen, DiskEvent::Answer(only)) => if only {
            (Discarding { at: DiscardAt::ReceiptSeen, ..d }, DiskStep::ReceiptExists)
        } else {
            do_discard_end(d, DiskOutcome::Refused(DiskRefusal::UnexpectedRetainedFiles))
        },
        (DiscardAt::ReceiptSeen, DiskEvent::Answer(receipt)) => {
            (Discarding { at: DiscardAt::ImageSeen, receipt, ..d }, DiskStep::ImageExists)
        },
        (DiscardAt::ImageSeen, DiskEvent::Answer(image)) => if image && !d.receipt {
            do_discard_end(d, DiskOutcome::Refused(DiskRefusal::NoRetainedReceipt))
        } else if d.receipt {
            (Discarding { at: DiscardAt::ReceiptVerified, image, ..d }, DiskStep::VerifyReceipt)
        } else {
            do_discard_image(Discarding { image, ..d })
        },
        (DiscardAt::ReceiptVerified, DiskEvent::Done) => {
            do_discard_image(Discarding { owned: true, ..d })
        },
        (DiscardAt::ImageVolume, DiskEvent::Done) => (
            Discarding { at: DiscardAt::ImageRemoved, ..d },
            DiskStep::RemoveImage,
        ),
        (DiscardAt::ImageRemoved, DiskEvent::Done) => (
            Discarding { at: DiscardAt::ImageSynced, ..d },
            DiskStep::SyncDirectory,
        ),
        (DiscardAt::ImageSynced, DiskEvent::Done) => do_discard_receipt(d),
        (DiscardAt::ReceiptRemoved, DiskEvent::Done) => (
            Discarding { at: DiscardAt::ReceiptSynced, ..d },
            DiskStep::SyncDirectory,
        ),
        (DiscardAt::ReceiptSynced, DiskEvent::Done) => do_discard_directory(d),
        (DiscardAt::DirectoryRemoved, DiskEvent::Done) => (
            Discarding { at: DiscardAt::Synced, ..d },
            DiskStep::SyncParent,
        ),
        (DiscardAt::Synced, DiskEvent::Done) => do_discard_end(d, DiskOutcome::Done),
        _ => do_discard_end(d, DiskOutcome::Failed),
    }
}

impl Discarding {
    /// A removal that has not begun.
    pub fn new() -> (r: Self)
        ensures
            r == (Discarding {
                at: DiscardAt::Start,
                receipt: false,
                image: false,
                apart: false,
                owned: false,
            }),
    {
        Discarding {
            at: DiscardAt::Start,
            receipt: false,
            image: false,
            apart: false,
            owned: false,
        }
    }

    /// What the removal of an old copy makes of an answer, and what it asks for
    /// next.
    pub fn next(self, e: DiskEvent) -> (r: (Discarding, DiskStep))
        ensures
            r == discard_after(self, e),
    {
        do_discard_after(self, e)
    }
}

/// What holds at each point of the removal of an old copy.
pub open spec fn discardable(d: Discarding) -> bool {
    match d.at {
        DiscardAt::VolumeSeen | DiscardAt::FilesSeen | DiscardAt::ReceiptSeen => d.apart,
        DiscardAt::ImageSeen => d.apart,
        DiscardAt::ReceiptVerified => d.apart && d.receipt,
        DiscardAt::ImageVolume | DiscardAt::ImageRemoved | DiscardAt::ImageSynced => d.apart
            && d.owned,
        DiscardAt::ReceiptRemoved | DiscardAt::ReceiptSynced | DiscardAt::DirectoryRemoved
        | DiscardAt::Synced => d.apart,
        _ => true,
    }
}

/// An old copy is deleted only where Lima uses another place, and its image only
/// with its receipt verified.
#[verifier::rlimit(40)]
pub proof fn active_disks_are_not_discarded(d: Discarding, e: DiskEvent)
    requires
        discardable(d),
    ensures
        discardable(discard_after(d, e).0),
        discard_after(d, e).1 is RemoveImage ==> d.apart && d.owned,
        discard_after(d, e).1 is RemoveDirectory ==> d.apart,
{
}

/// Where a staged copy stands.
#[derive(Clone, Copy, Debug, PartialEq, Eq, Structural)]
pub enum StageAt {
    Start,
    TargetSeen,
    TargetPrivate,
    TargetMatched,
    TargetVerified,
    PendingSeen,
    PendingPrivate,
    PendingVolume,
    PendingMatched,
    PendingFiles,
    PendingImage,
    PendingImageVolume,
    PendingCleared,
    PendingMade,
    ReceiptWritten,
    Copied,
    Verified,
    Synced,
    Renamed,
    ParentSynced,
    Over,
}

/// A staged copy under way.
#[derive(Clone, Copy, Debug, PartialEq, Eq, Structural)]
pub struct Staging {
    pub at: StageAt,
    /// Whether the copy was compared with its source.
    pub verified: bool,
}

/// The copy is over.
pub open spec fn stage_end(s: Staging, outcome: DiskOutcome) -> (Staging, DiskStep) {
    (Staging { at: StageAt::Over, ..s }, DiskStep::Finish(outcome))
}

/// The copy is over.
fn do_stage_end(s: Staging, outcome: DiskOutcome) -> (r: (Staging, DiskStep))
    ensures
        r == stage_end(s, outcome),
{
    (Staging { at: StageAt::Over, ..s }, DiskStep::Finish(outcome))
}

/// The image is copied into the pending directory.
pub open spec fn stage_fill(s: Staging) -> (Staging, DiskStep) {
    (Staging { at: StageAt::Copied, ..s }, DiskStep::SparseCopy)
}

/// The image is copied into the pending directory.
fn do_stage_fill(s: Staging) -> (r: (Staging, DiskStep))
    ensures
        r == stage_fill(s),
{
    (Staging { at: StageAt::Copied, ..s }, DiskStep::SparseCopy)
}

/// The pending directory: one that an interrupted copy left is taken over where it
/// is that copy's.
pub open spec fn pending_after(s: Staging, e: DiskEvent) -> (Staging, DiskStep) {
    match (s.at, e) {
        (StageAt::PendingPrivate, DiskEvent::Done) => (
            Staging { at: StageAt::PendingVolume, ..s },
            DiskStep::PendingVolume,
        ),
        (StageAt::PendingVolume, DiskEvent::Done) => {
            (Staging { at: StageAt::PendingMatched, ..s }, DiskStep::PendingReceiptMatches)
        },
        (StageAt::PendingMatched, DiskEvent::Answer(same)) => if same {
            (Staging { at: StageAt::PendingFiles, ..s }, DiskStep::OnlyPendingFiles)
        } else {
            stage_end(s, DiskOutcome::Refused(DiskRefusal::PendingTaken))
        },
        (StageAt::PendingFiles, DiskEvent::Answer(only)) => if only {
            (Staging { at: StageAt::PendingImage, ..s }, DiskStep::PendingImageExists)
        } else {
            stage_end(s, DiskOutcome::Refused(DiskRefusal::UnexpectedPendingFiles))
        },
        (StageAt::PendingImage, DiskEvent::Answer(exists)) => if exists {
            (Staging { at: StageAt::PendingImageVolume, ..s }, DiskStep::PendingImageVolume)
        } else {
            stage_fill(s)
        },
        (StageAt::PendingImageVolume, DiskEvent::Done) => {
            (Staging { at: StageAt::PendingCleared, ..s }, DiskStep::RemovePendingImage)
        },
        (StageAt::PendingCleared, DiskEvent::Done) => stage_fill(s),
        (StageAt::PendingMade, DiskEvent::Done) => (
            Staging { at: StageAt::ReceiptWritten, ..s },
            DiskStep::WritePendingReceipt,
        ),
        (StageAt::ReceiptWritten, DiskEvent::Done) => stage_fill(s),
        _ => stage_end(s, DiskOutcome::Failed),
    }
}

/// The pending directory: one that an interrupted copy left is taken over where it
/// is that copy's.
fn do_pending_after(s: Staging, e: DiskEvent) -> (r: (Staging, DiskStep))
    ensures
        r == pending_after(s, e),
{
    match (s.at, e) {
        (StageAt::PendingPrivate, DiskEvent::Done) => (
            Staging { at: StageAt::PendingVolume, ..s },
            DiskStep::PendingVolume,
        ),
        (StageAt::PendingVolume, DiskEvent::Done) => {
            (Staging { at: StageAt::PendingMatched, ..s }, DiskStep::PendingReceiptMatches)
        },
        (StageAt::PendingMatched, DiskEvent::Answer(same)) => if same {
            (Staging { at: StageAt::PendingFiles, ..s }, DiskStep::OnlyPendingFiles)
        } else {
            do_stage_end(s, DiskOutcome::Refused(DiskRefusal::PendingTaken))
        },
        (StageAt::PendingFiles, DiskEvent::Answer(only)) => if only {
            (Staging { at: StageAt::PendingImage, ..s }, DiskStep::PendingImageExists)
        } else {
            do_stage_end(s, DiskOutcome::Refused(DiskRefusal::UnexpectedPendingFiles))
        },
        (StageAt::PendingImage, DiskEvent::Answer(exists)) => if exists {
            (Staging { at: StageAt::PendingImageVolume, ..s }, DiskStep::PendingImageVolume)
        } else {
            do_stage_fill(s)
        },
        (StageAt::PendingImageVolume, DiskEvent::Done) => {
            (Staging { at: StageAt::PendingCleared, ..s }, DiskStep::RemovePendingImage)
        },
        (StageAt::PendingCleared, DiskEvent::Done) => do_stage_fill(s),
        (StageAt::PendingMade, DiskEvent::Done) => (
            Staging { at: StageAt::ReceiptWritten, ..s },
            DiskStep::WritePendingReceipt,
        ),
        (StageAt::ReceiptWritten, DiskEvent::Done) => do_stage_fill(s),
        _ => do_stage_end(s, DiskOutcome::Failed),
    }
}

/// What a staged copy makes of an answer.
pub open spec fn stage_after(s: Staging, e: DiskEvent) -> (Staging, DiskStep) {
    match (s.at, e) {
        (StageAt::Start, DiskEvent::Begin) => (
            Staging { at: StageAt::TargetSeen, ..s },
            DiskStep::TargetExists,
        ),
        (StageAt::TargetSeen, DiskEvent::Answer(exists)) => if exists {
            (Staging { at: StageAt::TargetPrivate, ..s }, DiskStep::PrivateTarget)
        } else {
            (Staging { at: StageAt::PendingSeen, ..s }, DiskStep::PendingCopyExists)
        },
        (StageAt::TargetPrivate, DiskEvent::Done) => {
            (Staging { at: StageAt::TargetMatched, ..s }, DiskStep::TargetReceiptMatches)
        },
        (StageAt::TargetMatched, DiskEvent::Answer(same)) => if same {
            (Staging { at: StageAt::TargetVerified, ..s }, DiskStep::VerifyCopy)
        } else {
            stage_end(s, DiskOutcome::Refused(DiskRefusal::DestinationTaken))
        },
        (StageAt::TargetVerified, DiskEvent::Done) => {
            stage_end(Staging { verified: true, ..s }, DiskOutcome::Done)
        },
        (StageAt::PendingSeen, DiskEvent::Answer(exists)) => if exists {
            (Staging { at: StageAt::PendingPrivate, ..s }, DiskStep::PrivatePending)
        } else {
            (Staging { at: StageAt::PendingMade, ..s }, DiskStep::MakePending)
        },
        (StageAt::Copied, DiskEvent::Done) => (
            Staging { at: StageAt::Verified, ..s },
            DiskStep::VerifyCopy,
        ),
        (StageAt::Verified, DiskEvent::Done) => (
            Staging { at: StageAt::Synced, verified: true, ..s },
            DiskStep::SyncPending,
        ),
        (StageAt::Synced, DiskEvent::Done) => (
            Staging { at: StageAt::Renamed, ..s },
            DiskStep::RenamePending,
        ),
        (StageAt::Renamed, DiskEvent::Done) => (
            Staging { at: StageAt::ParentSynced, ..s },
            DiskStep::SyncParent,
        ),
        (StageAt::ParentSynced, DiskEvent::Done) => stage_end(s, DiskOutcome::Done),
        _ => pending_after(s, e),
    }
}

/// What a staged copy makes of an answer.
fn do_stage_after(s: Staging, e: DiskEvent) -> (r: (Staging, DiskStep))
    ensures
        r == stage_after(s, e),
{
    match (s.at, e) {
        (StageAt::Start, DiskEvent::Begin) => (
            Staging { at: StageAt::TargetSeen, ..s },
            DiskStep::TargetExists,
        ),
        (StageAt::TargetSeen, DiskEvent::Answer(exists)) => if exists {
            (Staging { at: StageAt::TargetPrivate, ..s }, DiskStep::PrivateTarget)
        } else {
            (Staging { at: StageAt::PendingSeen, ..s }, DiskStep::PendingCopyExists)
        },
        (StageAt::TargetPrivate, DiskEvent::Done) => {
            (Staging { at: StageAt::TargetMatched, ..s }, DiskStep::TargetReceiptMatches)
        },
        (StageAt::TargetMatched, DiskEvent::Answer(same)) => if same {
            (Staging { at: StageAt::TargetVerified, ..s }, DiskStep::VerifyCopy)
        } else {
            do_stage_end(s, DiskOutcome::Refused(DiskRefusal::DestinationTaken))
        },
        (StageAt::TargetVerified, DiskEvent::Done) => {
            do_stage_end(Staging { verified: true, ..s }, DiskOutcome::Done)
        },
        (StageAt::PendingSeen, DiskEvent::Answer(exists)) => if exists {
            (Staging { at: StageAt::PendingPrivate, ..s }, DiskStep::PrivatePending)
        } else {
            (Staging { at: StageAt::PendingMade, ..s }, DiskStep::MakePending)
        },
        (StageAt::Copied, DiskEvent::Done) => (
            Staging { at: StageAt::Verified, ..s },
            DiskStep::VerifyCopy,
        ),
        (StageAt::Verified, DiskEvent::Done) => (
            Staging { at: StageAt::Synced, verified: true, ..s },
            DiskStep::SyncPending,
        ),
        (StageAt::Synced, DiskEvent::Done) => (
            Staging { at: StageAt::Renamed, ..s },
            DiskStep::RenamePending,
        ),
        (StageAt::Renamed, DiskEvent::Done) => (
            Staging { at: StageAt::ParentSynced, ..s },
            DiskStep::SyncParent,
        ),
        (StageAt::ParentSynced, DiskEvent::Done) => do_stage_end(s, DiskOutcome::Done),
        _ => do_pending_after(s, e),
    }
}

impl Staging {
    /// A copy that has not begun.
    pub fn new() -> (r: Self)
        ensures
            r == (Staging { at: StageAt::Start, verified: false }),
    {
        Staging { at: StageAt::Start, verified: false }
    }

    /// What a staged copy makes of an answer, and what it asks for next.
    pub fn next(self, e: DiskEvent) -> (r: (Staging, DiskStep))
        ensures
            r == stage_after(self, e),
    {
        do_stage_after(self, e)
    }
}

/// What holds at each point of a staged copy.
pub open spec fn stageable(s: Staging) -> bool {
    match s.at {
        StageAt::Synced | StageAt::Renamed | StageAt::ParentSynced => s.verified,
        _ => true,
    }
}

/// A copy gets its final name, and a staged copy ends well, only after it was
/// compared with its source.
pub proof fn copies_are_compared(s: Staging, e: DiskEvent)
    requires
        stageable(s),
    ensures
        stageable(stage_after(s, e).0),
        stage_after(s, e).1 is RenamePending ==> s.verified,
        stage_after(s, e).1 == DiskStep::Finish(DiskOutcome::Done) ==> stage_after(
            s,
            e,
        ).0.verified,
{
}

/// Whether a byte is in one of the ranges.
pub open spec fn covered(ranges: Seq<(u64, u64)>, b: int) -> bool {
    exists|i: int| 0 <= i < ranges.len() && (#[trigger] ranges[i]).0 <= b < ranges[i].1
}

/// Whether the ranges start in order.
pub open spec fn starts_sorted(ranges: Seq<(u64, u64)>) -> bool {
    forall|i: int, j: int| 0 <= i < j < ranges.len() ==> (#[trigger] ranges[i]).0 <= (
    #[trigger] ranges[j]).0
}

/// The end of the part of a file that holds data, by where its data and the hole
/// after it were found.
pub fn extent(data: i64, hole: i64, length: u64) -> (r: Result<(u64, u64), Failure>)
    requires
        data >= 0,
    ensures
        refusal(r) == unless(hole > data, "Cannot determine sparse disk extent"@),
        r matches Ok(range) ==> range.0 == data && range.1 == (if hole < length {
            hole as int
        } else {
            length as int
        }),
{
    if hole <= data {
        return Err(fail("Cannot determine sparse disk extent"));
    }
    let end = hole as u64;
    Ok(
        (
            data as u64,
            if end < length {
                end
            } else {
                length
            },
        ),
    )
}

/// The ranges in the order of their starts.
fn sorted(ranges: &[(u64, u64)]) -> (r: Vec<(u64, u64)>)
    ensures
        starts_sorted(r@),
        forall|b: int| covered(r@, b) == covered(ranges@, b),
{
    let mut r: Vec<(u64, u64)> = Vec::new();
    for n in 0..ranges.len()
        invariant
            starts_sorted(r@),
            forall|b: int| #[trigger] covered(r@, b) == covered(ranges@.take(n as int), b),
    {
        let item = ranges[n];
        let count = r.len();
        let mut k: usize = 0;
        while k < count && r[k].0 <= item.0
            invariant
                count == r@.len(),
                k <= count,
                forall|i: int| 0 <= i < k ==> (#[trigger] r@[i]).0 <= item.0,
            decreases count - k,
        {
            k = k + 1;
        }
        let ghost before = r@;
        r.insert(k, item);
        proof {
            let now = r@;
            let seen = ranges@.take(n as int);
            let more = ranges@.take(n + 1);
            assert(more =~= seen.push(item));
            assert(now =~= before.insert(k as int, item));
            assert forall|i: int, j: int| 0 <= i < j < now.len() implies (#[trigger] now[i]).0 <= (
            #[trigger] now[j]).0 by {
                if k < before.len() && j > k && i <= k {
                    assert(before[k as int].0 > item.0);
                    assert(before[j - 1].0 >= before[k as int].0);
                }
                if i > k {
                    assert(before[i - 1].0 <= before[j - 1].0);
                } else if i < k && j < k {
                    assert(before[i].0 <= before[j].0);
                } else if i < k && j > k {
                    assert(before[i].0 <= before[j - 1].0);
                }
            }
            assert forall|b: int| #[trigger] covered(now, b) == covered(more, b) by {
                assert(covered(before, b) == covered(seen, b));
                if covered(now, b) {
                    let i = choose|i: int|
                        0 <= i < now.len() && (#[trigger] now[i]).0 <= b < now[i].1;
                    if i == k {
                        assert(more[n as int] == item);
                    } else {
                        let at = if i < k {
                            i
                        } else {
                            i - 1
                        };
                        assert(before[at] == now[i]);
                        let s = choose|s: int|
                            0 <= s < seen.len() && (#[trigger] seen[s]).0 <= b < seen[s].1;
                        assert(more[s] == seen[s]);
                    }
                }
                if covered(more, b) {
                    let s = choose|s: int|
                        0 <= s < more.len() && (#[trigger] more[s]).0 <= b < more[s].1;
                    if s == n {
                        assert(now[k as int] == item);
                    } else {
                        assert(seen[s] == more[s]);
                        let i = choose|i: int|
                            0 <= i < before.len() && (#[trigger] before[i]).0 <= b < before[i].1;
                        if i < k {
                            assert(now[i] == before[i]);
                        } else {
                            assert(now[i + 1] == before[i]);
                        }
                    }
                }
            }
        }
    }
    assert(ranges@.take(ranges@.len() as int) =~= ranges@);
    r
}

/// Whether the ranges follow one another without overlap.
pub open spec fn disjoint(ranges: Seq<(u64, u64)>) -> bool {
    forall|i: int, j: int| 0 <= i < j < ranges.len() ==> (#[trigger] ranges[i]).1 <= (
    #[trigger] ranges[j]).0
}

/// What of two copies is compared: the union of their allocated parts, so that
/// unexpected data in a hole of the other is found too. Each byte of it is
/// compared once; what is unallocated in both is zero in both.
pub fn compared_ranges(first: &[(u64, u64)], second: &[(u64, u64)]) -> (r: Vec<(u64, u64)>)
    ensures
        disjoint(r@),
        forall|i: int| 0 <= i < r@.len() ==> (#[trigger] r@[i]).0 < r@[i].1,
        forall|b: int| covered(r@, b) == (covered(first@, b) || covered(second@, b)),
{
    let mut all: Vec<(u64, u64)> = Vec::new();
    for i in 0..first.len()
        invariant
            all@ =~= first@.take(i as int),
    {
        all.push(first[i]);
    }
    for i in 0..second.len()
        invariant
            all@ =~= first@ + second@.take(i as int),
    {
        all.push(second[i]);
    }
    assert(all@ =~= first@ + second@);
    assert forall|b: int| #[trigger] covered(all@, b) == (covered(first@, b) || covered(
        second@,
        b,
    )) by {
        if covered(all@, b) {
            let i = choose|i: int| 0 <= i < all@.len() && (#[trigger] all@[i]).0 <= b < all@[i].1;
            if i < first@.len() {
                assert(first@[i] == all@[i]);
            } else {
                assert(second@[i - first@.len()] == all@[i]);
            }
        }
        if covered(first@, b) {
            let i = choose|i: int|
                0 <= i < first@.len() && (#[trigger] first@[i]).0 <= b < first@[i].1;
            assert(all@[i] == first@[i]);
        }
        if covered(second@, b) {
            let i = choose|i: int|
                0 <= i < second@.len() && (#[trigger] second@[i]).0 <= b < second@[i].1;
            assert(all@[first@.len() + i] == second@[i]);
        }
    }
    let ranges = sorted(all.as_slice());
    let mut r: Vec<(u64, u64)> = Vec::new();
    let mut end: u64 = 0;
    for n in 0..ranges.len()
        invariant
            starts_sorted(ranges@),
            disjoint(r@),
            forall|i: int| 0 <= i < r@.len() ==> (#[trigger] r@[i]).0 < r@[i].1 && r@[i].1 <= end,
            forall|b: int| #[trigger] covered(r@, b) == covered(ranges@.take(n as int), b),
            forall|b: int|
                n < ranges@.len() && ranges@[n as int].0 <= b < end ==> #[trigger] covered(r@, b),
            forall|i: int| 0 <= i < n ==> (#[trigger] ranges@[i]).1 <= end,
    {
        let start = ranges[n].0;
        let stop = ranges[n].1;
        let from = if start > end {
            start
        } else {
            end
        };
        let ghost before = r@;
        let ghost last = end;
        if from < stop {
            r.push((from, stop));
        }
        if stop > end {
            end = stop;
        }
        proof {
            let now = r@;
            let seen = ranges@.take(n as int);
            let more = ranges@.take(n + 1);
            assert(more =~= seen.push(ranges@[n as int]));
            assert forall|b: int| #[trigger] covered(now, b) == covered(more, b) by {
                assert(covered(before, b) == covered(seen, b));
                if covered(now, b) {
                    let i = choose|i: int|
                        0 <= i < now.len() && (#[trigger] now[i]).0 <= b < now[i].1;
                    if i < before.len() {
                        assert(before[i] == now[i]);
                        let s = choose|s: int|
                            0 <= s < seen.len() && (#[trigger] seen[s]).0 <= b < seen[s].1;
                        assert(more[s] == seen[s]);
                    } else {
                        assert(more[n as int].0 <= b < more[n as int].1);
                    }
                }
                if covered(more, b) {
                    let s = choose|s: int|
                        0 <= s < more.len() && (#[trigger] more[s]).0 <= b < more[s].1;
                    if s < n {
                        assert(seen[s] == more[s]);
                        let i = choose|i: int|
                            0 <= i < before.len() && (#[trigger] before[i]).0 <= b < before[i].1;
                        assert(now[i] == before[i]);
                    } else if b < last {
                        assert(covered(before, b));
                        let i = choose|i: int|
                            0 <= i < before.len() && (#[trigger] before[i]).0 <= b < before[i].1;
                        assert(now[i] == before[i]);
                    } else {
                        assert(now[now.len() - 1].0 <= b < now[now.len() - 1].1);
                    }
                }
            }
            assert forall|b: int|
                n + 1 < ranges@.len() && ranges@[n + 1].0 <= b
                    < end implies #[trigger] covered(now, b) by {
                assert(ranges@[n as int].0 <= ranges@[n + 1].0);
                if b < last {
                    assert(covered(before, b));
                    let i = choose|i: int|
                        0 <= i < before.len() && (#[trigger] before[i]).0 <= b < before[i].1;
                    assert(now[i] == before[i]);
                } else {
                    assert(now[now.len() - 1].0 <= b < now[now.len() - 1].1);
                }
            }
        }
    }
    assert(ranges@.take(ranges@.len() as int) =~= ranges@);
    assert forall|b: int| covered(r@, b) == (covered(first@, b) || covered(second@, b)) by {
        assert(covered(r@, b) == covered(ranges@.take(ranges@.len() as int), b));
        assert(covered(ranges@, b) == covered(all@, b));
        assert(covered(all@, b) == (covered(first@, b) || covered(second@, b)));
    }
    r
}

/// What a look at a worker's file or directory finds.
#[derive(Clone, Copy, Debug, PartialEq, Eq, Structural)]
pub struct StorageFacts {
    /// It is of the wanted kind, and no link.
    pub expected: bool,
    pub single_link: bool,
    /// It belongs to this user and nobody else can use it.
    pub private: bool,
}

/// Whether a worker's directory is a private one.
pub fn check_private_directory(facts: StorageFacts) -> (r: Result<(), Failure>)
    ensures
        refusal(r) == first_of(
            unless(facts.expected, "Worker storage directory was replaced"@),
            unless(facts.private, "Worker storage must be private to its owner"@),
        ),
{
    if !facts.expected {
        return Err(fail("Worker storage directory was replaced"));
    }
    if !facts.private {
        return Err(fail("Worker storage must be private to its owner"));
    }
    Ok(())
}

/// Whether a worker's file is a private one of its own.
pub fn check_private_file(facts: StorageFacts) -> (r: Result<(), Failure>)
    ensures
        refusal(r) == first_of(
            unless(facts.expected, "Worker storage must be a regular file"@),
            first_of(
                unless(facts.single_link, "Worker storage cannot be a hard link"@),
                unless(facts.private, "Worker storage must be private to its owner"@),
            ),
        ),
{
    if !facts.expected {
        return Err(fail("Worker storage must be a regular file"));
    }
    if !facts.single_link {
        return Err(fail("Worker storage cannot be a hard link"));
    }
    if !facts.private {
        return Err(fail("Worker storage must be private to its owner"));
    }
    Ok(())
}

/// Whether a registration leads to the disk's directory, and that is there.
pub fn check_link(target: Option<&str>, expected: &str, present: bool) -> (r: Result<(), Failure>)
    ensures
        refusal(r) == (match target {
            None => Some("Worker disk registration is unavailable"@),
            Some(t) => first_of(
                unless(
                    paths::same_path(t@, expected@),
                    "Worker disk points to an unexpected storage location"@,
                ),
                unless(
                    present,
                    "The original storage volume is unavailable; storage will not be redirected"@,
                ),
            ),
        }),
{
    match target {
        None => Err(fail("Worker disk registration is unavailable")),
        Some(t) => {
            if !paths::path_eq(t, expected) {
                return Err(fail("Worker disk points to an unexpected storage location"));
            }
            if !present {
                return Err(
                    fail(
                        "The original storage volume is unavailable; storage will not be redirected",
                    ),
                );
            }
            Ok(())
        },
    }
}

/// Whether an open file stands on its original volume.
pub fn check_disk_volume(found: &str, expected: &str) -> (r: Result<(), Failure>)
    ensures
        refusal(r) == unless(
            found@ == expected@,
            "The original storage volume is unavailable or changed; storage will not be redirected"@,
        ),
{
    if text::same(found, expected) {
        Ok(())
    } else {
        Err(
            fail(
                "The original storage volume is unavailable or changed; storage will not be redirected",
            ),
        )
    }
}

/// The size of a disk, as the runtime takes it.
pub open spec fn size_option(gib: u64) -> Seq<char> {
    "--size="@ + text::decimal(gib as nat) + "GiB"@
}

fn size_text(gib: u64) -> (r: String)
    ensures
        r@ == size_option(gib),
{
    let number = text::decimal_text(gib);
    text::join3("--size=", number.as_str(), "GiB")
}

impl LimaStorage {
    /// How the runtime is asked whether the worker is stopped.
    pub fn state_args() -> (r: Vec<String>)
        ensures
            contents(r@) == seq!["list"@, "--json"@, "--filter=.name == \"worker\""@],
    {
        words3("list", "--json", "--filter=.name == \"worker\"")
    }

    /// How the runtime is asked about a disk.
    pub fn disk_args(location: &Location) -> (r: Vec<String>)
        ensures
            contents(r@) == seq!["disk"@, "list"@, location@.id, "--json"@],
    {
        words4("disk", "list", location.id.as_str(), "--json")
    }

    /// How the runtime makes a disk.
    pub fn create_args(location: &Location) -> (r: Vec<String>)
        ensures
            contents(r@) == seq![
                "disk"@,
                "create"@,
                location@.id,
                size_option(location@.allocation_gib),
                "--format=raw"@,
            ],
    {
        let size = size_text(location.allocation_gib);
        let mut r = words4("disk", "create", location.id.as_str(), size.as_str());
        let ghost first = contents(r@);
        r.push("--format=raw".to_owned());
        assert(contents(r@) =~= first.push("--format=raw"@));
        assert(first.push("--format=raw"@) =~= seq![
            "disk"@,
            "create"@,
            location@.id,
            size_option(location@.allocation_gib),
            "--format=raw"@,
        ]);
        r
    }

    /// How the runtime grows a disk to its new size.
    pub fn resize_args(old: &Location, new: &Location) -> (r: Vec<String>)
        ensures
            contents(r@) == seq![
                "disk"@,
                "resize"@,
                old@.id,
                size_option(new@.allocation_gib),
            ],
    {
        let size = size_text(new.allocation_gib);
        words4("disk", "resize", old.id.as_str(), size.as_str())
    }

    /// How the runtime forgets a disk.
    pub fn delete_args(location: &Location) -> (r: Vec<String>)
        ensures
            contents(r@) == seq!["disk"@, "delete"@, location@.id],
    {
        words3("disk", "delete", location.id.as_str())
    }
}

} // verus!
