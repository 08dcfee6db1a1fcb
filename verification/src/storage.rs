//! Host storage discovery and preflight. No VM images are created by this module.
use crate::failure::{ensure, fail, refusal, unless, Failure};
use crate::host_paths::{
    self, host_absolute, host_climbs, host_depth, host_join, host_name, host_parent, host_within,
};
use crate::identity;
use crate::lima::VmProvider;
use crate::lima_storage::DiskReceipt;
use crate::storage_layout::{Layout, LayoutView};
use crate::storage_lifecycle::{Backup, BackupView, Review, ReviewView};
use crate::text;
use crate::values::{
    content, contents, copy_list, copy_option, lists_alike, options_alike, Plain,
};
use vstd::prelude::*;

pub use crate::storage_plan::{plan, plan_change, Claim, Planner, Probe, Sighting};

verus! {

pub const GIB: u64 = 1_073_741_824;

/// The most a single disk may hold, in GiB.
pub const MAXIMUM_GIB: u64 = 1_048_576;

/// Free space that every storage pool keeps for its host, in GiB.
pub const HOST_RESERVE_GIB: u64 = 10;

/// A mounted host volume.
#[derive(Debug)]
pub struct Volume {
    pub id: String,
    pub capacity_pool: String,
    pub label: String,
    pub mount_point: String,
    pub filesystem: String,
    pub available_gib: u64,
    pub configured_gib: u64,
    pub eligible: bool,
    pub reason: String,
}

/// The content of a `Volume`.
#[verifier::ext_equal]
pub struct VolumeView {
    pub id: Seq<char>,
    pub capacity_pool: Seq<char>,
    pub label: Seq<char>,
    pub mount_point: Seq<char>,
    pub filesystem: Seq<char>,
    pub available_gib: u64,
    pub configured_gib: u64,
    pub eligible: bool,
    pub reason: Seq<char>,
}

impl View for Volume {
    type V = VolumeView;

    open spec fn view(&self) -> VolumeView {
        VolumeView {
            id: self.id@,
            capacity_pool: self.capacity_pool@,
            label: self.label@,
            mount_point: self.mount_point@,
            filesystem: self.filesystem@,
            available_gib: self.available_gib,
            configured_gib: self.configured_gib,
            eligible: self.eligible,
            reason: self.reason@,
        }
    }
}

impl Plain for Volume {
    fn duplicate(&self) -> (r: Self) {
        Volume {
            id: self.id.clone(),
            capacity_pool: self.capacity_pool.clone(),
            label: self.label.clone(),
            mount_point: self.mount_point.clone(),
            filesystem: self.filesystem.clone(),
            available_gib: self.available_gib,
            configured_gib: self.configured_gib,
            eligible: self.eligible,
            reason: self.reason.clone(),
        }
    }

    fn alike(&self, other: &Self) -> (r: bool) {
        self.id.alike(&other.id)
            && self.capacity_pool.alike(&other.capacity_pool)
            && self.label.alike(&other.label)
            && self.mount_point.alike(&other.mount_point)
            && self.filesystem.alike(&other.filesystem)
            && self.available_gib == other.available_gib
            && self.configured_gib == other.configured_gib
            && self.eligible == other.eligible
            && self.reason.alike(&other.reason)
    }
}

impl Clone for Volume {
    fn clone(&self) -> (r: Self)
        ensures
            r@ == self@,
    {
        self.duplicate()
    }
}

/// A disk that the owner asks for: an existing one by its identifier, or a new
/// one.
#[derive(Debug)]
pub struct Selection {
    pub id: Option<String>,
    pub directory: String,
    pub allocation_gib: u64,
}

/// The content of a selection.
pub struct SelectionView {
    pub id: Option<Seq<char>>,
    pub directory: Seq<char>,
    pub allocation_gib: u64,
}

impl View for Selection {
    type V = SelectionView;

    open spec fn view(&self) -> SelectionView {
        SelectionView {
            id: text::option_view(self.id),
            directory: self.directory@,
            allocation_gib: self.allocation_gib,
        }
    }
}

/// The contents of a list of selections.
pub open spec fn selection_views(s: Seq<Selection>) -> Seq<SelectionView> {
    contents(s)
}

/// A worker disk and where it stands.
#[derive(Debug)]
pub struct Location {
    pub id: String,
    pub volume_id: String,
    pub directory: String,
    pub allocation_gib: u64,
}

/// The content of a location.
#[verifier::ext_equal]
pub struct LocationView {
    pub id: Seq<char>,
    pub volume_id: Seq<char>,
    pub directory: Seq<char>,
    pub allocation_gib: u64,
}

impl View for Location {
    type V = LocationView;

    open spec fn view(&self) -> LocationView {
        LocationView {
            id: self.id@,
            volume_id: self.volume_id@,
            directory: self.directory@,
            allocation_gib: self.allocation_gib,
        }
    }
}

impl Clone for Location {
    fn clone(&self) -> (r: Self)
        ensures
            r == *self,
    {
        Location {
            id: self.id.clone(),
            volume_id: self.volume_id.clone(),
            directory: self.directory.clone(),
            allocation_gib: self.allocation_gib,
        }
    }
}

impl Plain for Location {
    fn duplicate(&self) -> (r: Self) {
        self.clone()
    }

    fn alike(&self, other: &Self) -> (r: bool) {
        same_location(self, other)
    }
}

/// The contents of a list of locations.
pub open spec fn location_views(s: Seq<Location>) -> Seq<LocationView> {
    contents(s)
}

/// A copy of a list of locations.
pub fn copy_locations(s: &[Location]) -> (r: Vec<Location>)
    ensures
        r@ == s@,
{
    let mut r: Vec<Location> = Vec::new();
    for i in 0..s.len()
        invariant
            r@ == s@.take(i as int),
    {
        r.push(s[i].clone());
    }
    assert(s@.take(s@.len() as int) == s@);
    r
}

/// Whether two locations are equal in every field.
pub fn same_location(a: &Location, b: &Location) -> (r: bool)
    ensures
        r == (a@ == b@),
{
    text::same(a.id.as_str(), b.id.as_str()) && text::same(
        a.volume_id.as_str(),
        b.volume_id.as_str(),
    ) && text::same(a.directory.as_str(), b.directory.as_str()) && a.allocation_gib
        == b.allocation_gib
}

/// Whether two lists of locations are equal.
pub fn same_locations(a: &[Location], b: &[Location]) -> (r: bool)
    ensures
        r == (location_views(a@) == location_views(b@)),
{
    if a.len() != b.len() {
        assert(location_views(a@).len() != location_views(b@).len());
        return false;
    }
    for i in 0..a.len()
        invariant
            a@.len() == b@.len(),
            forall|j: int| 0 <= j < i ==> (#[trigger] a@[j])@ == b@[j]@,
    {
        if !same_location(&a[i], &b[i]) {
            assert(location_views(a@)[i as int] != location_views(b@)[i as int]);
            return false;
        }
    }
    assert(location_views(a@) == location_views(b@));
    true
}

/// Whether the list holds an equal location.
pub fn holds_location(s: &[Location], l: &Location) -> (r: bool)
    ensures
        r == location_views(s@).contains(l@),
{
    for i in 0..s.len()
        invariant
            forall|j: int| 0 <= j < i ==> (#[trigger] s@[j])@ != l@,
    {
        if same_location(&s[i], l) {
            assert(location_views(s@)[i as int] == l@);
            return true;
        }
    }
    assert forall|j: int| 0 <= j < location_views(s@).len() implies location_views(s@)[j]
        != l@ by {
        assert(s@[j]@ != l@);
    }
    false
}

/// A location and whether its original volume is there.
#[derive(Debug)]
pub struct LocationStatus {
    pub location: Location,
    pub available: bool,
    pub reason: String,
}

/// The content of a `LocationStatus`.
#[verifier::ext_equal]
pub struct LocationStatusView {
    pub location: LocationView,
    pub available: bool,
    pub reason: Seq<char>,
}

impl View for LocationStatus {
    type V = LocationStatusView;

    open spec fn view(&self) -> LocationStatusView {
        LocationStatusView {
            location: self.location@,
            available: self.available,
            reason: self.reason@,
        }
    }
}

impl Plain for LocationStatus {
    fn duplicate(&self) -> (r: Self) {
        LocationStatus {
            location: self.location.duplicate(),
            available: self.available,
            reason: self.reason.clone(),
        }
    }

    fn alike(&self, other: &Self) -> (r: bool) {
        self.location.alike(&other.location)
            && self.available == other.available
            && self.reason.alike(&other.reason)
    }
}

impl Clone for LocationStatus {
    fn clone(&self) -> (r: Self)
        ensures
            r@ == self@,
    {
        self.duplicate()
    }
}

/// The disk that holds the VM's operating system.
#[derive(Debug)]
pub struct SystemDisk {
    pub directory: String,
    pub allocation_gib: u64,
}

/// The content of a `SystemDisk`.
#[verifier::ext_equal]
pub struct SystemDiskView {
    pub directory: Seq<char>,
    pub allocation_gib: u64,
}

impl View for SystemDisk {
    type V = SystemDiskView;

    open spec fn view(&self) -> SystemDiskView {
        SystemDiskView {
            directory: self.directory@,
            allocation_gib: self.allocation_gib,
        }
    }
}

impl Plain for SystemDisk {
    fn duplicate(&self) -> (r: Self) {
        SystemDisk {
            directory: self.directory.clone(),
            allocation_gib: self.allocation_gib,
        }
    }

    fn alike(&self, other: &Self) -> (r: bool) {
        self.directory.alike(&other.directory)
            && self.allocation_gib == other.allocation_gib
    }
}

impl Clone for SystemDisk {
    fn clone(&self) -> (r: Self)
        ensures
            r@ == self@,
    {
        self.duplicate()
    }
}

/// A reviewed change of the worker's storage.
#[derive(Debug)]
pub struct ChangePlan {
    pub maintenance: Option<Review>,
    pub layout: Option<Layout>,
    pub revision: u64,
    pub locations: Vec<Location>,
    pub total_gib: u64,
    pub requires_restart: bool,
}

/// The content of a `ChangePlan`.
#[verifier::ext_equal]
pub struct ChangePlanView {
    pub maintenance: Option<ReviewView>,
    pub layout: Option<LayoutView>,
    pub revision: u64,
    pub locations: Seq<LocationView>,
    pub total_gib: u64,
    pub requires_restart: bool,
}

impl View for ChangePlan {
    type V = ChangePlanView;

    open spec fn view(&self) -> ChangePlanView {
        ChangePlanView {
            maintenance: content(self.maintenance),
            layout: content(self.layout),
            revision: self.revision,
            locations: contents(self.locations@),
            total_gib: self.total_gib,
            requires_restart: self.requires_restart,
        }
    }
}

impl Plain for ChangePlan {
    fn duplicate(&self) -> (r: Self) {
        ChangePlan {
            maintenance: copy_option(&self.maintenance),
            layout: copy_option(&self.layout),
            revision: self.revision,
            locations: copy_list(self.locations.as_slice()),
            total_gib: self.total_gib,
            requires_restart: self.requires_restart,
        }
    }

    fn alike(&self, other: &Self) -> (r: bool) {
        options_alike(&self.maintenance, &other.maintenance)
            && options_alike(&self.layout, &other.layout)
            && self.revision == other.revision
            && lists_alike(self.locations.as_slice(), other.locations.as_slice())
            && self.total_gib == other.total_gib
            && self.requires_restart == other.requires_restart
    }
}

impl Clone for ChangePlan {
    fn clone(&self) -> (r: Self)
        ensures
            r@ == self@,
    {
        self.duplicate()
    }
}

/// What a storage change under way shows the owner.
#[derive(Debug)]
pub struct OperationStatus {
    pub phase: String,
    pub message: String,
}

/// The content of a `OperationStatus`.
#[verifier::ext_equal]
pub struct OperationStatusView {
    pub phase: Seq<char>,
    pub message: Seq<char>,
}

impl View for OperationStatus {
    type V = OperationStatusView;

    open spec fn view(&self) -> OperationStatusView {
        OperationStatusView {
            phase: self.phase@,
            message: self.message@,
        }
    }
}

impl Plain for OperationStatus {
    fn duplicate(&self) -> (r: Self) {
        OperationStatus {
            phase: self.phase.clone(),
            message: self.message.clone(),
        }
    }

    fn alike(&self, other: &Self) -> (r: bool) {
        self.phase.alike(&other.phase)
            && self.message.alike(&other.message)
    }
}

impl Clone for OperationStatus {
    fn clone(&self) -> (r: Self)
        ensures
            r@ == self@,
    {
        self.duplicate()
    }
}

/// A storage change under way.
#[derive(Debug)]
pub struct Operation {
    pub layout: Option<Layout>,
    pub previous: Vec<Location>,
    pub target: Vec<Location>,
    pub generation: u64,
    pub phase: String,
    pub paused: bool,
}

/// The content of a `Operation`.
#[verifier::ext_equal]
pub struct OperationView {
    pub layout: Option<LayoutView>,
    pub previous: Seq<LocationView>,
    pub target: Seq<LocationView>,
    pub generation: u64,
    pub phase: Seq<char>,
    pub paused: bool,
}

impl View for Operation {
    type V = OperationView;

    open spec fn view(&self) -> OperationView {
        OperationView {
            layout: content(self.layout),
            previous: contents(self.previous@),
            target: contents(self.target@),
            generation: self.generation,
            phase: self.phase@,
            paused: self.paused,
        }
    }
}

impl Plain for Operation {
    fn duplicate(&self) -> (r: Self) {
        Operation {
            layout: copy_option(&self.layout),
            previous: copy_list(self.previous.as_slice()),
            target: copy_list(self.target.as_slice()),
            generation: self.generation,
            phase: self.phase.clone(),
            paused: self.paused,
        }
    }

    fn alike(&self, other: &Self) -> (r: bool) {
        options_alike(&self.layout, &other.layout)
            && lists_alike(self.previous.as_slice(), other.previous.as_slice())
            && lists_alike(self.target.as_slice(), other.target.as_slice())
            && self.generation == other.generation
            && self.phase.alike(&other.phase)
            && self.paused == other.paused
    }
}

impl Operation {
    /// The operation, paused or resumed.
    pub fn with_pause(&self, paused: bool) -> (r: Operation)
        ensures
            r@ == (OperationView { paused, ..self@ }),
    {
        let mut r = self.duplicate();
        r.paused = paused;
        r
    }
}

impl Clone for Operation {
    fn clone(&self) -> (r: Self)
        ensures
            r@ == self@,
    {
        self.duplicate()
    }
}

/// The selections of a change that is not yet applied.
#[derive(Debug)]
pub struct PendingUpdate {
    pub total_gib: u64,
    pub locations: Vec<Location>,
    pub layout: Layout,
}

/// The content of a `PendingUpdate`.
#[verifier::ext_equal]
pub struct PendingUpdateView {
    pub total_gib: u64,
    pub locations: Seq<LocationView>,
    pub layout: LayoutView,
}

impl View for PendingUpdate {
    type V = PendingUpdateView;

    open spec fn view(&self) -> PendingUpdateView {
        PendingUpdateView {
            total_gib: self.total_gib,
            locations: contents(self.locations@),
            layout: self.layout@,
        }
    }
}

impl Plain for PendingUpdate {
    fn duplicate(&self) -> (r: Self) {
        PendingUpdate {
            total_gib: self.total_gib,
            locations: copy_list(self.locations.as_slice()),
            layout: self.layout.duplicate(),
        }
    }

    fn alike(&self, other: &Self) -> (r: bool) {
        self.total_gib == other.total_gib
            && lists_alike(self.locations.as_slice(), other.locations.as_slice())
            && self.layout.alike(&other.layout)
    }
}

impl Clone for PendingUpdate {
    fn clone(&self) -> (r: Self)
        ensures
            r@ == self@,
    {
        self.duplicate()
    }
}

/// What the owner sees of the worker's storage.
#[derive(Debug)]
pub struct Inventory {
    pub active_gib: u64,
    pub configured_gib: u64,
    pub recovery_enabled: bool,
    pub disabled: bool,
    pub excluded: Vec<LocationStatus>,
    pub backup_cleanup: Vec<Backup>,
    pub recovery_backup: Option<Backup>,
    pub default_directory: Option<String>,
    pub supported: bool,
    pub reason: String,
    pub volumes: Vec<Volume>,
    pub locations: Vec<LocationStatus>,
    pub revision: u64,
    pub operation: Option<OperationStatus>,
    pub retained_copies: Vec<LocationStatus>,
    pub retained_runtime_directories: Vec<String>,
    pub system_disk: Option<SystemDisk>,
    pub layout: Option<Layout>,
    pub pending_update: Option<PendingUpdate>,
}

/// The content of a `Inventory`.
#[verifier::ext_equal]
pub struct InventoryView {
    pub active_gib: u64,
    pub configured_gib: u64,
    pub recovery_enabled: bool,
    pub disabled: bool,
    pub excluded: Seq<LocationStatusView>,
    pub backup_cleanup: Seq<BackupView>,
    pub recovery_backup: Option<BackupView>,
    pub default_directory: Option<Seq<char>>,
    pub supported: bool,
    pub reason: Seq<char>,
    pub volumes: Seq<VolumeView>,
    pub locations: Seq<LocationStatusView>,
    pub revision: u64,
    pub operation: Option<OperationStatusView>,
    pub retained_copies: Seq<LocationStatusView>,
    pub retained_runtime_directories: Seq<Seq<char>>,
    pub system_disk: Option<SystemDiskView>,
    pub layout: Option<LayoutView>,
    pub pending_update: Option<PendingUpdateView>,
}

impl View for Inventory {
    type V = InventoryView;

    open spec fn view(&self) -> InventoryView {
        InventoryView {
            active_gib: self.active_gib,
            configured_gib: self.configured_gib,
            recovery_enabled: self.recovery_enabled,
            disabled: self.disabled,
            excluded: contents(self.excluded@),
            backup_cleanup: contents(self.backup_cleanup@),
            recovery_backup: content(self.recovery_backup),
            default_directory: content(self.default_directory),
            supported: self.supported,
            reason: self.reason@,
            volumes: contents(self.volumes@),
            locations: contents(self.locations@),
            revision: self.revision,
            operation: content(self.operation),
            retained_copies: contents(self.retained_copies@),
            retained_runtime_directories: contents(self.retained_runtime_directories@),
            system_disk: content(self.system_disk),
            layout: content(self.layout),
            pending_update: content(self.pending_update),
        }
    }
}

impl Plain for Inventory {
    fn duplicate(&self) -> (r: Self) {
        Inventory {
            active_gib: self.active_gib,
            configured_gib: self.configured_gib,
            recovery_enabled: self.recovery_enabled,
            disabled: self.disabled,
            excluded: copy_list(self.excluded.as_slice()),
            backup_cleanup: copy_list(self.backup_cleanup.as_slice()),
            recovery_backup: copy_option(&self.recovery_backup),
            default_directory: copy_option(&self.default_directory),
            supported: self.supported,
            reason: self.reason.clone(),
            volumes: copy_list(self.volumes.as_slice()),
            locations: copy_list(self.locations.as_slice()),
            revision: self.revision,
            operation: copy_option(&self.operation),
            retained_copies: copy_list(self.retained_copies.as_slice()),
            retained_runtime_directories: copy_list(self.retained_runtime_directories.as_slice()),
            system_disk: copy_option(&self.system_disk),
            layout: copy_option(&self.layout),
            pending_update: copy_option(&self.pending_update),
        }
    }

    fn alike(&self, other: &Self) -> (r: bool) {
        self.active_gib == other.active_gib
            && self.configured_gib == other.configured_gib
            && self.recovery_enabled == other.recovery_enabled
            && self.disabled == other.disabled
            && lists_alike(self.excluded.as_slice(), other.excluded.as_slice())
            && lists_alike(self.backup_cleanup.as_slice(), other.backup_cleanup.as_slice())
            && options_alike(&self.recovery_backup, &other.recovery_backup)
            && options_alike(&self.default_directory, &other.default_directory)
            && self.supported == other.supported
            && self.reason.alike(&other.reason)
            && lists_alike(self.volumes.as_slice(), other.volumes.as_slice())
            && lists_alike(self.locations.as_slice(), other.locations.as_slice())
            && self.revision == other.revision
            && options_alike(&self.operation, &other.operation)
            && lists_alike(self.retained_copies.as_slice(), other.retained_copies.as_slice())
            && lists_alike(self.retained_runtime_directories.as_slice(), other.retained_runtime_directories.as_slice())
            && options_alike(&self.system_disk, &other.system_disk)
            && options_alike(&self.layout, &other.layout)
            && options_alike(&self.pending_update, &other.pending_update)
    }
}

impl Clone for Inventory {
    fn clone(&self) -> (r: Self)
        ensures
            r@ == self@,
    {
        self.duplicate()
    }
}

/// Two locations in the same directory of the same volume.
pub open spec fn same_place(a: LocationView, b: LocationView) -> bool {
    a.directory == b.directory && a.volume_id == b.volume_id
}

/// The place of the first location with the identifier; the number of
/// locations where there is none.
pub open spec fn rank_from(s: Seq<LocationView>, id: Seq<char>, i: int) -> int
    decreases s.len() - i,
{
    if i < 0 || i >= s.len() {
        s.len() as int
    } else if s[i].id == id {
        i
    } else {
        rank_from(s, id, i + 1)
    }
}

pub open spec fn rank(s: Seq<LocationView>, id: Seq<char>) -> int {
    rank_from(s, id, 0)
}

/// What a search by identifier finds.
pub proof fn lemma_rank(s: Seq<LocationView>, id: Seq<char>, i: int)
    requires
        0 <= i <= s.len(),
    ensures
        i <= rank_from(s, id, i) <= s.len(),
        rank_from(s, id, i) < s.len() ==> s[rank_from(s, id, i)].id == id,
        forall|j: int| i <= j < rank_from(s, id, i) ==> (#[trigger] s[j]).id != id,
    decreases s.len() - i,
{
    if i < s.len() && s[i].id != id {
        lemma_rank(s, id, i + 1);
    }
}

/// The place of the first location with the identifier; the number of
/// locations where there is none.
pub fn position(s: &[Location], id: &str) -> (r: usize)
    ensures
        r == rank(location_views(s@), id@),
        r <= s@.len(),
{
    let ghost v = location_views(s@);
    let mut i: usize = 0;
    while i < s.len()
        invariant
            i <= s@.len(),
            v == location_views(s@),
            rank(v, id@) == rank_from(v, id@, i as int),
        decreases s@.len() - i,
    {
        assert(v[i as int] == s@[i as int]@);
        if text::same(s[i].id.as_str(), id) {
            return i;
        }
        i = i + 1;
    }
    i
}

/// Whether a location has the identifier.
pub open spec fn has_id(s: Seq<LocationView>, id: Seq<char>) -> bool {
    exists|i: int| 0 <= i < s.len() && (#[trigger] s[i]).id == id
}

/// Whether a location has the identifier.
pub fn knows_id(s: &[Location], id: &str) -> (r: bool)
    ensures
        r == has_id(location_views(s@), id@),
{
    let i = position(s, id);
    proof {
        lemma_rank(location_views(s@), id@, 0);
    }
    i < s.len()
}

/// The combined allocation in GiB.
pub open spec fn total_gib(s: Seq<LocationView>) -> nat
    decreases s.len(),
{
    if s.len() == 0 {
        0
    } else {
        total_gib(s.drop_last()) + s.last().allocation_gib as nat
    }
}

/// The allocations of the first locations never exceed those of all.
pub proof fn lemma_total_grows(s: Seq<LocationView>, n: int)
    requires
        0 <= n <= s.len(),
    ensures
        total_gib(s.take(n)) <= total_gib(s),
    decreases s.len(),
{
    if n == s.len() {
        assert(s.take(n) == s);
    } else {
        assert(s.drop_last().take(n) == s.take(n));
        lemma_total_grows(s.drop_last(), n);
    }
}

/// The combined allocation, or nothing where it does not fit.
pub fn checked_total(s: &[Location]) -> (r: Option<u64>)
    ensures
        match r {
            Some(n) => n == total_gib(location_views(s@)),
            None => total_gib(location_views(s@)) > u64::MAX,
        },
{
    let ghost v = location_views(s@);
    let mut total: u64 = 0;
    assert(v.take(0) == Seq::<LocationView>::empty());
    for i in 0..s.len()
        invariant
            v == location_views(s@),
            total == total_gib(v.take(i as int)),
    {
        assert(v.take(i + 1).drop_last() == v.take(i as int));
        assert(v[i as int] == s@[i as int]@);
        proof {
            lemma_total_grows(v, i + 1);
        }
        match total.checked_add(s[i].allocation_gib) {
            Some(next) => {
                total = next;
            },
            None => {
                return None;
            },
        }
    }
    assert(v.take(s@.len() as int) == v);
    Some(total)
}

/// The combined allocation of disks whose sizes are known to fit.
pub fn sum_gib(s: &[Location]) -> (r: u64)
    requires
        total_gib(location_views(s@)) <= u64::MAX,
    ensures
        r == total_gib(location_views(s@)),
{
    match checked_total(s) {
        Some(n) => n,
        None => 0,
    }
}

pub open spec fn unsupported_text(provider: VmProvider) -> Seq<char> {
    match provider {
        VmProvider::Lima => "Selectable storage requires the packaged Lima runtime on a supported Mac or Linux host."@,
        VmProvider::Multipass => "Multipass does not support selectable locations or additional disks for an individual worker. Its daemon manages the disk location and does not report that path through its supported API."@,
    }
}

pub fn unsupported_reason(provider: VmProvider) -> (r: &'static str)
    ensures
        r@ == unsupported_text(provider),
{
    match provider {
        VmProvider::Lima => "Selectable storage requires the packaged Lima runtime on a supported Mac or Linux host.",
        VmProvider::Multipass => "Multipass does not support selectable locations or additional disks for an individual worker. Its daemon manages the disk location and does not report that path through its supported API.",
    }
}

/// Whether disks can be placed on selected locations.
pub open spec fn places_disks(provider: VmProvider, platform: Seq<char>) -> bool {
    provider == VmProvider::Lima && (platform == "macos"@ || platform == "linux"@)
}

/// Support is not inferred from a filesystem or a writable directory: the
/// public attachment API must support the requested placement before any apply
/// operation.
pub fn require_location_support(provider: VmProvider, platform: &str) -> (r: Result<(), Failure>)
    ensures
        refusal(r) == unless(places_disks(provider, platform@), unsupported_text(provider)),
{
    let supported = provider == VmProvider::Lima && (text::same(platform, "macos") || text::same(
        platform,
        "linux",
    ));
    ensure(supported, unsupported_reason(provider))
}

/// What a look at a storage directory finds.
#[derive(Debug)]
pub enum DirectorySight {
    /// Something stands there; `canonical` is missing where it does not resolve.
    Present { canonical: Option<String>, directory: bool },
    /// Nothing stands there; its parent is given where it resolves.
    Missing { parent: Option<String>, directory: bool },
    /// The place cannot be inspected.
    Unreadable,
}

/// Why a directory cannot hold storage, or where it resolves to.
pub open spec fn resolved_directory(
    platform: Seq<char>,
    path: Seq<char>,
    seen: DirectorySight,
) -> Result<Seq<char>, Seq<char>> {
    if !host_absolute(platform, path) {
        Err("Choose an absolute storage directory"@)
    } else if host_climbs(platform, path) {
        Err("Storage directories cannot contain parent traversal"@)
    } else {
        match seen {
            DirectorySight::Present { canonical, directory } => match canonical {
                None => Err("Storage directory is unavailable"@),
                Some(target) => if directory {
                    Ok(target@)
                } else {
                    Err("Storage location must be a directory"@)
                },
            },
            DirectorySight::Missing { parent, directory } => match (
                host_parent(platform, path),
                parent,
                host_name(platform, path),
            ) {
                (None, _, _) => Err("Choose a storage directory"@),
                (Some(_), None, _) => Err("Storage volume or parent directory is unavailable"@),
                (Some(_), Some(target), name) => if !directory {
                    Err("Storage parent must be a directory"@)
                } else {
                    match name {
                        Some(last) => Ok(host_join(platform, target@, last)),
                        None => Err("Choose a storage directory"@),
                    }
                },
            },
            DirectorySight::Unreadable => Err("Cannot inspect storage directory"@),
        }
    }
}

/// Resolve a storage directory from what was seen of it. Only the final
/// directory may be new: a disappeared mount point is never recreated beneath
/// an ancestor on the system disk.
pub fn canonical_directory(platform: &str, path: &str, seen: &DirectorySight) -> (r: Result<
    String,
    Failure,
>)
    ensures
        match resolved_directory(platform@, path@, *seen) {
            Ok(target) => r matches Ok(t) && t@ == target,
            Err(message) => refusal(r) == Some(message),
        },
{
    if !host_paths::absolute(platform, path) {
        return Err(fail("Choose an absolute storage directory"));
    }
    if host_paths::climbs(platform, path) {
        return Err(fail("Storage directories cannot contain parent traversal"));
    }
    match seen {
        DirectorySight::Present { canonical, directory } => match canonical {
            None => Err(fail("Storage directory is unavailable")),
            Some(target) => if *directory {
                Ok(target.clone())
            } else {
                Err(fail("Storage location must be a directory"))
            },
        },
        DirectorySight::Missing { parent, directory } => {
            if host_paths::parent(platform, path).is_none() {
                return Err(fail("Choose a storage directory"));
            }
            match parent {
                None => Err(fail("Storage volume or parent directory is unavailable")),
                Some(target) => {
                    if !*directory {
                        return Err(fail("Storage parent must be a directory"));
                    }
                    match host_paths::name(platform, path) {
                        Some(name) => Ok(
                            host_paths::join(platform, target.as_str(), name.as_str()),
                        ),
                        None => Err(fail("Choose a storage directory")),
                    }
                },
            }
        },
        DirectorySight::Unreadable => Err(fail("Cannot inspect storage directory")),
    }
}

/// The mount points of the host's volumes, resolved, in the order of the
/// volumes; a mount point that does not resolve is missing.
#[derive(Debug)]
pub struct Mounts {
    pub platform: String,
    pub resolved: Vec<Option<String>>,
}

/// A resolved host path. On macOS the native volume identity of the path is
/// read too.
#[derive(Debug)]
pub struct HostPath {
    pub path: String,
    pub native_volume: Option<String>,
}

pub open spec fn mount_at(mounts: Mounts, i: int) -> Option<Seq<char>> {
    if 0 <= i < mounts.resolved@.len() {
        text::option_view(mounts.resolved@[i])
    } else {
        None
    }
}

/// Whether the volume at `i` is mounted at or above the path.
pub open spec fn holds_path(mounts: Mounts, i: int, path: Seq<char>) -> bool {
    mount_at(mounts, i) is Some && host_within(
        mounts.platform@,
        path,
        mount_at(mounts, i)->0,
    )
}

/// The depth of the mount point at `i`.
pub open spec fn mount_depth(mounts: Mounts, i: int) -> nat {
    host_depth(mounts.platform@, mount_at(mounts, i)->0)
}

/// Of the first `n` volumes that hold the path, the one mounted deepest; the
/// last of several.
pub open spec fn deepest(mounts: Mounts, path: Seq<char>, n: int) -> Option<int>
    decreases n,
{
    if n <= 0 {
        None
    } else {
        let before = deepest(mounts, path, n - 1);
        if holds_path(mounts, n - 1, path) && (before is None || mount_depth(mounts, before->0)
            <= mount_depth(mounts, n - 1)) {
            Some(n - 1)
        } else {
            before
        }
    }
}

/// The first of the volumes from `i` on with the identity.
pub open spec fn volume_with_id(volumes: Seq<VolumeView>, id: Seq<char>, i: int) -> Option<int>
    decreases volumes.len() - i,
{
    if i < 0 || i >= volumes.len() {
        None
    } else if volumes[i].id == id {
        Some(i)
    } else {
        volume_with_id(volumes, id, i + 1)
    }
}

/// macOS can show one device through several mount points, so volumes with a
/// native identity are found by it.
pub open spec fn uses_native_identity(mounts: Mounts, volumes: Seq<VolumeView>) -> bool {
    mounts.platform@ == "macos"@ && exists|i: int|
        0 <= i < volumes.len() && identity::is_identity((#[trigger] volumes[i]).id)
}

/// The volume that a resolved path stands on.
pub open spec fn volume_index(path: HostPath, volumes: Seq<VolumeView>, mounts: Mounts) -> Option<int> {
    if uses_native_identity(mounts, volumes) {
        match path.native_volume {
            Some(id) => volume_with_id(volumes, id@, 0),
            None => None,
        }
    } else {
        deepest(mounts, path.path@, volumes.len() as int)
    }
}

/// The chosen volume holds the path, and none that holds it is mounted deeper.
pub proof fn deepest_mount_wins(mounts: Mounts, path: Seq<char>, n: int, i: int)
    requires
        0 <= i < n,
        holds_path(mounts, i, path),
    ensures
        deepest(mounts, path, n) is Some,
        holds_path(mounts, deepest(mounts, path, n)->0, path),
        0 <= deepest(mounts, path, n)->0 < n,
        mount_depth(mounts, i) <= mount_depth(mounts, deepest(mounts, path, n)->0),
    decreases n,
{
    if i < n - 1 {
        deepest_mount_wins(mounts, path, n - 1, i);
    } else {
        lemma_deepest_holds(mounts, path, n - 1);
    }
}

proof fn lemma_deepest_holds(mounts: Mounts, path: Seq<char>, n: int)
    ensures
        deepest(mounts, path, n) matches Some(k) ==> 0 <= k < n && holds_path(mounts, k, path),
    decreases n,
{
    if n > 0 {
        lemma_deepest_holds(mounts, path, n - 1);
    }
}

proof fn lemma_volume_with_id(volumes: Seq<VolumeView>, id: Seq<char>, i: int)
    requires
        0 <= i,
    ensures
        volume_with_id(volumes, id, i) matches Some(k) ==> i <= k < volumes.len()
            && volumes[k].id == id,
    decreases volumes.len() - i,
{
    if i < volumes.len() && volumes[i].id != id {
        lemma_volume_with_id(volumes, id, i + 1);
    }
}

/// A volume that was found is one of the host's.
pub proof fn found_volume_exists(path: HostPath, volumes: Seq<VolumeView>, mounts: Mounts)
    ensures
        volume_index(path, volumes, mounts) matches Some(k) ==> 0 <= k < volumes.len(),
{
    if path.native_volume is Some {
        lemma_volume_with_id(volumes, path.native_volume->0@, 0);
    }
    lemma_deepest_holds(mounts, path.path@, volumes.len() as int);
}

fn native_identity_used(mounts: &Mounts, volumes: &[Volume]) -> (r: bool)
    ensures
        r == uses_native_identity(*mounts, contents(volumes@)),
{
    if !text::same(mounts.platform.as_str(), "macos") {
        return false;
    }
    for i in 0..volumes.len()
        invariant
            mounts.platform@ == "macos"@,
            forall|j: int| 0 <= j < i ==> !identity::is_identity((#[trigger] contents(volumes@)[j]).id),
    {
        if identity::names_device(volumes[i].id.as_str()) {
            assert(contents(volumes@)[i as int].id == volumes@[i as int].id@);
            return true;
        }
    }
    false
}

/// The volume that a resolved path stands on.
pub fn volume_for(path: &HostPath, volumes: &[Volume], mounts: &Mounts) -> (r: Option<usize>)
    ensures
        match r {
            Some(i) => volume_index(*path, contents(volumes@), *mounts) == Some(i as int),
            None => volume_index(*path, contents(volumes@), *mounts) is None,
        },
        r matches Some(i) ==> i < contents(volumes@).len(),
{
    proof {
        found_volume_exists(*path, contents(volumes@), *mounts);
    }
    if native_identity_used(mounts, volumes) {
        return match &path.native_volume {
            None => None,
            Some(id) => {
                let mut i: usize = 0;
                while i < volumes.len()
                    invariant
                        i <= contents(volumes@).len(),
                        volume_with_id(contents(volumes@), id@, 0) == volume_with_id(
                            contents(volumes@),
                            id@,
                            i as int,
                        ),
                        volume_index(*path, contents(volumes@), *mounts) == volume_with_id(
                            contents(volumes@),
                            id@,
                            0,
                        ),
                    decreases contents(volumes@).len() - i,
                {
                    if text::same(volumes[i].id.as_str(), id.as_str()) {
                        return Some(i);
                    }
                    i = i + 1;
                }
                None
            },
        };
    }
    let platform = mounts.platform.as_str();
    let mut best: Option<usize> = None;
    let mut best_depth: u128 = 0;
    for i in 0..volumes.len()
        invariant
            platform@ == mounts.platform@,
            match best {
                Some(b) => deepest(*mounts, path.path@, i as int) == Some(b as int) && b < i
                    && best_depth == mount_depth(*mounts, b as int),
                None => deepest(*mounts, path.path@, i as int) is None,
            },
    {
        if i < mounts.resolved.len() {
            if let Some(mount) = &mounts.resolved[i] {
                assert(mount_at(*mounts, i as int) == Some(mount@));
                if host_paths::within(platform, path.path.as_str(), mount.as_str()) {
                    let depth = host_paths::depth(platform, mount.as_str());
                    if best.is_none() || best_depth <= depth {
                        best = Some(i);
                        best_depth = depth;
                    }
                }
            }
        }
    }
    best
}

/// Reserve remaining possible system-image growth once for its entire host
/// pool.
pub open spec fn reserve_refusal(
    volumes: Seq<VolumeView>,
    directory: HostPath,
    mounts: Mounts,
    remaining_gib: u64,
) -> Option<Seq<char>> {
    match volume_index(directory, volumes, mounts) {
        None => Some("The application system-disk volume is unavailable"@),
        Some(i) => if !volumes[i].eligible {
            Some("The application system-disk volume is unsupported: "@ + volumes[i].reason)
        } else if volumes[i].available_gib < remaining_gib + HOST_RESERVE_GIB
            && (remaining_gib + HOST_RESERVE_GIB <= u64::MAX || volumes[i].available_gib
            < u64::MAX) {
            Some(
                "Not enough space on the application volume for its system disk and 10 GiB host reserve"@,
            )
        } else {
            None
        },
    }
}

/// The free space of a volume after the reservation.
pub open spec fn after_reserve(volume: VolumeView, pool: Seq<char>, remaining_gib: u64) -> VolumeView {
    if volume.capacity_pool == pool {
        VolumeView {
            available_gib: (if volume.available_gib < remaining_gib {
                0
            } else {
                volume.available_gib - remaining_gib
            }) as u64,
            ..volume
        }
    } else {
        volume
    }
}

/// Reserve remaining possible system-image growth once for its entire host
/// pool. A refused reservation changes nothing.
pub fn reserve_system_disk(
    volumes: &mut Vec<Volume>,
    directory: &HostPath,
    mounts: &Mounts,
    remaining_gib: u64,
) -> (r: Result<(), Failure>)
    ensures
        refusal(r) == reserve_refusal(contents(old(volumes)@), *directory, *mounts, remaining_gib),
        r is Err ==> contents(final(volumes)@) == contents(old(volumes)@),
        r is Ok ==> ({
            let i = volume_index(*directory, contents(old(volumes)@), *mounts)->0;
            contents(final(volumes)@) == contents(old(volumes)@).map_values(
                |v: VolumeView| after_reserve(v, contents(old(volumes)@)[i].capacity_pool, remaining_gib),
            )
        }),
{
    let index = match volume_for(directory, volumes.as_slice(), mounts) {
        Some(index) => index,
        None => {
            return Err(fail("The application system-disk volume is unavailable"));
        },
    };
    if !volumes[index].eligible {
        let message = text::join2(
            "The application system-disk volume is unsupported: ",
            volumes[index].reason.as_str(),
        );
        return Err(Failure { message });
    }
    if volumes[index].available_gib < remaining_gib.saturating_add(HOST_RESERVE_GIB) {
        return Err(
            fail(
                "Not enough space on the application volume for its system disk and 10 GiB host reserve",
            ),
        );
    }
    let pool = volumes[index].capacity_pool.clone();
    let ghost before = contents(volumes@);
    let count = volumes.len();
    for i in 0..count
        invariant
            count == before.len(),
            contents(volumes@).len() == before.len(),
            forall|j: int|
                0 <= j < i ==> #[trigger] contents(volumes@)[j] == after_reserve(
                    before[j],
                    pool@,
                    remaining_gib,
                ),
            forall|j: int| i <= j < before.len() ==> #[trigger] contents(volumes@)[j] == before[j],
    {
        assert(contents(volumes@)[i as int] == before[i as int]);
        if text::same(volumes[i].capacity_pool.as_str(), pool.as_str()) {
            let left = volumes[i].available_gib.saturating_sub(remaining_gib);
            let ghost now = contents(volumes@);
            volumes[i].available_gib = left;
            assert(contents(volumes@) =~= now.update(
                i as int,
                VolumeView { available_gib: left, ..now[i as int] },
            ));
        }
    }
    assert(contents(volumes@) == before.map_values(|v: VolumeView| after_reserve(v, pool@, remaining_gib)));
    Ok(())
}

/// What an unavailable location tells the owner.
pub open spec fn unavailable_text() -> Seq<char> {
    "Storage volume or directory is unavailable or unsupported. Reconnect the original volume at its saved location; storage will not be redirected."@
}

/// Whether a location's directory resolves onto its original, eligible volume.
pub open spec fn is_available(
    location: LocationView,
    resolved: Option<HostPath>,
    volumes: Seq<VolumeView>,
    mounts: Mounts,
) -> bool {
    resolved matches Some(path) && volume_index(path, volumes, mounts) matches Some(i)
        && volumes[i].id == location.volume_id && volumes[i].eligible
}

pub open spec fn status_of(
    location: LocationView,
    resolved: Option<HostPath>,
    volumes: Seq<VolumeView>,
    mounts: Mounts,
) -> LocationStatusView {
    let available = is_available(location, resolved, volumes, mounts);
    LocationStatusView {
        location,
        available,
        reason: if available {
            Seq::empty()
        } else {
            unavailable_text()
        },
    }
}

/// The directory at `i` where it resolved.
pub open spec fn resolved_at(resolved: Seq<Option<HostPath>>, i: int) -> Option<HostPath> {
    if 0 <= i < resolved.len() {
        resolved[i]
    } else {
        None
    }
}

pub open spec fn statuses_of(
    locations: Seq<LocationView>,
    resolved: Seq<Option<HostPath>>,
    volumes: Seq<VolumeView>,
    mounts: Mounts,
) -> Seq<LocationStatusView> {
    Seq::new(
        locations.len(),
        |i: int| status_of(locations[i], resolved_at(resolved, i), volumes, mounts),
    )
}

/// Whether a location's directory resolves onto its original, eligible volume.
pub fn available(
    location: &Location,
    resolved: &Option<HostPath>,
    volumes: &[Volume],
    mounts: &Mounts,
) -> (r: bool)
    ensures
        r == is_available(location@, *resolved, contents(volumes@), *mounts),
{
    match resolved {
        None => false,
        Some(path) => match volume_for(path, volumes, mounts) {
            None => false,
            Some(i) => text::same(volumes[i].id.as_str(), location.volume_id.as_str())
                && volumes[i].eligible,
        },
    }
}

/// Look at each location through the directories that resolved on the host, in
/// the order of the locations.
pub fn inspect_locations(
    locations: &[Location],
    resolved: &[Option<HostPath>],
    volumes: &[Volume],
    mounts: &Mounts,
) -> (r: Vec<LocationStatus>)
    ensures
        contents(r@) == statuses_of(location_views(locations@), resolved@, contents(volumes@), *mounts),
{
    let ghost wanted = statuses_of(location_views(locations@), resolved@, contents(volumes@), *mounts);
    let mut r: Vec<LocationStatus> = Vec::new();
    for i in 0..locations.len()
        invariant
            wanted == statuses_of(location_views(locations@), resolved@, contents(volumes@), *mounts),
            contents(r@) == wanted.take(i as int),
    {
        assert(location_views(locations@)[i as int] == locations@[i as int]@);
        let found = if i < resolved.len() {
            available(&locations[i], &resolved[i], volumes, mounts)
        } else {
            false
        };
        let reason = if found {
            String::new()
        } else {
            "Storage volume or directory is unavailable or unsupported. Reconnect the original volume at its saved location; storage will not be redirected.".to_owned()
        };
        let ghost before = contents(r@);
        r.push(LocationStatus { location: locations[i].clone(), available: found, reason });
        assert(contents(r@) == before.push(wanted[i as int]));
    }
    assert(wanted.take(locations@.len() as int) == wanted);
    r
}

/// What the host reports of a disk. The filesystem name is in lower case; the
/// identity is missing where it cannot be read.
#[derive(Debug)]
pub struct DiskFacts {
    pub label: String,
    pub mount_point: String,
    pub filesystem: String,
    pub available_bytes: u64,
    pub read_only: bool,
    pub identity: Option<String>,
    /// The pool whose space the volume shares.
    pub pool: Option<String>,
    /// File ownership is enforced on the volume.
    pub ownership: bool,
}

/// The allocations of locations on a volume.
pub open spec fn configured_on(locations: Seq<LocationView>, id: Seq<char>) -> nat
    decreases locations.len(),
{
    if locations.len() == 0 {
        0
    } else {
        configured_on(locations.drop_last(), id) + (if id.len() > 0 && locations.last().volume_id
            == id {
            locations.last().allocation_gib as nat
        } else {
            0
        })
    }
}

pub open spec fn capped(n: int) -> u64 {
    if n > u64::MAX {
        u64::MAX
    } else {
        n as u64
    }
}

fn configured_gib_on(locations: &[Location], id: &str) -> (r: u64)
    ensures
        r == capped(configured_on(location_views(locations@), id@) as int),
{
    let ghost v = location_views(locations@);
    let mut total: u64 = 0;
    assert(v.take(0) == Seq::<LocationView>::empty());
    for i in 0..locations.len()
        invariant
            v == location_views(locations@),
            total == capped(configured_on(v.take(i as int), id@) as int),
    {
        assert(v.take(i + 1).drop_last() == v.take(i as int));
        assert(v[i as int] == locations@[i as int]@);
        if !id.is_empty() && text::same(locations[i].volume_id.as_str(), id) {
            total = total.saturating_add(locations[i].allocation_gib);
        }
    }
    assert(v.take(locations@.len() as int) == v);
    total
}

/// Identity, pool, eligibility and reason of a disk on a platform.
pub open spec fn disk_standing(facts: DiskFacts, platform: Seq<char>, provider: VmProvider) -> (
    Seq<char>,
    Seq<char>,
    bool,
    Seq<char>,
) {
    let nothing = (
        Seq::<char>::empty(),
        Seq::<char>::empty(),
        false,
        "Selectable worker storage is unsupported on this host/runtime combination"@,
    );
    if platform == "macos"@ {
        match (facts.identity, facts.pool) {
            (Some(id), Some(pool)) => {
                let eligible = facts.filesystem@ == "apfs"@ && !facts.read_only && id@.len() > 0
                    && facts.ownership;
                (
                    id@,
                    pool@,
                    eligible,
                    if eligible {
                        Seq::empty()
                    } else {
                        "Requires a writable APFS volume with ownership enabled and a stable volume identity"@
                    },
                )
            },
            _ => (
                nothing.0,
                nothing.1,
                false,
                "Volume identity could not be read. Storage selection is unavailable."@,
            ),
        }
    } else if platform == "linux"@ {
        match facts.identity {
            Some(id) => {
                let eligible = (facts.filesystem@ == "ext4"@ || facts.filesystem@ == "xfs"@)
                    && !facts.read_only;
                (
                    id@,
                    id@,
                    eligible,
                    if eligible {
                        Seq::empty()
                    } else {
                        "Requires a writable local ext4 or XFS volume with a stable identity"@
                    },
                )
            },
            None => nothing,
        }
    } else if platform == "windows"@ {
        let id = match facts.identity {
            Some(id) => id@,
            None => Seq::empty(),
        };
        (id, id, false, unsupported_text(provider))
    } else {
        nothing
    }
}

/// The volume that a disk of the host makes.
pub open spec fn volume_of_disk(
    facts: DiskFacts,
    platform: Seq<char>,
    provider: VmProvider,
    locations: Seq<LocationView>,
) -> VolumeView {
    let standing = disk_standing(facts, platform, provider);
    VolumeView {
        id: standing.0,
        capacity_pool: standing.1,
        label: facts.label@,
        mount_point: facts.mount_point@,
        filesystem: facts.filesystem@,
        available_gib: facts.available_bytes / GIB,
        configured_gib: capped(configured_on(locations, standing.0) as int),
        eligible: standing.2,
        reason: standing.3,
    }
}

/// The volumes that the disks of the host make.
pub open spec fn volumes_of_disks(
    disks: Seq<DiskFacts>,
    platform: Seq<char>,
    provider: VmProvider,
    locations: Seq<LocationView>,
) -> Seq<VolumeView> {
    Seq::new(disks.len(), |i: int| volume_of_disk(disks[i], platform, provider, locations))
}

/// The volume that a disk of the host makes.
pub fn describe_disk(
    facts: &DiskFacts,
    platform: &str,
    provider: VmProvider,
    locations: &[Location],
) -> (r: Volume)
    ensures
        r@ == volume_of_disk(*facts, platform@, provider, location_views(locations@)),
{
    let mut id = String::new();
    let mut pool = String::new();
    let mut eligible = false;
    let mut reason = "Selectable worker storage is unsupported on this host/runtime combination".to_owned();
    if text::same(platform, "macos") {
        match (&facts.identity, &facts.pool) {
            (Some(found), Some(shared)) => {
                eligible = text::same(facts.filesystem.as_str(), "apfs") && !facts.read_only
                    && !found.as_str().is_empty() && facts.ownership;
                id = found.clone();
                pool = shared.clone();
                reason = if eligible {
                    String::new()
                } else {
                    "Requires a writable APFS volume with ownership enabled and a stable volume identity".to_owned()
                };
            },
            _ => {
                reason =
                "Volume identity could not be read. Storage selection is unavailable.".to_owned();
            },
        }
    } else if text::same(platform, "linux") {
        if let Some(found) = &facts.identity {
            eligible = (text::same(facts.filesystem.as_str(), "ext4") || text::same(
                facts.filesystem.as_str(),
                "xfs",
            )) && !facts.read_only;
            id = found.clone();
            pool = found.clone();
            reason = if eligible {
                String::new()
            } else {
                "Requires a writable local ext4 or XFS volume with a stable identity".to_owned()
            };
        }
    } else if text::same(platform, "windows") {
        if let Some(found) = &facts.identity {
            id = found.clone();
            pool = found.clone();
        }
        reason = unsupported_reason(provider).to_owned();
    }
    let configured_gib = configured_gib_on(locations, id.as_str());
    Volume {
        id,
        capacity_pool: pool,
        label: facts.label.clone(),
        mount_point: facts.mount_point.clone(),
        filesystem: facts.filesystem.clone(),
        available_gib: facts.available_bytes / GIB,
        configured_gib,
        eligible,
        reason,
    }
}

/// The number of an APFS container in a mount source, such as `3` in
/// `/dev/disk3s1`.
pub open spec fn container_number(source: Seq<char>) -> Option<Seq<char>> {
    let prefix = "/dev/disk"@;
    if text::has_prefix(source, prefix) {
        match text::split_once(source.skip(prefix.len() as int), seq!['s']) {
            Some((number, _)) => if number.len() > 0 && text::all_digits(number) {
                Some(number)
            } else {
                None
            },
            None => None,
        }
    } else {
        None
    }
}

/// The pool of a volume on macOS: volumes of one container share their space,
/// any other volume is a pool of its own. This key is never kept across
/// reboots.
pub fn apfs_pool(source: &str, uuid: &str) -> (r: String)
    ensures
        r@ == (match container_number(source@) {
            Some(number) => "apfs-container-disk"@ + number,
            None => uuid@,
        }),
{
    let chars = text::chars_of(source);
    let prefix = text::chars_of("/dev/disk");
    match text::strip_prefix(chars.as_slice(), prefix.as_slice()) {
        None => uuid.to_owned(),
        Some(rest) => {
            let mut separator: Vec<char> = Vec::new();
            separator.push('s');
            assert(separator@ == seq!['s']);
            match text::split_at_first(rest.as_slice(), separator.as_slice()) {
                None => uuid.to_owned(),
                Some(pair) => {
                    if pair.0.len() > 0 && text::only_digits(pair.0.as_slice()) {
                        let number = text::string_of(pair.0.as_slice());
                        text::join2("apfs-container-disk", number.as_str())
                    } else {
                        uuid.to_owned()
                    }
                },
            }
        },
    }
}

/// The first volume from `i` on that is mounted there.
pub open spec fn mounted_at(volumes: Seq<VolumeView>, mount: Seq<char>, i: int) -> Option<int>
    decreases volumes.len() - i,
{
    if i < 0 || i >= volumes.len() {
        None
    } else if volumes[i].mount_point == mount {
        Some(i)
    } else {
        mounted_at(volumes, mount, i + 1)
    }
}

/// The volumes with the boot image's allocation added where the application
/// stands. A Multipass daemon's allocation is not attributed to the settings
/// directory.
pub open spec fn with_boot(
    volumes: Seq<VolumeView>,
    provider: VmProvider,
    directory: Option<HostPath>,
    mounts: Mounts,
    boot_gib: u64,
) -> Seq<VolumeView> {
    if provider == VmProvider::Lima && directory is Some && volume_index(
        directory->0,
        volumes,
        mounts,
    ) is Some {
        let i = volume_index(directory->0, volumes, mounts)->0;
        let k = mounted_at(volumes, volumes[i].mount_point, 0)->0;
        volumes.update(
            k,
            VolumeView {
                configured_gib: capped(volumes[k].configured_gib + boot_gib),
                ..volumes[k]
            },
        )
    } else {
        volumes
    }
}

proof fn lemma_mounted(volumes: Seq<VolumeView>, mount: Seq<char>, i: int, k: int)
    requires
        0 <= i <= k < volumes.len(),
        volumes[k].mount_point == mount,
    ensures
        mounted_at(volumes, mount, i) matches Some(m) && i <= m <= k,
    decreases volumes.len() - i,
{
    if volumes[i].mount_point != mount {
        lemma_mounted(volumes, mount, i + 1, k);
    }
}

fn add_boot(
    volumes: Vec<Volume>,
    provider: VmProvider,
    directory: &Option<HostPath>,
    mounts: &Mounts,
    boot_gib: u64,
) -> (r: Vec<Volume>)
    ensures
        contents(r@) == with_boot(contents(volumes@), provider, *directory, *mounts, boot_gib),
{
    if provider != VmProvider::Lima {
        return volumes;
    }
    let path = match directory {
        Some(path) => path,
        None => {
            return volumes;
        },
    };
    let index = match volume_for(path, volumes.as_slice(), mounts) {
        Some(index) => index,
        None => {
            return volumes;
        },
    };
    let ghost all = contents(volumes@);
    let mut volumes = volumes;
    let mount = volumes[index].mount_point.clone();
    let mut k: usize = 0;
    proof {
        lemma_mounted(all, mount@, 0, index as int);
    }
    while k < volumes.len() && !text::same(volumes[k].mount_point.as_str(), mount.as_str())
        invariant
            k <= contents(volumes@).len(),
            contents(volumes@) == all,
            mounted_at(all, mount@, 0) == mounted_at(all, mount@, k as int),
        decreases contents(volumes@).len() - k,
    {
        k = k + 1;
    }
    if k < volumes.len() {
        let more = volumes[k].configured_gib.saturating_add(boot_gib);
        let ghost before = contents(volumes@);
        let ghost one = contents(volumes@)[k as int];
        volumes[k].configured_gib = more;
        assert(contents(volumes@) =~= before.update(
            k as int,
            VolumeView { configured_gib: more, ..before[k as int] },
        ));
    }
    volumes
}

/// The inventory of a host: its volumes, and the worker's locations on them.
pub open spec fn inventory_of(
    provider: VmProvider,
    platform: Seq<char>,
    directory: Seq<char>,
    resolved_directory: Option<HostPath>,
    volumes: Seq<VolumeView>,
    statuses: Seq<LocationStatusView>,
    total: u64,
    boot_gib: u64,
) -> InventoryView {
    let supported = places_disks(provider, platform);
    InventoryView {
        active_gib: total,
        configured_gib: total,
        recovery_enabled: false,
        disabled: false,
        excluded: Seq::empty(),
        backup_cleanup: Seq::empty(),
        recovery_backup: None,
        default_directory: if provider == VmProvider::Lima {
            match resolved_directory {
                Some(path) => Some(host_join(platform, path.path@, "storage"@)),
                None => None,
            }
        } else {
            None
        },
        supported,
        reason: if supported {
            Seq::empty()
        } else {
            unsupported_text(provider)
        },
        volumes,
        locations: statuses,
        revision: 0,
        operation: None,
        retained_copies: Seq::empty(),
        retained_runtime_directories: Seq::empty(),
        system_disk: if provider == VmProvider::Lima {
            Some(
                SystemDiskView {
                    directory: host_join(platform, directory, "lima/worker"@),
                    allocation_gib: boot_gib,
                },
            )
        } else {
            None
        },
        layout: None,
        pending_update: None,
    }
}

/// Take the inventory of a host. The directory of the settings and those of the
/// locations are given where they resolve.
pub fn inventory(
    provider: VmProvider,
    platform: &str,
    directory: &str,
    resolved_directory: &Option<HostPath>,
    disks: &[DiskFacts],
    mounts: &Mounts,
    locations: &[Location],
    resolved: &[Option<HostPath>],
    boot_gib: u64,
) -> (r: Inventory)
    requires
        total_gib(location_views(locations@)) <= u64::MAX,
    ensures
        r@ == ({
            let volumes = with_boot(
                volumes_of_disks(disks@, platform@, provider, location_views(locations@)),
                provider,
                *resolved_directory,
                *mounts,
                boot_gib,
            );
            inventory_of(
                provider,
                platform@,
                directory@,
                *resolved_directory,
                volumes,
                statuses_of(location_views(locations@), resolved@, volumes, *mounts),
                total_gib(location_views(locations@)) as u64,
                boot_gib,
            )
        }),
{
    let ghost wanted = volumes_of_disks(
        disks@,
        platform@,
        provider,
        location_views(locations@),
    );
    let mut found: Vec<Volume> = Vec::new();
    for i in 0..disks.len()
        invariant
            wanted == volumes_of_disks(
                disks@,
                platform@,
                provider,
                location_views(locations@),
            ),
            contents(found@) == wanted.take(i as int),
    {
        let ghost before = contents(found@);
        let volume = describe_disk(&disks[i], platform, provider, locations);
        found.push(volume);
        assert(contents(found@) == before.push(wanted[i as int]));
    }
    assert(wanted.take(disks@.len() as int) == wanted);
    let volumes = add_boot(found, provider, resolved_directory, mounts, boot_gib);
    let statuses = inspect_locations(locations, resolved, volumes.as_slice(), mounts);
    let total = sum_gib(locations);
    let supported = require_location_support(provider, platform).is_ok();
    let reason = if supported {
        String::new()
    } else {
        unsupported_reason(provider).to_owned()
    };
    let lima = provider == VmProvider::Lima;
    let default_directory = if lima {
        match resolved_directory {
            Some(path) => Some(host_paths::join(platform, path.path.as_str(), "storage")),
            None => None,
        }
    } else {
        None
    };
    let system_disk = if lima {
        Some(
            SystemDisk {
                directory: host_paths::join(platform, directory, "lima/worker"),
                allocation_gib: boot_gib,
            },
        )
    } else {
        None
    };
    let ghost kept = contents(volumes@);
    let r = Inventory {
        active_gib: total,
        configured_gib: total,
        recovery_enabled: false,
        disabled: false,
        excluded: Vec::new(),
        backup_cleanup: Vec::new(),
        recovery_backup: None,
        default_directory,
        supported,
        reason,
        volumes,
        locations: statuses,
        revision: 0,
        operation: None,
        retained_copies: Vec::new(),
        retained_runtime_directories: Vec::new(),
        system_disk,
        layout: None,
        pending_update: None,
    };
    proof {
        assert(r@ =~= inventory_of(
            provider,
            platform@,
            directory@,
            *resolved_directory,
            kept,
            statuses_of(location_views(locations@), resolved@, kept, *mounts),
            total_gib(location_views(locations@)) as u64,
            boot_gib,
        ));
    }
    r
}

/// What a look at a file of a disk finds: its receipt, and its image.
#[derive(Debug)]
pub struct ImageSight {
    pub receipt: DiskReceipt,
    pub regular: bool,
    pub blocks: u64,
}

/// What a file takes of its volume, in bytes.
pub open spec fn block_bytes(blocks: u64) -> u64 {
    capped(blocks * 512)
}

/// What blocks of a file take, in bytes.
pub fn bytes_of_blocks(blocks: u64) -> (r: u64)
    ensures
        r == block_bytes(blocks),
{
    match blocks.checked_mul(512) {
        Some(bytes) => bytes,
        None => u64::MAX,
    }
}

/// Whether a disk was found at its place with its own receipt.
pub open spec fn is_owned_image(
    home: Seq<char>,
    device: Seq<char>,
    location: LocationView,
    sight: Option<ImageSight>,
) -> bool {
    crate::lima_storage::paths_of(home, device, location) is Ok && (match sight {
        Some(s) => s.regular && crate::lima_storage::receipt_refusal(s.receipt@, device, location)
            is None,
        None => false,
    })
}

/// What the first `n` disks take of their volumes already. A disk that is not
/// there, or not this computer's, takes nothing that it could claim.
pub open spec fn allocated_of(
    home: Seq<char>,
    device: Seq<char>,
    locations: Seq<LocationView>,
    sights: Seq<Option<ImageSight>>,
    n: int,
) -> Seq<(Seq<char>, u64)>
    decreases n,
{
    if n <= 0 {
        Seq::empty()
    } else {
        let earlier = allocated_of(home, device, locations, sights, n - 1);
        if is_owned_image(home, device, locations[n - 1], sights[n - 1]) {
            earlier.push((locations[n - 1].id, block_bytes(sights[n - 1]->0.blocks)))
        } else {
            earlier
        }
    }
}

/// The contents of credits.
pub open spec fn credit_views(credits: Seq<(String, u64)>) -> Seq<(Seq<char>, u64)> {
    credits.map_values(|c: (String, u64)| (c.0@, c.1))
}

fn owned_image(home: &str, device: &str, location: &Location, sight: &Option<ImageSight>) -> (r:
    bool)
    ensures
        r == is_owned_image(home@, device@, location@, *sight),
{
    if crate::lima_storage::disk_paths(home, device, location).is_err() {
        return false;
    }
    match sight {
        Some(s) => s.regular && s.receipt.verify(device, location).is_ok(),
        None => false,
    }
}

/// What disks take of their volumes already, by what a look at each found.
pub fn allocated_bytes(
    home: &str,
    device: &str,
    locations: &[Location],
    sights: &[Option<ImageSight>],
) -> (r: Vec<(String, u64)>)
    requires
        sights@.len() == locations@.len(),
    ensures
        credit_views(r@) == allocated_of(
            home@,
            device@,
            location_views(locations@),
            sights@,
            locations@.len() as int,
        ),
{
    let ghost v = location_views(locations@);
    let mut r: Vec<(String, u64)> = Vec::new();
    assert(credit_views(r@) =~= Seq::<(Seq<char>, u64)>::empty());
    for i in 0..locations.len()
        invariant
            v == location_views(locations@),
            sights@.len() == locations@.len(),
            credit_views(r@) == allocated_of(home@, device@, v, sights@, i as int),
    {
        assert(v[i as int] == locations@[i as int]@);
        if owned_image(home, device, &locations[i], &sights[i]) {
            match &sights[i] {
                Some(s) => {
                    let ghost before = credit_views(r@);
                    let bytes = bytes_of_blocks(s.blocks);
                    r.push((locations[i].id.clone(), bytes));
                    assert(credit_views(r@) =~= before.push((v[i as int].id, bytes)));
                },
                None => {},
            }
        }
    }
    r
}

/// What a look at the system disk's image finds.
#[derive(Clone, Copy, Debug, PartialEq, Eq, Structural)]
pub enum SystemImage {
    Missing,
    Unreadable,
    Present { regular: bool, here: bool, blocks: u64 },
}

/// What the system disk takes already, by looks at the names that it can have:
/// the first that is there counts.
pub open spec fn system_bytes(images: Seq<SystemImage>) -> Result<u64, Seq<char>>
    decreases images.len(),
{
    if images.len() == 0 {
        Ok(0)
    } else {
        match images[0] {
            SystemImage::Missing => system_bytes(images.drop_first()),
            SystemImage::Unreadable => Err("Cannot inspect the worker system disk"@),
            SystemImage::Present { regular, here, blocks } => if regular && here {
                Ok(block_bytes(blocks))
            } else {
                Err("The worker system disk is not on its application volume"@)
            },
        }
    }
}

/// What the system disk takes already.
pub fn allocated_system_bytes(images: &[SystemImage]) -> (r: Result<u64, Failure>)
    ensures
        match system_bytes(images@) {
            Ok(bytes) => r == Ok::<u64, Failure>(bytes),
            Err(message) => refusal(r) == Some(message),
        },
{
    let mut i: usize = 0;
    assert(images@.skip(0) =~= images@);
    while i < images.len()
        invariant
            i <= images@.len(),
            system_bytes(images@) == system_bytes(images@.skip(i as int)),
        decreases images@.len() - i,
    {
        assert(images@.skip(i as int)[0] == images@[i as int]);
        assert(images@.skip(i as int).drop_first() =~= images@.skip(i + 1));
        match images[i] {
            SystemImage::Missing => {},
            SystemImage::Unreadable => {
                return Err(fail("Cannot inspect the worker system disk"));
            },
            SystemImage::Present { regular, here, blocks } => {
                return if regular && here {
                    Ok(bytes_of_blocks(blocks))
                } else {
                    Err(fail("The worker system disk is not on its application volume"))
                };
            },
        }
        i = i + 1;
    }
    Ok(0)
}

/// The index of the first device with that number.
pub open spec fn device_with(devices: Seq<(String, u64)>, number: u64, i: int) -> Option<int>
    decreases devices.len() - i,
{
    if i < 0 || i >= devices.len() {
        None
    } else if devices[i].1 == number {
        Some(i)
    } else {
        device_with(devices, number, i + 1)
    }
}

/// The identity of the volume on a device, by the host's devices and their
/// numbers.
pub fn device_uuid(devices: &[(String, u64)], number: u64) -> (r: Result<String, Failure>)
    ensures
        match device_with(devices@, number, 0) {
            Some(i) => r matches Ok(id) && id@ == devices@[i].0@,
            None => refusal(r) == Some("Storage volume UUID is unavailable"@),
        },
{
    for i in 0..devices.len()
        invariant
            device_with(devices@, number, 0) == device_with(devices@, number, i as int),
    {
        if devices[i].1 == number {
            return Ok(devices[i].0.clone());
        }
    }
    Err(fail("Storage volume UUID is unavailable"))
}

/// The identity of the volume in the path of an open file on Windows.
pub fn windows_identity(path: &str) -> (r: Result<String, Failure>)
    ensures
        match text::find_from(path@, "}\\"@, 0) {
            Some(i) => r matches Ok(id) && id@ == path@.take(i + 2),
            None => refusal(r) == Some("Backup has no stable Windows volume identity"@),
        },
{
    let chars = text::chars_of(path);
    let end = text::chars_of("}\\");
    proof {
        reveal_strlit("}\\");
        text::lemma_find_from(path@, "}\\"@, 0);
    }
    match text::find(chars.as_slice(), end.as_slice(), 0) {
        Some(i) => {
            assert(text::occurs_at(path@, "}\\"@, i as int));
            assert(i + 2 <= chars.len());
            let kept = text::slice_of(chars.as_slice(), 0, i + 2);
            assert(kept@ =~= path@.take(i + 2));
            Ok(text::string_of(kept.as_slice()))
        },
        None => Err(fail("Backup has no stable Windows volume identity")),
    }
}

} // verus!
