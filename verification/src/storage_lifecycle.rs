//! Durable replacement and recovery records. Host paths stay in local settings.
use crate::checksum::{sha256_text, Checksum};
use crate::failure::{fail, refusal, unless, Failure};
use crate::host_paths::{self, host_join, host_name, host_parent, host_plain, host_within};
use crate::storage::{
    canonical_directory, resolved_directory, same_place, DirectorySight, HostPath, Location,
    LocationView,
};
use crate::storage_layout::{Layout, LayoutView};
use crate::text;
use crate::values::{
    content, contents, copy_list, copy_option, lists_alike, options_alike, Plain,
};
use crate::json::Json;
use vstd::prelude::*;

verus! {

pub const GIB: u64 = 1_073_741_824;

/// Read-only runtime evidence; never part of ordinary heartbeats.
#[derive(Debug)]
pub struct ReplacementSpace {
    pub directory: HostPath,
    pub reclaimed_bytes: u64,
}

/// What the owner asks a storage review for.
#[derive(Debug)]
pub struct ReviewOptions {
    pub delete_all: bool,
    pub temporary_directory: Option<String>,
    pub single_disk_gib: Option<u64>,
    pub restore_disk: Option<String>,
}

/// The content of a `ReviewOptions`.
#[verifier::ext_equal]
pub struct ReviewOptionsView {
    pub delete_all: bool,
    pub temporary_directory: Option<Seq<char>>,
    pub single_disk_gib: Option<u64>,
    pub restore_disk: Option<Seq<char>>,
}

impl View for ReviewOptions {
    type V = ReviewOptionsView;

    open spec fn view(&self) -> ReviewOptionsView {
        ReviewOptionsView {
            delete_all: self.delete_all,
            temporary_directory: content(self.temporary_directory),
            single_disk_gib: self.single_disk_gib,
            restore_disk: content(self.restore_disk),
        }
    }
}

impl Plain for ReviewOptions {
    fn duplicate(&self) -> (r: Self) {
        ReviewOptions {
            delete_all: self.delete_all,
            temporary_directory: copy_option(&self.temporary_directory),
            single_disk_gib: self.single_disk_gib,
            restore_disk: copy_option(&self.restore_disk),
        }
    }

    fn alike(&self, other: &Self) -> (r: bool) {
        self.delete_all == other.delete_all
            && options_alike(&self.temporary_directory, &other.temporary_directory)
            && self.single_disk_gib == other.single_disk_gib
            && options_alike(&self.restore_disk, &other.restore_disk)
    }
}

impl Clone for ReviewOptions {
    fn clone(&self) -> (r: Self)
        ensures
            r@ == self@,
    {
        self.duplicate()
    }
}

/// What a storage maintenance is for.
#[derive(Clone, Copy, Debug, PartialEq, Eq, Structural)]
pub enum Kind {
    ResizeRemove,
    DeleteAll,
    FailureRecovery,
}

/// Where the temporary backup goes.
#[derive(Debug)]
pub struct BackupLocation {
    pub directory: String,
    pub volume_id: String,
}

/// The content of a `BackupLocation`.
#[verifier::ext_equal]
pub struct BackupLocationView {
    pub directory: Seq<char>,
    pub volume_id: Seq<char>,
}

impl View for BackupLocation {
    type V = BackupLocationView;

    open spec fn view(&self) -> BackupLocationView {
        BackupLocationView {
            directory: self.directory@,
            volume_id: self.volume_id@,
        }
    }
}

impl Plain for BackupLocation {
    fn duplicate(&self) -> (r: Self) {
        BackupLocation {
            directory: self.directory.clone(),
            volume_id: self.volume_id.clone(),
        }
    }

    fn alike(&self, other: &Self) -> (r: bool) {
        self.directory.alike(&other.directory)
            && self.volume_id.alike(&other.volume_id)
    }
}

impl Clone for BackupLocation {
    fn clone(&self) -> (r: Self)
        ensures
            r@ == self@,
    {
        self.duplicate()
    }
}

/// What a storage maintenance will do.
#[derive(Debug)]
pub struct Review {
    pub kind: Kind,
    pub backup: Option<BackupLocation>,
    pub minimum_gib: u64,
    pub temporary_bytes: u64,
    pub deletions: Vec<String>,
    pub downtime: String,
}

/// The content of a `Review`.
#[verifier::ext_equal]
pub struct ReviewView {
    pub kind: Kind,
    pub backup: Option<BackupLocationView>,
    pub minimum_gib: u64,
    pub temporary_bytes: u64,
    pub deletions: Seq<Seq<char>>,
    pub downtime: Seq<char>,
}

impl View for Review {
    type V = ReviewView;

    open spec fn view(&self) -> ReviewView {
        ReviewView {
            kind: self.kind,
            backup: content(self.backup),
            minimum_gib: self.minimum_gib,
            temporary_bytes: self.temporary_bytes,
            deletions: contents(self.deletions@),
            downtime: self.downtime@,
        }
    }
}

impl Plain for Review {
    fn duplicate(&self) -> (r: Self) {
        Review {
            kind: self.kind,
            backup: copy_option(&self.backup),
            minimum_gib: self.minimum_gib,
            temporary_bytes: self.temporary_bytes,
            deletions: copy_list(self.deletions.as_slice()),
            downtime: self.downtime.clone(),
        }
    }

    fn alike(&self, other: &Self) -> (r: bool) {
        self.kind == other.kind
            && options_alike(&self.backup, &other.backup)
            && self.minimum_gib == other.minimum_gib
            && self.temporary_bytes == other.temporary_bytes
            && lists_alike(self.deletions.as_slice(), other.deletions.as_slice())
            && self.downtime.alike(&other.downtime)
    }
}

impl Clone for Review {
    fn clone(&self) -> (r: Self)
        ensures
            r@ == self@,
    {
        self.duplicate()
    }
}

/// A backup file and what was verified of it.
#[derive(Debug)]
pub struct Backup {
    pub path: String,
    pub volume_id: String,
    pub bytes: u64,
    pub sha256: Option<String>,
    pub verified: bool,
}

/// The content of a `Backup`.
#[verifier::ext_equal]
pub struct BackupView {
    pub path: Seq<char>,
    pub volume_id: Seq<char>,
    pub bytes: u64,
    pub sha256: Option<Seq<char>>,
    pub verified: bool,
}

impl View for Backup {
    type V = BackupView;

    open spec fn view(&self) -> BackupView {
        BackupView {
            path: self.path@,
            volume_id: self.volume_id@,
            bytes: self.bytes,
            sha256: content(self.sha256),
            verified: self.verified,
        }
    }
}

impl Plain for Backup {
    fn duplicate(&self) -> (r: Self) {
        Backup {
            path: self.path.clone(),
            volume_id: self.volume_id.clone(),
            bytes: self.bytes,
            sha256: copy_option(&self.sha256),
            verified: self.verified,
        }
    }

    fn alike(&self, other: &Self) -> (r: bool) {
        self.path.alike(&other.path)
            && self.volume_id.alike(&other.volume_id)
            && self.bytes == other.bytes
            && options_alike(&self.sha256, &other.sha256)
            && self.verified == other.verified
    }
}

impl Clone for Backup {
    fn clone(&self) -> (r: Self)
        ensures
            r@ == self@,
    {
        self.duplicate()
    }
}

/// The steps of a storage maintenance, in the order in which they may come.
#[derive(Clone, Copy, Debug, PartialEq, Eq, Structural)]
pub enum Phase {
    Drain,
    Backup,
    BackupVerified,
    Reset,
    Delete,
    Create,
    Restore,
    Verify,
    Bootstrap,
    Capacity,
    Cleanup,
}

/// A storage maintenance under way.
#[derive(Debug)]
pub struct Maintenance {
    pub request_id: u128,
    pub pool_id: u128,
    pub generation: u64,
    pub layout: Option<Layout>,
    pub review: Review,
    pub previous: Vec<Location>,
    pub target: Vec<Location>,
    pub total_gib: u64,
    pub phase: Phase,
    pub backup: Option<Backup>,
    pub paused: bool,
    pub error: Option<String>,
}

/// The content of a `Maintenance`.
#[verifier::ext_equal]
pub struct MaintenanceView {
    pub request_id: u128,
    pub pool_id: u128,
    pub generation: u64,
    pub layout: Option<LayoutView>,
    pub review: ReviewView,
    pub previous: Seq<LocationView>,
    pub target: Seq<LocationView>,
    pub total_gib: u64,
    pub phase: Phase,
    pub backup: Option<BackupView>,
    pub paused: bool,
    pub error: Option<Seq<char>>,
}

impl View for Maintenance {
    type V = MaintenanceView;

    open spec fn view(&self) -> MaintenanceView {
        MaintenanceView {
            request_id: self.request_id,
            pool_id: self.pool_id,
            generation: self.generation,
            layout: content(self.layout),
            review: self.review@,
            previous: contents(self.previous@),
            target: contents(self.target@),
            total_gib: self.total_gib,
            phase: self.phase,
            backup: content(self.backup),
            paused: self.paused,
            error: content(self.error),
        }
    }
}

impl Plain for Maintenance {
    fn duplicate(&self) -> (r: Self) {
        Maintenance {
            request_id: self.request_id,
            pool_id: self.pool_id,
            generation: self.generation,
            layout: copy_option(&self.layout),
            review: self.review.duplicate(),
            previous: copy_list(self.previous.as_slice()),
            target: copy_list(self.target.as_slice()),
            total_gib: self.total_gib,
            phase: self.phase,
            backup: copy_option(&self.backup),
            paused: self.paused,
            error: copy_option(&self.error),
        }
    }

    fn alike(&self, other: &Self) -> (r: bool) {
        self.request_id == other.request_id
            && self.pool_id == other.pool_id
            && self.generation == other.generation
            && options_alike(&self.layout, &other.layout)
            && self.review.alike(&other.review)
            && lists_alike(self.previous.as_slice(), other.previous.as_slice())
            && lists_alike(self.target.as_slice(), other.target.as_slice())
            && self.total_gib == other.total_gib
            && self.phase == other.phase
            && options_alike(&self.backup, &other.backup)
            && self.paused == other.paused
            && options_alike(&self.error, &other.error)
    }
}

impl Maintenance {
    /// The maintenance, paused or resumed.
    pub fn with_pause(&self, paused: bool) -> (r: Maintenance)
        ensures
            r@ == (MaintenanceView { paused, ..self@ }),
    {
        let mut r = self.duplicate();
        r.paused = paused;
        r
    }

    /// The maintenance at another phase.
    pub fn with_phase(&self, phase: Phase) -> (r: Maintenance)
        ensures
            r@ == (MaintenanceView { phase, ..self@ }),
    {
        let mut r = self.duplicate();
        r.phase = phase;
        r
    }

    /// The maintenance with what stopped it.
    pub fn with_error(&self, error: Option<String>) -> (r: Maintenance)
        ensures
            r@ == (MaintenanceView { error: content(error), ..self@ }),
    {
        let mut r = self.duplicate();
        r.error = error;
        r
    }
}

impl Clone for Maintenance {
    fn clone(&self) -> (r: Self)
        ensures
            r@ == self@,
    {
        self.duplicate()
    }
}

/// Storage that disappeared, and since when.
#[derive(Debug)]
pub struct Missing {
    pub since: u64,
    pub last_check: u64,
    pub locations: Vec<Location>,
    pub error: Option<String>,
}

/// The content of a `Missing`.
#[verifier::ext_equal]
pub struct MissingView {
    pub since: u64,
    pub last_check: u64,
    pub locations: Seq<LocationView>,
    pub error: Option<Seq<char>>,
}

impl View for Missing {
    type V = MissingView;

    open spec fn view(&self) -> MissingView {
        MissingView {
            since: self.since,
            last_check: self.last_check,
            locations: contents(self.locations@),
            error: content(self.error),
        }
    }
}

impl Plain for Missing {
    fn duplicate(&self) -> (r: Self) {
        Missing {
            since: self.since,
            last_check: self.last_check,
            locations: copy_list(self.locations.as_slice()),
            error: copy_option(&self.error),
        }
    }

    fn alike(&self, other: &Self) -> (r: bool) {
        self.since == other.since
            && self.last_check == other.last_check
            && lists_alike(self.locations.as_slice(), other.locations.as_slice())
            && options_alike(&self.error, &other.error)
    }
}

impl Clone for Missing {
    fn clone(&self) -> (r: Self)
        ensures
            r@ == self@,
    {
        self.duplicate()
    }
}

/// The durable state of the worker's storage beyond its active disks.
#[derive(Debug)]
pub struct Lifecycle {
    pub initializing: bool,
    pub disabled: bool,
    pub recovery_enabled: bool,
    pub configured_locations: Vec<Location>,
    pub pool_id: Option<u128>,
    pub maintenance: Option<Maintenance>,
    pub missing: Option<Missing>,
    pub retired: Vec<Location>,
    pub cleanup: Vec<Backup>,
}

/// The content of a `Lifecycle`.
#[verifier::ext_equal]
pub struct LifecycleView {
    pub initializing: bool,
    pub disabled: bool,
    pub recovery_enabled: bool,
    pub configured_locations: Seq<LocationView>,
    pub pool_id: Option<u128>,
    pub maintenance: Option<MaintenanceView>,
    pub missing: Option<MissingView>,
    pub retired: Seq<LocationView>,
    pub cleanup: Seq<BackupView>,
}

impl View for Lifecycle {
    type V = LifecycleView;

    open spec fn view(&self) -> LifecycleView {
        LifecycleView {
            initializing: self.initializing,
            disabled: self.disabled,
            recovery_enabled: self.recovery_enabled,
            configured_locations: contents(self.configured_locations@),
            pool_id: self.pool_id,
            maintenance: content(self.maintenance),
            missing: content(self.missing),
            retired: contents(self.retired@),
            cleanup: contents(self.cleanup@),
        }
    }
}

impl Plain for Lifecycle {
    fn duplicate(&self) -> (r: Self) {
        Lifecycle {
            initializing: self.initializing,
            disabled: self.disabled,
            recovery_enabled: self.recovery_enabled,
            configured_locations: copy_list(self.configured_locations.as_slice()),
            pool_id: self.pool_id,
            maintenance: copy_option(&self.maintenance),
            missing: copy_option(&self.missing),
            retired: copy_list(self.retired.as_slice()),
            cleanup: copy_list(self.cleanup.as_slice()),
        }
    }

    fn alike(&self, other: &Self) -> (r: bool) {
        self.initializing == other.initializing
            && self.disabled == other.disabled
            && self.recovery_enabled == other.recovery_enabled
            && lists_alike(self.configured_locations.as_slice(), other.configured_locations.as_slice())
            && self.pool_id == other.pool_id
            && options_alike(&self.maintenance, &other.maintenance)
            && options_alike(&self.missing, &other.missing)
            && lists_alike(self.retired.as_slice(), other.retired.as_slice())
            && lists_alike(self.cleanup.as_slice(), other.cleanup.as_slice())
    }
}

impl Clone for Lifecycle {
    fn clone(&self) -> (r: Self)
        ensures
            r@ == self@,
    {
        self.duplicate()
    }
}

/// What to do about missing storage.
#[derive(Clone, Copy, Debug, PartialEq, Eq, Structural)]
pub enum RecoveryDecision {
    Wait,
    Paused,
    Rebuild,
    Insufficient,
    Failed,
}

impl Default for Lifecycle {
    fn default() -> (r: Self)
        ensures
            r@ == fresh_lifecycle(),
    {
        let r = Lifecycle {
            initializing: false,
            disabled: false,
            recovery_enabled: false,
            configured_locations: Vec::new(),
            pool_id: None,
            maintenance: None,
            missing: None,
            retired: Vec::new(),
            cleanup: Vec::new(),
        };
        assert(r@.configured_locations == Seq::<LocationView>::empty());
        assert(r@.retired == Seq::<LocationView>::empty());
        assert(r@.cleanup == Seq::<BackupView>::empty());
        r
    }
}

/// The storage state of a new installation.
pub open spec fn fresh_lifecycle() -> LifecycleView {
    LifecycleView {
        initializing: false,
        disabled: false,
        recovery_enabled: false,
        configured_locations: Seq::empty(),
        pool_id: None,
        maintenance: None,
        missing: None,
        retired: Seq::empty(),
        cleanup: Seq::empty(),
    }
}

/// What a look at a directory or one of its ancestors finds.
#[derive(Debug)]
pub enum AncestorSight {
    /// It is there; the path that it resolves to is missing where it has none.
    Present(Option<String>),
    Missing,
    Unreadable,
}

/// Where a managed directory resolves to, given what was seen of itself and of
/// its ancestors in turn. Missing parts are taken from the first ancestor that
/// is there.
pub open spec fn replaced_target(
    platform: Seq<char>,
    path: Seq<char>,
    sights: Seq<AncestorSight>,
    k: int,
) -> Result<Seq<char>, Seq<char>>
    decreases sights.len() - k,
{
    if k < 0 || k >= sights.len() {
        Err("Cannot inspect managed storage directory"@)
    } else {
        match sights[k] {
            AncestorSight::Unreadable => Err("Cannot inspect managed storage directory"@),
            AncestorSight::Present(None) => Err("Cannot resolve managed storage directory"@),
            AncestorSight::Present(Some(target)) => Ok(target@),
            AncestorSight::Missing => match (
                host_name(platform, path),
                host_parent(platform, path),
            ) {
                (Some(name), Some(up)) => match replaced_target(platform, up, sights, k + 1) {
                    Ok(target) => Ok(host_join(platform, target, name)),
                    Err(message) => Err(message),
                },
                _ => Err("Cannot resolve managed storage directory"@),
            },
        }
    }
}

fn resolve_replaced(platform: &str, path: &str, sights: &[AncestorSight], k: usize) -> (r: Result<
    String,
    Failure,
>)
    ensures
        match replaced_target(platform@, path@, sights@, k as int) {
            Ok(target) => r matches Ok(t) && t@ == target,
            Err(message) => refusal(r) == Some(message),
        },
    decreases sights@.len() - k,
{
    if k >= sights.len() {
        return Err(fail("Cannot inspect managed storage directory"));
    }
    match &sights[k] {
        AncestorSight::Unreadable => Err(fail("Cannot inspect managed storage directory")),
        AncestorSight::Present(target) => match target {
            None => Err(fail("Cannot resolve managed storage directory")),
            Some(target) => Ok(target.clone()),
        },
        AncestorSight::Missing => match (host_paths::name(platform, path), host_paths::parent(platform, path)) {
            (Some(name), Some(up)) => match resolve_replaced(platform, up.as_str(), sights, k + 1) {
                Ok(target) => Ok(host_paths::join(platform, target.as_str(), name.as_str())),
                Err(e) => Err(e),
            },
            _ => Err(fail("Cannot resolve managed storage directory")),
        },
    }
}

/// Why a backup may not stand where it should go.
pub open spec fn outside_refusal(
    platform: Seq<char>,
    backup: Seq<char>,
    seen: DirectorySight,
    replaced: Seq<char>,
    sights: Seq<AncestorSight>,
) -> Option<Seq<char>> {
    if !host_plain(platform, replaced) {
        Some("Cannot verify the managed storage directory"@)
    } else {
        match resolved_directory(platform, backup, seen) {
            Err(message) => Some(message),
            Ok(place) => match replaced_target(platform, replaced, sights, 0) {
                Err(message) => Some(message),
                Ok(target) => unless(
                    !host_within(platform, place, target),
                    "Choose a backup folder outside the managed VM and image directories that will be replaced"@,
                ),
            },
        }
    }
}

/// A backup must survive deletion of the managed VM and image directories.
/// Aliases are resolved even when a forbidden directory has not been created
/// yet.
pub fn require_backup_outside(
    platform: &str,
    backup: &str,
    seen: &DirectorySight,
    replaced: &str,
    sights: &[AncestorSight],
) -> (r: Result<(), Failure>)
    ensures
        refusal(r) == outside_refusal(platform@, backup@, *seen, replaced@, sights@),
{
    if !host_paths::plain(platform, replaced) {
        return Err(fail("Cannot verify the managed storage directory"));
    }
    let place = match canonical_directory(platform, backup, seen) {
        Ok(place) => place,
        Err(e) => {
            return Err(e);
        },
    };
    let target = match resolve_replaced(platform, replaced, sights, 0) {
        Ok(target) => target,
        Err(e) => {
            return Err(e);
        },
    };
    if host_paths::within(platform, place.as_str(), target.as_str()) {
        return Err(
            fail(
                "Choose a backup folder outside the managed VM and image directories that will be replaced",
            ),
        );
    }
    Ok(())
}

/// Whether one of the locations is at the same place.
pub open spec fn stands_among(s: Seq<LocationView>, l: LocationView) -> bool {
    exists|i: int| 0 <= i < s.len() && same_place(#[trigger] s[i], l)
}

/// Whether one of the locations is at the same place.
pub fn among(s: &[Location], l: &Location) -> (r: bool)
    ensures
        r == stands_among(contents(s@), l@),
{
    for i in 0..s.len()
        invariant
            forall|j: int| 0 <= j < i ==> !same_place((#[trigger] s@[j])@, l@),
    {
        if text::same(s[i].directory.as_str(), l.directory.as_str()) && text::same(
            s[i].volume_id.as_str(),
            l.volume_id.as_str(),
        ) {
            assert(same_place(contents(s@)[i as int], l@));
            return true;
        }
    }
    assert forall|j: int| 0 <= j < contents(s@).len() implies !same_place(
        #[trigger] contents(s@)[j],
        l@,
    ) by {
        assert(!same_place(s@[j]@, l@));
    }
    false
}

/// The configured locations after a change of the active ones: the new active
/// ones, and those that neither were nor become active.
pub open spec fn configured_next(
    configured: Seq<LocationView>,
    previous_active: Seq<LocationView>,
    target: Seq<LocationView>,
) -> Seq<LocationView> {
    target + configured.filter(
        |old: LocationView| !stands_among(previous_active, old) && !stands_among(target, old),
    )
}

/// Filtering one item more.
pub proof fn lemma_filter_push<T>(s: Seq<T>, x: T, keep: spec_fn(T) -> bool)
    ensures
        s.push(x).filter(keep) == (if keep(x) {
            s.filter(keep).push(x)
        } else {
            s.filter(keep)
        }),
{
    reveal(Seq::filter);
    assert(s.push(x).drop_last() == s);
}

/// An explicit active-pool edit does not forget other disks excluded by
/// recovery.
pub fn configured_after_change(
    configured: &[Location],
    previous_active: &[Location],
    target: &[Location],
) -> (r: Vec<Location>)
    ensures
        contents(r@) == configured_next(
            contents(configured@),
            contents(previous_active@),
            contents(target@),
        ),
{
    let ghost keep = |old: LocationView|
        !stands_among(contents(previous_active@), old) && !stands_among(contents(target@), old);
    let ghost c = contents(configured@);
    let mut r = copy_list(target);
    assert(c.take(0).filter(keep) == Seq::<LocationView>::empty()) by {
        reveal(Seq::filter);
    }
    assert(contents(r@) == contents(target@) + c.take(0).filter(keep));
    for i in 0..configured.len()
        invariant
            c == contents(configured@),
            keep == (|old: LocationView|
                !stands_among(contents(previous_active@), old) && !stands_among(
                    contents(target@),
                    old,
                )),
            contents(r@) == contents(target@) + c.take(i as int).filter(keep),
    {
        assert(c.take(i + 1) == c.take(i as int).push(c[i as int]));
        assert(c[i as int] == configured@[i as int]@);
        proof {
            lemma_filter_push(c.take(i as int), c[i as int], keep);
        }
        if !among(previous_active, &configured[i]) && !among(target, &configured[i]) {
            let ghost before = contents(r@);
            r.push(configured[i].clone());
            assert(contents(r@) == before.push(c[i as int]));
        }
    }
    assert(c.take(c.len() as int) == c);
    r
}

pub open spec fn saturated(n: int) -> u64 {
    if n > u64::MAX {
        u64::MAX
    } else {
        n as u64
    }
}

/// Whole GiB that hold the bytes.
pub open spec fn ceil_gib(bytes: int) -> int {
    (bytes + GIB - 1) / GIB as int
}

/// Whole GiB that hold the bytes.
pub fn gib_for(bytes: u64) -> (r: u64)
    ensures
        r == ceil_gib(bytes as int),
{
    if bytes % GIB == 0 {
        bytes / GIB
    } else {
        bytes / GIB + 1
    }
}

/// What a replacement disk needs free: its size without the reclaimed image,
/// the backup, and the host reserve.
pub open spec fn space_required(target_gib: u64, reclaimed_bytes: u64, backup_bytes: u64) -> u64 {
    let kept = if target_gib < reclaimed_bytes / GIB {
        0
    } else {
        target_gib - reclaimed_bytes / GIB
    };
    saturated(kept + ceil_gib(backup_bytes as int) + 10)
}

pub fn replacement_space_required(target_gib: u64, reclaimed_bytes: u64, backup_bytes: u64) -> (r:
    u64)
    ensures
        r == space_required(target_gib, reclaimed_bytes, backup_bytes),
{
    target_gib.saturating_sub(reclaimed_bytes / GIB).saturating_add(
        gib_for(backup_bytes),
    ).saturating_add(10)
}

/// What to do about missing storage: the owner's pause comes first, then a
/// failure, then the wait for consent and for two minutes to pass.
pub fn recovery_decision(
    consent: bool,
    owner_allowed: bool,
    since: u64,
    now: u64,
    remaining_gib: u64,
    failed: bool,
) -> (r: RecoveryDecision)
    ensures
        r == RecoveryDecision::Paused <==> !owner_allowed,
        r == RecoveryDecision::Failed <==> owner_allowed && failed,
        r == RecoveryDecision::Wait <==> owner_allowed && !failed && (!consent || now - since
            < 120),
        r == RecoveryDecision::Insufficient <==> owner_allowed && !failed && consent && now - since
            >= 120 && remaining_gib < 15,
        r == RecoveryDecision::Rebuild <==> owner_allowed && !failed && consent && now - since
            >= 120 && remaining_gib >= 15,
{
    if !owner_allowed {
        return RecoveryDecision::Paused;
    }
    if failed {
        return RecoveryDecision::Failed;
    }
    if !consent || now.saturating_sub(since) < 120 {
        return RecoveryDecision::Wait;
    }
    if remaining_gib < 15 {
        return RecoveryDecision::Insufficient;
    }
    RecoveryDecision::Rebuild
}

/// Whole GiB for the data with a quarter of headroom, and for the operating
/// system where it shares the disk.
pub open spec fn capacity_for(data_bytes: u64, system_disk: bool) -> int {
    ceil_gib((data_bytes * 5 + 3) / 4) + (if system_disk {
        8int
    } else {
        0
    })
}

/// The smallest worker allocation that holds the data.
pub open spec fn capacity_needed(data_bytes: u64, system_disk: bool) -> nat {
    if capacity_for(data_bytes, system_disk) < 15 {
        15
    } else {
        capacity_for(data_bytes, system_disk) as nat
    }
}

/// The smallest worker allocation that holds the data.
pub fn required_capacity(data_bytes: u64, system_disk: bool) -> (r: Result<u64, Failure>)
    ensures
        refusal(r) == unless(data_bytes * 5 <= u64::MAX, "Worker data size overflow"@),
        r matches Ok(gib) ==> gib == (if capacity_for(data_bytes, system_disk) < 15 {
            15
        } else {
            capacity_for(data_bytes, system_disk)
        }),
{
    let five = match data_bytes.checked_mul(5) {
        Some(five) => five,
        None => {
            return Err(fail("Worker data size overflow"));
        },
    };
    let bytes = if five % 4 == 0 {
        five / 4
    } else {
        five / 4 + 1
    };
    let mut size = gib_for(bytes);
    if system_disk {
        size = size + 8;
    }
    if size < 15 {
        size = 15;
    }
    Ok(size)
}

/// A required capacity holds the data with at least a quarter of headroom.
pub proof fn required_capacity_holds_the_data(data_bytes: u64, system_disk: bool)
    ensures
        capacity_for(data_bytes, system_disk) * GIB * 4 >= data_bytes * 5,
{
    let bytes = (data_bytes * 5 + 3) / 4;
    assert(ceil_gib(bytes) * GIB >= bytes);
}

/// What the host shows of an opened backup file.
#[derive(Debug)]
pub struct FileFacts {
    pub regular: bool,
    /// The owner alone may use it.
    pub private: bool,
    pub single_link: bool,
    /// The current user owns it.
    pub owned: bool,
    /// The identity of the volume it stands on, where that can be read.
    pub volume_id: Option<String>,
}

/// Why an opened backup file may not be used.
pub open spec fn backup_file_refusal(facts: FileFacts, volume_id: Seq<char>) -> Option<Seq<char>> {
    if !facts.regular {
        Some("Backup is not a regular file"@)
    } else if !(facts.private && facts.single_link && facts.owned) {
        Some("Backup must be private to the owner"@)
    } else if content(facts.volume_id) != Some(volume_id) {
        Some("The original backup volume has changed"@)
    } else {
        None
    }
}

/// Check an opened backup file before it is read or written.
pub fn check_backup_file(facts: &FileFacts, backup: &Backup) -> (r: Result<(), Failure>)
    ensures
        refusal(r) == backup_file_refusal(*facts, backup.volume_id@),
{
    if !facts.regular {
        return Err(fail("Backup is not a regular file"));
    }
    if !(facts.private && facts.single_link && facts.owned) {
        return Err(fail("Backup must be private to the owner"));
    }
    let same = match &facts.volume_id {
        Some(id) => text::same(id.as_str(), backup.volume_id.as_str()),
        None => false,
    };
    if !same {
        return Err(fail("The original backup volume has changed"));
    }
    Ok(())
}

/// Whether a backup was verified and its checksum kept.
pub open spec fn is_verified(backup: BackupView) -> bool {
    backup.verified && backup.sha256 is Some
}

/// Only a verified backup authorizes the deletion of its source.
pub fn require_verified(backup: &Backup) -> (r: Result<(), Failure>)
    ensures
        refusal(r) == unless(
            is_verified(backup@),
            "No verified backup authorizes source deletion"@,
        ),
{
    if backup.verified && backup.sha256.is_some() {
        Ok(())
    } else {
        Err(fail("No verified backup authorizes source deletion"))
    }
}

/// Why a backup with this checksum and size does not authorize deletion.
pub open spec fn deletion_refusal(backup: BackupView, hash: Seq<char>, size: u64) -> Option<
    Seq<char>,
> {
    if !is_verified(backup) {
        Some("No verified backup authorizes source deletion"@)
    } else if backup.sha256 != Some(hash) || backup.bytes != size {
        Some(
            "Backup checksum failed; preserve the source images and verified recovery record"@,
        )
    } else {
        None
    }
}

/// Check the backup file's checksum and size against its record.
pub fn verified_backup(backup: &Backup, hash: &str, size: u64) -> (r: Result<(), Failure>)
    ensures
        refusal(r) == deletion_refusal(backup@, hash@, size),
{
    match require_verified(backup) {
        Ok(()) => {},
        Err(e) => {
            return Err(e);
        },
    }
    let matches = match &backup.sha256 {
        Some(saved) => text::same(saved.as_str(), hash),
        None => false,
    };
    if matches && backup.bytes == size {
        Ok(())
    } else {
        Err(
            fail("Backup checksum failed; preserve the source images and verified recovery record"),
        )
    }
}

/// The checksum and the size of a backup that was read to its end.
pub fn checksum(read: Checksum) -> (r: (String, u64))
    requires
        read.well_formed(),
    ensures
        r.0@ == sha256_text(read.data()),
        r.1 == read.data().len(),
{
    read.finish()
}

/// Check a backup that was read to its end against its record.
pub fn check_backup(backup: &Backup, read: Checksum) -> (r: Result<(), Failure>)
    requires
        read.well_formed(),
    ensures
        refusal(r) == deletion_refusal(
            backup@,
            sha256_text(read.data()),
            read.data().len() as u64,
        ),
{
    let (hash, size) = checksum(read);
    verified_backup(backup, hash.as_str(), size)
}

/// The text without quotes at its start.
pub open spec fn unquoted_start(t: Seq<char>) -> Seq<char>
    decreases t.len(),
{
    if t.len() > 0 && t[0] == '"' {
        unquoted_start(t.skip(1))
    } else {
        t
    }
}

/// The text without quotes at its end.
pub open spec fn unquoted_end(t: Seq<char>) -> Seq<char>
    decreases t.len(),
{
    if t.len() > 0 && t.last() == '"' {
        unquoted_end(t.drop_last())
    } else {
        t
    }
}

/// The identity of the current Windows user in what `whoami` prints.
pub open spec fn user_sid(printed: Seq<char>) -> Seq<char> {
    let fields = text::split_char(text::trim(printed), ',');
    unquoted_end(unquoted_start(text::trim(fields.last())))
}

/// Whether a text is the identity of a Windows user.
pub open spec fn is_sid(t: Seq<char>) -> bool {
    text::has_prefix(t, "S-1-"@) && forall|i: int|
        0 <= i < t.len() ==> (text::is_digit(#[trigger] t[i]) || t[i] == '-' || t[i] == 'S')
}

fn unquote(t: &[char]) -> (r: Vec<char>)
    ensures
        r@ == unquoted_end(unquoted_start(t@)),
{
    let mut low: usize = 0;
    assert(t@.skip(0) == t@);
    while low < t.len() && t[low] == '"'
        invariant
            low <= t@.len(),
            unquoted_start(t@) == unquoted_start(t@.skip(low as int)),
        decreases t@.len() - low,
    {
        assert(t@.skip(low as int).skip(1) == t@.skip(low + 1));
        low = low + 1;
    }
    let mut high: usize = t.len();
    let ghost rest = t@.skip(low as int);
    assert(rest == unquoted_start(t@));
    assert(t@.subrange(low as int, high as int) == rest);
    while low < high && t[high - 1] == '"'
        invariant
            low <= high <= t@.len(),
            unquoted_end(rest) == unquoted_end(t@.subrange(low as int, high as int)),
        decreases high,
    {
        assert(t@.subrange(low as int, high as int).drop_last() == t@.subrange(
            low as int,
            high - 1,
        ));
        high = high - 1;
    }
    let r = text::slice_of(t, low, high);
    assert(r@ == unquoted_end(r@));
    r
}

fn sid_chars(t: &[char]) -> (r: bool)
    ensures
        r == forall|i: int|
            0 <= i < t@.len() ==> (text::is_digit(#[trigger] t@[i]) || t@[i] == '-' || t@[i]
                == 'S'),
{
    for i in 0..t.len()
        invariant
            forall|j: int|
                0 <= j < i ==> (text::is_digit(#[trigger] t@[j]) || t@[j] == '-' || t@[j] == 'S'),
    {
        let c = t[i];
        if !text::ascii_digit(c) && c != '-' && c != 'S' {
            assert(t@[i as int] == c);
            return false;
        }
    }
    true
}

/// Who a backup on Windows is made private to.
pub fn backup_owner(printed: &str) -> (r: Result<String, Failure>)
    ensures
        if is_sid(user_sid(printed@)) {
            r matches Ok(sid) && sid@ == user_sid(printed@)
        } else {
            refusal(r) == Some("Invalid Windows backup owner"@)
        },
{
    let chars = text::chars_of(printed);
    let trimmed = text::trimmed(chars.as_slice());
    let fields = text::split_on(trimmed.as_slice(), ',');
    let last = &fields[fields.len() - 1];
    assert(text::piece_views(fields@).last() == last@);
    let field = text::trimmed(last.as_slice());
    let sid = unquote(field.as_slice());
    let name = text::string_of(sid.as_slice());
    if text::starts_with(name.as_str(), "S-1-") && sid_chars(sid.as_slice()) {
        Ok(name)
    } else {
        Err(fail("Invalid Windows backup owner"))
    }
}

/// Whether a worker's data, as its guest reports it, still fits in the new
/// disks.
pub fn check_capacity(total: u64, multipass: bool, usage: &Json) -> (r: Result<(), Failure>)
    ensures
        refusal(r) == (match crate::json::number_of(crate::json::at(usage@, "dataBytes"@)) {
            None => Some("Cannot inspect stopped worker data"@),
            Some(bytes) => if bytes * 5 > u64::MAX {
                Some("Worker data size overflow"@)
            } else {
                let needed = capacity_needed(bytes, multipass);
                unless(
                    total >= needed,
                    "Data now requires "@ + text::decimal(needed)
                        + " GiB; source images are preserved"@,
                )
            },
        }),
{
    let bytes = match usage.field_number("dataBytes") {
        Some(bytes) => bytes,
        None => {
            return Err(fail("Cannot inspect stopped worker data"));
        },
    };
    match required_capacity(bytes, multipass) {
        Err(e) => Err(e),
        Ok(needed) => if total >= needed {
            Ok(())
        } else {
            let number = text::decimal_text(needed);
            Err(
                Failure {
                    message: text::join3(
                        "Data now requires ",
                        number.as_str(),
                        " GiB; source images are preserved",
                    ),
                },
            )
        },
    }
}

/// Whether a backup is gone from its original volume.
pub fn backup_removed(exists: bool, volume: Option<&str>, backup: &Backup) -> (r: bool)
    ensures
        r == (!exists && (match volume {
            Some(id) => id@ == backup@.volume_id,
            None => false,
        })),
{
    match volume {
        Some(id) => !exists && text::same(id, backup.volume_id.as_str()),
        None => false,
    }
}

} // verus!
