//! The planner of worker disks: which selections are accepted, what they claim
//! from the host's storage pools, and in which order the disks are attached.
use crate::failure::{fail, refusal, unless, Failure};
use crate::identity;
use crate::host_paths::{self, host_within};
use crate::paths;
use crate::storage::{
    canonical_directory, deepest, has_id, lemma_rank, location_views, position, rank,
    resolved_directory, selection_views, uses_native_identity, volume_for, volume_with_id,
    DirectorySight, HostPath, Location, LocationView, Mounts, Selection, SelectionView, Volume,
    VolumeView, GIB, HOST_RESERVE_GIB, MAXIMUM_GIB,
};
use crate::text;
use crate::values::contents;
use vstd::prelude::*;
use vstd::utf8::encode_utf8;

verus! {

/// What a write probe of a storage directory finds.
#[derive(Clone, Copy, Debug, PartialEq, Eq, Structural)]
pub enum Probe {
    Writable,
    MissingParent,
    Unreadable,
    ReadOnly,
    Denied,
    Unwritable,
}

pub open spec fn probe_refusal(probe: Probe) -> Option<Seq<char>> {
    match probe {
        Probe::Writable => None,
        Probe::MissingParent => Some("Missing storage parent"@),
        Probe::Unreadable => Some("Cannot inspect the selected storage directory"@),
        Probe::ReadOnly => Some("Storage directory is read-only"@),
        Probe::Denied => Some("No permission to write in the selected storage directory"@),
        Probe::Unwritable => Some("Cannot write to the selected storage volume"@),
    }
}

fn check_probe(probe: Probe) -> (r: Result<(), Failure>)
    ensures
        refusal(r) == probe_refusal(probe),
{
    match probe {
        Probe::Writable => Ok(()),
        Probe::MissingParent => Err(fail("Missing storage parent")),
        Probe::Unreadable => Err(fail("Cannot inspect the selected storage directory")),
        Probe::ReadOnly => Err(fail("Storage directory is read-only")),
        Probe::Denied => Err(fail("No permission to write in the selected storage directory")),
        Probe::Unwritable => Err(fail("Cannot write to the selected storage volume")),
    }
}

/// What the host shows of a selected directory: where it resolves to, the
/// native identity of its volume on macOS, and whether it can be written.
#[derive(Debug)]
pub struct Sighting {
    pub seen: DirectorySight,
    pub native_volume: Option<String>,
    pub probe: Probe,
}

/// An accepted disk: where it goes and what it claims from its pool. A kept
/// disk has its identifier.
#[derive(Debug)]
pub struct Claim {
    pub kept: Option<String>,
    pub volume_id: String,
    pub directory: String,
    pub allocation_gib: u64,
    pub pool: String,
    pub needed_gib: u64,
    pub available_gib: u64,
}

/// The content of a claim.
pub struct ClaimView {
    pub kept: Option<Seq<char>>,
    pub volume_id: Seq<char>,
    pub directory: Seq<char>,
    pub allocation_gib: u64,
    pub pool: Seq<char>,
    pub needed_gib: u64,
    pub available_gib: u64,
}

impl View for Claim {
    type V = ClaimView;

    open spec fn view(&self) -> ClaimView {
        ClaimView {
            kept: text::option_view(self.kept),
            volume_id: self.volume_id@,
            directory: self.directory@,
            allocation_gib: self.allocation_gib,
            pool: self.pool@,
            needed_gib: self.needed_gib,
            available_gib: self.available_gib,
        }
    }
}

pub open spec fn claim_views(s: Seq<Claim>) -> Seq<ClaimView> {
    contents(s)
}

/// What the claims take from a pool, in GiB.
pub open spec fn pool_need(claims: Seq<ClaimView>, pool: Seq<char>) -> nat
    decreases claims.len(),
{
    if claims.len() == 0 {
        0
    } else {
        pool_need(claims.drop_last(), pool) + (if claims.last().pool == pool {
            claims.last().needed_gib as nat
        } else {
            0
        })
    }
}

/// The least free space that the volumes of the claims on a pool report; the
/// given space where there is no claim.
pub open spec fn pool_room(claims: Seq<ClaimView>, pool: Seq<char>, space: u64) -> u64
    decreases claims.len(),
{
    if claims.len() == 0 {
        space
    } else {
        let before = pool_room(claims.drop_last(), pool, space);
        if claims.last().pool == pool && claims.last().available_gib < before {
            claims.last().available_gib
        } else {
            before
        }
    }
}

/// The filesystems that can hold a worker disk.
pub open spec fn supported_filesystem(name: Seq<char>) -> bool {
    let lower = text::ascii_lower(name);
    lower == "apfs"@ || lower == "ext4"@ || lower == "xfs"@
}

/// The physical bytes that an owned image takes; 0 for an unknown one.
pub open spec fn credited_bytes(credits: Seq<(String, u64)>, id: Seq<char>, i: int) -> u64
    decreases credits.len() - i,
{
    if i < 0 || i >= credits.len() {
        0
    } else if credits[i].0@ == id {
        credits[i].1
    } else {
        credited_bytes(credits, id, i + 1)
    }
}

/// What a plan is made from.
pub struct PlanInput {
    pub volumes: Seq<VolumeView>,
    pub mounts: Mounts,
    pub previous: Seq<LocationView>,
    pub credits: Seq<(String, u64)>,
}

/// Whether a directory lies within an accepted one or holds one.
pub open spec fn overlaps(platform: Seq<char>, claims: Seq<ClaimView>, path: Seq<char>) -> bool {
    exists|i: int|
        0 <= i < claims.len() && (host_within(
            platform,
            path,
            (#[trigger] claims[i]).directory,
        ) || host_within(platform, claims[i].directory, path))
}

/// Whether a disk was already kept.
pub open spec fn already_kept(claims: Seq<ClaimView>, id: Seq<char>) -> bool {
    exists|i: int| 0 <= i < claims.len() && (#[trigger] claims[i]).kept == Some(id)
}

/// What a disk takes from its pool: its allocation without what its image at
/// the same place already takes.
pub open spec fn claim_of(
    previous: Seq<LocationView>,
    credits: Seq<(String, u64)>,
    selection: SelectionView,
    path: Seq<char>,
    volume: VolumeView,
) -> ClaimView {
    let credit: int = if selection.id matches Some(id) && has_id(previous, id) && previous[rank(
        previous,
        id,
    )].directory == path && previous[rank(previous, id)].volume_id == volume.id {
        (credited_bytes(credits, selection.id->0, 0) / GIB) as int
    } else {
        0
    };
    ClaimView {
        kept: selection.id,
        volume_id: volume.id,
        directory: path,
        allocation_gib: selection.allocation_gib,
        pool: volume.capacity_pool,
        needed_gib: (if selection.allocation_gib < credit {
            0
        } else {
            selection.allocation_gib - credit
        }) as u64,
        available_gib: volume.available_gib,
    }
}

/// Whether the claim leaves its pool the host reserve.
pub open spec fn leaves_reserve(claims: Seq<ClaimView>, claim: ClaimView) -> bool {
    let room = pool_room(claims, claim.pool, claim.available_gib);
    pool_need(claims, claim.pool) + claim.needed_gib <= (if room < HOST_RESERVE_GIB {
        0
    } else {
        room - HOST_RESERVE_GIB
    })
}

/// The claim of the next selection after the accepted ones, or why it is
/// refused.
pub open spec fn next_claim(
    input: PlanInput,
    claims: Seq<ClaimView>,
    selection: SelectionView,
    seen: DirectorySight,
    native_volume: Option<String>,
) -> Result<ClaimView, Seq<char>> {
    if !(1 <= selection.allocation_gib <= MAXIMUM_GIB) {
        Err("Choose an allocation between 1 and 1048576 GiB"@)
    } else if encode_utf8(selection.directory).len() > 4096 {
        Err("Storage directory is too long"@)
    } else {
        match resolved_directory(input.mounts.platform@, selection.directory, seen) {
            Err(message) => Err(message),
            Ok(path) => if overlaps(input.mounts.platform@, claims, path) {
                Err("Storage directories must not duplicate or overlap"@)
            } else {
                match volume_of(input, path, native_volume) {
                    None => Err("Storage volume is unavailable"@),
                    Some(i) => volume_claim(
                        input.previous,
                        input.credits,
                        claims,
                        selection,
                        path,
                        input.volumes[i],
                    ),
                }
            },
        }
    }
}

/// The volume that a resolved path stands on.
pub open spec fn volume_of(
    input: PlanInput,
    path: Seq<char>,
    native_volume: Option<String>,
) -> Option<int> {
    if uses_native_identity(input.mounts, input.volumes) {
        match native_volume {
            Some(id) => volume_with_id(input.volumes, id@, 0),
            None => None,
        }
    } else {
        deepest(input.mounts, path, input.volumes.len() as int)
    }
}

/// The claim of a selection on its volume, or why it is refused.
pub open spec fn volume_claim(
    previous: Seq<LocationView>,
    credits: Seq<(String, u64)>,
    claims: Seq<ClaimView>,
    selection: SelectionView,
    path: Seq<char>,
    volume: VolumeView,
) -> Result<ClaimView, Seq<char>> {
    let id = selection.id;
    let claim = claim_of(previous, credits, selection, path, volume);
    if !volume.eligible {
        Err(volume.label + ": "@ + volume.reason)
    } else if !supported_filesystem(volume.filesystem) {
        Err("Unsupported host filesystem: "@ + volume.filesystem)
    } else if volume.id.len() == 0 || volume.capacity_pool.len() == 0 {
        Err("Storage volume identity is unavailable"@)
    } else if id is Some && already_kept(claims, id->0) {
        Err("A disk cannot be selected twice"@)
    } else if id is Some && !has_id(previous, id->0) {
        Err("Unknown storage disk identity"@)
    } else if !leaves_reserve(claims, claim) {
        Err(
            "Not enough free space on "@ + volume.label
                + "; leave 10 GiB free in each storage pool"@,
        )
    } else {
        Ok(claim)
    }
}

/// The claims of the first `n` selections, or the first refusal.
pub open spec fn claims_upto(
    input: PlanInput,
    selections: Seq<SelectionView>,
    sightings: Seq<Sighting>,
    n: int,
) -> Result<Seq<ClaimView>, Seq<char>>
    decreases n,
{
    if n <= 0 {
        Ok(Seq::empty())
    } else {
        match claims_upto(input, selections, sightings, n - 1) {
            Err(message) => Err(message),
            Ok(claims) => match next_claim(
                input,
                claims,
                selections[n - 1],
                sightings[n - 1].seen,
                sightings[n - 1].native_volume,
            ) {
                Err(message) => Err(message),
                Ok(claim) => match probe_refusal(sightings[n - 1].probe) {
                    Some(message) => Err(message),
                    None => Ok(claims.push(claim)),
                },
            },
        }
    }
}

/// Bounds that every list of accepted claims keeps.
pub open spec fn bounded(claims: Seq<ClaimView>) -> bool {
    claims.len() <= 16 && forall|i: int|
        0 <= i < claims.len() ==> (#[trigger] claims[i]).needed_gib <= MAXIMUM_GIB
            && claims[i].allocation_gib <= MAXIMUM_GIB
}

proof fn lemma_need_bounded(claims: Seq<ClaimView>, pool: Seq<char>)
    requires
        forall|i: int| 0 <= i < claims.len() ==> (#[trigger] claims[i]).needed_gib <= MAXIMUM_GIB,
    ensures
        pool_need(claims, pool) <= claims.len() * MAXIMUM_GIB,
    decreases claims.len(),
{
    if claims.len() > 0 {
        lemma_need_bounded(claims.drop_last(), pool);
    }
}

fn need_of(claims: &[Claim], pool: &str) -> (r: u64)
    requires
        bounded(claim_views(claims@)),
    ensures
        r == pool_need(claim_views(claims@), pool@),
{
    let ghost v = claim_views(claims@);
    let mut total: u64 = 0;
    assert(v.take(0) == Seq::<ClaimView>::empty());
    for i in 0..claims.len()
        invariant
            v == claim_views(claims@),
            bounded(v),
            total == pool_need(v.take(i as int), pool@),
    {
        assert(v[i as int] == claims@[i as int]@);
        assert(v.take(i + 1).drop_last() == v.take(i as int));
        proof {
            lemma_need_bounded(v.take(i as int), pool@);
        }
        if text::same(claims[i].pool.as_str(), pool) {
            total = total + claims[i].needed_gib;
        }
    }
    assert(v.take(claims@.len() as int) == v);
    total
}

fn room_of(claims: &[Claim], pool: &str, space: u64) -> (r: u64)
    ensures
        r == pool_room(claim_views(claims@), pool@, space),
{
    let ghost v = claim_views(claims@);
    let mut room: u64 = space;
    assert(v.take(0) == Seq::<ClaimView>::empty());
    for i in 0..claims.len()
        invariant
            v == claim_views(claims@),
            room == pool_room(v.take(i as int), pool@, space),
    {
        assert(v[i as int] == claims@[i as int]@);
        assert(v.take(i + 1).drop_last() == v.take(i as int));
        if text::same(claims[i].pool.as_str(), pool) && claims[i].available_gib < room {
            room = claims[i].available_gib;
        }
    }
    assert(v.take(claims@.len() as int) == v);
    room
}

fn overlapping(platform: &str, claims: &[Claim], path: &str) -> (r: bool)
    ensures
        r == overlaps(platform@, claim_views(claims@), path@),
{
    for i in 0..claims.len()
        invariant
            forall|j: int|
                0 <= j < i ==> !host_within(platform@, path@, (#[trigger] claims@[j]).directory@)
                    && !host_within(platform@, claims@[j].directory@, path@),
    {
        if host_paths::within(platform, path, claims[i].directory.as_str()) || host_paths::within(
            platform,
            claims[i].directory.as_str(),
            path,
        ) {
            assert(claim_views(claims@)[i as int].directory == claims@[i as int].directory@);
            return true;
        }
    }
    false
}

fn kept_before(claims: &[Claim], id: &str) -> (r: bool)
    ensures
        r == already_kept(claim_views(claims@), id@),
{
    for i in 0..claims.len()
        invariant
            forall|j: int| 0 <= j < i ==> claim_views(claims@)[j].kept != Some(id@),
    {
        assert(claim_views(claims@)[i as int] == claims@[i as int]@);
        if let Some(kept) = &claims[i].kept {
            if text::same(kept.as_str(), id) {
                return true;
            }
        }
    }
    false
}

pub(crate) fn credit_for(credits: &[(String, u64)], id: &str) -> (r: u64)
    ensures
        r == credited_bytes(credits@, id@, 0),
{
    let mut i: usize = 0;
    while i < credits.len()
        invariant
            i <= credits@.len(),
            credited_bytes(credits@, id@, 0) == credited_bytes(credits@, id@, i as int),
        decreases credits@.len() - i,
    {
        if text::same(credits[i].0.as_str(), id) {
            return credits[i].1;
        }
        i = i + 1;
    }
    0
}

fn filesystem_supported(name: &str) -> (r: bool)
    ensures
        r == supported_filesystem(name@),
{
    let chars = text::chars_of(name);
    let lower = text::lowered(chars.as_slice());
    let kind = text::string_of(lower.as_slice());
    text::same(kind.as_str(), "apfs") || text::same(kind.as_str(), "ext4") || text::same(
        kind.as_str(),
        "xfs",
    )
}

/// The accepted disks of a plan in the making. Selections are considered one by
/// one; each is probed on the host before it is accepted.
#[derive(Debug)]
pub struct Planner {
    pub claims: Vec<Claim>,
}

impl Planner {
    pub open spec fn well_formed(&self) -> bool {
        bounded(claim_views(self.claims@))
    }

    pub fn new() -> (r: Self)
        ensures
            r.well_formed(),
            claim_views(r.claims@) == Seq::<ClaimView>::empty(),
    {
        let claims: Vec<Claim> = Vec::new();
        assert(claim_views(claims@) == Seq::<ClaimView>::empty());
        Planner { claims }
    }

    /// The claim of the next selection, or why it is refused.
    pub fn consider(
        &self,
        selection: &Selection,
        seen: &DirectorySight,
        native_volume: &Option<String>,
        volumes: &[Volume],
        mounts: &Mounts,
        previous: &[Location],
        credits: &[(String, u64)],
    ) -> (r: Result<Claim, Failure>)
        requires
            self.well_formed(),
        ensures
            match next_claim(
                plan_input(contents(volumes@), *mounts, previous@, credits@),
                claim_views(self.claims@),
                selection@,
                *seen,
                *native_volume,
            ) {
                Ok(claim) => r matches Ok(c) && c@ == claim,
                Err(message) => refusal(r) == Some(message),
            },
            r matches Ok(c) ==> c.needed_gib <= MAXIMUM_GIB && c.allocation_gib <= MAXIMUM_GIB,
    {
        if selection.allocation_gib < 1 || selection.allocation_gib > MAXIMUM_GIB {
            return Err(fail("Choose an allocation between 1 and 1048576 GiB"));
        }
        if paths::byte_len(selection.directory.as_str()) > 4096 {
            return Err(fail("Storage directory is too long"));
        }
        let path = match canonical_directory(mounts.platform.as_str(), selection.directory.as_str(), seen) {
            Ok(path) => path,
            Err(e) => {
                return Err(e);
            },
        };
        if overlapping(mounts.platform.as_str(), self.claims.as_slice(), path.as_str()) {
            return Err(fail("Storage directories must not duplicate or overlap"));
        }
        let place = HostPath { path, native_volume: native_volume.clone() };
        proof {
            if place.native_volume is Some {
                assert(native_volume is Some);
                assert(place.native_volume->0@ == native_volume->0@);
            }
        }
        let index = match volume_for(&place, volumes, mounts) {
            Some(index) => index,
            None => {
                return Err(fail("Storage volume is unavailable"));
            },
        };
        self.claim_on(selection, place.path, &volumes[index], previous, credits)
    }

    fn claim_on(
        &self,
        selection: &Selection,
        path: String,
        volume: &Volume,
        previous: &[Location],
        credits: &[(String, u64)],
    ) -> (r: Result<Claim, Failure>)
        requires
            self.well_formed(),
            1 <= selection.allocation_gib <= MAXIMUM_GIB,
        ensures
            match volume_claim(
                location_views(previous@),
                credits@,
                claim_views(self.claims@),
                selection@,
                path@,
                volume@,
            ) {
                Ok(claim) => r matches Ok(c) && c@ == claim,
                Err(message) => refusal(r) == Some(message),
            },
            r matches Ok(c) ==> c.needed_gib <= MAXIMUM_GIB && c.allocation_gib <= MAXIMUM_GIB,
    {
        let ghost old_views = location_views(previous@);
        if !volume.eligible {
            let message = text::join3(volume.label.as_str(), ": ", volume.reason.as_str());
            return Err(Failure { message });
        }
        if !filesystem_supported(volume.filesystem.as_str()) {
            let message = text::join2("Unsupported host filesystem: ", volume.filesystem.as_str());
            return Err(Failure { message });
        }
        if volume.id.as_str().is_empty() || volume.capacity_pool.as_str().is_empty() {
            return Err(fail("Storage volume identity is unavailable"));
        }
        let mut credit: u64 = 0;
        if let Some(id) = &selection.id {
            if kept_before(self.claims.as_slice(), id.as_str()) {
                return Err(fail("A disk cannot be selected twice"));
            }
            let place = position(previous, id.as_str());
            proof {
                lemma_rank(old_views, id@, 0);
            }
            if place == previous.len() {
                return Err(fail("Unknown storage disk identity"));
            }
            assert(old_views[place as int] == previous@[place as int]@);
            assert(has_id(old_views, id@));
            if text::same(previous[place].directory.as_str(), path.as_str()) && text::same(
                previous[place].volume_id.as_str(),
                volume.id.as_str(),
            ) {
                credit = credit_for(credits, id.as_str()) / GIB;
            }
        }
        let claim = Claim {
            kept: selection.id.clone(),
            volume_id: volume.id.clone(),
            directory: path,
            allocation_gib: selection.allocation_gib,
            pool: volume.capacity_pool.clone(),
            needed_gib: selection.allocation_gib.saturating_sub(credit),
            available_gib: volume.available_gib,
        };
        proof {
            assert(text::option_view(claim.kept) == text::option_view(selection.id));
            assert(claim@ == claim_of(old_views, credits@, selection@, path@, volume@));
            lemma_need_bounded(claim_views(self.claims@), claim.pool@);
        }
        let used = need_of(self.claims.as_slice(), claim.pool.as_str());
        let room = room_of(self.claims.as_slice(), claim.pool.as_str(), claim.available_gib);
        if used + claim.needed_gib > room.saturating_sub(HOST_RESERVE_GIB) {
            let message = text::join3(
                "Not enough free space on ",
                volume.label.as_str(),
                "; leave 10 GiB free in each storage pool",
            );
            return Err(Failure { message });
        }
        Ok(claim)
    }

    /// Accept a considered selection after its write probe. A refused probe
    /// leaves the plan as it was.
    pub fn accept(&mut self, claim: Claim, probe: Probe) -> (r: Result<(), Failure>)
        requires
            old(self).well_formed(),
            old(self).claims@.len() < 16,
            claim.needed_gib <= MAXIMUM_GIB,
            claim.allocation_gib <= MAXIMUM_GIB,
        ensures
            final(self).well_formed(),
            refusal(r) == probe_refusal(probe),
            r is Ok ==> claim_views(final(self).claims@) == claim_views(old(self).claims@).push(
                claim@,
            ),
            r is Err ==> final(self).claims@ == old(self).claims@,
    {
        match check_probe(probe) {
            Ok(()) => {
                let ghost before = claim_views(self.claims@);
                let ghost added = claim@;
                self.claims.push(claim);
                assert(claim_views(self.claims@) == before.push(added));
                Ok(())
            },
            Err(e) => Err(e),
        }
    }

    /// The disks of the finished plan. New disks take their identifiers from
    /// the fresh identities, one for each claim. Existing attachment order
    /// remains stable and new disks append to the pool.
    pub fn finish(&self, fresh: &[u128], previous: &[Location]) -> (r: Result<
        Vec<Location>,
        Failure,
    >)
        requires
            self.well_formed(),
            fresh@.len() == self.claims@.len(),
        ensures
            refusal(r) == unless(
                claimed_total(claim_views(self.claims@)) >= 15,
                "Choose at least 15 GiB of combined worker storage"@,
            ),
            r matches Ok(planned) ==> location_views(planned@) == ordered(
                drawn(claim_views(self.claims@), fresh@),
                location_views(previous@),
            ),
    {
        let ghost v = claim_views(self.claims@);
        let ghost old_views = location_views(previous@);
        let mut total: u64 = 0;
        let mut planned: Vec<Location> = Vec::new();
        assert(v.take(0) == Seq::<ClaimView>::empty());
        assert(drawn(v, fresh@).take(0) == Seq::<LocationView>::empty());
        assert(location_views(planned@) == ordered(drawn(v, fresh@).take(0), old_views));
        for i in 0..self.claims.len()
            invariant
                v == claim_views(self.claims@),
                bounded(v),
                fresh@.len() == v.len(),
                old_views == location_views(previous@),
                total == claimed_total(v.take(i as int)),
                total <= i * MAXIMUM_GIB,
                location_views(planned@) == ordered(drawn(v, fresh@).take(i as int), old_views),
        {
            let claim = &self.claims[i];
            assert(v[i as int] == claim@);
            assert(v.take(i + 1).drop_last() == v.take(i as int));
            assert(drawn(v, fresh@).take(i + 1).drop_last() == drawn(v, fresh@).take(i as int));
            total = total + claim.allocation_gib;
            let id = match &claim.kept {
                Some(id) => id.clone(),
                None => identity::disk_identifier(fresh[i]),
            };
            let location = Location {
                id,
                volume_id: claim.volume_id.clone(),
                directory: claim.directory.clone(),
                allocation_gib: claim.allocation_gib,
            };
            assert(location@ == drawn(v, fresh@)[i as int]);
            insert_ranked(&mut planned, location, previous);
        }
        assert(v.take(v.len() as int) == v);
        assert(drawn(v, fresh@).take(v.len() as int) == drawn(v, fresh@));
        if total < 15 {
            return Err(fail("Choose at least 15 GiB of combined worker storage"));
        }
        Ok(planned)
    }
}

/// What the claims allocate together, in GiB.
pub open spec fn claimed_total(claims: Seq<ClaimView>) -> nat
    decreases claims.len(),
{
    if claims.len() == 0 {
        0
    } else {
        claimed_total(claims.drop_last()) + claims.last().allocation_gib as nat
    }
}

/// The disks of the claims in the order of their selection.
pub open spec fn drawn(claims: Seq<ClaimView>, fresh: Seq<u128>) -> Seq<LocationView> {
    Seq::new(
        claims.len(),
        |i: int|
            LocationView {
                id: match claims[i].kept {
                    Some(id) => id,
                    None => identity::disk_name(fresh[i]),
                },
                volume_id: claims[i].volume_id,
                directory: claims[i].directory,
                allocation_gib: claims[i].allocation_gib,
            },
    )
}

/// Where a disk of rank `k` goes among ranked disks: behind all of its rank or
/// a lower one.
pub open spec fn slot_from(
    s: Seq<LocationView>,
    previous: Seq<LocationView>,
    k: int,
    i: int,
) -> int
    decreases s.len() - i,
{
    if i < 0 || i >= s.len() {
        s.len() as int
    } else if rank(previous, s[i].id) > k {
        i
    } else {
        slot_from(s, previous, k, i + 1)
    }
}

/// The disks, each inserted behind those of its rank or a lower one.
pub open spec fn ordered(s: Seq<LocationView>, previous: Seq<LocationView>) -> Seq<LocationView>
    decreases s.len(),
{
    if s.len() == 0 {
        Seq::empty()
    } else {
        let before = ordered(s.drop_last(), previous);
        before.insert(
            slot_from(before, previous, rank(previous, s.last().id), 0),
            s.last(),
        )
    }
}

fn insert_ranked(planned: &mut Vec<Location>, location: Location, previous: &[Location])
    ensures
        location_views(final(planned)@) == location_views(old(planned)@).insert(
            slot_from(
                location_views(old(planned)@),
                location_views(previous@),
                rank(location_views(previous@), location@.id),
                0,
            ),
            location@,
        ),
{
    let ghost v = location_views(planned@);
    let ghost old_views = location_views(previous@);
    let place = position(previous, location.id.as_str());
    let mut i: usize = 0;
    while i < planned.len() && position(previous, planned[i].id.as_str()) <= place
        invariant
            i <= planned@.len(),
            v == location_views(planned@),
            old_views == location_views(previous@),
            place == rank(old_views, location.id@),
            slot_from(v, old_views, place as int, 0) == slot_from(
                v,
                old_views,
                place as int,
                i as int,
            ),
        decreases planned@.len() - i,
    {
        assert(v[i as int] == planned@[i as int]@);
        i = i + 1;
    }
    if i < planned.len() {
        assert(v[i as int] == planned@[i as int]@);
    }
    let ghost added = location@;
    planned.insert(i, location);
    assert(location_views(planned@) == v.insert(i as int, added));
}

/// The values that a plan is made from.
pub open spec fn plan_input(
    volumes: Seq<VolumeView>,
    mounts: Mounts,
    previous: Seq<Location>,
    credits: Seq<(String, u64)>,
) -> PlanInput {
    PlanInput { volumes, mounts, previous: location_views(previous), credits }
}

/// The selections, or the default one where there is none.
pub open spec fn effective_selections(
    selections: Seq<SelectionView>,
    default_directory: Seq<char>,
    default_gib: u64,
) -> Seq<SelectionView> {
    if selections.len() == 0 {
        seq![
            SelectionView { id: None, directory: default_directory, allocation_gib: default_gib },
        ]
    } else {
        selections
    }
}

/// Why a plan is refused, or its claims.
pub open spec fn plan_claims(
    input: PlanInput,
    selections: Seq<SelectionView>,
    sightings: Seq<Sighting>,
) -> Result<Seq<ClaimView>, Seq<char>> {
    if selections.len() > 16 {
        Err("Choose at most 16 storage locations"@)
    } else {
        match claims_upto(input, selections, sightings, selections.len() as int) {
            Err(message) => Err(message),
            Ok(claims) => if claimed_total(claims) >= 15 {
                Ok(claims)
            } else {
                Err("Choose at least 15 GiB of combined worker storage"@)
            },
        }
    }
}

/// Plan the worker's disks. Credits are actual allocated host bytes, never the
/// logical size of a sparse image. There is one sighting for each selection, or
/// one for the default directory where nothing is selected.
pub fn plan_change(
    selections: &[Selection],
    default_directory: &str,
    default_gib: u64,
    volumes: &[Volume],
    mounts: &Mounts,
    previous: &[Location],
    credits: &[(String, u64)],
    sightings: &[Sighting],
) -> (r: Result<Vec<Location>, Failure>)
    requires
        sightings@.len() == effective_selections(
            selection_views(selections@),
            default_directory@,
            default_gib,
        ).len(),
    ensures
        match plan_claims(
            plan_input(contents(volumes@), *mounts, previous@, credits@),
            effective_selections(selection_views(selections@), default_directory@, default_gib),
            sightings@,
        ) {
            Ok(claims) => r matches Ok(planned) && exists|fresh: Seq<u128>|
                identity::are_random(fresh)
                    && fresh.len() == claims.len()
                    && location_views(planned@) == #[trigger] ordered(
                    drawn(claims, fresh),
                    location_views(previous@),
                ),
            Err(message) => refusal(r) == Some(message),
        },
{
    let ghost input = plan_input(contents(volumes@), *mounts, previous@, credits@);
    let ghost wanted = effective_selections(
        selection_views(selections@),
        default_directory@,
        default_gib,
    );
    if selections.len() > 16 {
        return Err(fail("Choose at most 16 storage locations"));
    }
    let mut defaults: Vec<Selection> = Vec::new();
    let chosen: &[Selection] = if selections.is_empty() {
        defaults.push(
            Selection { id: None, directory: default_directory.to_owned(), allocation_gib: default_gib },
        );
        assert(selection_views(defaults@) == wanted);
        defaults.as_slice()
    } else {
        selections
    };
    assert(selection_views(chosen@) == wanted);
    let mut planner = Planner::new();
    for i in 0..chosen.len()
        invariant
            selection_views(chosen@) == wanted,
            sightings@.len() == wanted.len(),
            wanted.len() <= 16,
            input == plan_input(contents(volumes@), *mounts, previous@, credits@),
            planner.well_formed(),
            planner.claims@.len() == i,
            claims_upto(input, wanted, sightings@, i as int) == Ok::<Seq<ClaimView>, Seq<char>>(
                claim_views(planner.claims@),
            ),
            wanted == effective_selections(
                selection_views(selections@),
                default_directory@,
                default_gib,
            ),
    {
        assert(wanted[i as int] == chosen@[i as int]@);
        let sighting = &sightings[i];
        let claim = match planner.consider(
            &chosen[i],
            &sighting.seen,
            &sighting.native_volume,
            volumes,
            mounts,
            previous,
            credits,
        ) {
            Ok(claim) => claim,
            Err(e) => {
                proof {
                    lemma_refused(input, wanted, sightings@, i + 1, wanted.len() as int);
                }
                return Err(e);
            },
        };
        match planner.accept(claim, sighting.probe) {
            Ok(()) => {},
            Err(e) => {
                proof {
                    lemma_refused(input, wanted, sightings@, i + 1, wanted.len() as int);
                }
                return Err(e);
            },
        }
        assert(claim_views(planner.claims@).len() == planner.claims@.len());
    }
    let fresh = identity::random_uuids(planner.claims.len());
    planner.finish(fresh.as_slice(), previous)
}

/// A refusal of a selection is the refusal of the plan.
proof fn lemma_refused(
    input: PlanInput,
    selections: Seq<SelectionView>,
    sightings: Seq<Sighting>,
    i: int,
    n: int,
)
    requires
        0 <= i <= n,
        claims_upto(input, selections, sightings, i) is Err,
    ensures
        claims_upto(input, selections, sightings, n) == claims_upto(input, selections, sightings, i),
    decreases n,
{
    if i < n {
        lemma_refused(input, selections, sightings, i, n - 1);
    }
}

/// A new allocation plan. Existing allocated disks must be handled separately;
/// adding their logical sizes to free space could overcommit sparse images.
pub fn plan(
    selections: &[Selection],
    default_directory: &str,
    default_gib: u64,
    volumes: &[Volume],
    mounts: &Mounts,
    sightings: &[Sighting],
) -> (r: Result<Vec<Location>, Failure>)
    requires
        sightings@.len() == effective_selections(
            selection_views(selections@),
            default_directory@,
            default_gib,
        ).len(),
    ensures
        match plan_claims(
            plan_input(contents(volumes@), *mounts, Seq::empty(), Seq::empty()),
            effective_selections(selection_views(selections@), default_directory@, default_gib),
            sightings@,
        ) {
            Ok(claims) => r matches Ok(planned) && exists|fresh: Seq<u128>|
                identity::are_random(fresh)
                    && fresh.len() == claims.len()
                    && location_views(planned@) == #[trigger] ordered(
                    drawn(claims, fresh),
                    Seq::empty(),
                ),
            Err(message) => refusal(r) == Some(message),
        },
{
    let previous: Vec<Location> = Vec::new();
    let credits: Vec<(String, u64)> = Vec::new();
    assert(location_views(previous@) == Seq::<LocationView>::empty());
    assert(previous@ == Seq::<Location>::empty());
    assert(credits@ == Seq::<(String, u64)>::empty());
    plan_change(
        selections,
        default_directory,
        default_gib,
        volumes,
        mounts,
        previous.as_slice(),
        credits.as_slice(),
        sightings,
    )
}

proof fn lemma_room_bounds(claims: Seq<ClaimView>, pool: Seq<char>, space: u64)
    ensures
        pool_room(claims, pool, space) <= space,
        forall|i: int|
            0 <= i < claims.len() && (#[trigger] claims[i]).pool == pool ==> pool_room(
                claims,
                pool,
                space,
            ) <= claims[i].available_gib,
    decreases claims.len(),
{
    if claims.len() > 0 {
        lemma_room_bounds(claims.drop_last(), pool, space);
        assert forall|i: int|
            0 <= i < claims.len() && (#[trigger] claims[i]).pool == pool implies pool_room(
            claims,
            pool,
            space,
        ) <= claims[i].available_gib by {
            if i < claims.len() - 1 {
                assert(claims.drop_last()[i] == claims[i]);
            }
        }
    }
}

/// Whether the disks claimed from the pool of claim `i` leave the host reserve
/// on the volume of that claim.
pub open spec fn within_reserve(claims: Seq<ClaimView>, i: int) -> bool {
    pool_need(claims, claims[i].pool) <= (if claims[i].available_gib < HOST_RESERVE_GIB {
        0
    } else {
        claims[i].available_gib - HOST_RESERVE_GIB
    })
}

/// An accepted plan never overcommits a pool: whatever volumes its disks stand
/// on, together they leave every one of them the host reserve.
pub proof fn plan_leaves_every_pool_its_reserve(
    input: PlanInput,
    selections: Seq<SelectionView>,
    sightings: Seq<Sighting>,
    n: int,
)
    ensures
        claims_upto(input, selections, sightings, n) matches Ok(claims) ==> forall|i: int|
            0 <= i < claims.len() ==> #[trigger] within_reserve(claims, i),
    decreases n,
{
    if n > 0 && claims_upto(input, selections, sightings, n) is Ok {
        plan_leaves_every_pool_its_reserve(input, selections, sightings, n - 1);
        let before = claims_upto(input, selections, sightings, n - 1)->Ok_0;
        let claims = claims_upto(input, selections, sightings, n)->Ok_0;
        let claim = claims.last();
        assert(claims.drop_last() == before);
        assert(leaves_reserve(before, claim));
        lemma_room_bounds(before, claim.pool, claim.available_gib);
        assert forall|i: int| 0 <= i < claims.len() implies #[trigger] within_reserve(
            claims,
            i,
        ) by {
            if i < before.len() {
                assert(claims[i] == before[i]);
                assert(within_reserve(before, i));
            }
        }
    }
}

/// The disks of an accepted plan stand in separate directories: none within
/// another.
pub proof fn plan_directories_are_apart(
    input: PlanInput,
    selections: Seq<SelectionView>,
    sightings: Seq<Sighting>,
    n: int,
)
    ensures
        claims_upto(input, selections, sightings, n) matches Ok(claims) ==> forall|i: int, j: int|
            0 <= i < claims.len() && 0 <= j < claims.len() && i != j ==> !host_within(
                input.mounts.platform@,
                (#[trigger] claims[i]).directory,
                (#[trigger] claims[j]).directory,
            ),
    decreases n,
{
    if n > 0 && claims_upto(input, selections, sightings, n) is Ok {
        plan_directories_are_apart(input, selections, sightings, n - 1);
        let before = claims_upto(input, selections, sightings, n - 1)->Ok_0;
        let claims = claims_upto(input, selections, sightings, n)->Ok_0;
        let claim = claims.last();
        assert(claims == before.push(claim));
        assert(!overlaps(input.mounts.platform@, before, claim.directory));
        assert forall|i: int, j: int|
            0 <= i < claims.len() && 0 <= j < claims.len() && i != j implies !host_within(
            input.mounts.platform@,
            (#[trigger] claims[i]).directory,
            (#[trigger] claims[j]).directory,
        ) by {
            if i < before.len() {
                assert(claims[i] == before[i]);
            }
            if j < before.len() {
                assert(claims[j] == before[j]);
            }
        }
    }
}

/// No existing disk is planned twice, and every kept disk existed before.
pub proof fn plan_keeps_each_disk_once(
    input: PlanInput,
    selections: Seq<SelectionView>,
    sightings: Seq<Sighting>,
    n: int,
)
    ensures
        claims_upto(input, selections, sightings, n) matches Ok(claims) ==> (forall|
            i: int,
            j: int,
        |
            0 <= i < j < claims.len() && (#[trigger] claims[i]).kept is Some ==> claims[i].kept != (
            #[trigger] claims[j]).kept) && (forall|i: int|
            0 <= i < claims.len() && (#[trigger] claims[i]).kept is Some ==> has_id(
                input.previous,
                claims[i].kept->0,
            )),
    decreases n,
{
    if n > 0 && claims_upto(input, selections, sightings, n) is Ok {
        plan_keeps_each_disk_once(input, selections, sightings, n - 1);
        let before = claims_upto(input, selections, sightings, n - 1)->Ok_0;
        let claims = claims_upto(input, selections, sightings, n)->Ok_0;
        let claim = claims.last();
        assert(claims == before.push(claim));
        assert forall|i: int, j: int|
            0 <= i < j < claims.len() && (#[trigger] claims[i]).kept is Some implies claims[i].kept
            != (#[trigger] claims[j]).kept by {
            assert(claims[i] == before[i]);
            if j < before.len() {
                assert(claims[j] == before[j]);
            }
        }
        assert forall|i: int|
            0 <= i < claims.len() && (#[trigger] claims[i]).kept is Some implies has_id(
            input.previous,
            claims[i].kept->0,
        ) by {
            if i < before.len() {
                assert(claims[i] == before[i]);
            }
        }
    }
}

/// Each selection of an accepted plan gets exactly its allocation, in order.
pub proof fn plan_grants_each_selection(
    input: PlanInput,
    selections: Seq<SelectionView>,
    sightings: Seq<Sighting>,
    n: int,
)
    requires
        0 <= n,
    ensures
        claims_upto(input, selections, sightings, n) matches Ok(claims) ==> claims.len() == n
            && forall|i: int|
            0 <= i < n ==> (#[trigger] claims[i]).allocation_gib == selections[i].allocation_gib
                && claims[i].kept == selections[i].id && claims[i].needed_gib
                <= claims[i].allocation_gib,
    decreases n,
{
    if n > 0 && claims_upto(input, selections, sightings, n) is Ok {
        plan_grants_each_selection(input, selections, sightings, n - 1);
        let before = claims_upto(input, selections, sightings, n - 1)->Ok_0;
        let claims = claims_upto(input, selections, sightings, n)->Ok_0;
        assert(claims == before.push(claims.last()));
    }
}

/// Whether disks stand in the order of the previous ones, new ones last.
pub open spec fn is_ranked(s: Seq<LocationView>, previous: Seq<LocationView>) -> bool {
    forall|i: int, j: int|
        0 <= i < j < s.len() ==> rank(previous, (#[trigger] s[i]).id) <= rank(
            previous,
            (#[trigger] s[j]).id,
        )
}

proof fn lemma_slot(s: Seq<LocationView>, previous: Seq<LocationView>, k: int, i: int)
    requires
        0 <= i <= s.len(),
        forall|j: int| 0 <= j < i ==> rank(previous, (#[trigger] s[j]).id) <= k,
    ensures
        i <= slot_from(s, previous, k, i) <= s.len(),
        forall|j: int|
            0 <= j < slot_from(s, previous, k, i) ==> rank(previous, (#[trigger] s[j]).id) <= k,
        slot_from(s, previous, k, i) < s.len() ==> rank(
            previous,
            s[slot_from(s, previous, k, i)].id,
        ) > k,
    decreases s.len() - i,
{
    if i < s.len() && rank(previous, s[i].id) <= k {
        lemma_slot(s, previous, k, i + 1);
    }
}

/// The planned disks are the drawn ones, none lost or added, in the order of
/// the previous attachments with new disks behind them.
pub proof fn planned_order_is_stable(s: Seq<LocationView>, previous: Seq<LocationView>)
    ensures
        is_ranked(ordered(s, previous), previous),
        ordered(s, previous).len() == s.len(),
        ordered(s, previous).to_multiset() == s.to_multiset(),
    decreases s.len(),
{
    broadcast use vstd::seq_lib::group_to_multiset_ensures;

    if s.len() == 0 {
        assert(ordered(s, previous) == s);
    } else {
        let rest = s.drop_last();
        planned_order_is_stable(rest, previous);
        let before = ordered(rest, previous);
        let k = rank(previous, s.last().id);
        let slot = slot_from(before, previous, k, 0);
        lemma_slot(before, previous, k, 0);
        let now = before.insert(slot, s.last());
        assert forall|i: int, j: int| 0 <= i < j < now.len() implies rank(
            previous,
            (#[trigger] now[i]).id,
        ) <= rank(previous, (#[trigger] now[j]).id) by {
            if j < slot {
                assert(now[i] == before[i] && now[j] == before[j]);
            } else if j == slot {
                assert(now[i] == before[i]);
            } else if i == slot {
                assert(now[j] == before[j - 1]);
                if slot < j - 1 {
                    assert(rank(previous, before[slot].id) <= rank(previous, before[j - 1].id));
                }
            } else if i < slot {
                assert(now[i] == before[i] && now[j] == before[j - 1]);
                if slot < j - 1 {
                    assert(rank(previous, before[slot].id) <= rank(previous, before[j - 1].id));
                }
            } else {
                assert(now[i] == before[i - 1] && now[j] == before[j - 1]);
            }
        }
        assert(s == rest.push(s.last()));
        vstd::seq_lib::to_multiset_insert(before, slot, s.last());
        assert(now.to_multiset() == before.to_multiset().insert(s.last()));
        assert(s.to_multiset() == rest.to_multiset().insert(s.last()));
    }
}

proof fn lemma_total_insert(s: Seq<LocationView>, i: int, l: LocationView)
    requires
        0 <= i <= s.len(),
    ensures
        crate::storage::total_gib(s.insert(i, l)) == crate::storage::total_gib(s)
            + l.allocation_gib,
    decreases s.len(),
{
    let now = s.insert(i, l);
    if i == s.len() {
        assert(now.drop_last() == s);
    } else {
        assert(now.drop_last() == s.drop_last().insert(i, l));
        assert(now.last() == s.last());
        lemma_total_insert(s.drop_last(), i, l);
    }
}

/// The planned disks together have exactly what the claims have.
pub proof fn planned_total_is_the_claimed_one(
    claims: Seq<ClaimView>,
    fresh: Seq<u128>,
    previous: Seq<LocationView>,
)
    requires
        fresh.len() == claims.len(),
    ensures
        crate::storage::total_gib(ordered(drawn(claims, fresh), previous)) == claimed_total(claims),
    decreases claims.len(),
{
    let s = drawn(claims, fresh);
    if claims.len() > 0 {
        let rest = s.drop_last();
        assert(rest == drawn(claims.drop_last(), fresh.drop_last()));
        planned_total_is_the_claimed_one(claims.drop_last(), fresh.drop_last(), previous);
        let before = ordered(rest, previous);
        let slot = slot_from(before, previous, rank(previous, s.last().id), 0);
        lemma_slot(before, previous, rank(previous, s.last().id), 0);
        lemma_total_insert(before, slot, s.last());
    }
}

/// Accepted claims are within the limits of a disk, and together far below any
/// machine limit.
pub proof fn claimed_total_is_bounded(
    input: PlanInput,
    selections: Seq<SelectionView>,
    sightings: Seq<Sighting>,
    n: int,
)
    ensures
        claims_upto(input, selections, sightings, n) matches Ok(claims) ==> claimed_total(claims)
            <= claims.len() * MAXIMUM_GIB && (n >= 0 ==> claims.len() <= n),
    decreases n,
{
    if n > 0 && claims_upto(input, selections, sightings, n) is Ok {
        claimed_total_is_bounded(input, selections, sightings, n - 1);
        let before = claims_upto(input, selections, sightings, n - 1)->Ok_0;
        let claims = claims_upto(input, selections, sightings, n)->Ok_0;
        assert(claims.drop_last() == before);
        assert(claims.last().allocation_gib <= MAXIMUM_GIB);
    }
}

} // verus!
