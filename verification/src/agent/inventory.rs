//! What the owner sees of the worker's storage, and the checks that its disks
//! must pass before the worker uses them.
use crate::agent::review::{keep_disks, kept_selections};
use crate::agent::steps::{phase_name, phase_text};
use crate::failure::{fail, first_of, refusal, unless, Failure};
use crate::json::{at, flag_of, json_views, list_of, number_of, text_of, Json, JsonView};
use crate::lima::VmProvider;
use crate::paths;
use crate::storage::{
    after_reserve, capped, checked_total, has_id, inspect_locations, location_views, position, rank,
    require_location_support, reserve_refusal, reserve_system_disk, same_locations, selection_views,
    statuses_of, sum_gib, total_gib, unsupported_text, places_disks, volume_for, volume_index,
    volume_with_id, HostPath, Inventory, InventoryView, Location, LocationStatus,
    LocationStatusView, LocationView, Mounts, OperationStatus, OperationStatusView, OperationView,
    PendingUpdate, PendingUpdateView, SystemDisk, SystemDiskView, Volume, VolumeView, GIB,
};
use crate::storage_layout::{
    granted_gib, owner_locations, remaining_bytes, runtime_home_of, system_gib_of, transformed,
    Layout, LayoutView,
};
use crate::storage_lifecycle::{
    among, ceil_gib, gib_for, lemma_filter_push, stands_among, BackupView, MaintenanceView,
    MissingView,
};
use crate::storage_plan::{
    credit_for, credited_bytes, drawn, effective_selections, ordered, plan_change, plan_claims,
    plan_grants_each_selection, plan_input, ClaimView, PlanInput, Sighting,
};
use crate::store::{Configuration, ConfigurationView};
use crate::text;
use crate::values::{content, contents, copy_list, copy_option, Plain};
use vstd::prelude::*;

verus! {

/// Whether the guest reports a disk with the identity and the size.
pub open spec fn reports_disk(disks: Seq<JsonView>, l: LocationView) -> bool {
    exists|i: int|
        0 <= i < disks.len() && text_of(at(#[trigger] disks[i], "id"@)) == Some(l.id) && number_of(
            at(disks[i], "allocationBytes"@),
        ) == Some((l.allocation_gib * GIB) as u64)
}

/// Why the pool in the guest is not the one that was configured.
pub open spec fn pool_refusal(
    device: Seq<char>,
    pool: Seq<char>,
    generation: u64,
    locations: Seq<LocationView>,
    state: JsonView,
) -> Option<Seq<char>> {
    let total = total_gib(locations) * GIB;
    match number_of(at(state, "capacityBytes"@)) {
        None => Some("Worker storage capacity is unavailable"@),
        Some(capacity) => if !(text_of(at(state, "deviceId"@)) == Some(device) && text_of(
            at(state, "poolId"@),
        ) == Some(pool) && number_of(at(state, "generation"@)) == Some(generation) && flag_of(
            at(state, "migrationComplete"@),
        ) == Some(true)) {
            Some("Worker storage does not match the saved owner and configuration"@)
        } else {
            match list_of(at(state, "disks"@)) {
                None => Some("Worker storage membership is unavailable"@),
                Some(disks) => if disks.len() != locations.len() || !(forall|i: int|
                    0 <= i < locations.len() ==> reports_disk(disks, #[trigger] locations[i])) {
                    Some("The worker is missing configured storage disks"@)
                } else {
                    unless(
                        capacity <= total && capacity >= capped(total * 85) as int / 100,
                        "Actual worker storage capacity differs from the combined allocation"@,
                    )
                },
            }
        },
    }
}

fn disk_reported(disks: &[Json], l: &Location) -> (r: bool)
    requires
        l.allocation_gib * GIB <= u64::MAX,
    ensures
        r == reports_disk(json_views(disks@), l@),
{
    let ghost v = json_views(disks@);
    for i in 0..disks.len()
        invariant
            v == json_views(disks@),
            l.allocation_gib * GIB <= u64::MAX,
            forall|j: int|
                0 <= j < i ==> !(text_of(at(#[trigger] v[j], "id"@)) == Some(l@.id) && number_of(
                    at(v[j], "allocationBytes"@),
                ) == Some((l@.allocation_gib * GIB) as u64)),
    {
        assert(v[i as int] == disks@[i as int]@);
        let size = match disks[i].field_number("allocationBytes") {
            Some(n) => n == l.allocation_gib * GIB,
            None => false,
        };
        if disks[i].field_is("id", l.id.as_str()) && size {
            return true;
        }
    }
    false
}

proof fn lemma_disk_fits(s: Seq<LocationView>, i: int)
    requires
        0 <= i < s.len(),
    ensures
        s[i].allocation_gib <= total_gib(s),
    decreases s.len(),
{
    if i < s.len() - 1 {
        lemma_disk_fits(s.drop_last(), i);
        assert(s.drop_last()[i] == s[i]);
    }
}

/// Whether the pool in the guest is the one that was configured: its owner, its
/// members and nearly all of its capacity.
pub fn verify_pool_identity(
    device: &str,
    pool_id: &str,
    generation: u64,
    locations: &[Location],
    state: &Json,
) -> (r: Result<(), Failure>)
    requires
        total_gib(location_views(locations@)) * GIB <= u64::MAX,
    ensures
        refusal(r) == pool_refusal(
            device@,
            pool_id@,
            generation,
            location_views(locations@),
            state@,
        ),
{
    let ghost v = location_views(locations@);
    let total = sum_gib(locations) * GIB;
    let capacity = match state.field_number("capacityBytes") {
        Some(capacity) => capacity,
        None => {
            return Err(fail("Worker storage capacity is unavailable"));
        },
    };
    let current = match state.field_number("generation") {
        Some(n) => n == generation,
        None => false,
    };
    let migrated = match state.field_flag("migrationComplete") {
        Some(b) => b,
        None => false,
    };
    if !(state.field_is("deviceId", device) && state.field_is("poolId", pool_id) && current
        && migrated) {
        return Err(fail("Worker storage does not match the saved owner and configuration"));
    }
    let disks = match state.field_list("disks") {
        Some(disks) => disks,
        None => {
            return Err(fail("Worker storage membership is unavailable"));
        },
    };
    if disks.len() != locations.len() {
        return Err(fail("The worker is missing configured storage disks"));
    }
    for i in 0..locations.len()
        invariant
            v == location_views(locations@),
            total_gib(v) * GIB <= u64::MAX,
            forall|j: int| 0 <= j < i ==> reports_disk(json_views(disks@), #[trigger] v[j]),
            number_of(at(state@, "capacityBytes"@)) is Some,
            text_of(at(state@, "deviceId"@)) == Some(device@),
            text_of(at(state@, "poolId"@)) == Some(pool_id@),
            number_of(at(state@, "generation"@)) == Some(generation),
            flag_of(at(state@, "migrationComplete"@)) == Some(true),
            list_of(at(state@, "disks"@)) == Some(json_views(disks@)),
    {
        assert(v[i as int] == locations@[i as int]@);
        proof {
            lemma_disk_fits(v, i as int);
        }
        if !disk_reported(disks.as_slice(), &locations[i]) {
            return Err(fail("The worker is missing configured storage disks"));
        }
    }
    let most = match total.checked_mul(85) {
        Some(n) => n,
        None => u64::MAX,
    };
    if capacity <= total && capacity >= most / 100 {
        Ok(())
    } else {
        Err(fail("Actual worker storage capacity differs from the combined allocation"))
    }
}

/// Why the guest's pool after a replacement does not fit the request for it.
pub open spec fn replacement_pool_refusal(
    device: Seq<char>,
    pool_id: Seq<char>,
    generation: u64,
    locations: Seq<LocationView>,
    state: JsonView,
) -> Option<Seq<char>> {
    first_of(
        unless(
            text_of(at(state, "poolId"@)) == Some(pool_id),
            "Replacement pool identity changed"@,
        ),
        pool_refusal(device, pool_id, generation, locations, state),
    )
}

/// Whether the guest's pool after a replacement is the one that was asked for.
pub fn verify_replacement_pool(
    device: &str,
    pool_id: &str,
    generation: u64,
    locations: &[Location],
    state: &Json,
) -> (r: Result<(), Failure>)
    requires
        total_gib(location_views(locations@)) * GIB <= u64::MAX,
    ensures
        refusal(r) == replacement_pool_refusal(
            device@,
            pool_id@,
            generation,
            location_views(locations@),
            state@,
        ),
{
    if !state.field_is("poolId", pool_id) {
        return Err(fail("Replacement pool identity changed"));
    }
    verify_pool_identity(device, pool_id, generation, locations, state)
}

/// The directory of the location that holds the VM; the application's own where
/// it holds none.
pub open spec fn system_directory(c: ConfigurationView, settings: Seq<char>) -> Seq<char> {
    match c.storage_layout {
        Some(layout) => if has_id(c.storage_locations, layout.system_location_id) {
            c.storage_locations[rank(c.storage_locations, layout.system_location_id)].directory
        } else {
            settings
        },
        None => settings,
    }
}

/// Where the VM's own allocation counts.
pub fn system_place(config: &Configuration, settings: &str) -> (r: String)
    ensures
        r@ == system_directory(config@, settings@),
{
    match &config.storage_layout {
        Some(layout) => {
            let i = position(
                config.storage_locations.as_slice(),
                layout.system_location_id.as_str(),
            );
            proof {
                crate::storage::lemma_rank(
                    config@.storage_locations,
                    layout.system_location_id@,
                    0,
                );
            }
            if i < config.storage_locations.len() {
                assert(config@.storage_locations[i as int] == config.storage_locations@[i as int]@);
                config.storage_locations[i].directory.clone()
            } else {
                settings.to_owned()
            }
        },
        None => settings.to_owned(),
    }
}

/// The volumes with the VM's allocation counted on the one that holds it.
pub open spec fn with_system(
    volumes: Seq<VolumeView>,
    place: Option<HostPath>,
    mounts: Mounts,
    gib: u64,
) -> Seq<VolumeView> {
    if place is Some && volume_index(place->0, volumes, mounts) is Some {
        let i = volume_index(place->0, volumes, mounts)->0;
        let k = volume_with_id(volumes, volumes[i].id, 0)->0;
        volumes.update(
            k,
            VolumeView { configured_gib: capped(volumes[k].configured_gib + gib), ..volumes[k] },
        )
    } else {
        volumes
    }
}

proof fn lemma_with_id(volumes: Seq<VolumeView>, id: Seq<char>, i: int, k: int)
    requires
        0 <= i <= k < volumes.len(),
        volumes[k].id == id,
    ensures
        volume_with_id(volumes, id, i) matches Some(m) && i <= m <= k,
    decreases volumes.len() - i,
{
    if volumes[i].id != id {
        lemma_with_id(volumes, id, i + 1, k);
    }
}

fn count_system(
    volumes: Vec<Volume>,
    place: &Option<HostPath>,
    mounts: &Mounts,
    gib: u64,
) -> (r: Vec<Volume>)
    ensures
        contents(r@) == with_system(contents(volumes@), *place, *mounts, gib),
{
    let path = match place {
        Some(path) => path,
        None => {
            return volumes;
        },
    };
    let index = match volume_for(path, volumes.as_slice(), mounts) {
        Some(index) => index,
        None => {
            return volumes;
        },
    };
    let ghost all = contents(volumes@);
    let mut volumes = volumes;
    let id = volumes[index].id.clone();
    proof {
        lemma_with_id(all, id@, 0, index as int);
    }
    let mut k: usize = 0;
    while k < volumes.len() && !text::same(volumes[k].id.as_str(), id.as_str())
        invariant
            k <= contents(volumes@).len(),
            contents(volumes@) == all,
            volume_with_id(all, id@, 0) == volume_with_id(all, id@, k as int),
        decreases contents(volumes@).len() - k,
    {
        k = k + 1;
    }
    if k < volumes.len() {
        let more = volumes[k].configured_gib.saturating_add(gib);
        let ghost before = contents(volumes@);
        volumes[k].configured_gib = more;
        assert(contents(volumes@) =~= before.update(
            k as int,
            VolumeView { configured_gib: more, ..before[k as int] },
        ));
    }
    volumes
}

/// The inventory of a host with the worker's locations and its VM counted.
pub open spec fn discovered(
    c: ConfigurationView,
    settings: Seq<char>,
    inventory: InventoryView,
    resolved: Seq<Option<HostPath>>,
    place: Option<HostPath>,
    mounts: Mounts,
) -> InventoryView {
    let lima = c.vm_provider == VmProvider::Lima;
    InventoryView {
        locations: statuses_of(c.storage_locations, resolved, inventory.volumes, mounts),
        layout: c.storage_layout,
        system_disk: if lima {
            Some(
                SystemDiskView {
                    directory: paths::join_path(runtime_home_of(c, settings), "worker"@),
                    allocation_gib: system_gib_of(c),
                },
            )
        } else {
            inventory.system_disk
        },
        volumes: if lima {
            with_system(inventory.volumes, place, mounts, system_gib_of(c))
        } else {
            inventory.volumes
        },
        ..inventory
    }
}

/// Count the worker's locations and its VM in the inventory of a host. The
/// place is the resolved directory of the location that holds the VM.
pub fn discover_storage(
    config: &Configuration,
    settings: &str,
    inventory: Inventory,
    resolved: &[Option<HostPath>],
    place: &Option<HostPath>,
    mounts: &Mounts,
) -> (r: Inventory)
    ensures
        r@ == discovered(config@, settings@, inventory@, resolved@, *place, *mounts),
{
    let ghost before = inventory@;
    let mut r = inventory;
    r.locations = inspect_locations(
        config.storage_locations.as_slice(),
        resolved,
        r.volumes.as_slice(),
        mounts,
    );
    r.layout = copy_option(&config.storage_layout);
    if config.vm_provider == VmProvider::Lima {
        let home = config.runtime_home(settings);
        let gib = config.system_gib();
        r.system_disk = Some(
            SystemDisk { directory: paths::join(home.as_str(), "worker"), allocation_gib: gib },
        );
        let volumes = copy_list(r.volumes.as_slice());
        r.volumes = count_system(volumes, place, mounts, gib);
    }
    assert(r@ =~= discovered(config@, settings@, before, resolved@, *place, *mounts));
    r
}

/// The locations among which the VM's may be: the active ones and those of a
/// change under way.
pub open spec fn known_locations(c: ConfigurationView) -> Seq<LocationView> {
    c.storage_locations + (match c.storage_operation {
        Some(op) => op.target,
        None => Seq::empty(),
    }) + (match c.storage_lifecycle.maintenance {
        Some(op) => op.target,
        None => Seq::empty(),
    })
}

/// The directory whose volume the VM's disk grows on, or why it is unknown.
pub open spec fn boot_directory(c: ConfigurationView, settings: Seq<char>) -> Result<
    Seq<char>,
    Seq<char>,
> {
    match c.storage_layout {
        None => Ok(settings),
        Some(layout) => {
            let known = known_locations(c);
            if has_id(known, layout.system_location_id) {
                Ok(known[rank(known, layout.system_location_id)].directory)
            } else {
                Err("The VM system location is missing"@)
            }
        },
    }
}

fn all_known(config: &Configuration) -> (r: Vec<Location>)
    ensures
        location_views(r@) == known_locations(config@),
{
    let mut r = copy_list(config.storage_locations.as_slice());
    let ghost first = location_views(r@);
    match &config.storage_operation {
        Some(op) => {
            let mut more = copy_list(op.target.as_slice());
            r.append(&mut more);
            assert(location_views(r@) =~= first + op@.target);
        },
        None => {
            assert(first =~= first + Seq::<LocationView>::empty());
        },
    }
    let ghost second = location_views(r@);
    match &config.storage_lifecycle.maintenance {
        Some(op) => {
            let mut more = copy_list(op.target.as_slice());
            r.append(&mut more);
            assert(location_views(r@) =~= second + op@.target);
        },
        None => {
            assert(second =~= second + Seq::<LocationView>::empty());
        },
    }
    r
}

/// The directory whose volume the VM's disk grows on.
pub fn boot_place(config: &Configuration, settings: &str) -> (r: Result<String, Failure>)
    ensures
        match boot_directory(config@, settings@) {
            Ok(directory) => r matches Ok(d) && d@ == directory,
            Err(message) => refusal(r) == Some(message),
        },
{
    match &config.storage_layout {
        None => Ok(settings.to_owned()),
        Some(layout) => {
            let known = all_known(config);
            let i = position(known.as_slice(), layout.system_location_id.as_str());
            proof {
                crate::storage::lemma_rank(
                    location_views(known@),
                    layout.system_location_id@,
                    0,
                );
            }
            if i < known.len() {
                assert(location_views(known@)[i as int] == known@[i as int]@);
                Ok(known[i].directory.clone())
            } else {
                Err(fail("The VM system location is missing"))
            }
        },
    }
}

/// What the VM's disk may still grow, in whole GiB, or why that is unknown.
pub open spec fn boot_growth(c: ConfigurationView, allocated: u64) -> Result<u64, Seq<char>> {
    let bytes = system_gib_of(c) * GIB;
    if bytes > u64::MAX {
        Err("Storage allocation overflow"@)
    } else {
        Ok(
            ceil_gib(
                if bytes < allocated {
                    0
                } else {
                    bytes - allocated
                },
            ) as u64,
        )
    }
}

/// Reserve what the VM's disk may still grow on the pool that it stands in. The
/// disk already takes the allocated bytes.
pub fn reserve_boot_storage(
    config: &Configuration,
    volumes: &mut Vec<Volume>,
    place: &HostPath,
    mounts: &Mounts,
    allocated: u64,
) -> (r: Result<(), Failure>)
    ensures
        match boot_growth(config@, allocated) {
            Err(message) => refusal(r) == Some(message) && contents(final(volumes)@) == contents(
                old(volumes)@,
            ),
            Ok(gib) => refusal(r) == reserve_refusal(
                contents(old(volumes)@),
                *place,
                *mounts,
                gib,
            ) && (r is Err ==> contents(final(volumes)@) == contents(old(volumes)@)) && (r is Ok
                ==> ({
                let i = volume_index(*place, contents(old(volumes)@), *mounts)->0;
                contents(final(volumes)@) == contents(old(volumes)@).map_values(
                    |v: VolumeView|
                        after_reserve(v, contents(old(volumes)@)[i].capacity_pool, gib),
                )
            })),
        },
{
    let bytes = match remaining_bytes(config.system_gib(), allocated) {
        Ok(bytes) => bytes,
        Err(e) => {
            return Err(e);
        },
    };
    reserve_system_disk(volumes, place, mounts, gib_for(bytes))
}

/// The disks as planned again from themselves: their identities are kept, so
/// nothing is drawn.
pub open spec fn replanned(
    input: PlanInput,
    locations: Seq<LocationView>,
    sightings: Seq<Sighting>,
) -> Result<Seq<LocationView>, Seq<char>> {
    match plan_claims(input, kept_selections(locations), sightings) {
        Err(message) => Err(message),
        Ok(claims) => Ok(
            ordered(drawn(claims, Seq::new(claims.len(), |i: int| 0u128)), input.previous),
        ),
    }
}

proof fn lemma_drawn_kept(
    input: PlanInput,
    locations: Seq<LocationView>,
    sightings: Seq<Sighting>,
    claims: Seq<ClaimView>,
    fresh: Seq<u128>,
)
    requires
        plan_claims(input, kept_selections(locations), sightings) == Ok::<
            Seq<ClaimView>,
            Seq<char>,
        >(claims),
        fresh.len() == claims.len(),
    ensures
        drawn(claims, fresh) == drawn(claims, Seq::new(claims.len(), |i: int| 0u128)),
{
    let s = kept_selections(locations);
    plan_grants_each_selection(input, s, sightings, s.len() as int);
    let a = drawn(claims, fresh);
    let b = drawn(claims, Seq::new(claims.len(), |i: int| 0u128));
    assert forall|i: int| 0 <= i < claims.len() implies a[i] == b[i] by {
        assert(claims[i].kept == s[i].id);
    }
    assert(a =~= b);
}

fn plan_again(
    locations: &[Location],
    default_directory: &str,
    default_gib: u64,
    volumes: &[Volume],
    mounts: &Mounts,
    credits: &[(String, u64)],
    sightings: &[Sighting],
) -> (r: Result<Vec<Location>, Failure>)
    requires
        locations@.len() > 0,
        sightings@.len() == locations@.len(),
    ensures
        match replanned(
            plan_input(contents(volumes@), *mounts, locations@, credits@),
            location_views(locations@),
            sightings@,
        ) {
            Ok(planned) => r matches Ok(p) && location_views(p@) == planned,
            Err(message) => refusal(r) == Some(message),
        },
{
    let selections = keep_disks(locations);
    let ghost wanted = kept_selections(location_views(locations@));
    assert(selection_views(selections@).len() == locations@.len());
    assert(effective_selections(wanted, default_directory@, default_gib) == wanted);
    let ghost input = plan_input(contents(volumes@), *mounts, locations@, credits@);
    match plan_change(
        selections.as_slice(),
        default_directory,
        default_gib,
        volumes,
        mounts,
        locations,
        credits,
        sightings,
    ) {
        Err(e) => Err(e),
        Ok(planned) => {
            proof {
                let claims = plan_claims(input, wanted, sightings@)->Ok_0;
                let fresh = choose|fresh: Seq<u128>|
                    fresh.len() == claims.len() && location_views(planned@) == #[trigger] ordered(
                        drawn(claims, fresh),
                        location_views(locations@),
                    );
                lemma_drawn_kept(input, location_views(locations@), sightings@, claims, fresh);
            }
            Ok(planned)
        },
    }
}

/// Whether each location is available.
pub open spec fn all_available(statuses: Seq<LocationStatusView>) -> bool {
    forall|i: int| 0 <= i < statuses.len() ==> (#[trigger] statuses[i]).available
}

fn every_available(statuses: &[LocationStatus]) -> (r: bool)
    ensures
        r == all_available(contents(statuses@)),
{
    let ghost v = contents(statuses@);
    for i in 0..statuses.len()
        invariant
            v == contents(statuses@),
            forall|j: int| 0 <= j < i ==> (#[trigger] v[j]).available,
    {
        assert(v[i as int] == statuses@[i as int]@);
        if !statuses[i].available {
            return false;
        }
    }
    true
}

/// Why the worker's disks cannot be used where they are.
pub open spec fn storage_refusal(
    c: ConfigurationView,
    platform: Seq<char>,
    input: PlanInput,
    sightings: Seq<Sighting>,
    statuses: Seq<LocationStatusView>,
) -> Option<Seq<char>> {
    if c.storage_locations.len() == 0 {
        None
    } else if !places_disks(c.vm_provider, platform) {
        Some(unsupported_text(c.vm_provider))
    } else {
        match replanned(input, c.storage_locations, sightings) {
            Err(message) => Some(message),
            Ok(planned) => first_of(
                unless(
                    planned == c.storage_locations,
                    "The original storage volume is unavailable or has been replaced; storage will not be redirected"@,
                ),
                unless(
                    c.storage_generation == 0 || c.storage_lifecycle.initializing || all_available(
                        statuses,
                    ),
                    "A configured storage volume is unavailable; reconnect the original volume"@,
                ),
            ),
        }
    }
}

/// Whether the worker's disks can be used where they are. The volumes are those
/// left after the VM's own growth.
pub fn validate_storage(
    config: &Configuration,
    platform: &str,
    directory: &str,
    volumes: &[Volume],
    mounts: &Mounts,
    credits: &[(String, u64)],
    sightings: &[Sighting],
    statuses: &[LocationStatus],
) -> (r: Result<(), Failure>)
    requires
        sightings@.len() == config.storage_locations@.len(),
    ensures
        refusal(r) == storage_refusal(
            config@,
            platform@,
            plan_input(contents(volumes@), *mounts, config.storage_locations@, credits@),
            sightings@,
            contents(statuses@),
        ),
{
    if config.storage_locations.len() == 0 {
        return Ok(());
    }
    match require_location_support(config.vm_provider, platform) {
        Ok(()) => {},
        Err(e) => {
            return Err(e);
        },
    }
    let default = paths::join(directory, "storage");
    let planned = match plan_again(
        config.storage_locations.as_slice(),
        default.as_str(),
        config.policy.resources.disk_gib,
        volumes,
        mounts,
        credits,
        sightings,
    ) {
        Ok(planned) => planned,
        Err(e) => {
            return Err(e);
        },
    };
    if !same_locations(planned.as_slice(), config.storage_locations.as_slice()) {
        return Err(
            fail(
                "The original storage volume is unavailable or has been replaced; storage will not be redirected",
            ),
        );
    }
    if config.storage_generation > 0 && !config.storage_lifecycle.initializing
        && !every_available(statuses) {
        return Err(
            fail("A configured storage volume is unavailable; reconnect the original volume"),
        );
    }
    Ok(())
}

/// Whether the physical bytes of an image are known.
pub open spec fn credit_known(credits: Seq<(String, u64)>, id: Seq<char>) -> bool {
    exists|i: int| 0 <= i < credits.len() && (#[trigger] credits[i]).0@ == id
}

fn knows_credit(credits: &[(String, u64)], id: &str) -> (r: bool)
    ensures
        r == credit_known(credits@, id@),
{
    for i in 0..credits.len()
        invariant
            forall|j: int| 0 <= j < i ==> (#[trigger] credits@[j]).0@ != id@,
    {
        if text::same(credits[i].0.as_str(), id) {
            return true;
        }
    }
    false
}

/// Whether a disk stays where it is.
pub open spec fn stays(previous: Seq<LocationView>, target: LocationView) -> bool {
    exists|i: int|
        0 <= i < previous.len() && (#[trigger] previous[i]).id == target.id
            && previous[i].directory == target.directory && previous[i].volume_id
            == target.volume_id
}

fn stays_in(previous: &[Location], target: &Location) -> (r: bool)
    ensures
        r == stays(location_views(previous@), target@),
{
    let ghost v = location_views(previous@);
    for i in 0..previous.len()
        invariant
            v == location_views(previous@),
            forall|j: int|
                0 <= j < i ==> !((#[trigger] v[j]).id == target@.id && v[j].directory
                    == target@.directory && v[j].volume_id == target@.volume_id),
    {
        assert(v[i as int] == previous@[i as int]@);
        if previous[i].id.alike(&target.id) && previous[i].directory.alike(&target.directory)
            && previous[i].volume_id.alike(&target.volume_id) {
            return true;
        }
    }
    false
}

/// The known bytes of the images of a change: those of the target, and for the
/// first `n` disks that stay in place those of the original.
pub open spec fn carried_credits(
    physical: Seq<(Seq<char>, u64)>,
    original: Seq<(String, u64)>,
    target: Seq<LocationView>,
    previous: Seq<LocationView>,
    n: int,
) -> Seq<(Seq<char>, u64)>
    decreases n,
{
    if n <= 0 {
        physical
    } else {
        let before = carried_credits(physical, original, target, previous, n - 1);
        let l = target[n - 1];
        if stays(previous, l) && credit_known(original, l.id) && !(exists|i: int|
            0 <= i < before.len() && (#[trigger] before[i]).0 == l.id) {
            before.push((l.id, credited_bytes(original, l.id, 0)))
        } else {
            before
        }
    }
}

/// The content of a list of known bytes.
pub open spec fn credit_views(s: Seq<(String, u64)>) -> Seq<(Seq<char>, u64)> {
    s.map_values(|c: (String, u64)| (c.0@, c.1))
}

/// The known bytes of the images of a change.
pub fn carry_credits(
    physical: Vec<(String, u64)>,
    original: &[(String, u64)],
    target: &[Location],
    previous: &[Location],
) -> (r: Vec<(String, u64)>)
    ensures
        credit_views(r@) == carried_credits(
            credit_views(physical@),
            original@,
            location_views(target@),
            location_views(previous@),
            target@.len() as int,
        ),
{
    let ghost first = credit_views(physical@);
    let mut r = physical;
    for n in 0..target.len()
        invariant
            credit_views(r@) == carried_credits(
                first,
                original@,
                location_views(target@),
                location_views(previous@),
                n as int,
            ),
    {
        let l = &target[n];
        assert(location_views(target@)[n as int] == l@);
        let ghost before = credit_views(r@);
        assert(credit_known(r@, l.id@) == (exists|i: int|
            0 <= i < before.len() && (#[trigger] before[i]).0 == l.id@)) by {
            if credit_known(r@, l.id@) {
                let i = choose|i: int| 0 <= i < r@.len() && (#[trigger] r@[i]).0@ == l.id@;
                assert(before[i].0 == l.id@);
            }
            if exists|i: int| 0 <= i < before.len() && (#[trigger] before[i]).0 == l.id@ {
                let i = choose|i: int| 0 <= i < before.len() && (#[trigger] before[i]).0 == l.id@;
                assert(r@[i].0@ == l.id@);
            }
        }
        if stays_in(previous, l) && knows_credit(original, l.id.as_str()) && !knows_credit(
            r.as_slice(),
            l.id.as_str(),
        ) {
            let bytes = credit_for(original, l.id.as_str());
            r.push((l.id.clone(), bytes));
            assert(credit_views(r@) =~= before.push((l.id@, bytes)));
        }
    }
    r
}

/// Whether the disks of a change can be made where they are wanted.
pub fn validate_targets(
    target: &[Location],
    directory: &str,
    volumes: &[Volume],
    mounts: &Mounts,
    credits: &[(String, u64)],
    sightings: &[Sighting],
) -> (r: Result<(), Failure>)
    requires
        target@.len() > 0,
        sightings@.len() == target@.len(),
    ensures
        match replanned(
            plan_input(contents(volumes@), *mounts, target@, credits@),
            location_views(target@),
            sightings@,
        ) {
            Err(message) => refusal(r) == Some(message),
            Ok(planned) => refusal(r) == unless(
                planned == location_views(target@),
                "A selected storage volume is unavailable or was replaced; storage will not be redirected"@,
            ),
        },
{
    let default = paths::join(directory, "storage");
    match plan_again(target, default.as_str(), 30, volumes, mounts, credits, sightings) {
        Err(e) => Err(e),
        Ok(planned) => if same_locations(planned.as_slice(), target) {
            Ok(())
        } else {
            Err(
                fail(
                    "A selected storage volume is unavailable or was replaced; storage will not be redirected",
                ),
            )
        },
    }
}

/// The disk space that the sharing rules are held against: that of the disks
/// while they are valid, and not what is free beside the settings.
pub open spec fn usable_gib(c: ConfigurationView, valid: bool, observed: u64) -> u64 {
    if c.storage_locations.len() == 0 {
        observed
    } else if valid {
        capped(granted_gib(c) + 10)
    } else {
        0
    }
}

/// The disk space that the sharing rules are held against.
pub fn observed_gib(config: &Configuration, valid: bool, observed: u64) -> (r: u64)
    requires
        total_gib(config@.storage_locations) <= u64::MAX,
    ensures
        r == usable_gib(config@, valid, observed),
{
    if config.storage_locations.len() == 0 {
        observed
    } else if valid {
        config.total_storage_gib().saturating_add(10)
    } else {
        0
    }
}

/// Whether old copies of moved disks may be removed at all.
pub fn may_clean_copies(config: &Configuration) -> (r: bool)
    ensures
        r == (config@.storage_retained.len() > 0 && config@.storage_generation > 0),
{
    config.storage_retained.len() > 0 && config.storage_generation > 0
}

/// The first active disk from `i` on that an old copy moved to.
pub open spec fn moved_to(locations: Seq<LocationView>, old: LocationView, i: int) -> Option<int>
    decreases locations.len() - i,
{
    if i < 0 || i >= locations.len() {
        None
    } else if locations[i].id == old.id && locations[i].directory != old.directory {
        Some(i)
    } else {
        moved_to(locations, old, i + 1)
    }
}

/// The active disk that an old copy moved to. It must be sound before the copy
/// goes; a copy of no active disk stays.
pub fn active_disk<'a>(locations: &'a [Location], old: &Location) -> (r: Option<&'a Location>)
    ensures
        match r {
            Some(l) => moved_to(location_views(locations@), old@, 0) matches Some(i)
                && location_views(locations@)[i] == l@,
            None => moved_to(location_views(locations@), old@, 0) is None,
        },
{
    let ghost v = location_views(locations@);
    let mut i: usize = 0;
    while i < locations.len()
        invariant
            i <= locations@.len(),
            v == location_views(locations@),
            moved_to(v, old@, 0) == moved_to(v, old@, i as int),
        decreases locations@.len() - i,
    {
        assert(v[i as int] == locations@[i as int]@);
        if locations[i].id.alike(&old.id) && !locations[i].directory.alike(&old.directory) {
            return Some(&locations[i]);
        }
        i = i + 1;
    }
    None
}

/// The capacity that the worker has now; nothing while its storage is changing,
/// missing, disabled or in need of repair.
pub open spec fn active_capacity(c: ConfigurationView) -> u64 {
    let l = c.storage_lifecycle;
    if l.disabled || c.remote.repair_required || c.storage_operation is Some || l.missing is Some
        || l.maintenance is Some || !c.vm_created {
        0
    } else if c.storage_locations.len() == 0 {
        c.policy.resources.disk_gib
    } else {
        total_gib(c.storage_locations) as u64
    }
}

fn active_gib(config: &Configuration) -> (r: u64)
    requires
        total_gib(config@.storage_locations) <= u64::MAX,
    ensures
        r == active_capacity(config@),
{
    let l = &config.storage_lifecycle;
    if l.disabled || config.remote.repair_required || config.storage_operation.is_some()
        || l.missing.is_some() || l.maintenance.is_some() || !config.vm_created {
        0
    } else if config.storage_locations.len() == 0 {
        config.policy.resources.disk_gib
    } else {
        sum_gib(config.storage_locations.as_slice())
    }
}

/// The capacity that the owner configured.
pub open spec fn configured_capacity(c: ConfigurationView) -> u64 {
    let l = c.storage_lifecycle;
    if l.configured_locations.len() > 0 {
        total_gib(l.configured_locations) as u64
    } else if l.disabled {
        0
    } else {
        c.policy.resources.disk_gib
    }
}

fn configured_gib(config: &Configuration) -> (r: u64)
    requires
        total_gib(config@.storage_lifecycle.configured_locations) <= u64::MAX,
    ensures
        r == configured_capacity(config@),
{
    let l = &config.storage_lifecycle;
    if l.configured_locations.len() > 0 {
        sum_gib(l.configured_locations.as_slice())
    } else if l.disabled {
        0
    } else {
        config.policy.resources.disk_gib
    }
}

/// The configured locations that recovery excluded.
pub open spec fn excluded_locations(c: ConfigurationView) -> Seq<LocationView> {
    c.storage_lifecycle.configured_locations.filter(
        |old: LocationView| !stands_among(c.storage_locations, old),
    )
}

/// The configured locations that recovery excluded.
pub fn excluded_disks(config: &Configuration) -> (r: Vec<Location>)
    ensures
        location_views(r@) == excluded_locations(config@),
{
    let ghost active = config@.storage_locations;
    let ghost keep = |old: LocationView| !stands_among(active, old);
    let configured = config.storage_lifecycle.configured_locations.as_slice();
    let ghost v = location_views(configured@);
    let mut r: Vec<Location> = Vec::new();
    assert(v.take(0).filter(keep) == Seq::<LocationView>::empty()) by {
        reveal(Seq::filter);
    }
    assert(location_views(r@) =~= v.take(0).filter(keep));
    for i in 0..configured.len()
        invariant
            v == location_views(configured@),
            active == location_views(config.storage_locations@),
            keep == (|old: LocationView| !stands_among(active, old)),
            location_views(r@) == v.take(i as int).filter(keep),
    {
        assert(v.take(i + 1) == v.take(i as int).push(v[i as int]));
        assert(v[i as int] == configured@[i as int]@);
        proof {
            lemma_filter_push(v.take(i as int), v[i as int], keep);
        }
        if !among(config.storage_locations.as_slice(), &configured[i]) {
            let ghost before = location_views(r@);
            r.push(configured[i].clone());
            assert(location_views(r@) =~= before.push(v[i as int]));
        }
    }
    assert(v.take(v.len() as int) =~= v);
    r
}

/// The directories of the first `n` locations in one line.
pub open spec fn directory_line(s: Seq<LocationView>, n: int) -> Seq<char>
    decreases n,
{
    if n <= 0 {
        Seq::empty()
    } else if n == 1 {
        s[0].directory
    } else {
        directory_line(s, n - 1) + ", "@ + s[n - 1].directory
    }
}

fn line_of(s: &[Location]) -> (r: String)
    ensures
        r@ == directory_line(location_views(s@), s@.len() as int),
{
    let mut r = String::new();
    assert(r@ =~= Seq::<char>::empty());
    for i in 0..s.len()
        invariant
            r@ == directory_line(location_views(s@), i as int),
    {
        assert(location_views(s@)[i as int] == s@[i as int]@);
        if i == 0 {
            r = s[i].directory.clone();
        } else {
            r = text::join3(r.as_str(), ", ", s[i].directory.as_str());
        }
    }
    r
}

/// What the owner is told of a maintenance.
pub open spec fn maintenance_status(op: MaintenanceView) -> OperationStatusView {
    OperationStatusView {
        phase: phase_name(op.phase),
        message: match op.error {
            Some(error) => error,
            None => if op.paused {
                "Storage maintenance paused by owner"@
            } else {
                "Storage maintenance: "@ + phase_name(op.phase) + ". "@ + op.review.downtime
            },
        },
    }
}

/// What the owner is told of missing storage.
pub open spec fn missing_status(m: MissingView, recovery: bool) -> OperationStatusView {
    OperationStatusView {
        phase: "missing"@,
        message: match m.error {
            Some(error) => error,
            None => "Waiting for original storage: "@ + directory_line(
                m.locations,
                m.locations.len() as int,
            ) + ". "@ + (if recovery {
                "After two minutes NodeHarbor may discard the entire old pool and rebuild on remaining selected disks."@
            } else {
                "Automatic recovery is off; reconnect the original disks."@
            }),
        },
    }
}

fn tell_maintenance(op: &crate::storage_lifecycle::Maintenance) -> (r: OperationStatus)
    ensures
        r@ == maintenance_status(op@),
{
    let phase = phase_text(op.phase);
    let message = match &op.error {
        Some(error) => error.clone(),
        None => if op.paused {
            "Storage maintenance paused by owner".to_owned()
        } else {
            text::join4("Storage maintenance: ", phase, ". ", op.review.downtime.as_str())
        },
    };
    let r = OperationStatus { phase: phase.to_owned(), message };
    assert(r@ =~= maintenance_status(op@));
    r
}

fn tell_missing(m: &crate::storage_lifecycle::Missing, recovery: bool) -> (r: OperationStatus)
    ensures
        r@ == missing_status(m@, recovery),
{
    let message = match &m.error {
        Some(error) => error.clone(),
        None => {
            let line = line_of(m.locations.as_slice());
            text::join4(
                "Waiting for original storage: ",
                line.as_str(),
                ". ",
                if recovery {
                    "After two minutes NodeHarbor may discard the entire old pool and rebuild on remaining selected disks."
                } else {
                    "Automatic recovery is off; reconnect the original disks."
                },
            )
        },
    };
    let r = OperationStatus { phase: "missing".to_owned(), message };
    assert(r@ =~= missing_status(m@, recovery));
    r
}

/// A backup with the size that its file has now, where it could be read.
pub open spec fn sized_backup(backup: Option<BackupView>, bytes: Option<u64>) -> Option<BackupView> {
    match (backup, bytes) {
        (Some(b), Some(n)) => Some(BackupView { bytes: n, ..b }),
        _ => backup,
    }
}

/// What a look at the host finds for the owner's view of the storage.
#[derive(Debug)]
pub struct SnapshotFacts {
    /// The directories of the excluded disks.
    pub excluded: Vec<Option<HostPath>>,
    /// The directories of the retired disks.
    pub retired: Vec<Option<HostPath>>,
    /// The directories of the old copies of moved disks.
    pub retained: Vec<Option<HostPath>>,
    /// The size of the recovery backup.
    pub backup_bytes: Option<u64>,
    /// Whether the disks of a worker that is not there yet can be made.
    pub valid: bool,
}

/// The inventory with the durable state of the storage.
pub open spec fn with_lifecycle_shown(
    c: ConfigurationView,
    inventory: InventoryView,
    facts: SnapshotFacts,
    mounts: Mounts,
) -> InventoryView {
    let l = c.storage_lifecycle;
    InventoryView {
        disabled: l.disabled,
        recovery_enabled: l.recovery_enabled,
        active_gib: active_capacity(c),
        configured_gib: configured_capacity(c),
        excluded: statuses_of(
            excluded_locations(c),
            facts.excluded@,
            inventory.volumes,
            mounts,
        ),
        backup_cleanup: l.cleanup,
        retained_copies: inventory.retained_copies + statuses_of(
            l.retired,
            facts.retired@,
            inventory.volumes,
            mounts,
        ),
        recovery_backup: match l.maintenance {
            Some(op) => sized_backup(op.backup, facts.backup_bytes),
            None => inventory.recovery_backup,
        },
        operation: match l.maintenance {
            Some(op) => Some(maintenance_status(op)),
            None => match l.missing {
                Some(m) => Some(missing_status(m, l.recovery_enabled)),
                None => inventory.operation,
            },
        },
        ..inventory
    }
}

/// Show the durable state of the storage in the inventory.
pub fn lifecycle_snapshot(
    config: &Configuration,
    inventory: Inventory,
    facts: &SnapshotFacts,
    mounts: &Mounts,
) -> (r: Inventory)
    requires
        total_gib(config@.storage_locations) <= u64::MAX,
        total_gib(config@.storage_lifecycle.configured_locations) <= u64::MAX,
    ensures
        r@ == with_lifecycle_shown(config@, inventory@, *facts, *mounts),
{
    let ghost before = inventory@;
    let l = &config.storage_lifecycle;
    let mut r = inventory;
    r.disabled = l.disabled;
    r.recovery_enabled = l.recovery_enabled;
    r.active_gib = active_gib(config);
    r.configured_gib = configured_gib(config);
    let excluded = excluded_disks(config);
    r.excluded = inspect_locations(
        excluded.as_slice(),
        facts.excluded.as_slice(),
        r.volumes.as_slice(),
        mounts,
    );
    r.backup_cleanup = copy_list(l.cleanup.as_slice());
    let mut retired = inspect_locations(
        l.retired.as_slice(),
        facts.retired.as_slice(),
        r.volumes.as_slice(),
        mounts,
    );
    let ghost copies = contents(r.retained_copies@);
    let ghost gone = contents(retired@);
    r.retained_copies.append(&mut retired);
    assert(contents(r.retained_copies@) =~= copies + gone);
    match &l.maintenance {
        Some(op) => {
            r.recovery_backup = match &op.backup {
                Some(backup) => {
                    let mut shown = backup.duplicate();
                    match facts.backup_bytes {
                        Some(bytes) => {
                            shown.bytes = bytes;
                        },
                        None => {},
                    }
                    Some(shown)
                },
                None => None,
            };
            r.operation = Some(tell_maintenance(op));
        },
        None => match &l.missing {
            Some(m) => {
                r.operation = Some(tell_missing(m, l.recovery_enabled));
            },
            None => {},
        },
    }
    assert(r@ =~= with_lifecycle_shown(config@, before, *facts, *mounts));
    r
}

/// What the owner is told of a storage change.
pub open spec fn change_status(op: OperationView) -> OperationStatusView {
    OperationStatusView {
        phase: op.phase,
        message: if op.paused {
            "Storage change paused. Start sharing or prepare the worker to continue."@
        } else if op.phase == "pending"@ {
            "Waiting for running work before changing storage"@
        } else if op.phase == "disks"@ {
            "Preparing and verifying storage files while the worker is stopped"@
        } else if op.phase == "guest"@ {
            "Applying and checking the combined worker storage"@
        } else {
            "Verifying the storage change before completing it"@
        },
    }
}

fn tell_change(op: &crate::storage::Operation) -> (r: OperationStatus)
    ensures
        r@ == change_status(op@),
{
    let phase = op.phase.as_str();
    let message = if op.paused {
        "Storage change paused. Start sharing or prepare the worker to continue."
    } else if text::same(phase, "pending") {
        "Waiting for running work before changing storage"
    } else if text::same(phase, "disks") {
        "Preparing and verifying storage files while the worker is stopped"
    } else if text::same(phase, "guest") {
        "Applying and checking the combined worker storage"
    } else {
        "Verifying the storage change before completing it"
    };
    let r = OperationStatus { phase: op.phase.clone(), message: message.to_owned() };
    assert(r@ =~= change_status(op@));
    r
}

/// The locations of a worker that is not there yet.
pub open spec fn promised(statuses: Seq<LocationStatusView>) -> Seq<LocationStatusView> {
    statuses.map_values(
        |s: LocationStatusView|
            LocationStatusView {
                available: true,
                reason: "Will be created when the worker is prepared"@,
                ..s
            },
    )
}

fn promise(statuses: &[LocationStatus]) -> (r: Vec<LocationStatus>)
    ensures
        contents(r@) == promised(contents(statuses@)),
{
    let ghost wanted = promised(contents(statuses@));
    let mut r: Vec<LocationStatus> = Vec::new();
    for i in 0..statuses.len()
        invariant
            wanted == promised(contents(statuses@)),
            contents(r@) =~= wanted.take(i as int),
    {
        let ghost before = contents(r@);
        r.push(
            LocationStatus {
                location: statuses[i].location.clone(),
                available: true,
                reason: "Will be created when the worker is prepared".to_owned(),
            },
        );
        assert(contents(statuses@)[i as int] == statuses@[i as int]@);
        assert(contents(r@) =~= before.push(wanted[i as int]));
    }
    r
}

/// The inventory with the changes that are under way.
pub open spec fn with_changes_shown(
    c: ConfigurationView,
    inventory: InventoryView,
    facts: SnapshotFacts,
    mounts: Mounts,
) -> InventoryView {
    InventoryView {
        revision: c.storage_revision,
        locations: if c.storage_generation == 0 && !c.vm_created && facts.valid {
            promised(inventory.locations)
        } else {
            inventory.locations
        },
        retained_runtime_directories: c.runtime_retained.map_values(
            |l: LayoutView| l.runtime_directory,
        ),
        retained_copies: statuses_of(
            c.storage_retained,
            facts.retained@,
            inventory.volumes,
            mounts,
        ),
        operation: match c.storage_operation {
            Some(op) => Some(change_status(op)),
            None => None,
        },
        ..inventory
    }
}

fn runtime_directories(layouts: &[Layout]) -> (r: Vec<String>)
    ensures
        contents(r@) == contents(layouts@).map_values(|l: LayoutView| l.runtime_directory),
{
    let ghost wanted = contents(layouts@).map_values(|l: LayoutView| l.runtime_directory);
    let mut r: Vec<String> = Vec::new();
    for i in 0..layouts.len()
        invariant
            wanted == contents(layouts@).map_values(|l: LayoutView| l.runtime_directory),
            contents(r@) =~= wanted.take(i as int),
    {
        let ghost before = contents(r@);
        r.push(layouts[i].runtime_directory.clone());
        assert(contents(layouts@)[i as int] == layouts@[i as int]@);
        assert(contents(r@) =~= before.push(wanted[i as int]));
    }
    r
}

fn show_changes(
    config: &Configuration,
    inventory: Inventory,
    facts: &SnapshotFacts,
    mounts: &Mounts,
) -> (r: Inventory)
    ensures
        r@ == with_changes_shown(config@, inventory@, *facts, *mounts),
{
    let ghost before = inventory@;
    let mut r = inventory;
    r.revision = config.storage_revision;
    if config.storage_generation == 0 && !config.vm_created && facts.valid {
        let locations = promise(r.locations.as_slice());
        r.locations = locations;
    }
    r.retained_runtime_directories = runtime_directories(config.runtime_retained.as_slice());
    r.retained_copies = inspect_locations(
        config.storage_retained.as_slice(),
        facts.retained.as_slice(),
        r.volumes.as_slice(),
        mounts,
    );
    r.operation = match &config.storage_operation {
        Some(op) => Some(tell_change(op)),
        None => None,
    };
    assert(r@ =~= with_changes_shown(config@, before, *facts, *mounts));
    r
}

/// The layout and the data disks that a change under way is going to.
pub open spec fn pending_target(c: ConfigurationView) -> Option<(LayoutView, Seq<LocationView>)> {
    if c.storage_operation is Some && c.storage_operation->0.layout is Some {
        Some((c.storage_operation->0.layout->0, c.storage_operation->0.target))
    } else {
        match c.storage_lifecycle.maintenance {
            Some(op) => match op.layout {
                Some(layout) => Some((layout, op.target)),
                None => None,
            },
            None => None,
        }
    }
}

/// The selections of a change that is not yet applied.
pub open spec fn pending_update(c: ConfigurationView) -> Option<PendingUpdateView> {
    match pending_target(c) {
        None => None,
        Some(p) => match transformed(p.0, p.1, true) {
            Err(_) => None,
            Ok(locations) => Some(
                PendingUpdateView {
                    total_gib: total_gib(locations) as u64,
                    locations,
                    layout: p.0,
                },
            ),
        },
    }
}

fn show_pending(layout: &Layout, target: &[Location]) -> (r: Option<PendingUpdate>)
    requires
        transformed(layout@, location_views(target@), true) matches Ok(l) ==> total_gib(l)
            <= u64::MAX,
    ensures
        content(r) == (match transformed(layout@, location_views(target@), true) {
            Err(_) => None,
            Ok(locations) => Some(
                PendingUpdateView {
                    total_gib: total_gib(locations) as u64,
                    locations,
                    layout: layout@,
                },
            ),
        }),
{
    match layout.total_locations(target) {
        Err(_) => None,
        Ok(locations) => {
            let total_gib = sum_gib(locations.as_slice());
            Some(PendingUpdate { total_gib, locations, layout: layout.duplicate() })
        },
    }
}

fn find_pending(config: &Configuration) -> (r: Option<PendingUpdate>)
    requires
        pending_target(config@) matches Some(p) ==> (transformed(p.0, p.1, true) matches Ok(l)
            ==> total_gib(l) <= u64::MAX),
    ensures
        content(r) == pending_update(config@),
{
    match &config.storage_operation {
        Some(op) => match &op.layout {
            Some(layout) => {
                return show_pending(layout, op.target.as_slice());
            },
            None => {},
        },
        None => {},
    }
    match &config.storage_lifecycle.maintenance {
        Some(op) => match &op.layout {
            Some(layout) => show_pending(layout, op.target.as_slice()),
            None => None,
        },
        None => None,
    }
}

/// What the owner is told of a VM that moved.
pub open spec fn relocation_status(
    status: Option<OperationStatusView>,
    source: Seq<char>,
) -> OperationStatusView {
    let message = "Original VM retained at "@ + source
        + " until the selected-drive VM is verified and cleanup finishes"@;
    match status {
        Some(s) => OperationStatusView { message: s.message + ". "@ + message, ..s },
        None => OperationStatusView { phase: "cleanup"@, message },
    }
}

fn tell_relocation(status: &Option<OperationStatus>, source: &str) -> (r: OperationStatus)
    ensures
        r@ == relocation_status(content(*status), source@),
{
    let message = text::join3(
        "Original VM retained at ",
        source,
        " until the selected-drive VM is verified and cleanup finishes",
    );
    let r = match status {
        Some(s) => OperationStatus {
            phase: s.phase.clone(),
            message: text::join3(s.message.as_str(), ". ", message.as_str()),
        },
        None => OperationStatus { phase: "cleanup".to_owned(), message },
    };
    assert(r@ =~= relocation_status(content(*status), source@));
    r
}

/// The locations with the owner's allocations in place of the data disks'.
pub open spec fn owner_sizes(
    statuses: Seq<LocationStatusView>,
    total: Seq<LocationView>,
) -> Seq<LocationStatusView> {
    statuses.map_values(
        |s: LocationStatusView|
            if has_id(total, s.location.id) {
                LocationStatusView {
                    location: LocationView {
                        allocation_gib: total[rank(total, s.location.id)].allocation_gib,
                        ..s.location
                    },
                    ..s
                }
            } else {
                s
            },
    )
}

fn show_sizes(statuses: &[LocationStatus], total: &[Location]) -> (r: Vec<LocationStatus>)
    ensures
        contents(r@) == owner_sizes(contents(statuses@), location_views(total@)),
{
    let ghost wanted = owner_sizes(contents(statuses@), location_views(total@));
    let mut r: Vec<LocationStatus> = Vec::new();
    for i in 0..statuses.len()
        invariant
            wanted == owner_sizes(contents(statuses@), location_views(total@)),
            contents(r@) =~= wanted.take(i as int),
    {
        let ghost before = contents(r@);
        let mut s = statuses[i].duplicate();
        assert(contents(statuses@)[i as int] == s@);
        let k = position(total, s.location.id.as_str());
        proof {
            crate::storage::lemma_rank(location_views(total@), s.location.id@, 0);
        }
        if k < total.len() {
            assert(location_views(total@)[k as int] == total@[k as int]@);
            s.location.allocation_gib = total[k].allocation_gib;
        }
        r.push(s);
        assert(contents(r@) =~= before.push(wanted[i as int]));
    }
    r
}

/// What the owner sees of the worker's storage. Saved selections stay visible
/// while the applied pool is still being changed; they are not shown as active
/// capacity.
pub open spec fn storage_shown(
    c: ConfigurationView,
    inventory: InventoryView,
    facts: SnapshotFacts,
    mounts: Mounts,
) -> InventoryView {
    let shown = with_lifecycle_shown(
        c,
        with_changes_shown(c, inventory, facts, mounts),
        facts,
        mounts,
    );
    InventoryView {
        pending_update: pending_update(c),
        operation: match c.runtime_relocation {
            Some(relocation) => Some(relocation_status(shown.operation, relocation.source)),
            None => shown.operation,
        },
        locations: match owner_locations(c) {
            Ok(total) => owner_sizes(shown.locations, total),
            Err(_) => shown.locations,
        },
        ..shown
    }
}

/// Whether the combined sizes that the owner is shown fit.
pub open spec fn sizes_fit(c: ConfigurationView) -> bool {
    total_gib(c.storage_locations) <= u64::MAX && total_gib(
        c.storage_lifecycle.configured_locations,
    ) <= u64::MAX && (pending_target(c) matches Some(p) ==> (transformed(p.0, p.1, true) matches Ok(
        l,
    ) ==> total_gib(l) <= u64::MAX))
}

/// What the owner sees of the worker's storage.
pub fn storage_snapshot(
    config: &Configuration,
    inventory: Inventory,
    facts: &SnapshotFacts,
    mounts: &Mounts,
) -> (r: Inventory)
    requires
        sizes_fit(config@),
    ensures
        r@ == storage_shown(config@, inventory@, *facts, *mounts),
{
    let ghost before = inventory@;
    let changed = show_changes(config, inventory, facts, mounts);
    let mut r = lifecycle_snapshot(config, changed, facts, mounts);
    r.pending_update = find_pending(config);
    match &config.runtime_relocation {
        Some(relocation) => {
            let status = tell_relocation(&r.operation, relocation.source.as_str());
            r.operation = Some(status);
        },
        None => {},
    }
    match config.total_locations() {
        Ok(total) => {
            let sized = show_sizes(r.locations.as_slice(), total.as_slice());
            r.locations = sized;
        },
        Err(_) => {},
    }
    assert(r@ =~= storage_shown(config@, before, *facts, *mounts));
    r
}

/// While the storage is being changed, repaired, missing or disabled, no
/// capacity is shown as active.
pub proof fn changing_storage_is_not_active(
    c: ConfigurationView,
    inventory: InventoryView,
    facts: SnapshotFacts,
    mounts: Mounts,
)
    ensures
        c.storage_operation is Some || c.storage_lifecycle.maintenance is Some
            || c.storage_lifecycle.missing is Some || c.storage_lifecycle.disabled
            || c.remote.repair_required ==> storage_shown(
            c,
            inventory,
            facts,
            mounts,
        ).active_gib == 0,
{
}

fn selection_fits(layout: &Layout, target: &[Location]) -> (r: bool)
    ensures
        r == (transformed(layout@, location_views(target@), true) matches Ok(l) ==> total_gib(l)
            <= u64::MAX),
{
    match layout.total_locations(target) {
        Ok(total) => checked_total(total.as_slice()).is_some(),
        Err(_) => true,
    }
}

fn pending_size_fits(config: &Configuration) -> (r: bool)
    ensures
        r == (pending_target(config@) matches Some(p) ==> (transformed(p.0, p.1, true) matches Ok(l)
            ==> total_gib(l) <= u64::MAX)),
{
    match &config.storage_operation {
        Some(op) => match &op.layout {
            Some(layout) => {
                return selection_fits(layout, op.target.as_slice());
            },
            None => {},
        },
        None => {},
    }
    match &config.storage_lifecycle.maintenance {
        Some(op) => match &op.layout {
            Some(layout) => selection_fits(layout, op.target.as_slice()),
            None => true,
        },
        None => true,
    }
}

/// Whether the combined sizes that the owner is shown fit.
pub fn check_sizes(config: &Configuration) -> (r: bool)
    ensures
        r == sizes_fit(config@),
{
    if checked_total(config.storage_locations.as_slice()).is_none() || checked_total(
        config.storage_lifecycle.configured_locations.as_slice(),
    ).is_none() {
        return false;
    }
    pending_size_fits(config)
}

} // verus!
