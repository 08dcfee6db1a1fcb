//! Reviews of storage changes: what an owner's request will do, what it needs,
//! and where its temporary backup goes. A review changes nothing.
use crate::failure::{fail, refusal, unless, Failure};
use crate::identity;
use crate::json::{at, number_of, Json, JsonView};
use crate::lima::VmProvider;
use crate::lima_storage::{disk_paths, paths_of};
use crate::host_paths::{self, host_join, host_within};
use crate::paths;
use crate::storage::{
    available, canonical_directory, is_available, knows_id, has_id, location_views, position,
    rank, require_location_support, resolved_directory, selection_views, sum_gib, total_gib,
    unsupported_text, uses_native_identity, volume_for, volume_index, volume_with_id, deepest,
    places_disks, ChangePlan, ChangePlanView, DirectorySight, HostPath, Location, LocationView,
    Mounts, Selection, SelectionView, Volume, VolumeView,
};
use crate::storage_layout::{
    next_layout, owner_locations, system_gib_of, transformed, Layout, LayoutView,
};
use crate::storage_lifecycle::{
    capacity_for, ceil_gib, gib_for, replacement_space_required, required_capacity, saturated,
    space_required, BackupLocation, BackupLocationView, Kind, ReplacementSpace, Review,
    ReviewOptions, ReviewOptionsView, ReviewView, GIB,
};
use crate::storage_plan::{
    claimed_total_is_bounded, credit_for, credited_bytes, drawn, effective_selections, ordered,
    plan_change, plan_claims, plan_input, planned_total_is_the_claimed_one, Sighting,
};
use crate::store::{Configuration, ConfigurationView};
use crate::text;
use crate::values::{content, contents, copy_list, copy_option, Plain};
use vstd::prelude::*;

verus! {

/// The selection that keeps a disk as it is.
pub open spec fn kept_selection(l: LocationView) -> SelectionView {
    SelectionView { id: Some(l.id), directory: l.directory, allocation_gib: l.allocation_gib }
}

/// The selections that keep disks as they are.
pub open spec fn kept_selections(locations: Seq<LocationView>) -> Seq<SelectionView> {
    locations.map_values(|l: LocationView| kept_selection(l))
}

/// The selections that keep disks as they are.
pub fn keep_disks(locations: &[Location]) -> (r: Vec<Selection>)
    ensures
        selection_views(r@) == kept_selections(location_views(locations@)),
{
    let mut r: Vec<Selection> = Vec::new();
    for i in 0..locations.len()
        invariant
            selection_views(r@) =~= kept_selections(location_views(locations@)).take(i as int),
    {
        let l = &locations[i];
        let ghost before = selection_views(r@);
        assert(location_views(locations@)[i as int] == l@);
        r.push(
            Selection {
                id: Some(l.id.clone()),
                directory: l.directory.clone(),
                allocation_gib: l.allocation_gib,
            },
        );
        assert(selection_views(r@) =~= before.push(kept_selection(l@)));
    }
    r
}

/// The selections of reviewed disks: those that exist keep their identity.
pub open spec fn chosen_again(
    existing: Seq<LocationView>,
    reviewed: Seq<LocationView>,
) -> Seq<SelectionView> {
    reviewed.map_values(
        |l: LocationView|
            SelectionView {
                id: if has_id(existing, l.id) {
                    Some(l.id)
                } else {
                    None
                },
                directory: l.directory,
                allocation_gib: l.allocation_gib,
            },
    )
}

/// The selections of reviewed disks: those that exist keep their identity.
pub fn choose_again(existing: &[Location], reviewed: &[Location]) -> (r: Vec<Selection>)
    ensures
        selection_views(r@) == chosen_again(location_views(existing@), location_views(reviewed@)),
{
    let ghost wanted = chosen_again(location_views(existing@), location_views(reviewed@));
    let mut r: Vec<Selection> = Vec::new();
    for i in 0..reviewed.len()
        invariant
            wanted == chosen_again(location_views(existing@), location_views(reviewed@)),
            selection_views(r@) =~= wanted.take(i as int),
    {
        let l = &reviewed[i];
        let ghost before = selection_views(r@);
        assert(location_views(reviewed@)[i as int] == l@);
        let id = if knows_id(existing, l.id.as_str()) {
            Some(l.id.clone())
        } else {
            None
        };
        r.push(
            Selection { id, directory: l.directory.clone(), allocation_gib: l.allocation_gib },
        );
        assert(selection_views(r@) =~= before.push(wanted[i as int]));
    }
    r
}

/// Whether some worker maintenance is under way.
pub open spec fn is_busy(c: ConfigurationView) -> bool {
    c.storage_lifecycle.maintenance is Some || c.storage_operation is Some || c.recreation is Some
        || c.application_update_pending
}

/// The review of a deletion of everything.
pub open spec fn deletion_plan(c: ConfigurationView, restart: bool) -> ChangePlanView {
    ChangePlanView {
        maintenance: Some(
            ReviewView {
                kind: Kind::DeleteAll,
                backup: None,
                minimum_gib: 0,
                temporary_bytes: 0,
                deletions: seq![
                    "All worker data and the owned worker VM; host enrollment remains"@,
                ],
                downtime: "Worker storage remains disabled until you explicitly configure it again"@,
            },
        ),
        layout: None,
        revision: c.storage_revision,
        locations: Seq::empty(),
        total_gib: 0,
        requires_restart: restart,
    }
}

/// Whether a location stands in the directory.
pub open spec fn uses_directory(s: Seq<LocationView>, directory: Seq<char>) -> bool {
    exists|i: int| 0 <= i < s.len() && (#[trigger] s[i]).directory == directory
}

fn has_directory(s: &[Location], directory: &str) -> (r: bool)
    ensures
        r == uses_directory(location_views(s@), directory@),
{
    for i in 0..s.len()
        invariant
            forall|j: int| 0 <= j < i ==> (#[trigger] s@[j])@.directory != directory@,
    {
        if text::same(s[i].directory.as_str(), directory) {
            assert(location_views(s@)[i as int].directory == directory@);
            return true;
        }
    }
    assert forall|j: int| 0 <= j < location_views(s@).len() implies (#[trigger] location_views(
        s@,
    )[j]).directory != directory@ by {
        assert(s@[j]@.directory != directory@);
    }
    false
}

/// Whether a disk is selected with at least what it has.
pub open spec fn keeps_size(selections: Seq<SelectionView>, old: LocationView) -> bool {
    exists|i: int|
        0 <= i < selections.len() && (#[trigger] selections[i]).id == Some(old.id)
            && selections[i].allocation_gib >= old.allocation_gib
}

fn size_kept(selections: &[Selection], old: &Location) -> (r: bool)
    ensures
        r == keeps_size(selection_views(selections@), old@),
{
    let ghost v = selection_views(selections@);
    for i in 0..selections.len()
        invariant
            v == selection_views(selections@),
            forall|j: int|
                0 <= j < i ==> !((#[trigger] v[j]).id == Some(old@.id) && v[j].allocation_gib
                    >= old@.allocation_gib),
    {
        assert(v[i as int] == selections@[i as int]@);
        let same = match &selections[i].id {
            Some(id) => text::same(id.as_str(), old.id.as_str()),
            None => false,
        };
        if same && selections[i].allocation_gib >= old.allocation_gib {
            return true;
        }
    }
    false
}

/// Whether some disk shrinks or goes.
pub open spec fn is_reduction(existing: Seq<LocationView>, selections: Seq<SelectionView>) -> bool {
    exists|i: int| 0 <= i < existing.len() && !keeps_size(selections, #[trigger] existing[i])
}

fn reduces(existing: &[Location], selections: &[Selection]) -> (r: bool)
    ensures
        r == is_reduction(location_views(existing@), selection_views(selections@)),
{
    let ghost v = location_views(existing@);
    for i in 0..existing.len()
        invariant
            v == location_views(existing@),
            forall|j: int|
                0 <= j < i ==> keeps_size(selection_views(selections@), #[trigger] v[j]),
    {
        assert(v[i as int] == existing@[i as int]@);
        if !size_kept(selections, &existing[i]) {
            return true;
        }
    }
    false
}

/// Whether a selection is of a disk that recovery had excluded.
pub open spec fn is_return(c: ConfigurationView, selections: Seq<SelectionView>) -> bool {
    exists|i: int|
        0 <= i < selections.len() && uses_directory(
            c.storage_lifecycle.configured_locations,
            (#[trigger] selections[i]).directory,
        ) && !uses_directory(c.storage_locations, selections[i].directory)
}

fn brings_back(config: &Configuration, selections: &[Selection]) -> (r: bool)
    ensures
        r == is_return(config@, selection_views(selections@)),
{
    let ghost v = selection_views(selections@);
    for i in 0..selections.len()
        invariant
            v == selection_views(selections@),
            forall|j: int|
                0 <= j < i ==> !(uses_directory(
                    config@.storage_lifecycle.configured_locations,
                    (#[trigger] v[j]).directory,
                ) && !uses_directory(config@.storage_locations, v[j].directory)),
    {
        assert(v[i as int] == selections@[i as int]@);
        let directory = selections[i].directory.as_str();
        if has_directory(config.storage_lifecycle.configured_locations.as_slice(), directory)
            && !has_directory(config.storage_locations.as_slice(), directory) {
            return true;
        }
    }
    false
}

/// The selections with the excluded disk that is to come back, or why it
/// cannot.
pub open spec fn restored(
    c: ConfigurationView,
    selections: Seq<SelectionView>,
    restore: Option<Seq<char>>,
    resolved: Option<HostPath>,
    volumes: Seq<VolumeView>,
    mounts: Mounts,
) -> Result<Seq<SelectionView>, Seq<char>> {
    match restore {
        None => Ok(selections),
        Some(id) => {
            let configured = c.storage_lifecycle.configured_locations;
            if !has_id(configured, id) {
                Err("Unknown excluded disk"@)
            } else {
                let old = configured[rank(configured, id)];
                if !is_available(old, resolved, volumes, mounts) {
                    Err("Reconnect the original excluded volume before restoring its capacity"@)
                } else if uses_directory(c.storage_locations, old.directory) {
                    Err("This disk already contributes capacity"@)
                } else {
                    Ok(
                        kept_selections(c.storage_locations).push(
                            SelectionView {
                                id: None,
                                directory: old.directory,
                                allocation_gib: old.allocation_gib,
                            },
                        ),
                    )
                }
            }
        },
    }
}

fn restore_disk(
    config: &Configuration,
    selections: Vec<Selection>,
    restore: &Option<String>,
    resolved: &Option<HostPath>,
    volumes: &[Volume],
    mounts: &Mounts,
) -> (r: Result<Vec<Selection>, Failure>)
    ensures
        match restored(
            config@,
            selection_views(selections@),
            content(*restore),
            *resolved,
            contents(volumes@),
            *mounts,
        ) {
            Ok(chosen) => r matches Ok(s) && selection_views(s@) == chosen,
            Err(message) => refusal(r) == Some(message),
        },
{
    let id = match restore {
        None => {
            return Ok(selections);
        },
        Some(id) => id,
    };
    let configured = config.storage_lifecycle.configured_locations.as_slice();
    let k = position(configured, id.as_str());
    proof {
        crate::storage::lemma_rank(location_views(configured@), id@, 0);
    }
    if k >= configured.len() {
        return Err(fail("Unknown excluded disk"));
    }
    let old = &configured[k];
    assert(location_views(configured@)[k as int] == old@);
    if !available(old, resolved, volumes, mounts) {
        return Err(fail("Reconnect the original excluded volume before restoring its capacity"));
    }
    if has_directory(config.storage_locations.as_slice(), old.directory.as_str()) {
        return Err(fail("This disk already contributes capacity"));
    }
    let mut chosen = keep_disks(config.storage_locations.as_slice());
    let ghost before = selection_views(chosen@);
    chosen.push(
        Selection {
            id: None,
            directory: old.directory.clone(),
            allocation_gib: old.allocation_gib,
        },
    );
    assert(selection_views(chosen@) =~= before.push(chosen@.last()@));
    Ok(chosen)
}

/// What a request turns out to be.
#[derive(Debug)]
pub enum Opened {
    /// A deletion, which needs no further look.
    Deletion(ChangePlan),
    /// No disk shrinks or goes, so the worker's data stays in place.
    Growth(Vec<Selection>),
    /// The pool is replaced and the worker's data restored to it.
    Replacement(Vec<Selection>),
}

/// The content of an `Opened`.
pub enum OpenedView {
    Deletion(ChangePlanView),
    Growth(Seq<SelectionView>),
    Replacement(Seq<SelectionView>),
}

impl View for Opened {
    type V = OpenedView;

    open spec fn view(&self) -> OpenedView {
        match self {
            Opened::Deletion(plan) => OpenedView::Deletion(plan@),
            Opened::Growth(s) => OpenedView::Growth(selection_views(s@)),
            Opened::Replacement(s) => OpenedView::Replacement(selection_views(s@)),
        }
    }
}

/// What a request turns out to be, or why it is refused. There is a receipt of
/// the worker or there is none, and directories of its disks are left or not.
pub open spec fn opened(
    c: ConfigurationView,
    selections: Seq<SelectionView>,
    options: ReviewOptionsView,
    receipt: bool,
    leftovers: bool,
    resolved: Option<HostPath>,
    volumes: Seq<VolumeView>,
    mounts: Mounts,
) -> Result<OpenedView, Seq<char>> {
    if is_busy(c) {
        Err("Wait for current worker maintenance to finish"@)
    } else if options.delete_all {
        if selections.len() != 0 || options.single_disk_gib is Some {
            Err("Deletion cannot include replacement storage"@)
        } else {
            Ok(
                OpenedView::Deletion(
                    deletion_plan(
                        c,
                        c.vm_created || receipt || c.storage_lifecycle.retired.len() > 0
                            || c.storage_retained.len() > 0 || leftovers,
                    ),
                ),
            )
        }
    } else if c.storage_locations.len() > 0 && selections.len() == 0 && options.restore_disk is None {
        Err("Use Delete all worker storage to remove the last disk"@)
    } else {
        match restored(c, selections, options.restore_disk, resolved, volumes, mounts) {
            Err(message) => Err(message),
            Ok(chosen) => if is_reduction(c.storage_locations, chosen)
                || options.single_disk_gib is Some || options.restore_disk is Some || is_return(
                c,
                chosen,
            ) {
                Ok(OpenedView::Replacement(chosen))
            } else {
                Ok(OpenedView::Growth(chosen))
            },
        }
    }
}

fn delete_everything(config: &Configuration, restart: bool) -> (r: ChangePlan)
    ensures
        r@ == deletion_plan(config@, restart),
{
    let mut deletions: Vec<String> = Vec::new();
    deletions.push(
        "All worker data and the owned worker VM; host enrollment remains".to_owned(),
    );
    assert(contents(deletions@) =~= seq![
        "All worker data and the owned worker VM; host enrollment remains"@,
    ]);
    let review = Review {
        kind: Kind::DeleteAll,
        backup: None,
        minimum_gib: 0,
        temporary_bytes: 0,
        deletions,
        downtime: "Worker storage remains disabled until you explicitly configure it again".to_owned(),
    };
    let r = ChangePlan {
        maintenance: Some(review),
        layout: None,
        revision: config.storage_revision,
        locations: Vec::new(),
        total_gib: 0,
        requires_restart: restart,
    };
    assert(r@ =~= deletion_plan(config@, restart));
    r
}

/// Find out what a request is. The resolved directory is that of the excluded
/// disk that is to come back.
pub fn open_review(
    config: &Configuration,
    selections: Vec<Selection>,
    options: &ReviewOptions,
    receipt: bool,
    leftovers: bool,
    resolved: &Option<HostPath>,
    volumes: &[Volume],
    mounts: &Mounts,
) -> (r: Result<Opened, Failure>)
    ensures
        match opened(
            config@,
            selection_views(selections@),
            options@,
            receipt,
            leftovers,
            *resolved,
            contents(volumes@),
            *mounts,
        ) {
            Ok(found) => r matches Ok(o) && o@ == found,
            Err(message) => refusal(r) == Some(message),
        },
{
    if config.storage_lifecycle.maintenance.is_some() || config.storage_operation.is_some()
        || config.recreation.is_some() || config.application_update_pending {
        return Err(fail("Wait for current worker maintenance to finish"));
    }
    if options.delete_all {
        if selections.len() != 0 || options.single_disk_gib.is_some() {
            return Err(fail("Deletion cannot include replacement storage"));
        }
        let restart = config.vm_created || receipt || config.storage_lifecycle.retired.len() > 0
            || config.storage_retained.len() > 0 || leftovers;
        return Ok(Opened::Deletion(delete_everything(config, restart)));
    }
    if config.storage_locations.len() > 0 && selections.len() == 0
        && options.restore_disk.is_none() {
        return Err(fail("Use Delete all worker storage to remove the last disk"));
    }
    match restore_disk(config, selections, &options.restore_disk, resolved, volumes, mounts) {
        Err(e) => Err(e),
        Ok(chosen) => if reduces(config.storage_locations.as_slice(), chosen.as_slice())
            || options.single_disk_gib.is_some() || options.restore_disk.is_some() || brings_back(
            config,
            chosen.as_slice(),
        ) {
            Ok(Opened::Replacement(chosen))
        } else {
            Ok(Opened::Growth(chosen))
        },
    }
}

/// A request that keeps the worker's data in place names every existing disk
/// with at least what it has.
pub proof fn growth_keeps_every_disk(
    c: ConfigurationView,
    selections: Seq<SelectionView>,
    options: ReviewOptionsView,
    receipt: bool,
    leftovers: bool,
    resolved: Option<HostPath>,
    volumes: Seq<VolumeView>,
    mounts: Mounts,
)
    ensures
        opened(c, selections, options, receipt, leftovers, resolved, volumes, mounts) matches Ok(
            OpenedView::Growth(chosen),
        ) ==> forall|i: int|
            0 <= i < c.storage_locations.len() ==> keeps_size(
                chosen,
                #[trigger] c.storage_locations[i],
            ),
{
}

/// Why a Multipass worker's disk cannot be replaced as asked.
pub open spec fn single_refusal(
    selections: Seq<SelectionView>,
    size: Option<u64>,
) -> Option<Seq<char>> {
    if selections.len() > 0 {
        Some("Multipass does not support selectable locations or additional disks"@)
    } else if size is None {
        Some("Choose a single worker disk allocation"@)
    } else {
        unless(15 <= size->0 <= 1_048_576, "Choose at least 15 GiB of worker storage"@)
    }
}

/// Plan the disks of a replacement. Where the layout was prepared before, its
/// data disks are taken; a Multipass worker has the one disk that was asked
/// for. The volumes are those left after the VM's own growth.
pub fn plan_replacement(
    config: &Configuration,
    platform: &str,
    directory: &str,
    selections: &[Selection],
    single: Option<u64>,
    prepared: Option<&[Location]>,
    volumes: &[Volume],
    mounts: &Mounts,
    credits: &[(String, u64)],
    sightings: &[Sighting],
) -> (r: Result<(Vec<Location>, u64), Failure>)
    requires
        prepared matches Some(data) ==> total_gib(location_views(data@)) <= u64::MAX,
        config.vm_provider == VmProvider::Lima && prepared is None ==> sightings@.len()
            == effective_selections(
            selection_views(selections@),
            paths::join_path(directory@, "storage"@),
            config@.policy.resources.disk_gib,
        ).len(),
    ensures
        config.vm_provider == VmProvider::Multipass ==> refusal(r) == single_refusal(
            selection_views(selections@),
            single,
        ) && (r matches Ok(planned) ==> planned.0@.len() == 0 && Some(planned.1) == single),
        config.vm_provider == VmProvider::Lima && !places_disks(VmProvider::Lima, platform@)
            ==> refusal(r) == Some(unsupported_text(VmProvider::Lima)),
        config.vm_provider == VmProvider::Lima && places_disks(VmProvider::Lima, platform@) ==> (
        match prepared {
            Some(data) => r matches Ok(planned) && location_views(planned.0@) == location_views(
                data@,
            ),
            None => match plan_claims(
                plan_input(contents(volumes@), *mounts, config.storage_locations@, credits@),
                effective_selections(
                    selection_views(selections@),
                    paths::join_path(directory@, "storage"@),
                    config@.policy.resources.disk_gib,
                ),
                sightings@,
            ) {
                Ok(claims) => r matches Ok(planned) && exists|fresh: Seq<u128>|
                    identity::are_random(fresh)
                        && fresh.len() == claims.len()
                        && location_views(planned.0@) == #[trigger] ordered(
                        drawn(claims, fresh),
                        config@.storage_locations,
                    ),
                Err(message) => refusal(r) == Some(message),
            },
        }),
        config.vm_provider == VmProvider::Lima ==> (r matches Ok(planned) ==> planned.1
            == total_gib(location_views(planned.0@))),
{
    if config.vm_provider == VmProvider::Multipass {
        if selections.len() > 0 {
            return Err(
                fail("Multipass does not support selectable locations or additional disks"),
            );
        }
        return match single {
            None => Err(fail("Choose a single worker disk allocation")),
            Some(size) => if 15 <= size && size <= 1_048_576 {
                Ok((Vec::new(), size))
            } else {
                Err(fail("Choose at least 15 GiB of worker storage"))
            },
        };
    }
    match require_location_support(config.vm_provider, platform) {
        Ok(()) => {},
        Err(e) => {
            return Err(e);
        },
    }
    let ghost mut ids: Seq<u128> = Seq::empty();
    let planned = match prepared {
        Some(data) => copy_list(data),
        None => {
            let default = paths::join(directory, "storage");
            let ghost wanted = effective_selections(
                selection_views(selections@),
                default@,
                config@.policy.resources.disk_gib,
            );
            match plan_change(
                selections,
                default.as_str(),
                config.policy.resources.disk_gib,
                volumes,
                mounts,
                config.storage_locations.as_slice(),
                credits,
                sightings,
            ) {
                Ok(planned) => {
                    proof {
                        let input = plan_input(
                            contents(volumes@),
                            *mounts,
                            config.storage_locations@,
                            credits@,
                        );
                        let claims = plan_claims(input, wanted, sightings@)->Ok_0;
                        let fresh = choose|fresh: Seq<u128>|
                            identity::are_random(fresh)
                                && fresh.len() == claims.len()
                                && location_views(planned@)
                                == #[trigger] ordered(
                                drawn(claims, fresh),
                                location_views(config.storage_locations@),
                            );
                        planned_total_is_the_claimed_one(
                            claims,
                            fresh,
                            location_views(config.storage_locations@),
                        );
                        claimed_total_is_bounded(
                            input,
                            wanted,
                            sightings@,
                            wanted.len() as int,
                        );
                        ids = fresh;
                    }
                    planned
                },
                Err(e) => {
                    return Err(e);
                },
            }
        },
    };
    let total = sum_gib(planned.as_slice());
    proof {
        if prepared is None {
            let claims = plan_claims(
                plan_input(contents(volumes@), *mounts, config.storage_locations@, credits@),
                effective_selections(
                    selection_views(selections@),
                    paths::join_path(directory@, "storage"@),
                    config@.policy.resources.disk_gib,
                ),
                sightings@,
            )->Ok_0;
            assert(location_views(planned@) == ordered(
                drawn(claims, ids),
                config@.storage_locations,
            ));
        }
    }
    Ok((planned, total))
}

/// What the worker's data needs of a new allocation, and what its backup needs
/// of the host for a while, or why the allocation is refused.
pub open spec fn data_need(total: u64, multipass: bool, usage: JsonView) -> Result<
    (u64, u64),
    Seq<char>,
> {
    match number_of(at(usage, "dataBytes"@)) {
        None => Err("Worker data usage is unavailable"@),
        Some(data) => if data * 5 > u64::MAX {
            Err("Worker data size overflow"@)
        } else {
            let minimum = if capacity_for(data, multipass) < 15 {
                15
            } else {
                capacity_for(data, multipass)
            };
            if total < minimum {
                Err(
                    "Worker data requires at least "@ + text::decimal(minimum as nat)
                        + " GiB including filesystem overhead and operating space; nothing was changed"@,
                )
            } else {
                match number_of(at(usage, "backupBytes"@)) {
                    None => Err("Backup size is unavailable"@),
                    Some(bytes) => if bytes + GIB > u64::MAX {
                        Err("Backup size overflow"@)
                    } else {
                        Ok((minimum as u64, (bytes + GIB) as u64))
                    },
                }
            }
        },
    }
}

/// What the worker's data needs.
pub fn check_data(total: u64, multipass: bool, usage: &Json) -> (r: Result<(u64, u64), Failure>)
    ensures
        match data_need(total, multipass, usage@) {
            Ok(need) => r == Ok::<(u64, u64), Failure>(need),
            Err(message) => refusal(r) == Some(message),
        },
{
    let data = match usage.field_number("dataBytes") {
        Some(data) => data,
        None => {
            return Err(fail("Worker data usage is unavailable"));
        },
    };
    let minimum = match required_capacity(data, multipass) {
        Ok(minimum) => minimum,
        Err(e) => {
            return Err(e);
        },
    };
    if total < minimum {
        let number = text::decimal_text(minimum);
        return Err(
            Failure {
                message: text::join3(
                    "Worker data requires at least ",
                    number.as_str(),
                    " GiB including filesystem overhead and operating space; nothing was changed",
                ),
            },
        );
    }
    let bytes = match usage.field_number("backupBytes") {
        Some(bytes) => bytes,
        None => {
            return Err(fail("Backup size is unavailable"));
        },
    };
    match bytes.checked_add(GIB) {
        Some(temporary) => Ok((minimum, temporary)),
        None => Err(fail("Backup size overflow")),
    }
}

/// An accepted allocation holds the worker's data with at least a quarter of
/// headroom.
pub proof fn accepted_allocations_hold_the_data(total: u64, multipass: bool, usage: JsonView)
    ensures
        data_need(total, multipass, usage) matches Ok(need) ==> total >= need.0 && total * GIB * 4
            >= number_of(at(usage, "dataBytes"@))->0 * 5,
{
    if let Some(data) = number_of(at(usage, "dataBytes"@)) {
        crate::storage_lifecycle::required_capacity_holds_the_data(data, multipass);
        let gib = capacity_for(data, multipass);
        assert(total >= gib ==> total * GIB * 4 >= gib * GIB * 4);
    }
}

/// The bytes of a backup that share the pool of a volume.
pub open spec fn shared_bytes(backup: Option<(Seq<char>, u64)>, pool: Seq<char>) -> u64 {
    match backup {
        Some(b) => if b.0 == pool {
            b.1
        } else {
            0
        },
        None => 0,
    }
}

/// Why a Multipass disk cannot be replaced where it stands, beside a backup in
/// a pool.
pub open spec fn space_refusal(
    space: ReplacementSpace,
    total: u64,
    backup: Option<(Seq<char>, u64)>,
    volumes: Seq<VolumeView>,
    mounts: Mounts,
) -> Option<Seq<char>> {
    match volume_index(space.directory, volumes, mounts) {
        None => Some(
            "Cannot verify free space on the Multipass daemon's disk volume; nothing was changed"@,
        ),
        Some(i) => {
            let volume = volumes[i];
            let required = space_required(
                total,
                space.reclaimed_bytes,
                shared_bytes(backup, volume.capacity_pool),
            );
            unless(
                volume.id.len() > 0 && volume.available_gib >= required,
                "The Multipass disk volume needs "@ + text::decimal(required as nat)
                    + " GiB free for replacement and the host reserve; available space is "@
                    + text::decimal(volume.available_gib as nat)
                    + " GiB. Source storage is preserved"@,
            )
        },
    }
}

/// Whether a Multipass disk can be replaced where it stands, beside a backup in
/// a pool.
pub fn check_replacement_space(
    space: &ReplacementSpace,
    total_gib: u64,
    backup: Option<(&str, u64)>,
    volumes: &[Volume],
    mounts: &Mounts,
) -> (r: Result<(), Failure>)
    ensures
        refusal(r) == space_refusal(
            *space,
            total_gib,
            match backup {
                Some(b) => Some((b.0@, b.1)),
                None => None,
            },
            contents(volumes@),
            *mounts,
        ),
{
    let volume = match volume_for(&space.directory, volumes, mounts) {
        Some(i) => &volumes[i],
        None => {
            return Err(
                fail(
                    "Cannot verify free space on the Multipass daemon's disk volume; nothing was changed",
                ),
            );
        },
    };
    let bytes = match backup {
        Some((pool, bytes)) => if text::same(pool, volume.capacity_pool.as_str()) {
            bytes
        } else {
            0
        },
        None => 0,
    };
    let required = replacement_space_required(total_gib, space.reclaimed_bytes, bytes);
    let id = text::chars_of(volume.id.as_str());
    if id.len() > 0 && volume.available_gib >= required {
        return Ok(());
    }
    let needed = text::decimal_text(required);
    let free = text::decimal_text(volume.available_gib);
    let first = text::join3(
        "The Multipass disk volume needs ",
        needed.as_str(),
        " GiB free for replacement and the host reserve; available space is ",
    );
    Err(
        Failure {
            message: text::join3(
                first.as_str(),
                free.as_str(),
                " GiB. Source storage is preserved",
            ),
        },
    )
}

/// Where a resolved path stands.
pub open spec fn volume_under(
    path: Seq<char>,
    native: Option<Seq<char>>,
    volumes: Seq<VolumeView>,
    mounts: Mounts,
) -> Option<int> {
    if uses_native_identity(mounts, volumes) {
        match native {
            Some(id) => volume_with_id(volumes, id, 0),
            None => None,
        }
    } else {
        deepest(mounts, path, volumes.len() as int)
    }
}

/// What a look at a folder for the temporary backup finds.
#[derive(Debug)]
pub struct Candidate {
    pub seen: DirectorySight,
    pub native_volume: Option<String>,
}

/// The folders that the temporary backup may go to, in the order in which they
/// are tried: the one that the owner asks for, or those of the disks.
pub open spec fn backup_folders(
    c: ConfigurationView,
    settings: Seq<char>,
    requested: Option<Seq<char>>,
) -> Seq<Seq<char>> {
    match requested {
        Some(path) => seq![path],
        None => if c.storage_locations.len() == 0 {
            seq![settings]
        } else {
            c.storage_locations.map_values(|l: LocationView| l.directory)
        },
    }
}

/// The folders that the temporary backup may go to, in the order in which they
/// are tried.
pub fn candidate_folders(config: &Configuration, settings: &str, requested: Option<&str>) -> (r:
    Vec<String>)
    ensures
        contents(r@) == backup_folders(
            config@,
            settings@,
            match requested {
                Some(path) => Some(path@),
                None => None,
            },
        ),
{
    let mut r: Vec<String> = Vec::new();
    match requested {
        Some(path) => {
            r.push(path.to_owned());
            assert(contents(r@) =~= seq![path@]);
            return r;
        },
        None => {},
    }
    if config.storage_locations.len() == 0 {
        r.push(settings.to_owned());
        assert(contents(r@) =~= seq![settings@]);
        return r;
    }
    let ghost wanted = config@.storage_locations.map_values(|l: LocationView| l.directory);
    for i in 0..config.storage_locations.len()
        invariant
            wanted == config@.storage_locations.map_values(|l: LocationView| l.directory),
            contents(r@) =~= wanted.take(i as int),
    {
        let ghost before = contents(r@);
        r.push(config.storage_locations[i].directory.clone());
        assert(contents(r@) =~= before.push(wanted[i as int]));
    }
    assert(contents(r@) =~= wanted);
    r
}

/// The disks whose directories a backup must stay out of.
pub open spec fn replaced_disks(c: ConfigurationView) -> Seq<LocationView> {
    c.storage_locations + c.storage_lifecycle.retired + c.storage_retained
}

/// The directories of the first `n` disks behind the VM's own, or why one has
/// none.
pub open spec fn image_directories(
    home: Seq<char>,
    device: Seq<char>,
    disks: Seq<LocationView>,
    n: int,
) -> Result<Seq<Seq<char>>, Seq<char>>
    decreases n,
{
    if n <= 0 {
        Ok(seq![home])
    } else {
        match image_directories(home, device, disks, n - 1) {
            Err(message) => Err(message),
            Ok(before) => match paths_of(home, device, disks[n - 1]) {
                Err(message) => Err(message),
                Ok(p) => Ok(before.push(p.directory)),
            },
        }
    }
}

proof fn lemma_image_refused(
    home: Seq<char>,
    device: Seq<char>,
    disks: Seq<LocationView>,
    i: int,
    n: int,
)
    requires
        0 <= i <= n,
        image_directories(home, device, disks, i) is Err,
    ensures
        image_directories(home, device, disks, n) == image_directories(home, device, disks, i),
    decreases n,
{
    if i < n {
        lemma_image_refused(home, device, disks, i, n - 1);
    }
}

fn collect_directories(home: &str, device: &str, disks: &[Location]) -> (r: Result<
    Vec<String>,
    Failure,
>)
    ensures
        match image_directories(home@, device@, location_views(disks@), disks@.len() as int) {
            Ok(d) => r matches Ok(v) && contents(v@) == d,
            Err(message) => refusal(r) == Some(message),
        },
{
    let ghost v = location_views(disks@);
    let mut r: Vec<String> = Vec::new();
    r.push(home.to_owned());
    assert(contents(r@) =~= seq![home@]);
    for i in 0..disks.len()
        invariant
            v == location_views(disks@),
            image_directories(home@, device@, v, i as int) == Ok::<Seq<Seq<char>>, Seq<char>>(
                contents(r@),
            ),
    {
        assert(v[i as int] == disks@[i as int]@);
        match disk_paths(home, device, &disks[i]) {
            Ok(p) => {
                let ghost before = contents(r@);
                r.push(p.directory);
                assert(contents(r@) =~= before.push(p@.directory));
            },
            Err(e) => {
                proof {
                    lemma_image_refused(home@, device@, v, i + 1, disks@.len() as int);
                }
                return Err(e);
            },
        }
    }
    Ok(r)
}

/// Whether a path lies within one of the directories.
pub open spec fn lies_within(
    platform: Seq<char>,
    path: Seq<char>,
    directories: Seq<Seq<char>>,
) -> bool {
    exists|i: int|
        0 <= i < directories.len() && host_within(platform, path, #[trigger] directories[i])
}

fn within_any(platform: &str, path: &str, directories: &[String]) -> (r: bool)
    ensures
        r == lies_within(platform@, path@, contents(directories@)),
{
    let ghost v = contents(directories@);
    for i in 0..directories.len()
        invariant
            v == contents(directories@),
            forall|j: int| 0 <= j < i ==> !host_within(platform@, path@, #[trigger] v[j]),
    {
        assert(v[i as int] == directories@[i as int]@);
        if host_paths::within(platform, path, directories[i].as_str()) {
            return true;
        }
    }
    false
}

/// Whether a volume with the identity shares the pool.
pub open spec fn shares_pool(volumes: Seq<VolumeView>, id: Seq<char>, pool: Seq<char>) -> bool {
    exists|i: int|
        0 <= i < volumes.len() && (#[trigger] volumes[i]).id == id && volumes[i].capacity_pool
            == pool
}

fn pool_shared(volumes: &[Volume], id: &str, pool: &str) -> (r: bool)
    ensures
        r == shares_pool(contents(volumes@), id@, pool@),
{
    let ghost v = contents(volumes@);
    for i in 0..volumes.len()
        invariant
            v == contents(volumes@),
            forall|j: int|
                0 <= j < i ==> !((#[trigger] v[j]).id == id@ && v[j].capacity_pool == pool@),
    {
        assert(v[i as int] == volumes@[i as int]@);
        if text::same(volumes[i].id.as_str(), id) && text::same(
            volumes[i].capacity_pool.as_str(),
            pool,
        ) {
            return true;
        }
    }
    false
}

/// What the first `n` planned disks may still grow within a pool.
pub open spec fn growth_within(
    target: Seq<LocationView>,
    credits: Seq<(String, u64)>,
    volumes: Seq<VolumeView>,
    pool: Seq<char>,
    n: int,
) -> nat
    decreases n,
{
    if n <= 0 {
        0
    } else {
        let l = target[n - 1];
        let held = credited_bytes(credits, l.id, 0) / GIB;
        growth_within(target, credits, volumes, pool, n - 1) + (if shares_pool(
            volumes,
            l.volume_id,
            pool,
        ) && l.allocation_gib > held {
            (l.allocation_gib - held) as nat
        } else {
            0
        })
    }
}

proof fn lemma_growth_bounded(
    target: Seq<LocationView>,
    credits: Seq<(String, u64)>,
    volumes: Seq<VolumeView>,
    pool: Seq<char>,
    n: int,
)
    requires
        0 <= n <= target.len(),
    ensures
        growth_within(target, credits, volumes, pool, n) <= total_gib(target.take(n)) <= total_gib(
            target,
        ),
    decreases n,
{
    crate::storage::lemma_total_grows(target, n);
    if n > 0 {
        lemma_growth_bounded(target, credits, volumes, pool, n - 1);
        assert(target.take(n).drop_last() =~= target.take(n - 1));
    }
}

fn growth_in(
    target: &[Location],
    credits: &[(String, u64)],
    volumes: &[Volume],
    pool: &str,
) -> (r: u64)
    requires
        total_gib(location_views(target@)) <= u64::MAX,
    ensures
        r == growth_within(
            location_views(target@),
            credits@,
            contents(volumes@),
            pool@,
            target@.len() as int,
        ),
{
    let ghost v = location_views(target@);
    let mut sum: u64 = 0;
    for i in 0..target.len()
        invariant
            v == location_views(target@),
            total_gib(v) <= u64::MAX,
            sum == growth_within(v, credits@, contents(volumes@), pool@, i as int),
    {
        assert(v[i as int] == target@[i as int]@);
        proof {
            lemma_growth_bounded(v, credits@, contents(volumes@), pool@, i + 1);
        }
        if pool_shared(volumes, target[i].volume_id.as_str(), pool) {
            let held = credit_for(credits, target[i].id.as_str()) / GIB;
            sum = sum + target[i].allocation_gib.saturating_sub(held);
        }
    }
    sum
}

/// What a review of the worker's storage is made from.
pub struct BackupInput {
    pub settings: Seq<char>,
    pub target: Seq<LocationView>,
    pub volumes: Seq<VolumeView>,
    pub mounts: Mounts,
    pub credits: Seq<(String, u64)>,
    pub bytes: u64,
    pub replacement: Option<(ReplacementSpace, u64)>,
}

/// The directories that a backup must stay out of.
pub open spec fn forbidden(c: ConfigurationView, input: BackupInput) -> Result<
    Seq<Seq<char>>,
    Seq<char>,
> {
    let disks = replaced_disks(c);
    match image_directories(
        host_join(input.mounts.platform@, input.settings, "lima"@),
        c.device_id,
        disks,
        disks.len() as int,
    ) {
        Err(message) => Err(message),
        Ok(directories) => match input.replacement {
            Some(space) => Ok(directories.push(space.0.directory.path@)),
            None => Ok(directories),
        },
    }
}

/// Whether a volume has room for the backup beside the growth of the planned
/// disks and the host reserve.
pub open spec fn has_room(input: BackupInput, volume: VolumeView) -> bool {
    volume.available_gib >= saturated(
        ceil_gib(input.bytes as int) + 10 + growth_within(
            input.target,
            input.credits,
            input.volumes,
            volume.capacity_pool,
            input.target.len() as int,
        ),
    ) && (input.replacement matches Some(space) ==> space_refusal(
        space.0,
        space.1,
        Some((volume.capacity_pool, input.bytes)),
        input.volumes,
        input.mounts,
    ) is None)
}

/// Whether a backup can go into a folder, and where it then is; or why the
/// choice of a folder ends.
pub open spec fn folder_choice(
    c: ConfigurationView,
    input: BackupInput,
    folder: Seq<char>,
    candidate: Candidate,
) -> Result<Option<BackupLocationView>, Seq<char>> {
    match resolved_directory(input.mounts.platform@, folder, candidate.seen) {
        Err(message) => Err(message),
        Ok(path) => match forbidden(c, input) {
            Err(message) => Err(message),
            Ok(directories) => if lies_within(input.mounts.platform@, path, directories) {
                Err(
                    "Choose a backup folder outside the managed VM and image directories that will be replaced"@,
                )
            } else {
                match volume_under(
                    path,
                    content(candidate.native_volume),
                    input.volumes,
                    input.mounts,
                ) {
                    None => Ok(None),
                    Some(i) => if has_room(input, input.volumes[i]) {
                        Ok(
                            Some(
                                BackupLocationView {
                                    directory: path,
                                    volume_id: input.volumes[i].id,
                                },
                            ),
                        )
                    } else {
                        Ok(None)
                    },
                }
            },
        },
    }
}

/// The first folder from `i` on that the backup can go into.
pub open spec fn backup_choice(
    c: ConfigurationView,
    input: BackupInput,
    folders: Seq<Seq<char>>,
    candidates: Seq<Candidate>,
    i: int,
) -> Result<BackupLocationView, Seq<char>>
    decreases folders.len() - i,
{
    if i < 0 || i >= folders.len() {
        Err(
            "Choose a temporary backup folder with at least "@ + text::decimal(
                ceil_gib(input.bytes as int) as nat,
            ) + " GiB free plus the 10 GiB host reserve and remaining image growth; nothing was changed"@,
        )
    } else {
        match folder_choice(c, input, folders[i], candidates[i]) {
            Err(message) => Err(message),
            Ok(Some(found)) => Ok(found),
            Ok(None) => backup_choice(c, input, folders, candidates, i + 1),
        }
    }
}

fn all_replaced(config: &Configuration) -> (r: Vec<Location>)
    ensures
        location_views(r@) == replaced_disks(config@),
{
    let mut r = copy_list(config.storage_locations.as_slice());
    let mut retired = copy_list(config.storage_lifecycle.retired.as_slice());
    let mut retained = copy_list(config.storage_retained.as_slice());
    r.append(&mut retired);
    r.append(&mut retained);
    assert(location_views(r@) =~= replaced_disks(config@));
    r
}

fn room_for(
    target: &[Location],
    volumes: &[Volume],
    mounts: &Mounts,
    credits: &[(String, u64)],
    bytes: u64,
    replacement: Option<(&ReplacementSpace, u64)>,
    volume: &Volume,
    Ghost(input): Ghost<BackupInput>,
) -> (r: bool)
    requires
        total_gib(location_views(target@)) <= u64::MAX,
        input.target == location_views(target@),
        input.volumes == contents(volumes@),
        input.mounts == *mounts,
        input.credits == credits@,
        input.bytes == bytes,
        input.replacement == (match replacement {
            Some(s) => Some((*s.0, s.1)),
            None => None,
        }),
    ensures
        r == has_room(input, volume@),
{
    let growth = growth_in(target, credits, volumes, volume.capacity_pool.as_str());
    let needed = gib_for(bytes).saturating_add(10).saturating_add(growth);
    if volume.available_gib < needed {
        return false;
    }
    match replacement {
        Some((space, total)) => check_replacement_space(
            space,
            total,
            Some((volume.capacity_pool.as_str(), bytes)),
            volumes,
            mounts,
        ).is_ok(),
        None => true,
    }
}

/// Choose the folder for the temporary backup. There is a look at each of the
/// candidate folders, in their order.
pub fn select_backup(
    config: &Configuration,
    settings: &str,
    target: &[Location],
    volumes: &[Volume],
    mounts: &Mounts,
    credits: &[(String, u64)],
    requested: Option<&str>,
    candidates: &[Candidate],
    bytes: u64,
    replacement: Option<(&ReplacementSpace, u64)>,
) -> (r: Result<BackupLocation, Failure>)
    requires
        total_gib(location_views(target@)) <= u64::MAX,
        candidates@.len() == backup_folders(
            config@,
            settings@,
            match requested {
                Some(path) => Some(path@),
                None => None,
            },
        ).len(),
    ensures
        match backup_choice(
            config@,
            BackupInput {
                settings: settings@,
                target: location_views(target@),
                volumes: contents(volumes@),
                mounts: *mounts,
                credits: credits@,
                bytes,
                replacement: match replacement {
                    Some(s) => Some((*s.0, s.1)),
                    None => None,
                },
            },
            backup_folders(
                config@,
                settings@,
                match requested {
                    Some(path) => Some(path@),
                    None => None,
                },
            ),
            candidates@,
            0,
        ) {
            Ok(found) => r matches Ok(b) && b@ == found,
            Err(message) => refusal(r) == Some(message),
        },
{
    let ghost input = BackupInput {
        settings: settings@,
        target: location_views(target@),
        volumes: contents(volumes@),
        mounts: *mounts,
        credits: credits@,
        bytes,
        replacement: match replacement {
            Some(s) => Some((*s.0, s.1)),
            None => None,
        },
    };
    let folders = candidate_folders(config, settings, requested);
    let home = host_paths::join(mounts.platform.as_str(), settings, "lima");
    let disks = all_replaced(config);
    let mut i: usize = 0;
    while i < folders.len()
        invariant
            i <= folders@.len(),
            total_gib(location_views(target@)) <= u64::MAX,
            candidates@.len() == folders@.len(),
            contents(folders@) == backup_folders(
                config@,
                settings@,
                match requested {
                    Some(path) => Some(path@),
                    None => None,
                },
            ),
            location_views(disks@) == replaced_disks(config@),
            home@ == host_join(mounts.platform@, settings@, "lima"@),
            input == (BackupInput {
                settings: settings@,
                target: location_views(target@),
                volumes: contents(volumes@),
                mounts: *mounts,
                credits: credits@,
                bytes,
                replacement: match replacement {
                    Some(s) => Some((*s.0, s.1)),
                    None => None,
                },
            }),
            backup_choice(config@, input, contents(folders@), candidates@, 0) == backup_choice(
                config@,
                input,
                contents(folders@),
                candidates@,
                i as int,
            ),
        decreases folders@.len() - i,
    {
        let candidate = &candidates[i];
        assert(contents(folders@)[i as int] == folders@[i as int]@);
        let path = match canonical_directory(
            mounts.platform.as_str(),
            folders[i].as_str(),
            &candidate.seen,
        ) {
            Ok(path) => path,
            Err(e) => {
                return Err(e);
            },
        };
        let mut directories = match collect_directories(
            home.as_str(),
            config.device_id.as_str(),
            disks.as_slice(),
        ) {
            Ok(directories) => directories,
            Err(e) => {
                return Err(e);
            },
        };
        match replacement {
            Some((space, _)) => {
                let ghost before = contents(directories@);
                directories.push(space.directory.path.clone());
                assert(contents(directories@) =~= before.push(space.directory.path@));
            },
            None => {},
        }
        assert(forbidden(config@, input) == Ok::<Seq<Seq<char>>, Seq<char>>(
            contents(directories@),
        ));
        if within_any(mounts.platform.as_str(), path.as_str(), directories.as_slice()) {
            return Err(
                fail(
                    "Choose a backup folder outside the managed VM and image directories that will be replaced",
                ),
            );
        }
        let place = HostPath {
            path: path.clone(),
            native_volume: copy_option(&candidate.native_volume),
        };
        assert(volume_index(place, contents(volumes@), *mounts) == volume_under(
            path@,
            content(candidate.native_volume),
            contents(volumes@),
            *mounts,
        ));
        match volume_for(&place, volumes, mounts) {
            Some(k) => {
                let volume = &volumes[k];
                assert(contents(volumes@)[k as int] == volume@);
                if room_for(
                    target,
                    volumes,
                    mounts,
                    credits,
                    bytes,
                    replacement,
                    volume,
                    Ghost(input),
                ) {
                    return Ok(BackupLocation { directory: path, volume_id: volume.id.clone() });
                }
            },
            None => {},
        }
        i = i + 1;
    }
    let number = text::decimal_text(gib_for(bytes));
    Err(
        Failure {
            message: text::join3(
                "Choose a temporary backup folder with at least ",
                number.as_str(),
                " GiB free plus the 10 GiB host reserve and remaining image growth; nothing was changed",
            ),
        },
    )
}

/// A chosen backup folder lies outside everything that will be replaced, and
/// its volume has room for the backup and the host reserve.
pub proof fn chosen_folders_are_safe(
    c: ConfigurationView,
    input: BackupInput,
    folders: Seq<Seq<char>>,
    candidates: Seq<Candidate>,
    i: int,
)
    requires
        0 <= i,
    ensures
        backup_choice(c, input, folders, candidates, i) matches Ok(found) ==> forbidden(
            c,
            input,
        ) is Ok && !lies_within(
            input.mounts.platform@,
            found.directory,
            forbidden(c, input)->Ok_0,
        ) && exists|k: int|
            (#[trigger] input.volumes[k]).id == found.volume_id && has_room(
                input,
                input.volumes[k],
            ),
    decreases folders.len() - i,
{
    if i < folders.len() {
        chosen_folders_are_safe(c, input, folders, candidates, i + 1);
        if let Ok(Some(found)) = folder_choice(c, input, folders[i], candidates[i]) {
            let k = volume_under(
                found.directory,
                content(candidates[i].native_volume),
                input.volumes,
                input.mounts,
            )->0;
            assert(input.volumes[k].id == found.volume_id && has_room(input, input.volumes[k]));
        }
    }
}

/// The review of a replacement of the pool.
pub open spec fn replacement_plan(
    c: ConfigurationView,
    locations: Seq<LocationView>,
    total: u64,
    restart: bool,
    minimum: u64,
    temporary: u64,
    backup: Option<BackupLocationView>,
) -> ChangePlanView {
    ChangePlanView {
        maintenance: Some(
            ReviewView {
                kind: Kind::ResizeRemove,
                backup,
                minimum_gib: minimum,
                temporary_bytes: temporary,
                deletions: seq![
                    "Previous managed storage images are replaced after backup verification; worker data is preserved"@,
                ],
                downtime: "Drain, verified backup, disk replacement, restore and Kubernetes capacity check; duration depends on data size and disk speed"@,
            },
        ),
        layout: None,
        revision: c.storage_revision,
        locations,
        total_gib: total,
        requires_restart: restart,
    }
}

fn replace_pool(
    config: &Configuration,
    locations: Vec<Location>,
    total: u64,
    restart: bool,
    minimum: u64,
    temporary: u64,
    backup: Option<BackupLocation>,
) -> (r: ChangePlan)
    ensures
        r@ == replacement_plan(
            config@,
            location_views(locations@),
            total,
            restart,
            minimum,
            temporary,
            content(backup),
        ),
{
    let mut deletions: Vec<String> = Vec::new();
    deletions.push(
        "Previous managed storage images are replaced after backup verification; worker data is preserved".to_owned(),
    );
    assert(contents(deletions@) =~= seq![
        "Previous managed storage images are replaced after backup verification; worker data is preserved"@,
    ]);
    let review = Review {
        kind: Kind::ResizeRemove,
        backup,
        minimum_gib: minimum,
        temporary_bytes: temporary,
        deletions,
        downtime: "Drain, verified backup, disk replacement, restore and Kubernetes capacity check; duration depends on data size and disk speed".to_owned(),
    };
    ChangePlan {
        maintenance: Some(review),
        layout: None,
        revision: config.storage_revision,
        locations,
        total_gib: total,
        requires_restart: restart,
    }
}

/// What a look at the running worker finds: whether it can be reached, what its
/// data takes, the space of its Multipass disk, and the folders for a backup.
#[derive(Debug)]
pub struct WorkerFacts {
    pub reachable: bool,
    pub usage: Json,
    pub replacement: Option<ReplacementSpace>,
    pub candidates: Vec<Candidate>,
}

/// The space that a Multipass disk is replaced in.
pub open spec fn daemon_space(c: ConfigurationView, worker: WorkerFacts, total: u64) -> Option<
    (ReplacementSpace, u64),
> {
    if c.vm_provider == VmProvider::Multipass && worker.replacement is Some {
        Some((worker.replacement->0, total))
    } else {
        None
    }
}

/// The review of a replacement of a worker's pool, or why it is refused.
pub open spec fn reviewed_replacement(
    c: ConfigurationView,
    receipt: bool,
    worker: WorkerFacts,
    total: u64,
    requested: Option<Seq<char>>,
    input: BackupInput,
) -> Result<ChangePlanView, Seq<char>> {
    if !(c.vm_created || receipt) {
        Ok(replacement_plan(c, input.target, total, false, 15, 0, None))
    } else if !(receipt && worker.reachable) {
        Err(
            "Start the existing worker so NodeHarbor can inspect its data before reviewing a smaller allocation"@,
        )
    } else {
        match data_need(total, c.vm_provider == VmProvider::Multipass, worker.usage@) {
            Err(message) => Err(message),
            Ok(need) => {
                let space = daemon_space(c, worker, total);
                match if space is Some {
                    space_refusal((space->0).0, total, None, input.volumes, input.mounts)
                } else {
                    None
                } {
                    Some(message) => Err(message),
                    None => match backup_choice(
                        c,
                        BackupInput { bytes: need.1, replacement: space, ..input },
                        backup_folders(c, input.settings, requested),
                        worker.candidates@,
                        0,
                    ) {
                        Err(message) => Err(message),
                        Ok(backup) => Ok(
                            replacement_plan(
                                c,
                                input.target,
                                total,
                                true,
                                need.0,
                                need.1,
                                Some(backup),
                            ),
                        ),
                    },
                }
            },
        }
    }
}

/// Review a replacement of the pool with the planned disks.
pub fn review_replacement(
    config: &Configuration,
    settings: &str,
    receipt: bool,
    worker: &WorkerFacts,
    locations: Vec<Location>,
    total: u64,
    requested: Option<&str>,
    volumes: &[Volume],
    mounts: &Mounts,
    credits: &[(String, u64)],
) -> (r: Result<ChangePlan, Failure>)
    requires
        total_gib(location_views(locations@)) <= u64::MAX,
        worker.candidates@.len() == backup_folders(
            config@,
            settings@,
            match requested {
                Some(path) => Some(path@),
                None => None,
            },
        ).len(),
    ensures
        match reviewed_replacement(
            config@,
            receipt,
            *worker,
            total,
            match requested {
                Some(path) => Some(path@),
                None => None,
            },
            BackupInput {
                settings: settings@,
                target: location_views(locations@),
                volumes: contents(volumes@),
                mounts: *mounts,
                credits: credits@,
                bytes: 0,
                replacement: None,
            },
        ) {
            Ok(plan) => r matches Ok(p) && p@ == plan,
            Err(message) => refusal(r) == Some(message),
        },
{
    let restart = config.vm_created || receipt;
    if !restart {
        return Ok(replace_pool(config, locations, total, false, 15, 0, None));
    }
    if !(receipt && worker.reachable) {
        return Err(
            fail(
                "Start the existing worker so NodeHarbor can inspect its data before reviewing a smaller allocation",
            ),
        );
    }
    let multipass = config.vm_provider == VmProvider::Multipass;
    let (minimum, temporary) = match check_data(total, multipass, &worker.usage) {
        Ok(need) => need,
        Err(e) => {
            return Err(e);
        },
    };
    let space: Option<(&ReplacementSpace, u64)> = if multipass {
        match &worker.replacement {
            Some(space) => Some((space, total)),
            None => None,
        }
    } else {
        None
    };
    match space {
        Some((daemon, _)) => match check_replacement_space(daemon, total, None, volumes, mounts) {
            Ok(()) => {},
            Err(e) => {
                return Err(e);
            },
        },
        None => {},
    }
    match select_backup(
        config,
        settings,
        locations.as_slice(),
        volumes,
        mounts,
        credits,
        requested,
        worker.candidates.as_slice(),
        temporary,
        space,
    ) {
        Ok(backup) => Ok(
            replace_pool(config, locations, total, true, minimum, temporary, Some(backup)),
        ),
        Err(e) => Err(e),
    }
}

/// An existing worker's pool is replaced only with a backup folder chosen and
/// enough room for its data.
pub proof fn replacements_have_a_backup(
    c: ConfigurationView,
    receipt: bool,
    worker: WorkerFacts,
    total: u64,
    requested: Option<Seq<char>>,
    input: BackupInput,
)
    ensures
        reviewed_replacement(c, receipt, worker, total, requested, input) matches Ok(plan)
            ==> plan.requires_restart == (c.vm_created || receipt) && plan.total_gib == total && (
        plan.maintenance matches Some(review) && review.kind == Kind::ResizeRemove && (
        plan.requires_restart ==> review.backup is Some && total >= review.minimum_gib)),
{
}

/// The review of a growth in place, or why it is refused.
pub open spec fn growth_refusal(
    c: ConfigurationView,
    platform: Seq<char>,
    default_directory: Option<Seq<char>>,
) -> Option<Seq<char>> {
    if !places_disks(c.vm_provider, platform) {
        Some(unsupported_text(c.vm_provider))
    } else if c.storage_operation is Some || c.storage_lifecycle.maintenance is Some {
        Some("Wait for the current storage change to finish"@)
    } else {
        unless(
            default_directory is Some,
            "The runtime does not report its managed storage directory"@,
        )
    }
}

/// The plan of a growth in place on its disks.
pub open spec fn growth_plan(
    c: ConfigurationView,
    receipt: bool,
    locations: Seq<LocationView>,
) -> ChangePlanView {
    ChangePlanView {
        maintenance: None,
        layout: None,
        revision: c.storage_revision,
        locations,
        total_gib: total_gib(locations) as u64,
        requires_restart: c.vm_created || receipt,
    }
}

/// Review a growth in place. Where the layout was prepared before, its data
/// disks are taken.
pub fn preview_storage_growth(
    config: &Configuration,
    platform: &str,
    receipt: bool,
    default_directory: Option<&str>,
    selections: &[Selection],
    prepared: Option<&[Location]>,
    volumes: &[Volume],
    mounts: &Mounts,
    credits: &[(String, u64)],
    sightings: &[Sighting],
) -> (r: Result<ChangePlan, Failure>)
    requires
        prepared matches Some(data) ==> total_gib(location_views(data@)) <= u64::MAX,
        prepared is None && default_directory is Some ==> sightings@.len() == effective_selections(
            selection_views(selections@),
            default_directory->0@,
            config@.policy.resources.disk_gib,
        ).len(),
    ensures
        match growth_refusal(
            config@,
            platform@,
            match default_directory {
                Some(d) => Some(d@),
                None => None,
            },
        ) {
            Some(message) => refusal(r) == Some(message),
            None => match prepared {
                Some(data) => r matches Ok(plan) && plan@ == growth_plan(
                    config@,
                    receipt,
                    location_views(data@),
                ),
                None => match plan_claims(
                    plan_input(contents(volumes@), *mounts, config.storage_locations@, credits@),
                    effective_selections(
                        selection_views(selections@),
                        default_directory->0@,
                        config@.policy.resources.disk_gib,
                    ),
                    sightings@,
                ) {
                    Err(message) => refusal(r) == Some(message),
                    Ok(claims) => r matches Ok(plan) && exists|fresh: Seq<u128>|
                        identity::are_random(fresh)
                            && fresh.len() == claims.len() && plan@ == growth_plan(
                            config@,
                            receipt,
                            #[trigger] ordered(drawn(claims, fresh), config@.storage_locations),
                        ),
                },
            },
        },
{
    match require_location_support(config.vm_provider, platform) {
        Ok(()) => {},
        Err(e) => {
            return Err(e);
        },
    }
    if config.storage_operation.is_some() || config.storage_lifecycle.maintenance.is_some() {
        return Err(fail("Wait for the current storage change to finish"));
    }
    let default = match default_directory {
        Some(default) => default,
        None => {
            return Err(fail("The runtime does not report its managed storage directory"));
        },
    };
    let restart = config.vm_created || receipt;
    let ghost mut ids: Seq<u128> = Seq::empty();
    let ghost wanted = effective_selections(
        selection_views(selections@),
        default@,
        config@.policy.resources.disk_gib,
    );
    let ghost input = plan_input(
        contents(volumes@),
        *mounts,
        config.storage_locations@,
        credits@,
    );
    let locations = match prepared {
        Some(data) => copy_list(data),
        None => match plan_change(
            selections,
            default,
            config.policy.resources.disk_gib,
            volumes,
            mounts,
            config.storage_locations.as_slice(),
            credits,
            sightings,
        ) {
            Ok(planned) => {
                proof {
                    let claims = plan_claims(input, wanted, sightings@)->Ok_0;
                    ids = choose|fresh: Seq<u128>|
                        identity::are_random(fresh)
                            && fresh.len() == claims.len()
                            && location_views(planned@)
                            == #[trigger] ordered(
                            drawn(claims, fresh),
                            location_views(config.storage_locations@),
                        );
                    planned_total_is_the_claimed_one(claims, ids, config@.storage_locations);
                    claimed_total_is_bounded(input, wanted, sightings@, wanted.len() as int);
                }
                planned
            },
            Err(e) => {
                return Err(e);
            },
        },
    };
    let total_gib = sum_gib(locations.as_slice());
    let ghost disks = location_views(locations@);
    let plan = ChangePlan {
        maintenance: None,
        layout: None,
        revision: config.storage_revision,
        locations,
        total_gib,
        requires_restart: restart,
    };
    proof {
        assert(plan@ =~= growth_plan(config@, receipt, disks));
        if prepared is None {
            let claims = plan_claims(input, wanted, sightings@)->Ok_0;
            assert(disks == ordered(drawn(claims, ids), config@.storage_locations));
        }
    }
    Ok(plan)
}

/// A layout with the owner's allocations that it was resolved on and the data
/// disks among them.
#[derive(Debug)]
pub struct Prepared {
    pub layout: Layout,
    pub total: Vec<Location>,
    pub data: Vec<Location>,
}

/// The selections of the owner's allocations, with the excluded disk that is to
/// come back; or why the request is refused.
pub open spec fn layout_selections(
    c: ConfigurationView,
    selections: Seq<SelectionView>,
    restore: Option<Seq<char>>,
) -> Result<Seq<SelectionView>, Seq<char>> {
    let configured = c.storage_lifecycle.configured_locations;
    if c.storage_operation is Some || c.storage_lifecycle.maintenance is Some {
        Err("Wait for current worker maintenance to finish"@)
    } else {
        match restore {
            None => if c.storage_locations.len() > 0 && selections.len() == 0 {
                Err("Use Delete all worker storage to remove the last disk"@)
            } else {
                Ok(selections)
            },
            Some(id) => if !has_id(configured, id) {
                Err("Unknown excluded disk"@)
            } else {
                let old = configured[rank(configured, id)];
                match owner_locations(c) {
                    Err(message) => Err(message),
                    Ok(total) => Ok(
                        kept_selections(total).push(
                            SelectionView {
                                id: None,
                                directory: old.directory,
                                allocation_gib: old.allocation_gib,
                            },
                        ),
                    ),
                }
            },
        }
    }
}

/// The selections of the owner's allocations.
pub fn select_allocations(
    config: &Configuration,
    selections: Vec<Selection>,
    restore: &Option<String>,
) -> (r: Result<Vec<Selection>, Failure>)
    ensures
        match layout_selections(config@, selection_views(selections@), content(*restore)) {
            Ok(chosen) => r matches Ok(s) && selection_views(s@) == chosen,
            Err(message) => refusal(r) == Some(message),
        },
{
    if config.storage_operation.is_some() || config.storage_lifecycle.maintenance.is_some() {
        return Err(fail("Wait for current worker maintenance to finish"));
    }
    let id = match restore {
        None => {
            if config.storage_locations.len() > 0 && selections.len() == 0 {
                return Err(fail("Use Delete all worker storage to remove the last disk"));
            }
            return Ok(selections);
        },
        Some(id) => id,
    };
    let configured = config.storage_lifecycle.configured_locations.as_slice();
    let k = position(configured, id.as_str());
    proof {
        crate::storage::lemma_rank(location_views(configured@), id@, 0);
    }
    if k >= configured.len() {
        return Err(fail("Unknown excluded disk"));
    }
    assert(location_views(configured@)[k as int] == configured@[k as int]@);
    match config.total_locations() {
        Err(e) => Err(e),
        Ok(total) => {
            let mut chosen = keep_disks(total.as_slice());
            let ghost before = selection_views(chosen@);
            chosen.push(
                Selection {
                    id: None,
                    directory: configured[k].directory.clone(),
                    allocation_gib: configured[k].allocation_gib,
                },
            );
            assert(selection_views(chosen@) =~= before.push(chosen@.last()@));
            Ok(chosen)
        },
    }
}

proof fn lemma_credits(before: Seq<(String, u64)>, after: Seq<(String, u64)>, x: Seq<char>, i: int)
    requires
        0 <= i,
        before.len() == after.len(),
        forall|j: int|
            i <= j < before.len() ==> (#[trigger] after[j]).0@ == before[j].0@ && (
            before[j].0@ == x ==> after[j].1 == before[j].1),
    ensures
        credited_bytes(after, x, i) == credited_bytes(before, x, i),
    decreases before.len() - i,
{
    if i < before.len() {
        assert(after[i].0@ == before[i].0@);
        if before[i].0@ != x {
            lemma_credits(before, after, x, i + 1);
        }
    }
}

proof fn lemma_credits_behind(
    before: Seq<(String, u64)>,
    last: (String, u64),
    x: Seq<char>,
    i: int,
)
    requires
        0 <= i <= before.len(),
        last.0@ == x ==> forall|j: int| i <= j < before.len() ==> (#[trigger] before[j]).0@ != x,
    ensures
        credited_bytes(before.push(last), x, i) == (if last.0@ == x {
            last.1
        } else {
            credited_bytes(before, x, i)
        }),
    decreases before.len() - i,
{
    let after = before.push(last);
    if i < before.len() {
        assert(after[i] == before[i]);
        if before[i].0@ != x {
            lemma_credits_behind(before, last, x, i + 1);
        }
    } else {
        assert(after[i] == last);
        assert(credited_bytes(after, x, i + 1) == 0);
    }
}

/// The physical bytes of the images with those of the VM added to its
/// location's.
pub fn with_system_credit(credits: Vec<(String, u64)>, id: &str, bytes: u64) -> (r: Vec<
    (String, u64),
>)
    ensures
        forall|x: Seq<char>|
            #[trigger] credited_bytes(r@, x, 0) == (if x == id@ {
                saturated(credited_bytes(credits@, x, 0) + bytes)
            } else {
                credited_bytes(credits@, x, 0)
            }),
{
    let ghost before = credits@;
    let count = credits.len();
    let mut k: usize = 0;
    while k < count && !text::same(credits[k].0.as_str(), id)
        invariant
            k <= count,
            count == credits@.len(),
            before == credits@,
            forall|j: int| 0 <= j < k ==> (#[trigger] before[j]).0@ != id@,
            credited_bytes(before, id@, 0) == credited_bytes(before, id@, k as int),
        decreases count - k,
    {
        k = k + 1;
    }
    let mut r = credits;
    if k < count {
        let sum = r[k].1.saturating_add(bytes);
        r.set(k, (id.to_owned(), sum));
        proof {
            assert forall|x: Seq<char>| #[trigger] credited_bytes(r@, x, 0) == (if x == id@ {
                saturated(credited_bytes(before, x, 0) + bytes)
            } else {
                credited_bytes(before, x, 0)
            }) by {
                if x == id@ {
                    lemma_credit_found(r@, x, k as int, 0);
                } else {
                    lemma_credits(before, r@, x, 0);
                }
            }
        }
    } else {
        r.push((id.to_owned(), bytes));
        proof {
            let last = r@.last();
            assert(r@ =~= before.push(last));
            assert forall|x: Seq<char>| #[trigger] credited_bytes(r@, x, 0) == (if x == id@ {
                saturated(credited_bytes(before, x, 0) + bytes)
            } else {
                credited_bytes(before, x, 0)
            }) by {
                lemma_credits_behind(before, last, x, 0);
            }
        }
    }
    r
}

proof fn lemma_credit_found(s: Seq<(String, u64)>, x: Seq<char>, k: int, i: int)
    requires
        0 <= i <= k < s.len(),
        s[k].0@ == x,
        forall|j: int| i <= j < k ==> (#[trigger] s[j]).0@ != x,
    ensures
        credited_bytes(s, x, i) == s[k].1,
    decreases k - i,
{
    if i < k {
        lemma_credit_found(s, x, k, i + 1);
    }
}

/// The layout on the owner's new allocations, or why there is none.
pub open spec fn prepared_layout(
    c: ConfigurationView,
    platform: Seq<char>,
    total: Seq<LocationView>,
) -> Result<(LayoutView, Seq<LocationView>), Seq<char>> {
    match next_layout(c, total) {
        Err(message) => Err(message),
        Ok(layout) => match crate::storage_layout::path_refusal(layout, platform) {
            Some(message) => Err(message),
            None => match transformed(layout, total, false) {
                Err(message) => Err(message),
                Ok(data) => Ok((layout, data)),
            },
        },
    }
}

/// Lay out the worker's storage on the owner's new allocations.
pub fn prepare_layout(config: &Configuration, platform: &str, total: Vec<Location>) -> (r: Result<
    Prepared,
    Failure,
>)
    requires
        system_gib_of(config@) + 14 <= u64::MAX,
    ensures
        match prepared_layout(config@, platform@, location_views(total@)) {
            Ok(found) => r matches Ok(p) && p.layout@ == found.0 && location_views(p.data@)
                == found.1 && location_views(p.total@) == location_views(total@),
            Err(message) => refusal(r) == Some(message),
        },
{
    let layout = match config.resolve_storage_layout(total.as_slice()) {
        Ok(layout) => layout,
        Err(e) => {
            return Err(e);
        },
    };
    match layout.validate_path(platform) {
        Ok(()) => {},
        Err(e) => {
            return Err(e);
        },
    }
    match layout.data_locations(total.as_slice()) {
        Ok(data) => Ok(Prepared { layout, total, data }),
        Err(e) => Err(e),
    }
}

/// A review of data disks as the owner sees it: with the owner's allocations
/// and the VM's share.
pub open spec fn with_layout(
    plan: ChangePlanView,
    layout: LayoutView,
    total: Seq<LocationView>,
) -> ChangePlanView {
    ChangePlanView {
        maintenance: match plan.maintenance {
            Some(review) => Some(
                ReviewView {
                    minimum_gib: saturated(review.minimum_gib + layout.system_gib),
                    ..review
                },
            ),
            None => None,
        },
        layout: Some(layout),
        locations: total,
        total_gib: total_gib(total) as u64,
        ..plan
    }
}

/// A review of data disks as the owner sees it.
pub fn add_layout(plan: ChangePlan, prepared: Prepared) -> (r: ChangePlan)
    requires
        total_gib(location_views(prepared.total@)) <= u64::MAX,
    ensures
        r@ == with_layout(plan@, prepared.layout@, location_views(prepared.total@)),
{
    let total_gib = sum_gib(prepared.total.as_slice());
    let maintenance = match plan.maintenance {
        Some(review) => {
            let mut review = review;
            review.minimum_gib = review.minimum_gib.saturating_add(prepared.layout.system_gib);
            Some(review)
        },
        None => None,
    };
    let r = ChangePlan {
        maintenance,
        layout: Some(prepared.layout),
        revision: plan.revision,
        locations: prepared.total,
        total_gib,
        requires_restart: plan.requires_restart,
    };
    assert(r@ =~= with_layout(plan@, prepared.layout@, location_views(prepared.total@)));
    r
}

/// The layout of a reviewed plan, or why it no longer holds.
pub open spec fn layout_check(
    c: ConfigurationView,
    plan: ChangePlanView,
    platform: Seq<char>,
) -> Result<LayoutView, Seq<char>> {
    match plan.layout {
        None => Err(
            "Review storage again to include the VM operating system in its allocation"@,
        ),
        Some(layout) => match next_layout(c, plan.locations) {
            Err(message) => Err(message),
            Ok(expected) => if layout != expected {
                Err("The VM storage layout changed; review again"@)
            } else {
                match crate::storage_layout::path_refusal(layout, platform) {
                    Some(message) => Err(message),
                    None => Ok(layout),
                }
            },
        },
    }
}

/// Whether the layout of a reviewed plan still holds.
pub fn checked_layout(config: &Configuration, plan: &ChangePlan, platform: &str) -> (r: Result<
    Layout,
    Failure,
>)
    requires
        system_gib_of(config@) + 14 <= u64::MAX,
    ensures
        match layout_check(config@, plan@, platform@) {
            Ok(layout) => r matches Ok(l) && l@ == layout,
            Err(message) => refusal(r) == Some(message),
        },
{
    let layout = match &plan.layout {
        Some(layout) => layout,
        None => {
            return Err(
                fail("Review storage again to include the VM operating system in its allocation"),
            );
        },
    };
    let expected = match config.resolve_storage_layout(plan.locations.as_slice()) {
        Ok(expected) => expected,
        Err(e) => {
            return Err(e);
        },
    };
    if !layout.alike(&expected) {
        return Err(fail("The VM storage layout changed; review again"));
    }
    match layout.validate_path(platform) {
        Ok(()) => Ok(layout.duplicate()),
        Err(e) => Err(e),
    }
}

/// The plan that a prepared layout gives passes its own check while the settings
/// stay as they are.
pub proof fn prepared_layouts_are_accepted(
    c: ConfigurationView,
    plan: ChangePlanView,
    platform: Seq<char>,
    total: Seq<LocationView>,
)
    requires
        prepared_layout(c, platform, total) is Ok,
    ensures
        layout_check(
            c,
            with_layout(plan, prepared_layout(c, platform, total)->Ok_0.0, total),
            platform,
        ) is Ok,
{
}

} // verus!
