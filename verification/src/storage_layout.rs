//! Owner allocations include every VM disk. Runtime adapters receive only the
//! derived data-disk allocations; this boundary keeps the two budgets distinct.
use crate::failure::{fail, refusal, unless, Failure};
use crate::identity;
use crate::paths;
use crate::storage::{
    checked_total, copy_locations, lemma_rank, location_views, position, rank, total_gib, Location,
    LocationView,
};
use crate::store::{Configuration, ConfigurationView};
use crate::text;
use crate::values::Plain;
use vstd::prelude::*;
use vstd::utf8::encode_utf8;

verus! {

/// Where the VM itself stands, and what of its location's allocation it takes.
#[derive(Debug)]
pub struct Layout {
    pub version: u32,
    pub system_location_id: String,
    pub volume_id: String,
    pub runtime_directory: String,
    pub system_gib: u64,
}

/// The content of a `Layout`.
#[verifier::ext_equal]
pub struct LayoutView {
    pub version: u32,
    pub system_location_id: Seq<char>,
    pub volume_id: Seq<char>,
    pub runtime_directory: Seq<char>,
    pub system_gib: u64,
}

impl View for Layout {
    type V = LayoutView;

    open spec fn view(&self) -> LayoutView {
        LayoutView {
            version: self.version,
            system_location_id: self.system_location_id@,
            volume_id: self.volume_id@,
            runtime_directory: self.runtime_directory@,
            system_gib: self.system_gib,
        }
    }
}

impl Plain for Layout {
    fn duplicate(&self) -> (r: Self) {
        Layout {
            version: self.version,
            system_location_id: self.system_location_id.clone(),
            volume_id: self.volume_id.clone(),
            runtime_directory: self.runtime_directory.clone(),
            system_gib: self.system_gib,
        }
    }

    fn alike(&self, other: &Self) -> (r: bool) {
        self.version == other.version
            && self.system_location_id.alike(&other.system_location_id)
            && self.volume_id.alike(&other.volume_id)
            && self.runtime_directory.alike(&other.runtime_directory)
            && self.system_gib == other.system_gib
    }
}

impl Clone for Layout {
    fn clone(&self) -> (r: Self)
        ensures
            r@ == self@,
    {
        self.duplicate()
    }
}

pub const GIB: u64 = 1_073_741_824;

pub const SYSTEM_GIB: u64 = 16;

pub const MINIMUM_TOTAL_GIB: u64 = 30;

/// What the operating system takes: as before, or the default.
pub open spec fn system_share(previous: Option<LayoutView>) -> u64 {
    match previous {
        Some(p) => p.system_gib,
        None => SYSTEM_GIB,
    }
}

/// The first location from `i` on that has more than `gib`, and the identifier
/// where one is asked for.
pub open spec fn roomy_from(
    locations: Seq<LocationView>,
    gib: u64,
    id: Option<Seq<char>>,
    i: int,
) -> Option<int>
    decreases locations.len() - i,
{
    if i < 0 || i >= locations.len() {
        None
    } else if locations[i].allocation_gib > gib && (id is None || id == Some(locations[i].id)) {
        Some(i)
    } else {
        roomy_from(locations, gib, id, i + 1)
    }
}

/// The location that holds the VM: the previous one where it still has room,
/// else the first that has.
pub open spec fn system_index(locations: Seq<LocationView>, previous: Option<LayoutView>) -> Option<
    int,
> {
    let gib = system_share(previous);
    let kept = match previous {
        Some(p) => roomy_from(locations, gib, Some(p.system_location_id), 0),
        None => None,
    };
    match kept {
        Some(i) => Some(i),
        None => roomy_from(locations, gib, None, 0),
    }
}

/// The layout of the worker's storage, or why there is none.
pub open spec fn resolved_layout(
    owner: Seq<char>,
    locations: Seq<LocationView>,
    previous: Option<LayoutView>,
) -> Result<LayoutView, Seq<char>> {
    let gib = system_share(previous);
    match identity::parsed_uuid(owner) {
        Err(words) => Err(words),
        Ok(id) => if total_gib(locations) > u64::MAX {
            Err("Storage allocation overflow"@)
        } else if total_gib(locations) < gib + 14 {
            Err(
                "Choose at least "@ + text::decimal((gib + 14) as nat)
                    + " GiB total VM storage, including "@ + text::decimal(gib as nat)
                    + " GiB for the operating system"@,
            )
        } else {
            match system_index(locations, previous) {
                None => Err(
                    "One selected location needs enough space for the VM operating system and at least 1 GiB of data storage"@,
                ),
                Some(i) => Ok(
                    LayoutView {
                        version: 1,
                        system_location_id: locations[i].id,
                        volume_id: locations[i].volume_id,
                        runtime_directory: paths::join_path(
                            locations[i].directory,
                            ".nh"@ + identity::simple_form(id).take(8),
                        ),
                        system_gib: gib,
                    },
                ),
            }
        },
    }
}

proof fn lemma_roomy(locations: Seq<LocationView>, gib: u64, id: Option<Seq<char>>, i: int)
    requires
        0 <= i,
    ensures
        roomy_from(locations, gib, id, i) matches Some(k) ==> i <= k < locations.len()
            && locations[k].allocation_gib > gib && (id is None || id == Some(locations[k].id)),
    decreases locations.len() - i,
{
    if i < locations.len() {
        lemma_roomy(locations, gib, id, i + 1);
    }
}

fn roomy(locations: &[Location], gib: u64, id: Option<&str>) -> (r: Option<usize>)
    ensures
        match r {
            Some(i) => roomy_from(
                location_views(locations@),
                gib,
                match id {
                    Some(t) => Some(t@),
                    None => None,
                },
                0,
            ) == Some(i as int) && i < locations@.len(),
            None => roomy_from(
                location_views(locations@),
                gib,
                match id {
                    Some(t) => Some(t@),
                    None => None,
                },
                0,
            ) is None,
        },
{
    let ghost v = location_views(locations@);
    let ghost wanted = match id {
        Some(t) => Some(t@),
        None => None,
    };
    let mut i: usize = 0;
    while i < locations.len()
        invariant
            i <= locations@.len(),
            v == location_views(locations@),
            wanted == (match id {
                Some(t) => Some(t@),
                None => None,
            }),
            roomy_from(v, gib, wanted, 0) == roomy_from(v, gib, wanted, i as int),
        decreases locations@.len() - i,
    {
        assert(v[i as int] == locations@[i as int]@);
        let named = match id {
            Some(t) => text::same(t, locations[i].id.as_str()),
            None => true,
        };
        if locations[i].allocation_gib > gib && named {
            return Some(i);
        }
        i = i + 1;
    }
    None
}

/// The locations with the VM's share added to or taken from its location, or
/// why that cannot be.
pub open spec fn transformed(
    layout: LayoutView,
    locations: Seq<LocationView>,
    add: bool,
) -> Result<Seq<LocationView>, Seq<char>> {
    let i = rank(locations, layout.system_location_id);
    if layout.version != 1 || layout.system_gib < SYSTEM_GIB {
        Err("Unsupported VM storage layout"@)
    } else if i == locations.len() {
        Err("The selected VM system location is missing"@)
    } else if locations[i].volume_id != layout.volume_id {
        Err("The VM system volume changed"@)
    } else {
        let gib = if add {
            locations[i].allocation_gib + layout.system_gib
        } else {
            locations[i].allocation_gib - layout.system_gib
        };
        if gib > u64::MAX || (!add && gib <= 0) {
            Err("The VM system location has an insufficient allocation"@)
        } else {
            Ok(
                locations.update(
                    i,
                    LocationView { allocation_gib: gib as u64, ..locations[i] },
                ),
            )
        }
    }
}

/// What Unix socket paths the VM runtime and its SSH client will use.
pub open spec fn socket_suffixes(platform: Seq<char>) -> Seq<Seq<char>> {
    let both = seq![
        "worker/ssh.sock.1234567890123456"@,
        "_networks/user-v2/user-v2_ep.sock"@,
    ];
    if platform == "linux"@ {
        both.push("_networks/user-v2/user-v2_qemu.sock"@)
    } else {
        both
    }
}

/// The longest socket path, in bytes, that a platform takes, and one more.
pub open spec fn socket_limit(platform: Seq<char>) -> int {
    if platform == "macos"@ {
        104
    } else {
        108
    }
}

/// Whether every socket path under the directory is short enough.
pub open spec fn sockets_fit(directory: Seq<char>, platform: Seq<char>) -> bool {
    forall|i: int|
        0 <= i < socket_suffixes(platform).len() ==> encode_utf8(
            paths::join_path(directory, #[trigger] socket_suffixes(platform)[i]),
        ).len() < socket_limit(platform)
}

pub open spec fn path_refusal(layout: LayoutView, platform: Seq<char>) -> Option<Seq<char>> {
    if !paths::is_plain_absolute(layout.runtime_directory) {
        Some("Choose an absolute VM storage directory without parent traversal"@)
    } else {
        unless(
            sockets_fit(layout.runtime_directory, platform),
            "The selected folder path is too long for the VM runtime. Choose a shorter folder on the same drive"@,
        )
    }
}

fn socket_fits(directory: &str, suffix: &str, limit: usize) -> (r: bool)
    ensures
        r == (encode_utf8(paths::join_path(directory@, suffix@)).len() < limit),
{
    let path = paths::join(directory, suffix);
    paths::byte_len(path.as_str()) < limit
}

impl Layout {
    /// Lay out the worker's storage on the selected locations.
    pub fn resolve(owner: &str, locations: &[Location], previous: Option<&Layout>) -> (r: Result<
        Layout,
        Failure,
    >)
        requires
            previous matches Some(p) ==> p.system_gib + 14 <= u64::MAX,
        ensures
            match resolved_layout(
                owner@,
                location_views(locations@),
                match previous {
                    Some(p) => Some(p@),
                    None => None,
                },
            ) {
                Ok(layout) => r matches Ok(l) && l@ == layout,
                Err(message) => refusal(r) == Some(message),
            },
    {
        let ghost v = location_views(locations@);
        let ghost before = match previous {
            Some(p) => Some(p@),
            None => None,
        };
        let id = match identity::identity_value(owner) {
            Ok(id) => id,
            Err(e) => {
                return Err(e);
            },
        };
        let gib = match previous {
            Some(p) => p.system_gib,
            None => SYSTEM_GIB,
        };
        assert(gib == system_share(before));
        let total = match checked_total(locations) {
            Some(total) => total,
            None => {
                return Err(fail("Storage allocation overflow"));
            },
        };
        if total < gib + 14 {
            let least = text::decimal_text(gib + 14);
            let share = text::decimal_text(gib);
            let start = text::join3(
                "Choose at least ",
                least.as_str(),
                " GiB total VM storage, including ",
            );
            let message = text::join3(
                start.as_str(),
                share.as_str(),
                " GiB for the operating system",
            );
            return Err(Failure { message });
        }
        let kept = match previous {
            Some(p) => roomy(locations, gib, Some(p.system_location_id.as_str())),
            None => None,
        };
        let found = match kept {
            Some(i) => Some(i),
            None => roomy(locations, gib, None),
        };
        let index = match found {
            Some(i) => i,
            None => {
                return Err(
                    fail(
                        "One selected location needs enough space for the VM operating system and at least 1 GiB of data storage",
                    ),
                );
            },
        };
        let system = &locations[index];
        assert(v[index as int] == system@);
        let digits = identity::simple_text(id);
        let short = text::take_text(digits.as_str(), 8);
        proof {
            identity::lemma_hex_text(id as nat, 32);
        }
        let name = text::join2(".nh", short.as_str());
        let runtime_directory = paths::join(system.directory.as_str(), name.as_str());
        Ok(
            Layout {
                version: 1,
                system_location_id: system.id.clone(),
                volume_id: system.volume_id.clone(),
                runtime_directory,
                system_gib: gib,
            },
        )
    }

    /// The data disks under owner allocations that hold the VM too.
    pub fn data_locations(&self, total: &[Location]) -> (r: Result<Vec<Location>, Failure>)
        ensures
            match transformed(self@, location_views(total@), false) {
                Ok(data) => r matches Ok(d) && location_views(d@) == data,
                Err(message) => refusal(r) == Some(message),
            },
    {
        self.transform(total, false)
    }

    /// The owner allocations over data disks.
    pub fn total_locations(&self, data: &[Location]) -> (r: Result<Vec<Location>, Failure>)
        ensures
            match transformed(self@, location_views(data@), true) {
                Ok(total) => r matches Ok(t) && location_views(t@) == total,
                Err(message) => refusal(r) == Some(message),
            },
    {
        self.transform(data, true)
    }

    fn transform(&self, locations: &[Location], add: bool) -> (r: Result<Vec<Location>, Failure>)
        ensures
            match transformed(self@, location_views(locations@), add) {
                Ok(moved) => r matches Ok(m) && location_views(m@) == moved,
                Err(message) => refusal(r) == Some(message),
            },
    {
        let ghost v = location_views(locations@);
        if self.version != 1 || self.system_gib < SYSTEM_GIB {
            return Err(fail("Unsupported VM storage layout"));
        }
        let index = position(locations, self.system_location_id.as_str());
        if index == locations.len() {
            return Err(fail("The selected VM system location is missing"));
        }
        assert(v[index as int] == locations@[index as int]@);
        if !text::same(locations[index].volume_id.as_str(), self.volume_id.as_str()) {
            return Err(fail("The VM system volume changed"));
        }
        let gib = if add {
            locations[index].allocation_gib.checked_add(self.system_gib)
        } else {
            match locations[index].allocation_gib.checked_sub(self.system_gib) {
                Some(left) => if left > 0 {
                    Some(left)
                } else {
                    None
                },
                None => None,
            }
        };
        match gib {
            None => Err(fail("The VM system location has an insufficient allocation")),
            Some(gib) => {
                let mut moved = copy_locations(locations);
                let mut system = locations[index].clone();
                system.allocation_gib = gib;
                moved.set(index, system);
                assert(location_views(moved@) == v.update(
                    index as int,
                    LocationView { allocation_gib: gib, ..v[index as int] },
                ));
                Ok(moved)
            },
        }
    }

    /// Lima and OpenSSH both use pathname Unix sockets, with a random suffix on
    /// SSH's temporary socket. Bytes count, not Unicode characters.
    pub fn validate_path(&self, platform: &str) -> (r: Result<(), Failure>)
        ensures
            refusal(r) == path_refusal(self@, platform@),
    {
        let directory = self.runtime_directory.as_str();
        if !paths::plain_absolute(directory) {
            return Err(
                fail("Choose an absolute VM storage directory without parent traversal"),
            );
        }
        let limit: usize = if text::same(platform, "macos") {
            104
        } else {
            108
        };
        let first = socket_fits(directory, "worker/ssh.sock.1234567890123456", limit);
        let second = socket_fits(directory, "_networks/user-v2/user-v2_ep.sock", limit);
        let third = if text::same(platform, "linux") {
            socket_fits(directory, "_networks/user-v2/user-v2_qemu.sock", limit)
        } else {
            true
        };
        let ghost suffixes = socket_suffixes(platform@);
        assert(suffixes[0] == "worker/ssh.sock.1234567890123456"@);
        assert(suffixes[1] == "_networks/user-v2/user-v2_ep.sock"@);
        assert(platform@ == "linux"@ ==> suffixes[2] == "_networks/user-v2/user-v2_qemu.sock"@);
        if first && second && third {
            Ok(())
        } else {
            Err(
                fail(
                    "The selected folder path is too long for the VM runtime. Choose a shorter folder on the same drive",
                ),
            )
        }
    }

    /// The VM's runtime directory.
    pub fn home(&self) -> (r: String)
        ensures
            r@ == self.runtime_directory@,
    {
        self.runtime_directory.clone()
    }
}

/// How far an image of the allocation can still grow, in bytes.
pub fn remaining_bytes(allocation_gib: u64, allocated_bytes: u64) -> (r: Result<u64, Failure>)
    ensures
        refusal(r) == unless(
            allocation_gib * GIB <= u64::MAX,
            "Storage allocation overflow"@,
        ),
        r matches Ok(bytes) ==> bytes == (if allocation_gib * GIB < allocated_bytes {
            0
        } else {
            allocation_gib * GIB - allocated_bytes
        }),
{
    match allocation_gib.checked_mul(GIB) {
        Some(bytes) => Ok(bytes.saturating_sub(allocated_bytes)),
        None => Err(fail("Storage allocation overflow")),
    }
}

/// What the VM itself takes under the settings. An old worker without separate
/// disks keeps the one it has.
pub open spec fn system_gib_of(c: ConfigurationView) -> u64 {
    match c.storage_layout {
        Some(layout) => layout.system_gib,
        None => if c.storage_boot_gib > 0 {
            c.storage_boot_gib
        } else if c.vm_created && c.storage_locations.len() == 0 {
            match c.allocated_resources {
                Some(resources) => if resources.disk_gib > SYSTEM_GIB {
                    resources.disk_gib
                } else {
                    SYSTEM_GIB
                },
                None => SYSTEM_GIB,
            }
        } else {
            SYSTEM_GIB
        },
    }
}

/// The owner's allocations under the settings, or why they have none. An old
/// worker's extra system disk is counted on its first location.
pub open spec fn owner_locations(c: ConfigurationView) -> Result<Seq<LocationView>, Seq<char>> {
    if c.storage_locations.len() == 0 {
        Ok(Seq::empty())
    } else {
        match c.storage_layout {
            Some(layout) => transformed(layout, c.storage_locations, true),
            None => {
                let gib = c.storage_locations[0].allocation_gib + system_gib_of(c);
                if gib > u64::MAX {
                    Err("Storage allocation overflow"@)
                } else {
                    Ok(
                        c.storage_locations.update(
                            0,
                            LocationView { allocation_gib: gib as u64, ..c.storage_locations[0] },
                        ),
                    )
                }
            },
        }
    }
}

/// All storage that the owner grants under the settings.
pub open spec fn granted_gib(c: ConfigurationView) -> u64 {
    let gib = total_gib(c.storage_locations) + (if c.storage_locations.len() == 0 {
        0int
    } else {
        system_gib_of(c) as int
    });
    if gib > u64::MAX {
        u64::MAX
    } else {
        gib as u64
    }
}

/// The layout under the settings for new allocations, or why there is none. A
/// worker that had no layout keeps the system disk that it has.
pub open spec fn next_layout(c: ConfigurationView, locations: Seq<LocationView>) -> Result<
    LayoutView,
    Seq<char>,
> {
    match c.storage_layout {
        Some(_) => resolved_layout(c.device_id, locations, c.storage_layout),
        None => match resolved_layout(c.device_id, locations, None) {
            Err(message) => Err(message),
            Ok(first) => resolved_layout(
                c.device_id,
                locations,
                Some(LayoutView { system_gib: system_gib_of(c), ..first }),
            ),
        },
    }
}

impl Configuration {
    /// Lay out the worker's storage on new allocations.
    pub fn resolve_storage_layout(&self, locations: &[Location]) -> (r: Result<Layout, Failure>)
        requires
            system_gib_of(self@) + 14 <= u64::MAX,
        ensures
            match next_layout(self@, location_views(locations@)) {
                Ok(layout) => r matches Ok(l) && l@ == layout,
                Err(message) => refusal(r) == Some(message),
            },
    {
        match &self.storage_layout {
            Some(previous) => Layout::resolve(self.device_id.as_str(), locations, Some(previous)),
            None => {
                let mut first = match Layout::resolve(self.device_id.as_str(), locations, None) {
                    Ok(first) => first,
                    Err(e) => {
                        return Err(e);
                    },
                };
                first.system_gib = self.system_gib();
                Layout::resolve(self.device_id.as_str(), locations, Some(&first))
            },
        }
    }

    /// Where the VM's runtime directory stands.
    pub fn runtime_home(&self, settings: &str) -> (r: String)
        ensures
            r@ == runtime_home_of(self@, settings@),
    {
        match &self.storage_layout {
            Some(layout) => layout.home(),
            None => paths::join(settings, "lima"),
        }
    }

    /// What the VM itself takes.
    pub fn system_gib(&self) -> (r: u64)
        ensures
            r == system_gib_of(self@),
    {
        match &self.storage_layout {
            Some(layout) => layout.system_gib,
            None => if self.storage_boot_gib > 0 {
                self.storage_boot_gib
            } else if self.vm_created && self.storage_locations.len() == 0 {
                match self.allocated_resources {
                    Some(resources) => if resources.disk_gib > SYSTEM_GIB {
                        resources.disk_gib
                    } else {
                        SYSTEM_GIB
                    },
                    None => SYSTEM_GIB,
                }
            } else {
                SYSTEM_GIB
            },
        }
    }

    /// The owner's allocations.
    pub fn total_locations(&self) -> (r: Result<Vec<Location>, Failure>)
        ensures
            match owner_locations(self@) {
                Ok(total) => r matches Ok(t) && location_views(t@) == total,
                Err(message) => refusal(r) == Some(message),
            },
    {
        if self.storage_locations.len() == 0 {
            let none: Vec<Location> = Vec::new();
            assert(location_views(none@) =~= Seq::<LocationView>::empty());
            return Ok(none);
        }
        match &self.storage_layout {
            Some(layout) => layout.total_locations(self.storage_locations.as_slice()),
            None => {
                let ghost v = location_views(self.storage_locations@);
                assert(v[0] == self.storage_locations@[0]@);
                match self.storage_locations[0].allocation_gib.checked_add(self.system_gib()) {
                    None => Err(fail("Storage allocation overflow")),
                    Some(gib) => {
                        let mut total = copy_locations(self.storage_locations.as_slice());
                        let mut first = self.storage_locations[0].clone();
                        first.allocation_gib = gib;
                        total.set(0, first);
                        assert(location_views(total@) =~= v.update(
                            0,
                            LocationView { allocation_gib: gib, ..v[0] },
                        ));
                        Ok(total)
                    },
                }
            },
        }
    }

    /// All storage that the owner grants.
    pub fn total_storage_gib(&self) -> (r: u64)
        requires
            total_gib(self@.storage_locations) <= u64::MAX,
        ensures
            r == granted_gib(self@),
    {
        let data = crate::storage::sum_gib(self.storage_locations.as_slice());
        if self.storage_locations.len() == 0 {
            data
        } else {
            data.saturating_add(self.system_gib())
        }
    }
}

/// Where the VM's runtime directory stands.
pub open spec fn runtime_home_of(c: ConfigurationView, settings: Seq<char>) -> Seq<char> {
    match c.storage_layout {
        Some(layout) => layout.runtime_directory,
        None => paths::join_path(settings, "lima"@),
    }
}

/// Changing an allocation changes no identifier.
proof fn lemma_rank_kept(s: Seq<LocationView>, i: int, gib: u64, id: Seq<char>, k: int)
    requires
        0 <= i < s.len(),
        0 <= k,
    ensures
        crate::storage::rank_from(
            s.update(i, LocationView { allocation_gib: gib, ..s[i] }),
            id,
            k,
        ) == crate::storage::rank_from(s, id, k),
    decreases s.len() - k,
{
    if k < s.len() && s[k].id != id {
        lemma_rank_kept(s, i, gib, id, k + 1);
    }
}

/// The data disks under owner allocations give back those allocations.
pub proof fn totals_of_data_are_the_totals(layout: LayoutView, total: Seq<LocationView>)
    requires
        transformed(layout, total, false) is Ok,
    ensures
        transformed(layout, transformed(layout, total, false)->Ok_0, true) == Ok::<
            Seq<LocationView>,
            Seq<char>,
        >(total),
{
    let data = transformed(layout, total, false)->Ok_0;
    let i = rank(total, layout.system_location_id);
    lemma_rank(total, layout.system_location_id, 0);
    lemma_rank_kept(total, i, data[i].allocation_gib, layout.system_location_id, 0);
    let back = transformed(layout, data, true)->Ok_0;
    assert(data[i].allocation_gib + layout.system_gib == total[i].allocation_gib);
    assert(back =~= total);
}

/// The owner allocations over data disks, where the VM's disk has any data,
/// give back those disks.
pub proof fn data_of_totals_is_the_data(layout: LayoutView, data: Seq<LocationView>)
    requires
        transformed(layout, data, true) is Ok,
        data[rank(data, layout.system_location_id)].allocation_gib > 0,
    ensures
        transformed(layout, transformed(layout, data, true)->Ok_0, false) == Ok::<
            Seq<LocationView>,
            Seq<char>,
        >(data),
{
    let total = transformed(layout, data, true)->Ok_0;
    let i = rank(data, layout.system_location_id);
    lemma_rank(data, layout.system_location_id, 0);
    lemma_rank_kept(data, i, total[i].allocation_gib, layout.system_location_id, 0);
    let back = transformed(layout, total, false)->Ok_0;
    assert(back =~= data);
}

proof fn lemma_total_update(s: Seq<LocationView>, i: int, gib: u64)
    requires
        0 <= i < s.len(),
    ensures
        total_gib(s.update(i, LocationView { allocation_gib: gib, ..s[i] })) == total_gib(s)
            - s[i].allocation_gib + gib,
    decreases s.len(),
{
    let now = s.update(i, LocationView { allocation_gib: gib, ..s[i] });
    if i == s.len() - 1 {
        assert(now.drop_last() == s.drop_last());
    } else {
        assert(now.drop_last() == s.drop_last().update(
            i,
            LocationView { allocation_gib: gib, ..s[i] },
        ));
        lemma_total_update(s.drop_last(), i, gib);
    }
}

/// Data disks and the VM's share together make the owner's total.
pub proof fn total_is_data_and_system(layout: LayoutView, total: Seq<LocationView>)
    requires
        transformed(layout, total, false) is Ok,
    ensures
        total_gib(transformed(layout, total, false)->Ok_0) + layout.system_gib == total_gib(total),
{
    let data = transformed(layout, total, false)->Ok_0;
    let i = rank(total, layout.system_location_id);
    lemma_rank(total, layout.system_location_id, 0);
    lemma_total_update(total, i, data[i].allocation_gib);
}

/// A layout that was resolved on some locations splits exactly those: its location is
/// among them and keeps what the VM itself does not take, at least one GiB; the
/// others stay as they are.
pub proof fn resolved_layout_has_data(
    owner: Seq<char>,
    locations: Seq<LocationView>,
    previous: Option<LayoutView>,
)
    requires
        resolved_layout(owner, locations, previous) is Ok,
        previous matches Some(p) ==> p.system_gib >= SYSTEM_GIB,
        forall|i: int, j: int|
            0 <= i < j < locations.len() ==> (#[trigger] locations[i]).id != (
            #[trigger] locations[j]).id,
    ensures
        ({
            let layout = resolved_layout(owner, locations, previous)->Ok_0;
            let i = rank(locations, layout.system_location_id);
            &&& locations[i].allocation_gib >= layout.system_gib + 1
            &&& transformed(layout, locations, false) == Ok::<Seq<LocationView>, Seq<char>>(
                locations.update(
                    i,
                    LocationView {
                        allocation_gib: (locations[i].allocation_gib - layout.system_gib) as u64,
                        ..locations[i]
                    },
                ),
            )
            &&& total_gib(transformed(layout, locations, false)->Ok_0) + layout.system_gib
                == total_gib(locations)
        }),
{
    let layout = resolved_layout(owner, locations, previous)->Ok_0;
    let gib = system_share(previous);
    let i = system_index(locations, previous)->0;
    if previous is Some {
        lemma_roomy(locations, gib, Some(previous->0.system_location_id), 0);
    }
    lemma_roomy(locations, gib, None, 0);
    lemma_rank(locations, layout.system_location_id, 0);
    let k = rank(locations, layout.system_location_id);
    if k < i {
        assert(locations[k].id == locations[i].id);
    }
    assert(k == i);
    assert(transformed(layout, locations, false) is Ok);
    total_is_data_and_system(layout, locations);
}

} // verus!
