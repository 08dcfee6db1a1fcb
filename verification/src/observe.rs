//! What the sharing rules are held against: the computer's use, its power, the
//! time and its resources.
use crate::host_paths::{self, host_within};
use crate::paths;
use crate::policy::Resources;
use crate::storage::capped;
use crate::text;
use vstd::prelude::*;

verus! {

/// What is seen of the computer.
#[derive(Clone, Copy, Debug, PartialEq, Eq, Structural)]
pub struct Observation {
    pub idle_seconds: Option<u64>,
    pub on_battery: Option<bool>,
    pub battery_percent: Option<u8>,
    pub weekday: u8,
    pub minute: u16,
    pub resources: Resources,
}

/// The state of a battery.
#[derive(Clone, Copy, Debug, PartialEq, Eq, Structural)]
pub enum BatteryState {
    Draining,
    Powered,
    Unknown,
}

/// A battery: its state, and its level in percent.
#[derive(Clone, Copy, Debug, PartialEq, Eq, Structural)]
pub struct BatterySight {
    pub state: BatteryState,
    pub percent: u8,
}

/// The lowest level of the first `n` batteries.
pub open spec fn lowest_level(batteries: Seq<BatterySight>, n: int) -> u8
    decreases n,
{
    if n <= 0 {
        100
    } else if batteries[n - 1].percent < lowest_level(batteries, n - 1) {
        batteries[n - 1].percent
    } else {
        lowest_level(batteries, n - 1)
    }
}

/// Whether the computer runs on battery, and its level. Nothing is known where
/// the batteries cannot all be read; a computer without one is powered.
pub open spec fn power_state(batteries: Option<Seq<BatterySight>>) -> (Option<bool>, Option<u8>) {
    match batteries {
        None => (None, None),
        Some(b) => if exists|i: int|
            0 <= i < b.len() && (#[trigger] b[i]).state == BatteryState::Unknown {
            (None, None)
        } else if b.len() == 0 {
            (Some(false), None)
        } else {
            (
                Some(
                    exists|i: int|
                        0 <= i < b.len() && (#[trigger] b[i]).state == BatteryState::Draining,
                ),
                Some(lowest_level(b, b.len() as int)),
            )
        },
    }
}

/// Whether the computer runs on battery, and its level.
pub fn power(batteries: Option<&[BatterySight]>) -> (r: (Option<bool>, Option<u8>))
    ensures
        r == power_state(
            match batteries {
                Some(b) => Some(b@),
                None => None,
            },
        ),
{
    let all = match batteries {
        Some(b) => b,
        None => {
            return (None, None);
        },
    };
    let mut draining = false;
    let mut level: u8 = 100;
    for i in 0..all.len()
        invariant
            batteries == Some(all),
            forall|j: int| 0 <= j < i ==> (#[trigger] all@[j]).state != BatteryState::Unknown,
            draining == exists|j: int|
                0 <= j < i && (#[trigger] all@[j]).state == BatteryState::Draining,
            level == lowest_level(all@, i as int),
    {
        let battery = all[i];
        match battery.state {
            BatteryState::Draining => {
                draining = true;
                assert(all@[i as int].state == BatteryState::Draining);
            },
            BatteryState::Powered => {},
            BatteryState::Unknown => {
                assert(all@[i as int].state == BatteryState::Unknown);
                return (None, None);
            },
        }
        if battery.percent < level {
            level = battery.percent;
        }
    }
    if all.len() == 0 {
        (Some(false), None)
    } else {
        (Some(draining), Some(level))
    }
}

/// The architecture as the fleet names it.
pub open spec fn fleet_architecture(architecture: Seq<char>) -> Seq<char> {
    if architecture == "x86_64"@ {
        "amd64"@
    } else if architecture == "aarch64"@ {
        "arm64"@
    } else {
        architecture
    }
}

/// The architecture as the fleet names it.
pub fn architecture(native: &str) -> (r: String)
    ensures
        r@ == fleet_architecture(native@),
{
    if text::same(native, "x86_64") {
        "amd64".to_owned()
    } else if text::same(native, "aarch64") {
        "arm64".to_owned()
    } else {
        native.to_owned()
    }
}

/// A disk of the computer: where it is mounted, and its free bytes.
#[derive(Debug)]
pub struct FreeSpace {
    pub mount: String,
    pub bytes: u64,
}

/// The disk among the first `n` that holds the directory: the one with the
/// longest mount point, and the last of those.
pub open spec fn holding_disk(
    platform: Seq<char>,
    disks: Seq<FreeSpace>,
    directory: Seq<char>,
    n: int,
) -> Option<int>
    decreases n,
{
    if n <= 0 {
        None
    } else {
        let before = holding_disk(platform, disks, directory, n - 1);
        if host_within(platform, directory, disks[n - 1].mount@) && (before is None || bytes_of(
            disks[before->0].mount@,
        ) <= bytes_of(disks[n - 1].mount@)) {
            Some(n - 1)
        } else {
            before
        }
    }
}

/// How many bytes a text takes.
pub open spec fn bytes_of(t: Seq<char>) -> int {
    vstd::utf8::encode_utf8(t).len() as int
}

fn find_disk(platform: &str, disks: &[FreeSpace], directory: &str) -> (r: Option<usize>)
    ensures
        match r {
            Some(i) => i < disks@.len() && holding_disk(
                platform@,
                disks@,
                directory@,
                disks@.len() as int,
            ) == Some(i as int),
            None => holding_disk(platform@, disks@, directory@, disks@.len() as int) is None,
        },
{
    let mut best: Option<usize> = None;
    for i in 0..disks.len()
        invariant
            match best {
                Some(b) => b < i && holding_disk(platform@, disks@, directory@, i as int) == Some(
                    b as int,
                ),
                None => holding_disk(platform@, disks@, directory@, i as int) is None,
            },
    {
        if host_paths::within(platform, directory, disks[i].mount.as_str()) {
            let longer = match best {
                Some(b) => paths::byte_len(disks[b].mount.as_str()) <= paths::byte_len(
                    disks[i].mount.as_str(),
                ),
                None => true,
            };
            if longer {
                best = Some(i);
            }
        }
    }
    best
}

/// The disk space that the computer has for a worker: what is free where the
/// directory stands, and what the worker has already.
pub open spec fn disk_space(
    platform: Seq<char>,
    disks: Seq<FreeSpace>,
    directory: Seq<char>,
    allocated: u64,
) -> u64 {
    capped(
        allocated + (match holding_disk(platform, disks, directory, disks.len() as int) {
            Some(i) => disks[i].bytes as int / 1_073_741_824,
            None => 0,
        }),
    )
}

/// The disk space that the computer has for a worker.
pub fn disk_gib(
    platform: &str,
    disks: &[FreeSpace],
    directory: &str,
    allocated: u64,
) -> (r: u64)
    ensures
        r == disk_space(platform@, disks@, directory@, allocated),
{
    let free = match find_disk(platform, disks, directory) {
        Some(i) => disks[i].bytes / 1_073_741_824,
        None => 0,
    };
    free.saturating_add(allocated)
}

/// The processors that the computer has: its physical cores where they are
/// known, and always one that can be told.
pub fn cpus(physical: Option<usize>, logical: usize) -> (r: u16)
    ensures
        r == ({
            let n = match physical {
                Some(n) => n,
                None => logical,
            };
            if n < 1 {
                1
            } else if n > u16::MAX {
                u16::MAX as int
            } else {
                n as int
            }
        }),
{
    let n = match physical {
        Some(n) => n,
        None => logical,
    };
    if n < 1 {
        1
    } else if n > 65_535 {
        65_535
    } else {
        n as u16
    }
}

/// What is seen of the computer.
pub fn observation(
    idle_seconds: Option<u64>,
    batteries: Option<&[BatterySight]>,
    weekday: u8,
    hour: u16,
    minute: u16,
    cores: u16,
    memory_bytes: u64,
    disk: u64,
) -> (r: Observation)
    requires
        hour < 24,
        minute < 60,
    ensures
        r.idle_seconds == idle_seconds,
        (r.on_battery, r.battery_percent) == power_state(
            match batteries {
                Some(b) => Some(b@),
                None => None,
            },
        ),
        r.weekday == weekday,
        r.minute == hour * 60 + minute,
        r.resources == (Resources {
            cpus: cores,
            memory_mib: memory_bytes / 1_048_576,
            disk_gib: disk,
        }),
{
    let (on_battery, battery_percent) = power(batteries);
    Observation {
        idle_seconds,
        on_battery,
        battery_percent,
        weekday,
        minute: hour * 60 + minute,
        resources: Resources {
            cpus: cores,
            memory_mib: memory_bytes / 1_048_576,
            disk_gib: disk,
        },
    }
}

} // verus!
