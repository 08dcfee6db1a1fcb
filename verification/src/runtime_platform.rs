//! Native Lima package paths and non-mutating host capability checks.
use crate::failure::{fail, refusal, unless, Failure};
use crate::host_paths::{self, host_absolute, host_parent};
use crate::paths;
use crate::text;
use vstd::prelude::*;

verus! {

/// The kind of virtual machine that a platform runs, or why it runs none.
pub open spec fn machine_type(platform: Seq<char>, architecture: Seq<char>) -> Result<
    Seq<char>,
    Seq<char>,
> {
    if architecture != "aarch64"@ && architecture != "x86_64"@ {
        Err("This CPU architecture has no packaged Lima worker runtime"@)
    } else if platform == "macos"@ {
        Ok("vz"@)
    } else if platform == "linux"@ {
        Ok("qemu"@)
    } else {
        Err("Selectable Lima worker storage requires macOS or Linux"@)
    }
}

/// The kind of virtual machine that a platform runs.
pub fn vm_type(platform: &str, architecture: &str) -> (r: Result<&'static str, Failure>)
    ensures
        match machine_type(platform@, architecture@) {
            Ok(kind) => r matches Ok(k) && k@ == kind,
            Err(message) => refusal(r) == Some(message),
        },
{
    if !text::same(architecture, "aarch64") && !text::same(architecture, "x86_64") {
        return Err(fail("This CPU architecture has no packaged Lima worker runtime"));
    }
    if text::same(platform, "macos") {
        Ok("vz")
    } else if text::same(platform, "linux") {
        Ok("qemu")
    } else {
        Err(fail("Selectable Lima worker storage requires macOS or Linux"))
    }
}

/// Where the packaged runtime stands, or why that is unknown.
pub open spec fn program_path(platform: Seq<char>, executable: Seq<char>) -> Result<
    Seq<char>,
    Seq<char>,
> {
    if !host_absolute(platform, executable) {
        Err("The application path must be absolute"@)
    } else {
        match host_parent(platform, executable) {
            None => Err("Cannot locate application resources"@),
            Some(directory) => match host_parent(platform, directory) {
                None => Err("Cannot locate application resources"@),
                Some(prefix) => if platform == "macos"@ {
                    Ok(paths::join_path(prefix, "Resources/lima/bin/limactl"@))
                } else if platform == "linux"@ {
                    Ok(paths::join_path(prefix, "lib/NodeHarbor/lima/bin/limactl"@))
                } else {
                    Err("This bundled worker runtime requires macOS or Linux"@)
                },
            },
        }
    }
}

/// Both executable names use the main application's resource directory.
/// Deriving Linux's prefix from the executable also handles mounted AppImages.
pub fn bundled_program(platform: &str, executable: &str) -> (r: Result<String, Failure>)
    ensures
        match program_path(platform@, executable@) {
            Ok(path) => r matches Ok(p) && p@ == path,
            Err(message) => refusal(r) == Some(message),
        },
{
    if !host_paths::absolute(platform, executable) {
        return Err(fail("The application path must be absolute"));
    }
    let directory = match host_paths::parent(platform, executable) {
        Some(directory) => directory,
        None => {
            return Err(fail("Cannot locate application resources"));
        },
    };
    let prefix = match host_paths::parent(platform, directory.as_str()) {
        Some(prefix) => prefix,
        None => {
            return Err(fail("Cannot locate application resources"));
        },
    };
    if text::same(platform, "macos") {
        Ok(paths::join(prefix.as_str(), "Resources/lima/bin/limactl"))
    } else if text::same(platform, "linux") {
        Ok(paths::join(prefix.as_str(), "lib/NodeHarbor/lima/bin/limactl"))
    } else {
        Err(fail("This bundled worker runtime requires macOS or Linux"))
    }
}

/// The text up to its first white space.
pub open spec fn word_end(t: Seq<char>, i: int) -> int
    decreases t.len() - i,
{
    if i < 0 || i >= t.len() || text::is_white(t[i]) {
        i
    } else {
        word_end(t, i + 1)
    }
}

/// The first word of a text; nothing where it has none.
pub open spec fn first_word(t: Seq<char>) -> Option<Seq<char>> {
    let rest = text::trim_start(t);
    if rest.len() == 0 {
        None
    } else {
        Some(rest.take(word_end(rest, 0)))
    }
}

/// The text up to its first character that is no digit.
pub open spec fn digits_end(t: Seq<char>, i: int) -> int
    decreases t.len() - i,
{
    if i < 0 || i >= t.len() || !text::is_digit(t[i]) {
        i
    } else {
        digits_end(t, i + 1)
    }
}

pub open spec fn no_version() -> Seq<char> {
    "The installed QEMU tool did not report a supported version"@
}

/// The version that a QEMU tool prints behind a prefix, or why it prints none.
pub open spec fn printed_version(output: Seq<char>, prefix: Seq<char>) -> Result<
    (u64, u64, u64),
    Seq<char>,
> {
    if !text::has_prefix(output, prefix) {
        Err(no_version())
    } else {
        match first_word(output.skip(prefix.len() as int)) {
            None => Err(no_version()),
            Some(version) => {
                let numbers = text::split_char(version, '.');
                match text::parse_number(numbers[0]) {
                    None => Err(no_version()),
                    Some(major) => if numbers.len() < 2 {
                        Err("Missing QEMU minor version"@)
                    } else {
                        match text::parse_number(numbers[1]) {
                            None => Err(no_version()),
                            Some(minor) => if numbers.len() < 3 {
                                Err("Missing QEMU patch version"@)
                            } else {
                                match text::parse_number(
                                    numbers[2].take(digits_end(numbers[2], 0)),
                                ) {
                                    None => Err(no_version()),
                                    Some(patch) => Ok((major, minor, patch)),
                                }
                            },
                        }
                    },
                }
            },
        }
    }
}

fn first_word_of(t: &[char]) -> (r: Option<Vec<char>>)
    ensures
        match r {
            Some(w) => first_word(t@) == Some(w@),
            None => first_word(t@) is None,
        },
{
    let mut low: usize = 0;
    assert(t@.skip(0) == t@);
    while low < t.len() && text::white(t[low])
        invariant
            low <= t@.len(),
            text::trim_start(t@) == text::trim_start(t@.skip(low as int)),
        decreases t@.len() - low,
    {
        assert(t@.skip(low as int).skip(1) == t@.skip(low + 1));
        low = low + 1;
    }
    let ghost rest = t@.skip(low as int);
    assert(rest == text::trim_start(t@));
    if low == t.len() {
        return None;
    }
    let mut high: usize = low;
    while high < t.len() && !text::white(t[high])
        invariant
            low <= high <= t@.len(),
            rest == t@.skip(low as int),
            word_end(rest, 0) == word_end(rest, high - low),
        decreases t@.len() - high,
    {
        assert(rest[high - low] == t@[high as int]);
        high = high + 1;
    }
    assert(word_end(rest, 0) == high - low) by {
        if high < t@.len() {
            assert(rest[high - low] == t@[high as int]);
        }
    }
    let word = text::slice_of(t, low, high);
    assert(word@ =~= rest.take(high - low));
    Some(word)
}

fn leading_digits(t: &[char]) -> (r: Vec<char>)
    ensures
        r@ == t@.take(digits_end(t@, 0)),
{
    let mut high: usize = 0;
    while high < t.len() && text::ascii_digit(t[high])
        invariant
            high <= t@.len(),
            digits_end(t@, 0) == digits_end(t@, high as int),
        decreases t@.len() - high,
    {
        high = high + 1;
    }
    let r = text::slice_of(t, 0, high);
    assert(r@ =~= t@.take(high as int));
    r
}

/// The version that a QEMU tool prints behind a prefix.
pub fn qemu_version(output: &str, prefix: &str) -> (r: Result<(u64, u64, u64), Failure>)
    ensures
        match printed_version(output@, prefix@) {
            Ok(version) => r == Ok::<(u64, u64, u64), Failure>(version),
            Err(message) => refusal(r) == Some(message),
        },
{
    let unsupported = "The installed QEMU tool did not report a supported version";
    let all = text::chars_of(output);
    let start = text::chars_of(prefix);
    let rest = match text::strip_prefix(all.as_slice(), start.as_slice()) {
        Some(rest) => rest,
        None => {
            return Err(fail(unsupported));
        },
    };
    let version = match first_word_of(rest.as_slice()) {
        Some(version) => version,
        None => {
            return Err(fail(unsupported));
        },
    };
    let numbers = text::split_on(version.as_slice(), '.');
    let ghost v = text::split_char(version@, '.');
    assert(text::piece_views(numbers@) == v);
    assert(v[0] == numbers@[0]@);
    let major = match text::parse_u64(numbers[0].as_slice()) {
        Some(n) => n,
        None => {
            return Err(fail(unsupported));
        },
    };
    if numbers.len() < 2 {
        return Err(fail("Missing QEMU minor version"));
    }
    assert(v[1] == numbers@[1]@);
    let minor = match text::parse_u64(numbers[1].as_slice()) {
        Some(n) => n,
        None => {
            return Err(fail(unsupported));
        },
    };
    if numbers.len() < 3 {
        return Err(fail("Missing QEMU patch version"));
    }
    assert(v[2] == numbers@[2]@);
    let digits = leading_digits(numbers[2].as_slice());
    match text::parse_u64(digits.as_slice()) {
        Some(patch) => Ok((major, minor, patch)),
        None => Err(fail(unsupported)),
    }
}

/// Whether a version is 6.2.0 or newer.
pub open spec fn is_recent(v: (u64, u64, u64)) -> bool {
    v.0 > 6 || (v.0 == 6 && v.1 >= 2)
}

fn recent(v: (u64, u64, u64)) -> (r: bool)
    ensures
        r == is_recent(v),
{
    v.0 > 6 || (v.0 == 6 && v.1 >= 2)
}

/// Why a Linux host cannot run a worker.
pub open spec fn linux_refusal(
    architecture: Seq<char>,
    emulator: Seq<char>,
    image: Seq<char>,
    kvm: i32,
) -> Option<Seq<char>> {
    let old = "The Linux worker requires QEMU and qemu-img version 6.2.0 or newer"@;
    match machine_type("linux"@, architecture) {
        Err(message) => Some(message),
        Ok(_) => match printed_version(emulator, "QEMU emulator version "@) {
            Err(message) => Some(message),
            Ok(first) => if !is_recent(first) {
                Some(old)
            } else {
                match printed_version(image, "qemu-img version "@) {
                    Err(message) => Some(message),
                    Ok(second) => if !is_recent(second) {
                        Some(old)
                    } else {
                        unless(
                            kvm == 12,
                            "KVM hardware virtualization is unavailable to this user; the worker cannot start"@,
                        )
                    },
                }
            },
        },
    }
}

/// Whether a Linux host can run a worker.
pub fn validate_linux_host(
    architecture: &str,
    emulator_version: &str,
    image_version: &str,
    kvm_api_version: i32,
) -> (r: Result<(), Failure>)
    ensures
        refusal(r) == linux_refusal(
            architecture@,
            emulator_version@,
            image_version@,
            kvm_api_version,
        ),
{
    let old = "The Linux worker requires QEMU and qemu-img version 6.2.0 or newer";
    match vm_type("linux", architecture) {
        Ok(_) => {},
        Err(e) => {
            return Err(e);
        },
    }
    match qemu_version(emulator_version, "QEMU emulator version ") {
        Ok(version) => if !recent(version) {
            return Err(fail(old));
        },
        Err(e) => {
            return Err(e);
        },
    }
    match qemu_version(image_version, "qemu-img version ") {
        Ok(version) => if !recent(version) {
            return Err(fail(old));
        },
        Err(e) => {
            return Err(e);
        },
    }
    if kvm_api_version == 12 {
        Ok(())
    } else {
        Err(
            fail(
                "KVM hardware virtualization is unavailable to this user; the worker cannot start",
            ),
        )
    }
}

/// Why a Mac cannot run a worker.
pub open spec fn macos_refusal(version: Seq<char>, virtualization: bool) -> Option<Seq<char>> {
    match text::parse_number(text::split_char(version, '.')[0]) {
        None => Some("Cannot determine the macOS version"@),
        Some(major) => if major < 14 {
            Some("The packaged worker requires macOS 14 or newer"@)
        } else {
            unless(
                virtualization,
                "Hardware virtualization is unavailable on this Mac; the worker cannot start"@,
            )
        },
    }
}

/// Whether a Mac can run a worker.
pub fn validate_macos_host(version: &str, hardware_virtualization: bool) -> (r: Result<
    (),
    Failure,
>)
    ensures
        refusal(r) == macos_refusal(version@, hardware_virtualization),
{
    let chars = text::chars_of(version);
    let numbers = text::split_on(chars.as_slice(), '.');
    assert(text::piece_views(numbers@)[0] == numbers@[0]@);
    let major = match text::parse_u64(numbers[0].as_slice()) {
        Some(n) => n,
        None => {
            return Err(fail("Cannot determine the macOS version"));
        },
    };
    if major < 14 {
        return Err(fail("The packaged worker requires macOS 14 or newer"));
    }
    if hardware_virtualization {
        Ok(())
    } else {
        Err(
            fail("Hardware virtualization is unavailable on this Mac; the worker cannot start"),
        )
    }
}

/// The emulator that runs a worker of an architecture on Linux.
pub fn emulator_program(architecture: &str) -> (r: Option<&'static str>)
    ensures
        match r {
            Some(program) => (architecture@ == "aarch64"@ && program@ == "qemu-system-aarch64"@)
                || (architecture@ == "x86_64"@ && program@ == "qemu-system-x86_64"@),
            None => architecture@ != "aarch64"@ && architecture@ != "x86_64"@,
        },
{
    if text::same(architecture, "aarch64") {
        Some("qemu-system-aarch64")
    } else if text::same(architecture, "x86_64") {
        Some("qemu-system-x86_64")
    } else {
        None
    }
}

} // verus!
