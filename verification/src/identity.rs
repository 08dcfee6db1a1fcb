//! Device, disk and request identities.
use crate::failure::{refusal, Failure};
use crate::text;
use vstd::prelude::*;

verus! {

pub open spec fn hex_char(d: int) -> char {
    if d < 10 {
        (48 + d) as char
    } else {
        (87 + d) as char
    }
}

/// The last `n` hexadecimal digits of `v`, in lower case.
pub open spec fn hex_text(v: nat, n: nat) -> Seq<char>
    decreases n,
{
    if n == 0 {
        Seq::empty()
    } else {
        hex_text(v / 16, (n - 1) as nat).push(hex_char((v % 16) as int))
    }
}

/// An identity as 32 hexadecimal digits.
pub open spec fn simple_form(id: u128) -> Seq<char> {
    hex_text(id as nat, 32)
}

/// An identity as hexadecimal digits in groups of 8, 4, 4, 4 and 12.
pub open spec fn hyphenated_form(id: u128) -> Seq<char> {
    let s = simple_form(id);
    s.subrange(0, 8).push('-') + s.subrange(8, 12).push('-') + s.subrange(12, 16).push('-')
        + s.subrange(16, 20).push('-') + s.subrange(20, 32)
}

/// What `uuid::Uuid::parse_str` makes of a text: the 128-bit value of the UUID,
/// or the words of its error.
pub uninterp spec fn parsed_uuid(text: Seq<char>) -> Result<u128, Seq<char>>;

/// `uuid::Uuid::parse_str`: the value of a UUID in any of its textual forms,
/// or the words of the error where the text is no UUID.
#[verifier::external_body]
pub(crate) fn parse_uuid(text: &str) -> (r: Result<u128, String>)
    ensures
        match r {
            Ok(id) => parsed_uuid(text@) == Ok::<u128, Seq<char>>(id),
            Err(words) => parsed_uuid(text@) == Err::<u128, Seq<char>>(words@),
        },
{
    match uuid::Uuid::parse_str(text) {
        Ok(id) => Ok(id.as_u128()),
        Err(error) => Err(error.to_string()),
    }
}

/// `uuid::Uuid::simple` formats the value as 32 lower-case hexadecimal digits,
/// which read back as the same value.
#[verifier::external_body]
pub(crate) fn simple_text(id: u128) -> (r: String)
    ensures
        r@ == simple_form(id),
        parsed_uuid(r@) is Ok,
        parsed_uuid(r@)->Ok_0 == id,
{
    uuid::Uuid::from_u128(id).simple().to_string()
}

/// `uuid::Uuid::hyphenated` formats the value in its five groups of lower-case
/// hexadecimal digits, which read back as the same value.
#[verifier::external_body]
pub(crate) fn hyphenated_text(id: u128) -> (r: String)
    ensures
        r@ == hyphenated_form(id),
        parsed_uuid(r@) is Ok,
        parsed_uuid(r@)->Ok_0 == id,
{
    uuid::Uuid::from_u128(id).hyphenated().to_string()
}

/// The bits that every random UUID has: the version is four and the variant is
/// that of the standard.
pub open spec fn is_random(id: u128) -> bool {
    (id / 0x1000_0000_0000_0000_0000) % 16 == 4 && (id / 0x4000_0000_0000_0000) % 4 == 2
}

/// `uuid::Uuid::new_v4` draws a random UUID. Of its value only the version and
/// the variant are fixed.
#[verifier::external_body]
pub(crate) fn random_uuid() -> (r: u128)
    ensures
        is_random(r),
{
    uuid::Uuid::new_v4().as_u128()
}

/// Whether all values are those of random UUIDs.
pub open spec fn are_random(ids: Seq<u128>) -> bool {
    forall|i: int| 0 <= i < ids.len() ==> is_random(#[trigger] ids[i])
}

/// As many random UUIDs as are asked for.
pub(crate) fn random_uuids(count: usize) -> (r: Vec<u128>)
    ensures
        r@.len() == count,
        are_random(r@),
{
    let mut r: Vec<u128> = Vec::new();
    for i in 0..count
        invariant
            r@.len() == i,
            are_random(r@),
    {
        r.push(random_uuid());
    }
    r
}

/// A text that names a device.
pub open spec fn is_identity(text: Seq<char>) -> bool {
    parsed_uuid(text) is Ok
}

/// Why a text is no identity.
pub open spec fn identity_refusal(text: Seq<char>) -> Option<Seq<char>> {
    match parsed_uuid(text) {
        Ok(_) => None,
        Err(words) => Some(words),
    }
}

/// The value of an identity.
pub fn identity_value(text: &str) -> (r: Result<u128, Failure>)
    ensures
        refusal(r) == identity_refusal(text@),
        r matches Ok(id) ==> parsed_uuid(text@) == Ok::<u128, Seq<char>>(id),
{
    match parse_uuid(text) {
        Ok(id) => Ok(id),
        Err(message) => Err(Failure { message }),
    }
}

/// Whether a text names a device.
pub fn names_device(text: &str) -> (r: bool)
    ensures
        r == is_identity(text@),
{
    parse_uuid(text).is_ok()
}

/// The name of the VM that belongs to a device.
pub fn managed_vm_name(device_id: &str) -> (r: Result<String, Failure>)
    ensures
        refusal(r) == identity_refusal(device_id@),
        r matches Ok(name) ==> name@ == vm_name(parsed_uuid(device_id@)->Ok_0),
{
    match identity_value(device_id) {
        Ok(id) => {
            let digits = simple_text(id);
            Ok(text::join2("nodeharbor-", digits.as_str()))
        },
        Err(e) => Err(e),
    }
}

/// The VM name of a device's identity.
pub open spec fn vm_name(id: u128) -> Seq<char> {
    "nodeharbor-"@ + simple_form(id)
}

/// The digits of an identity number exactly 32 and are lower-case hexadecimal.
pub proof fn lemma_hex_text(v: nat, n: nat)
    ensures
        hex_text(v, n).len() == n,
        text::all_hex(hex_text(v, n)),
    decreases n,
{
    if n > 0 {
        lemma_hex_text(v / 16, (n - 1) as nat);
        let before = hex_text(v / 16, (n - 1) as nat);
        let now = hex_text(v, n);
        assert forall|i: int| 0 <= i < now.len() implies text::is_hex_digit(#[trigger] now[i]) by {
            if i < before.len() {
                assert(now[i] == before[i]);
            }
        }
    }
}

/// The identifier of a new disk, from a fresh identity.
pub open spec fn disk_name(id: u128) -> Seq<char> {
    "nh"@ + simple_form(id).take(9)
}

/// The identifier of a new disk, from a fresh identity.
pub fn disk_identifier(id: u128) -> (r: String)
    ensures
        r@ == disk_name(id),
{
    let digits = simple_text(id);
    let chars = text::chars_of(digits.as_str());
    proof {
        lemma_hex_text(id as nat, 32);
    }
    let short = text::slice_of(chars.as_slice(), 0, 9);
    assert(short@ == simple_form(id).take(9));
    let short_text = text::string_of(short.as_slice());
    text::join2("nh", short_text.as_str())
}

/// Devices with different identities have different VM names.
pub proof fn vm_names_differ(a: u128, b: u128)
    requires
        vm_name(a) == vm_name(b),
    ensures
        a == b,
{
    let prefix = "nodeharbor-"@;
    assert(simple_form(a) == vm_name(a).skip(prefix.len() as int));
    assert(simple_form(b) == vm_name(b).skip(prefix.len() as int));
    lemma_hex_injective(a as nat, b as nat, 32);
    lemma_power16();
}

spec fn power16(n: nat) -> nat
    decreases n,
{
    if n == 0 {
        1
    } else {
        16 * power16((n - 1) as nat)
    }
}

proof fn lemma_power16()
    ensures
        power16(32) == 0x1_0000_0000_0000_0000_0000_0000_0000_0000,
{
    reveal_with_fuel(power16, 33);
}

proof fn lemma_hex_injective(a: nat, b: nat, n: nat)
    requires
        hex_text(a, n) == hex_text(b, n),
    ensures
        a < power16(n) && b < power16(n) ==> a == b,
    decreases n,
{
    if n > 0 {
        let m = (n - 1) as nat;
        let left = hex_text(a / 16, m);
        let right = hex_text(b / 16, m);
        assert(left == hex_text(a, n).drop_last());
        assert(right == hex_text(b, n).drop_last());
        assert(hex_char((a % 16) as int) == hex_text(a, n).last());
        assert(hex_char((b % 16) as int) == hex_text(b, n).last());
        lemma_hex_injective(a / 16, b / 16, m);
    }
}

} // verus!
