//! The pinned VM image, downloaded into the selected runtime directory and not
//! into a cache on the system volume.
use crate::checksum::{sha256_text, Checksum};
use crate::failure::{fail, refusal, unless, Failure};
use crate::text;
use vstd::prelude::*;

verus! {

/// The most that the image may have: 4 GiB.
pub const LIMIT: u64 = 4_294_967_296;

/// Whether a text is a SHA-256 in hexadecimal digits.
pub open spec fn is_digest(t: Seq<char>) -> bool {
    t.len() == 64 && text::all_hex(t)
}

/// The digest that an image is pinned to.
pub open spec fn pinned_digest(digest: Seq<char>) -> Option<Seq<char>> {
    if text::has_prefix(digest, "sha256:"@) && is_digest(digest.skip("sha256:"@.len() as int)) {
        Some(digest.skip("sha256:"@.len() as int))
    } else {
        None
    }
}

fn digest_text(t: &[char]) -> (r: bool)
    ensures
        r == is_digest(t@),
{
    t.len() == 64 && text::only_hex(t)
}

/// The digest that an image is pinned to.
pub fn expected_digest(digest: &str) -> (r: Result<String, Failure>)
    ensures
        match pinned_digest(digest@) {
            Some(expected) => r matches Ok(d) && d@ == expected,
            None => refusal(r) == Some("The pinned VM image has an invalid digest"@),
        },
{
    let all = text::chars_of(digest);
    let prefix = text::chars_of("sha256:");
    match text::strip_prefix(all.as_slice(), prefix.as_slice()) {
        Some(rest) => if digest_text(rest.as_slice()) {
            Ok(text::string_of(rest.as_slice()))
        } else {
            Err(fail("The pinned VM image has an invalid digest"))
        },
        None => Err(fail("The pinned VM image has an invalid digest")),
    }
}

/// The name of an image in the runtime directory.
pub fn image_name(digest: &str) -> (r: String)
    ensures
        r@ == ".boot-"@ + digest@,
{
    text::join2(".boot-", digest)
}

/// Whether a file is an image of a finished preparation, which can go.
pub open spec fn is_image_file(name: Seq<char>) -> bool {
    text::has_prefix(name, ".boot-"@) && is_digest(name.skip(".boot-"@.len() as int))
}

/// Whether a file is an image of a finished preparation, which can go.
pub fn names_image(name: &str) -> (r: bool)
    ensures
        r == is_image_file(name@),
{
    let all = text::chars_of(name);
    let prefix = text::chars_of(".boot-");
    match text::strip_prefix(all.as_slice(), prefix.as_slice()) {
        Some(rest) => digest_text(rest.as_slice()),
        None => false,
    }
}

/// Whether an image that stands there already is a plain file.
pub fn check_cached(regular: bool) -> (r: Result<(), Failure>)
    ensures
        refusal(r) == unless(regular, "The cached VM image was replaced"@),
{
    if regular {
        Ok(())
    } else {
        Err(fail("The cached VM image was replaced"))
    }
}

/// Whether an announced length is within the limit.
pub fn check_length(length: Option<u64>) -> (r: Result<(), Failure>)
    ensures
        refusal(r) == unless(
            length matches Some(n) ==> n <= LIMIT,
            "The VM image download exceeds its preparation allowance"@,
        ),
{
    let fits = match length {
        Some(n) => n <= LIMIT,
        None => true,
    };
    if fits {
        Ok(())
    } else {
        Err(fail("The VM image download exceeds its preparation allowance"))
    }
}

/// Add a piece of the download, within the limit.
pub fn add_piece(read: &mut Checksum, piece: &[u8]) -> (r: Result<(), Failure>)
    requires
        old(read).well_formed(),
    ensures
        final(read).well_formed(),
        refusal(r) == (if old(read).data().len() + piece@.len() > u64::MAX {
            Some("VM image size overflow"@)
        } else {
            unless(
                old(read).data().len() + piece@.len() <= LIMIT,
                "The VM image download exceeds its preparation allowance"@,
            )
        }),
        final(read).data() == (if r is Ok {
            old(read).data() + piece@
        } else {
            old(read).data()
        }),
{
    match read.size().checked_add(piece.len() as u64) {
        None => Err(fail("VM image size overflow")),
        Some(size) => if size > LIMIT {
            Err(fail("The VM image download exceeds its preparation allowance"))
        } else {
            read.update(piece)
        },
    }
}

/// Whether an image that was read to its end is the pinned one. It came from the
/// directory or was downloaded.
pub fn check_image(read: Checksum, expected: &str, cached: bool) -> (r: Result<(), Failure>)
    requires
        read.well_formed(),
    ensures
        refusal(r) == unless(
            sha256_text(read.data()) == expected@,
            if cached {
                "The cached VM image failed SHA-256 verification"@
            } else {
                "The VM image download failed SHA-256 verification"@
            },
        ),
{
    let (hash, _) = read.finish();
    if text::same(hash.as_str(), expected) {
        Ok(())
    } else if cached {
        Err(fail("The cached VM image failed SHA-256 verification"))
    } else {
        Err(fail("The VM image download failed SHA-256 verification"))
    }
}

/// The name of a pinned image is one that is cleaned up later.
pub proof fn pinned_images_are_cleaned_up(digest: Seq<char>)
    requires
        pinned_digest(digest) is Some,
    ensures
        is_image_file(".boot-"@ + pinned_digest(digest)->0),
{
    let hex = pinned_digest(digest)->0;
    let name = ".boot-"@ + hex;
    assert(name.take(".boot-"@.len() as int) =~= ".boot-"@);
    assert(name.skip(".boot-"@.len() as int) =~= hex);
    assert(name.subrange(0, ".boot-"@.len() as int) =~= ".boot-"@);
}

} // verus!
