//! SHA-256 of data that comes in pieces.
use crate::failure::{fail, refusal, unless, Failure};
use vstd::prelude::*;

verus! {

/// A SHA-256 computation under way. The type of `sha2` stands in a private
/// field because its generics cannot be declared.
#[verifier::external_body]
pub struct Hash {
    inner: sha2::Sha256,
}

/// The bytes that a computation was fed, in order.
pub uninterp spec fn fed_bytes(h: Hash) -> Seq<u8>;

/// The SHA-256 of bytes in lower-case hexadecimal digits.
pub uninterp spec fn sha256_text(bytes: Seq<u8>) -> Seq<char>;

/// `sha2::Sha256::new`: a computation that was fed nothing.
#[verifier::external_body]
fn start_hash() -> (r: Hash)
    ensures
        fed_bytes(r) == Seq::<u8>::empty(),
{
    Hash { inner: sha2::Digest::new() }
}

/// `sha2::Digest::update`: the bytes are fed behind those that came before.
#[verifier::external_body]
fn feed_hash(h: &mut Hash, bytes: &[u8])
    ensures
        fed_bytes(*final(h)) == fed_bytes(*old(h)) + bytes@,
{
    sha2::Digest::update(&mut h.inner, bytes);
}

/// `sha2::Digest::finalize`, written as hexadecimal digits: a function of the
/// bytes that were fed, however they were cut into pieces.
#[verifier::external_body]
fn finish_hash(h: Hash) -> (r: String)
    ensures
        r@ == sha256_text(fed_bytes(h)),
{
    format!("{:x}", sha2::Digest::finalize(h.inner))
}

/// The checksum and the size of data that comes in pieces.
pub struct Checksum {
    hash: Hash,
    size: u64,
}

impl Checksum {
    /// The data so far.
    pub closed spec fn data(&self) -> Seq<u8> {
        fed_bytes(self.hash)
    }

    /// The size is that of the data.
    pub closed spec fn well_formed(&self) -> bool {
        self.size == fed_bytes(self.hash).len()
    }

    /// The checksum of no data.
    pub fn new() -> (r: Self)
        ensures
            r.well_formed(),
            r.data() == Seq::<u8>::empty(),
    {
        Checksum { hash: start_hash(), size: 0 }
    }

    /// How much data there is.
    pub fn size(&self) -> (r: u64)
        requires
            self.well_formed(),
        ensures
            r == self.data().len(),
    {
        self.size
    }

    /// Add a piece of the data.
    pub fn update(&mut self, piece: &[u8]) -> (r: Result<(), Failure>)
        requires
            old(self).well_formed(),
        ensures
            final(self).well_formed(),
            refusal(r) == unless(
                old(self).data().len() + piece@.len() <= u64::MAX,
                "Backup size overflow"@,
            ),
            final(self).data() == (if r is Ok {
                old(self).data() + piece@
            } else {
                old(self).data()
            }),
    {
        match self.size.checked_add(piece.len() as u64) {
            Some(size) => {
                feed_hash(&mut self.hash, piece);
                self.size = size;
                Ok(())
            },
            None => Err(fail("Backup size overflow")),
        }
    }

    /// The checksum in hexadecimal digits, and the size.
    pub fn finish(self) -> (r: (String, u64))
        requires
            self.well_formed(),
        ensures
            r.0@ == sha256_text(self.data()),
            r.1 == self.data().len(),
    {
        let size = self.size;
        (finish_hash(self.hash), size)
    }
}

} // verus!
