//! The SHA-256 digest of a file that is read piece by piece.

use sha2::Digest;
use vstd::prelude::*;

use crate::text::{hex, to_hex};

verus! {

/// Bytes of which there is no digest: their bits cannot be counted in 64 bits.
pub const DIGEST_LIMIT: u64 = 0x2000_0000_0000_0000;

/// The SHA-256 hasher of the `sha2` crate.
#[verifier::external_type_specification]
#[verifier::external_body]
pub struct ExSha256(sha2::Sha256);

/// The bytes that a hasher holds: all that it was given, in order.
pub uninterp spec fn hashed_bytes(hasher: sha2::Sha256) -> Seq<u8>;

/// The SHA-256 digest of `bytes`.
pub uninterp spec fn sha256(bytes: Seq<u8>) -> Seq<u8>;

/// Calls `sha2::Digest::new`: a hasher that was given nothing.
#[verifier::external_body]
fn new_hasher() -> (hasher: sha2::Sha256)
    ensures
        hashed_bytes(hasher) == Seq::<u8>::empty(),
{
    sha2::Sha256::new()
}

/// Calls `sha2::Digest::update`: the bytes join those that the hasher was given.
#[verifier::external_body]
fn feed(hasher: &mut sha2::Sha256, bytes: &[u8])
    ensures
        hashed_bytes(*final(hasher)) == hashed_bytes(*old(hasher)) + bytes@,
{
    hasher.update(bytes)
}

/// Calls `sha2::Digest::finalize`: the 32 bytes of the digest of what the hasher
/// was given. The contract names the digest. The crate counts the bits in 64 bits.
#[verifier::external_body]
fn finish_hasher(hasher: sha2::Sha256) -> (digest: Vec<u8>)
    requires
        hashed_bytes(hasher).len() < DIGEST_LIMIT,
    ensures
        digest@ == sha256(hashed_bytes(hasher)),
        digest@.len() == 32,
{
    hasher.finalize().to_vec()
}

/// The digest and the size of a file, while it is read.
pub struct FileDigest {
    hasher: sha2::Sha256,
    size: u64,
}

impl View for FileDigest {
    type V = Seq<u8>;

    /// The bytes read so far.
    closed spec fn view(&self) -> Seq<u8> {
        hashed_bytes(self.hasher)
    }
}

impl FileDigest {
    /// The size is that of the bytes read so far, and there is a digest of them.
    pub closed spec fn wf(&self) -> bool {
        self.size == self@.len() && self.size < DIGEST_LIMIT
    }

    /// Nothing is read yet.
    pub fn new() -> (digest: Self)
        ensures
            digest.wf(),
            digest@ == Seq::<u8>::empty(),
    {
        FileDigest { hasher: new_hasher(), size: 0 }
    }

    /// Takes in the bytes read next.
    pub fn update(&mut self, bytes: &[u8])
        requires
            old(self).wf(),
            old(self)@.len() + bytes@.len() < DIGEST_LIMIT,
        ensures
            final(self).wf(),
            final(self)@ == old(self)@ + bytes@,
    {
        feed(&mut self.hasher, bytes);
        self.size = self.size + bytes.len() as u64;
    }

    /// The digest of the bytes in base sixteen, and how many there were.
    pub fn finish(self) -> (result: (String, u64))
        requires
            self.wf(),
        ensures
            result.0@ == hex(sha256(self@)),
            result.0@.len() == 64,
            result.1 == self@.len(),
    {
        let size: u64 = self.size;
        let digest = finish_hasher(self.hasher);
        (to_hex(digest.as_slice()), size)
    }
}

} // verus!
