//! The commitment codec: a binding, hiding digest of a secret square
//! and a salt.
//!
//! The committed message is the two coordinate bytes followed by the
//! salt's big-endian 4-byte encoding; the digest is its SHA-256 hash.

use vstd::prelude::*;
use crate::board::Square;
use crate::sha::{sha256, sha256_of};
use crate::bytes::bytes32_eq;

verus! {

/// The big-endian 4-byte encoding of a salt.
pub open spec fn be_bytes_u32(x: u32) -> Seq<u8> {
    seq![
        ((x >> 24) & 0xff) as u8,
        ((x >> 16) & 0xff) as u8,
        ((x >> 8) & 0xff) as u8,
        (x & 0xff) as u8,
    ]
}

/// The byte string a player commits to: row, col, then the salt.
pub open spec fn commit_message(position: Square, salt: u32) -> Seq<u8> {
    seq![position.row, position.col] + be_bytes_u32(salt)
}

/// The commitment digest of a position and salt.
pub open spec fn commit_spec(position: Square, salt: u32) -> Seq<u8> {
    sha256_of(commit_message(position, salt))
}

/// Whether a digest opens to the given position and salt.
pub open spec fn verify_spec(position: Square, salt: u32, digest: Seq<u8>) -> bool {
    digest == commit_spec(position, salt)
}

/// Derive the commitment digest binding `(position, salt)`.
pub fn commit(position: Square, salt: u32) -> (r: [u8; 32])
    ensures
        r@ == commit_spec(position, salt),
{
    let mut msg: Vec<u8> = Vec::new();
    msg.push(position.row);
    msg.push(position.col);
    msg.push(((salt >> 24) & 0xff) as u8);
    msg.push(((salt >> 16) & 0xff) as u8);
    msg.push(((salt >> 8) & 0xff) as u8);
    msg.push((salt & 0xff) as u8);
    proof {
        assert(msg@ =~= commit_message(position, salt));
    }
    sha256(msg.as_slice())
}

/// Check a digest against a claimed opening, by recomputing and
/// comparing.
pub fn verify(position: Square, salt: u32, digest: &[u8; 32]) -> (r: bool)
    ensures
        r == verify_spec(position, salt, digest@),
{
    let computed = commit(position, salt);
    bytes32_eq(digest, &computed)
}

/// A commitment always opens to the pair it was derived from: checking
/// `commit(position, salt)` against the same `(position, salt)`
/// succeeds.
pub proof fn lemma_commit_verify_roundtrip(position: Square, salt: u32)
    ensures
        verify_spec(position, salt, commit_spec(position, salt)),
{
}

/// Any digest other than the derived one fails the check for that
/// opening. (That a *different* opening never matches the derived
/// digest is the hash's collision resistance, which is assumed of the
/// outside implementation, not proved here.)
pub proof fn lemma_verify_rejects_other_digests(position: Square, salt: u32, digest: Seq<u8>)
    requires
        digest != commit_spec(position, salt),
    ensures
        !verify_spec(position, salt, digest),
{
}

} // verus!
