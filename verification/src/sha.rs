//! The fixed cryptographic hash behind commitments and journal
//! digests.

use vstd::prelude::*;

verus! {

/// The SHA-256 digest of a byte string, named but not spelled out: the
/// trusted wrapper below ties it to the outside implementation.
pub uninterp spec fn sha256_of(data: Seq<u8>) -> Seq<u8>;

/// Relies on `sha2::Sha256`: the digest is a function of the input
/// bytes alone, and is always 32 bytes long.
#[verifier::external_body]
pub(crate) fn sha256(data: &[u8]) -> (r: [u8; 32])
    ensures
        r@ == sha256_of(data@),
{
    let digest = <sha2::Sha256 as sha2::Digest>::digest(data);
    digest.into()
}

} // verus!
