//! Content digest for the remote-API upload protocol.
//!
//! The "create" and "finish" requests carry a SHA-256 of the file content,
//! rendered as uppercase hex.

use vstd::prelude::*;

verus! {

/// The SHA-256 digest of a byte string: a function of the bytes alone.
pub uninterp spec fn spec_sha256(data: Seq<u8>) -> Seq<u8>;

/// Relies on `sha2::Sha256::digest`: computes the SHA-256 of the bytes;
/// the digest is 32 bytes long and depends on the bytes alone.
#[verifier::external_body]
pub fn sha256_digest(data: &[u8]) -> (res: Vec<u8>)
    ensures
        res@ == spec_sha256(data@),
        res@.len() == 32,
{
    let digest = <sha2::Sha256 as sha2::Digest>::digest(data);
    digest.to_vec()
}

} // verus!
