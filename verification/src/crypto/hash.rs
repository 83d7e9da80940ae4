//! The digest engine: SHA-256.

use sha2::{Digest, Sha256};
use vstd::prelude::*;
use vstd::slice::slice_to_vec;

use crate::crypto::error::CryptoError;

verus! {

/// The SHA-256 digest of `data`.
pub uninterp spec fn sha256_digest(data: Seq<u8>) -> Seq<u8>;

/// The length of a digest in bytes.
pub const DIGEST_LEN: usize = 32;

/// `Sha256::digest` of the `sha2` crate: the SHA-256 digest of the whole
/// input, a function of the input alone.
#[verifier::external_body]
fn digest_sha256(data: &[u8]) -> (digest: [u8; 32])
    ensures
        digest@ == sha256_digest(data@),
{
    Sha256::digest(data).into()
}

/// The SHA-256 digest of `data`: 32 bytes, the same for the same input.
/// Every input is accepted, the empty one too, and no error arises.
pub fn sha256_hash(data: &[u8]) -> (hashed: Result<Vec<u8>, CryptoError>)
    ensures
        hashed matches Ok(digest) && digest@ == sha256_digest(data@) && digest@.len()
            == DIGEST_LEN,
{
    let digest = digest_sha256(data);
    Ok(slice_to_vec(digest.as_slice()))
}

} // verus!
