//! The random source: bytes from the operating system's secure generator.

use rand::rngs::OsRng;
use rand::RngCore;
use vstd::prelude::*;

use crate::crypto::error::{CryptoError, CryptoErrorKind};

verus! {

/// `rand::Error`, the failure of a random source. It is carried through
/// unread; only its text is used.
#[verifier::external_type_specification]
#[verifier::external_body]
pub struct ExRandError(rand::Error);

/// `OsRng::try_fill_bytes` of the `rand` crate: overwrites the buffer in
/// place with bytes from the operating system, or reports that the entropy
/// source failed. The length never changes, and an empty buffer is filled
/// without asking the system, so that call cannot fail. Nothing is said of
/// the bytes themselves.
#[verifier::external_body]
fn fill_from_os(buffer: &mut Vec<u8>) -> (filled: Result<(), rand::Error>)
    ensures
        final(buffer)@.len() == old(buffer)@.len(),
        old(buffer)@.len() == 0 ==> filled is Ok,
{
    OsRng.try_fill_bytes(buffer.as_mut_slice())
}

/// What a fill of `buffer` amounts to: the buffer itself where the source
/// succeeded, `RandomFailed` with the source's own words where it did not.
/// A failed fill is never turned into bytes.
pub fn drawn_bytes(buffer: Vec<u8>, filled: Result<(), rand::Error>) -> (drawn: Result<
    Vec<u8>,
    CryptoError,
>)
    ensures
        filled is Ok ==> (drawn matches Ok(bytes) && bytes@ == buffer@),
        filled is Err ==> (drawn matches Err(error) && error.kind()
            == CryptoErrorKind::RandomFailed),
{
    match filled {
        Ok(()) => Ok(buffer),
        Err(cause) => Err(CryptoError::new(CryptoErrorKind::RandomFailed, cause.to_string())),
    }
}

/// `length` bytes from the operating system's secure generator.
///
/// Fails with `RandomFailed` only when the entropy source itself fails; a
/// request for no bytes always succeeds with an empty sequence. There is no
/// fallback to a weaker generator.
pub fn generate_random_bytes(length: usize) -> (drawn: Result<Vec<u8>, CryptoError>)
    ensures
        drawn matches Ok(bytes) ==> bytes@.len() == length,
        drawn matches Err(error) ==> error.kind() == CryptoErrorKind::RandomFailed,
        length == 0 ==> drawn is Ok,
{
    let mut bytes = vec![0u8; length];
    let filled = fill_from_os(&mut bytes);
    drawn_bytes(bytes, filled)
}

} // verus!
