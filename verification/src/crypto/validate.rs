//! Validated decoding: hexadecimal text to bytes of an exact length, with
//! the error kind that the caller names.

use vstd::prelude::*;
use vstd::string::*;

use crate::crypto::error::{CryptoError, CryptoErrorKind};
use crate::hexcode::{decode_hex, hex_decoding, is_hex_text};

verus! {

/// Whether `detail` is the text of a failed hexadecimal decoding.
pub open spec fn reports_bad_hex(detail: Seq<char>) -> bool {
    "Invalid hex: "@.is_prefix_of(detail)
}

/// Whether `detail` is the text that a failed decoding to an exact length
/// owes: the report of bad hexadecimal where `text` is not hexadecimal, and
/// `complaint` where only the length is wrong.
pub open spec fn decode_detail_fits(
    text: Seq<char>,
    complaint: Seq<char>,
    detail: Seq<char>,
) -> bool {
    if is_hex_text(text) {
        detail == complaint
    } else {
        reports_bad_hex(detail)
    }
}

/// The bytes of hexadecimal `text`, or an error of `kind` where `text` is
/// not hexadecimal.
pub fn decode_hex_as(text: &str, kind: CryptoErrorKind) -> (decoded: Result<
    Vec<u8>,
    CryptoError,
>)
    ensures
        decoded is Ok <==> is_hex_text(text@),
        decoded matches Ok(bytes) ==> bytes@ == hex_decoding(text@),
        decoded matches Err(error) ==> error.kind() == kind && reports_bad_hex(error.detail()),
{
    match decode_hex(text) {
        Ok(bytes) => Ok(bytes),
        Err(cause) => {
            let cause_text = cause.to_string();
            Err(CryptoError::with_cause(kind, "Invalid hex: ", cause_text.as_str()))
        },
    }
}

/// Accepts a length that equals `expected`; any other gives an error of
/// `kind` that carries `complaint`.
pub fn require_len(
    actual: usize,
    expected: usize,
    kind: CryptoErrorKind,
    complaint: &str,
) -> (checked: Result<(), CryptoError>)
    ensures
        checked is Ok <==> actual == expected,
        checked matches Err(error) ==> error.kind() == kind && error.detail() == complaint@,
{
    if actual == expected {
        Ok(())
    } else {
        Err(CryptoError::new(kind, String::from_str(complaint)))
    }
}

/// The same bytes as an array, for a slice that has exactly `N` of them.
pub(crate) fn to_array<const N: usize>(bytes: &[u8]) -> (array: [u8; N])
    requires
        bytes@.len() == N,
    ensures
        array@ == bytes@,
{
    let mut array = [0u8; N];
    let mut i: usize = 0;
    while i < N
        invariant
            i <= N,
            bytes@.len() == N,
            forall|j: int| 0 <= j < i ==> array@[j] == bytes@[j],
        decreases N - i,
    {
        array[i] = bytes[i];
        i += 1;
    }
    assert(array@ =~= bytes@);
    array
}

/// The bytes of hexadecimal `text` if there are exactly `expected_len` of
/// them. Text that is not hexadecimal, and text of another length, give an
/// error of `kind`; the second carries `complaint`.
pub fn decode_exact(
    text: &str,
    expected_len: usize,
    kind: CryptoErrorKind,
    complaint: &str,
) -> (decoded: Result<Vec<u8>, CryptoError>)
    ensures
        decoded is Ok <==> is_hex_text(text@) && text@.len() == 2 * expected_len,
        decoded matches Ok(bytes) ==> bytes@ == hex_decoding(text@) && bytes@.len()
            == expected_len,
        decoded matches Err(error) ==> error.kind() == kind,
        decoded matches Err(error) ==> decode_detail_fits(text@, complaint@, error.detail()),
{
    let bytes = decode_hex_as(text, kind)?;
    require_len(bytes.len(), expected_len, kind, complaint)?;
    Ok(bytes)
}

} // verus!
