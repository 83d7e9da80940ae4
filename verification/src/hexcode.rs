//! Hexadecimal text: the external form of keys and signatures.
//!
//! Two characters stand for one byte, high nibble first. Encoding writes
//! lowercase digits; decoding accepts both cases.

use vstd::prelude::*;

verus! {

/// The lowercase digit that stands for `nibble`, meaningful for `0 <= nibble < 16`.
pub open spec fn hex_digit(nibble: int) -> char {
    if nibble < 10 {
        ('0' as int + nibble) as char
    } else {
        ('a' as int + nibble - 10) as char
    }
}

/// Whether `c` is one of `0-9`, `a-f`, `A-F`.
pub open spec fn is_hex_digit(c: char) -> bool {
    ('0' <= c <= '9') || ('a' <= c <= 'f') || ('A' <= c <= 'F')
}

/// The number that the hexadecimal digit `c` stands for, in either case.
pub open spec fn hex_value(c: char) -> int
    recommends
        is_hex_digit(c),
{
    if '0' <= c <= '9' {
        c as int - '0' as int
    } else if 'a' <= c <= 'f' {
        c as int - 'a' as int + 10
    } else {
        c as int - 'A' as int + 10
    }
}

/// The hexadecimal text of `bytes`: twice as long, lowercase.
pub open spec fn hex_encoding(bytes: Seq<u8>) -> Seq<char> {
    Seq::new(
        2 * bytes.len(),
        |i: int|
            if i % 2 == 0 {
                hex_digit(bytes[i / 2] as int / 16)
            } else {
                hex_digit(bytes[i / 2] as int % 16)
            },
    )
}

/// Whether `text` is the hexadecimal form of some byte sequence: an even
/// number of characters, every one a hexadecimal digit.
pub open spec fn is_hex_text(text: Seq<char>) -> bool {
    &&& text.len() % 2 == 0
    &&& forall|i: int| 0 <= i < text.len() ==> is_hex_digit(#[trigger] text[i])
}

/// The bytes that hexadecimal `text` stands for.
pub open spec fn hex_decoding(text: Seq<char>) -> Seq<u8>
    recommends
        is_hex_text(text),
{
    Seq::new(
        text.len() / 2,
        |i: int| (16 * hex_value(text[2 * i]) + hex_value(text[2 * i + 1])) as u8,
    )
}

/// Encoding produces hexadecimal text, and decoding that text gives the
/// bytes back.
pub proof fn lemma_hex_round_trip(bytes: Seq<u8>)
    ensures
        is_hex_text(hex_encoding(bytes)),
        hex_encoding(bytes).len() == 2 * bytes.len(),
        hex_decoding(hex_encoding(bytes)) == bytes,
{
    let text = hex_encoding(bytes);
    assert forall|n: int| 0 <= n < 16 implies is_hex_digit(#[trigger] hex_digit(n)) && hex_value(
        hex_digit(n),
    ) == n by {}
    assert forall|i: int| 0 <= i < text.len() implies is_hex_digit(#[trigger] text[i]) by {
        let b = bytes[i / 2] as int;
        assert(0 <= b / 16 < 16 && 0 <= b % 16 < 16);
    }
    assert forall|i: int| 0 <= i < bytes.len() implies #[trigger] hex_decoding(text)[i]
        == bytes[i] by {
        let b = bytes[i] as int;
        assert(0 <= b / 16 < 16 && 0 <= b % 16 < 16);
        assert((2 * i) / 2 == i && (2 * i + 1) / 2 == i);
        assert((2 * i) % 2 == 0 && (2 * i + 1) % 2 == 1);
        assert(text[2 * i] == hex_digit(b / 16));
        assert(text[2 * i + 1] == hex_digit(b % 16));
        assert(16 * (b / 16) + b % 16 == b);
    }
    assert(hex_decoding(text) =~= bytes);
}

/// `hex::FromHexError`, the reason `hex::decode` gives for a failure. It is
/// carried through unread; only its text is used.
#[verifier::external_type_specification]
#[verifier::external_body]
pub struct ExFromHexError(hex::FromHexError);

/// `hex::encode`: every byte becomes two lowercase hexadecimal digits, the
/// high nibble first. The text takes two bytes of memory per input byte, so
/// the input is limited to half of the largest allocation.
#[verifier::external_body]
pub(crate) fn encode_hex(data: &[u8]) -> (text: String)
    requires
        2 * data@.len() <= isize::MAX,
    ensures
        text@ == hex_encoding(data@),
{
    hex::encode(data)
}

/// `hex::decode`: succeeds exactly on an even number of hexadecimal digits
/// of either case, and then yields one byte per pair. The crate reads the
/// text byte by byte; a character outside ASCII holds bytes that are no
/// digits, so it fails there too.
#[verifier::external_body]
pub(crate) fn decode_hex(text: &str) -> (decoded: Result<Vec<u8>, hex::FromHexError>)
    ensures
        decoded is Ok <==> is_hex_text(text@),
        decoded matches Ok(bytes) ==> bytes@ == hex_decoding(text@),
{
    hex::decode(text)
}

} // verus!
