//! The authenticated-encryption engine: AES-256-GCM with a 12-byte nonce,
//! a 16-byte tag and no associated data.
//!
//! A ciphertext is the masked plaintext followed by its tag. Decryption
//! recomputes the tag and gives the plaintext only if the two agree, so it
//! either returns exactly what was encrypted or fails.
//!
//! The nonce must be used once per key; that is the caller's duty and is
//! not checked beyond its length.

use aes_gcm::aead::Aead;
use aes_gcm::{Aes256Gcm, KeyInit};
use vstd::prelude::*;

use crate::crypto::error::{outcome_of, CryptoError, CryptoErrorKind};
use crate::crypto::validate::{require_len, to_array};

verus! {

/// The length in bytes of an AES-256 key.
pub const AES_KEY_LEN: usize = 32;

/// The length in bytes of a nonce.
pub const NONCE_LEN: usize = 12;

/// The length in bytes of the authentication tag.
pub const TAG_LEN: usize = 16;

/// The longest plaintext that the cipher encrypts: 2^36 bytes.
pub const MAX_PLAINTEXT_LEN: u64 = 68_719_476_736;

/// The longest ciphertext body that the cipher looks at: 2^36 + 16 bytes.
pub const MAX_BODY_LEN: u64 = 68_719_476_752;

/// The byte of the AES-256 counter-mode keystream at `position`, for this
/// key and nonce.
pub uninterp spec fn aes256_gcm_keystream_byte(key: Seq<u8>, nonce: Seq<u8>, position: int) -> u8;

/// The byte at `position` of the tag that AES-256-GCM computes over a
/// ciphertext `body`, with no associated data.
pub uninterp spec fn aes256_gcm_tag_byte(
    key: Seq<u8>,
    nonce: Seq<u8>,
    body: Seq<u8>,
    position: int,
) -> u8;

/// `data` with the keystream laid over it, byte by byte. The same operation
/// masks a plaintext and unmasks a ciphertext body.
pub open spec fn gcm_mask(key: Seq<u8>, nonce: Seq<u8>, data: Seq<u8>) -> Seq<u8> {
    Seq::new(data.len(), |i: int| data[i] ^ aes256_gcm_keystream_byte(key, nonce, i))
}

/// The 16-byte tag of a ciphertext body.
pub open spec fn gcm_tag(key: Seq<u8>, nonce: Seq<u8>, body: Seq<u8>) -> Seq<u8> {
    Seq::new(TAG_LEN as nat, |i: int| aes256_gcm_tag_byte(key, nonce, body, i))
}

/// The ciphertext of `plaintext`: the masked plaintext, then its tag.
pub open spec fn gcm_seal(key: Seq<u8>, nonce: Seq<u8>, plaintext: Seq<u8>) -> Seq<u8> {
    let body = gcm_mask(key, nonce, plaintext);
    body + gcm_tag(key, nonce, body)
}

/// The part of a ciphertext before its tag.
pub open spec fn body_of(ciphertext: Seq<u8>) -> Seq<u8>
    recommends
        ciphertext.len() >= TAG_LEN,
{
    ciphertext.subrange(0, ciphertext.len() - TAG_LEN)
}

/// The last 16 bytes of a ciphertext.
pub open spec fn tag_of(ciphertext: Seq<u8>) -> Seq<u8>
    recommends
        ciphertext.len() >= TAG_LEN,
{
    ciphertext.subrange(ciphertext.len() - TAG_LEN, ciphertext.len() as int)
}

/// The plaintext of `ciphertext`, or `None` where it does not authenticate:
/// it is shorter than a tag, its body is longer than the cipher allows, or
/// its last 16 bytes are not the tag of its body.
pub open spec fn gcm_open(key: Seq<u8>, nonce: Seq<u8>, ciphertext: Seq<u8>) -> Option<Seq<u8>> {
    if ciphertext.len() >= TAG_LEN && body_of(ciphertext).len() <= MAX_BODY_LEN && tag_of(
        ciphertext,
    ) == gcm_tag(key, nonce, body_of(ciphertext)) {
        Some(gcm_mask(key, nonce, body_of(ciphertext)))
    } else {
        None
    }
}

/// Whether a plaintext of `len` bytes can be encrypted: the cipher takes at
/// most 2^36 bytes, and plaintext and tag together must fit in one
/// allocation.
pub open spec fn plaintext_fits(len: nat) -> bool {
    len <= MAX_PLAINTEXT_LEN && len + TAG_LEN <= isize::MAX
}

/// `aes_gcm::Error`, the cipher's one failure, which on purpose says
/// nothing of its cause. It is carried through unread; only its text is
/// used.
#[verifier::external_type_specification]
#[verifier::external_body]
pub struct ExAeadError(aes_gcm::Error);

/// `Aead::encrypt` on `Aes256Gcm` of `aes-gcm`, with no associated data.
/// It refuses exactly the plaintexts of more than 2^36 bytes. Otherwise it
/// lays the counter-mode keystream of key and nonce over the plaintext,
/// byte by byte, computes the tag of the result and appends it. It
/// allocates plaintext and tag in one buffer, which bounds the length it
/// can be called with.
#[verifier::external_body]
fn seal_with_aes256_gcm(key: &[u8; 32], nonce: &[u8; 12], plaintext: &[u8]) -> (sealed: Result<
    Vec<u8>,
    aes_gcm::Error,
>)
    requires
        plaintext@.len() + TAG_LEN <= isize::MAX,
    ensures
        sealed is Ok <==> plaintext@.len() <= MAX_PLAINTEXT_LEN,
        sealed matches Ok(ciphertext) ==> ciphertext@.len() == plaintext@.len() + TAG_LEN,
        sealed matches Ok(ciphertext) ==> forall|i: int|
            0 <= i < plaintext@.len() ==> #[trigger] ciphertext@[i] == plaintext@[i]
                ^ aes256_gcm_keystream_byte(key@, nonce@, i),
        sealed matches Ok(ciphertext) ==> forall|i: int|
            0 <= i < TAG_LEN ==> ciphertext@[plaintext@.len() + i]
                == #[trigger] aes256_gcm_tag_byte(key@, nonce@, body_of(ciphertext@), i),
{
    Aes256Gcm::new(key.into()).encrypt(nonce.into(), plaintext)
}

/// `Aead::decrypt` on `Aes256Gcm` of `aes-gcm`, with no associated data.
/// It splits off the last 16 bytes, computes the tag of what stands before
/// them, and compares. Only where they are equal does it lay the keystream
/// over the body and return it; an input shorter than a tag, or a body of
/// more than 2^36 + 16 bytes, is an error as well.
#[verifier::external_body]
fn open_with_aes256_gcm(key: &[u8; 32], nonce: &[u8; 12], ciphertext: &[u8]) -> (opened: Result<
    Vec<u8>,
    aes_gcm::Error,
>)
    ensures
        opened matches Ok(plaintext) ==> gcm_open(key@, nonce@, ciphertext@) == Some(plaintext@),
        opened is Err ==> gcm_open(key@, nonce@, ciphertext@) is None,
{
    Aes256Gcm::new(key.into()).decrypt(nonce.into(), ciphertext)
}

/// What encryption gives: `InvalidKey` for a key that is not 32 bytes or a
/// nonce that is not 12 bytes, `EncryptionFailed` for a plaintext that is
/// too long, and otherwise the ciphertext.
pub open spec fn encrypt_outcome(key: Seq<u8>, nonce: Seq<u8>, plaintext: Seq<u8>) -> Result<
    Seq<u8>,
    CryptoErrorKind,
> {
    if key.len() != AES_KEY_LEN || nonce.len() != NONCE_LEN {
        Err(CryptoErrorKind::InvalidKey)
    } else if !plaintext_fits(plaintext.len()) {
        Err(CryptoErrorKind::EncryptionFailed)
    } else {
        Ok(gcm_seal(key, nonce, plaintext))
    }
}

/// What decryption gives: `InvalidKey` for a key that is not 32 bytes or a
/// nonce that is not 12 bytes, `DecryptionFailed` for a ciphertext that
/// does not authenticate, and otherwise the plaintext.
pub open spec fn decrypt_outcome(key: Seq<u8>, nonce: Seq<u8>, ciphertext: Seq<u8>) -> Result<
    Seq<u8>,
    CryptoErrorKind,
> {
    if key.len() != AES_KEY_LEN || nonce.len() != NONCE_LEN {
        Err(CryptoErrorKind::InvalidKey)
    } else {
        match gcm_open(key, nonce, ciphertext) {
            Some(plaintext) => Ok(plaintext),
            None => Err(CryptoErrorKind::DecryptionFailed),
        }
    }
}

/// That encrypting `plaintext` succeeds and gives `ciphertext`.
pub open spec fn encrypts_to(
    key: Seq<u8>,
    nonce: Seq<u8>,
    plaintext: Seq<u8>,
    ciphertext: Seq<u8>,
) -> bool {
    encrypt_outcome(key, nonce, plaintext) == Ok::<Seq<u8>, CryptoErrorKind>(ciphertext)
}

/// That decrypting `ciphertext` succeeds and gives `plaintext`.
pub open spec fn decrypts_to(
    key: Seq<u8>,
    nonce: Seq<u8>,
    ciphertext: Seq<u8>,
    plaintext: Seq<u8>,
) -> bool {
    decrypt_outcome(key, nonce, ciphertext) == Ok::<Seq<u8>, CryptoErrorKind>(plaintext)
}

/// That decrypting `ciphertext` fails with `DecryptionFailed`.
pub open spec fn is_rejected(key: Seq<u8>, nonce: Seq<u8>, ciphertext: Seq<u8>) -> bool {
    decrypt_outcome(key, nonce, ciphertext) == Err::<Seq<u8>, CryptoErrorKind>(
        CryptoErrorKind::DecryptionFailed,
    )
}

/// What is said of a key or nonce of the wrong length; the key comes first.
pub open spec fn length_complaint(key: Seq<u8>, nonce: Seq<u8>) -> Seq<char> {
    if key.len() != AES_KEY_LEN {
        "AES-256 key must be 32 bytes"@
    } else {
        "AES-GCM nonce must be 12 bytes"@
    }
}

/// Whether `detail` is the text that a failure owes for this key and nonce;
/// `failure` introduces the text where both have the right length.
pub open spec fn detail_fits(
    key: Seq<u8>,
    nonce: Seq<u8>,
    failure: Seq<char>,
    detail: Seq<char>,
) -> bool {
    if key.len() != AES_KEY_LEN || nonce.len() != NONCE_LEN {
        detail == length_complaint(key, nonce)
    } else {
        failure.is_prefix_of(detail)
    }
}

/// Checks the lengths of key and nonce, the key first.
fn check_key_and_nonce(key: &[u8], nonce: &[u8]) -> (checked: Result<(), CryptoError>)
    ensures
        checked is Ok <==> key@.len() == AES_KEY_LEN && nonce@.len() == NONCE_LEN,
        checked matches Err(error) ==> error.kind() == CryptoErrorKind::InvalidKey,
        checked matches Err(error) ==> error.detail() == length_complaint(key@, nonce@),
{
    require_len(
        key.len(),
        AES_KEY_LEN,
        CryptoErrorKind::InvalidKey,
        "AES-256 key must be 32 bytes",
    )?;
    require_len(
        nonce.len(),
        NONCE_LEN,
        CryptoErrorKind::InvalidKey,
        "AES-GCM nonce must be 12 bytes",
    )
}

/// Whether plaintext and tag together fit in one allocation.
fn fits_with_tag(len: usize) -> (fits: bool)
    ensures
        fits <==> len + TAG_LEN <= isize::MAX,
{
    len <= isize::MAX as usize - TAG_LEN
}

/// Encrypts `data` under a 32-byte key and a 12-byte nonce.
///
/// The ciphertext is exactly 16 bytes longer than the plaintext: the masked
/// plaintext, then the tag. Decrypting it with the same key and nonce gives
/// `data` back. A key or nonce of the wrong length is refused with
/// `InvalidKey` before anything is encrypted; a plaintext beyond the
/// cipher's limit fails with `EncryptionFailed`.
pub fn encrypt_aes_gcm(key: &[u8], nonce: &[u8], data: &[u8]) -> (encrypted: Result<
    Vec<u8>,
    CryptoError,
>)
    ensures
        outcome_of(encrypted) == encrypt_outcome(key@, nonce@, data@),
        encrypted matches Ok(ciphertext) ==> ciphertext@.len() == data@.len() + TAG_LEN,
        encrypted matches Ok(ciphertext) ==> decrypts_to(key@, nonce@, ciphertext@, data@),
        encrypted matches Err(error) ==> detail_fits(
            key@,
            nonce@,
            "Encryption failed: "@,
            error.detail(),
        ),
{
    check_key_and_nonce(key, nonce)?;
    if !fits_with_tag(data.len()) {
        return Err(
            CryptoError::with_cause(
                CryptoErrorKind::EncryptionFailed,
                "Encryption failed: ",
                "plaintext too long",
            ),
        );
    }
    let key_bytes: [u8; 32] = to_array(key);
    let nonce_bytes: [u8; 12] = to_array(nonce);
    match seal_with_aes256_gcm(&key_bytes, &nonce_bytes, data) {
        Ok(ciphertext) => {
            proof {
                let body = gcm_mask(key@, nonce@, data@);
                assert(body_of(ciphertext@) =~= body);
                assert(ciphertext@ =~= gcm_seal(key@, nonce@, data@));
                lemma_decrypt_inverts_encrypt(key@, nonce@, data@);
            }
            Ok(ciphertext)
        },
        Err(cause) => {
            let cause_text = cause.to_string();
            Err(
                CryptoError::with_cause(
                    CryptoErrorKind::EncryptionFailed,
                    "Encryption failed: ",
                    cause_text.as_str(),
                ),
            )
        },
    }
}

/// Decrypts a ciphertext under a 32-byte key and a 12-byte nonce.
///
/// The result is the plaintext, 16 bytes shorter than the ciphertext, or a
/// failure: never altered data. A key or nonce of the wrong length is
/// refused with `InvalidKey`; a ciphertext that does not authenticate under
/// them (tampered, truncated, or made with another key or nonce) fails with
/// `DecryptionFailed`.
pub fn decrypt_aes_gcm(key: &[u8], nonce: &[u8], encrypted_data: &[u8]) -> (decrypted: Result<
    Vec<u8>,
    CryptoError,
>)
    ensures
        outcome_of(decrypted) == decrypt_outcome(key@, nonce@, encrypted_data@),
        decrypted matches Ok(plaintext) ==> plaintext@.len() + TAG_LEN == encrypted_data@.len(),
        decrypted matches Err(error) ==> detail_fits(
            key@,
            nonce@,
            "Decryption failed: "@,
            error.detail(),
        ),
{
    check_key_and_nonce(key, nonce)?;
    let key_bytes: [u8; 32] = to_array(key);
    let nonce_bytes: [u8; 12] = to_array(nonce);
    match open_with_aes256_gcm(&key_bytes, &nonce_bytes, encrypted_data) {
        Ok(plaintext) => Ok(plaintext),
        Err(cause) => {
            let cause_text = cause.to_string();
            Err(
                CryptoError::with_cause(
                    CryptoErrorKind::DecryptionFailed,
                    "Decryption failed: ",
                    cause_text.as_str(),
                ),
            )
        },
    }
}

/// Masking twice with the same key and nonce gives the data back.
pub proof fn lemma_mask_is_involution(key: Seq<u8>, nonce: Seq<u8>, data: Seq<u8>)
    ensures
        gcm_mask(key, nonce, gcm_mask(key, nonce, data)) == data,
{
    let once = gcm_mask(key, nonce, data);
    let twice = gcm_mask(key, nonce, once);
    assert forall|i: int| 0 <= i < data.len() implies #[trigger] twice[i] == data[i] by {
        let d = data[i];
        let k = aes256_gcm_keystream_byte(key, nonce, i);
        assert((d ^ k) ^ k == d) by (bit_vector);
    }
    assert(twice =~= data);
}

/// A ciphertext is its plaintext's length plus the tag, and splits into the
/// masked plaintext and the tag of that.
pub proof fn lemma_seal_shape(key: Seq<u8>, nonce: Seq<u8>, plaintext: Seq<u8>)
    ensures
        gcm_seal(key, nonce, plaintext).len() == plaintext.len() + TAG_LEN,
        body_of(gcm_seal(key, nonce, plaintext)) == gcm_mask(key, nonce, plaintext),
        tag_of(gcm_seal(key, nonce, plaintext)) == gcm_tag(
            key,
            nonce,
            gcm_mask(key, nonce, plaintext),
        ),
{
    let sealed = gcm_seal(key, nonce, plaintext);
    assert(body_of(sealed) =~= gcm_mask(key, nonce, plaintext));
    assert(tag_of(sealed) =~= gcm_tag(key, nonce, gcm_mask(key, nonce, plaintext)));
}

/// Decryption inverts encryption: for every key of 32 bytes, nonce of 12
/// bytes and plaintext that the cipher takes, decrypting what encryption
/// gives, with the same key and nonce, gives the plaintext back.
pub proof fn lemma_decrypt_inverts_encrypt(key: Seq<u8>, nonce: Seq<u8>, plaintext: Seq<u8>)
    requires
        key.len() == AES_KEY_LEN,
        nonce.len() == NONCE_LEN,
        plaintext_fits(plaintext.len()),
    ensures
        encrypts_to(key, nonce, plaintext, gcm_seal(key, nonce, plaintext)),
        decrypts_to(key, nonce, gcm_seal(key, nonce, plaintext), plaintext),
{
    lemma_seal_shape(key, nonce, plaintext);
    lemma_mask_is_involution(key, nonce, plaintext);
}

/// A ciphertext with an altered tag is rejected: where `ciphertext`
/// decrypts, every other input with the same body and other last 16 bytes
/// fails with `DecryptionFailed`.
pub proof fn lemma_altered_tag_is_rejected(
    key: Seq<u8>,
    nonce: Seq<u8>,
    ciphertext: Seq<u8>,
    altered: Seq<u8>,
)
    requires
        decrypt_outcome(key, nonce, ciphertext) is Ok,
        altered.len() == ciphertext.len(),
        body_of(altered) == body_of(ciphertext),
        tag_of(altered) != tag_of(ciphertext),
    ensures
        is_rejected(key, nonce, altered),
{
}

/// An input shorter than a tag never decrypts.
pub proof fn lemma_shorter_than_tag_is_rejected(
    key: Seq<u8>,
    nonce: Seq<u8>,
    ciphertext: Seq<u8>,
)
    requires
        key.len() == AES_KEY_LEN,
        nonce.len() == NONCE_LEN,
        ciphertext.len() < TAG_LEN,
    ensures
        is_rejected(key, nonce, ciphertext),
{
}

} // verus!
