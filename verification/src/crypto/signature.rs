//! The signature engine: Ed25519 key pairs, signing and verification.
//!
//! Keys and signatures cross the boundary as hexadecimal text. Malformed
//! input is an error; a signature that does not match is the ordinary
//! answer `false`.

use ed25519_dalek::{Signature, SignatureError, Signer, SigningKey, Verifier, VerifyingKey};
use vstd::prelude::*;

use crate::crypto::error::{outcome_of, CryptoError, CryptoErrorKind};
use crate::crypto::random::generate_random_bytes;
use crate::crypto::validate::{
    decode_detail_fits, decode_exact, decode_hex_as, reports_bad_hex, require_len, to_array,
};
use crate::hexcode::{encode_hex, hex_decoding, hex_encoding, is_hex_text, lemma_hex_round_trip};

verus! {

/// The length in bytes of a private key (the seed) and of a public key.
pub const KEY_LEN: usize = 32;

/// The length in bytes of a signature.
pub const SIGNATURE_LEN: usize = 64;

/// The public key that Ed25519 derives from the 32-byte private `seed`.
pub uninterp spec fn ed25519_public_key(seed: Seq<u8>) -> Seq<u8>;

/// The signature that Ed25519 makes of `message` with the private `seed`.
pub uninterp spec fn ed25519_signature(seed: Seq<u8>, message: Seq<u8>) -> Seq<u8>;

/// Whether the 32 bytes of `public_key` decode to a point of the curve.
pub uninterp spec fn ed25519_key_decodes(public_key: Seq<u8>) -> bool;

/// Whether Ed25519 verification under `public_key` accepts `signature` for
/// `message`.
pub uninterp spec fn ed25519_accepts(
    public_key: Seq<u8>,
    signature: Seq<u8>,
    message: Seq<u8>,
) -> bool;

/// A public key as derivation delivers it: 32 bytes that decode.
pub open spec fn is_usable_public_key(public_key: Seq<u8>) -> bool {
    public_key.len() == KEY_LEN && ed25519_key_decodes(public_key)
}

/// That `signature` has 64 bytes and is accepted for `message` under the
/// public key of `seed`, which is itself usable.
pub open spec fn verifies_under_own_key(
    seed: Seq<u8>,
    message: Seq<u8>,
    signature: Seq<u8>,
) -> bool {
    &&& signature.len() == SIGNATURE_LEN
    &&& is_usable_public_key(ed25519_public_key(seed))
    &&& ed25519_accepts(ed25519_public_key(seed), signature, message)
}

/// `ed25519_dalek::SignatureError`, the failure of a key or signature
/// operation. It is carried through unread; only its text is used.
#[verifier::external_type_specification]
#[verifier::external_body]
pub struct ExSignatureError(SignatureError);

/// `SigningKey::from_bytes` and `SigningKey::verifying_key` of
/// `ed25519-dalek`: the public half of a key is a function of the seed
/// alone, and always bytes that `VerifyingKey::from_bytes` takes back.
#[verifier::external_body]
fn derive_public_key(seed: &[u8; 32]) -> (public_key: [u8; 32])
    ensures
        public_key@ == ed25519_public_key(seed@),
        ed25519_key_decodes(public_key@),
{
    SigningKey::from_bytes(seed).verifying_key().to_bytes()
}

/// `Signer::sign` on a `SigningKey` of `ed25519-dalek`: signing is
/// deterministic and cannot fail, so the signature is a function of seed
/// and message. The crate documents that such a signature is valid under
/// the key's own public half: that is the last clause.
#[verifier::external_body]
fn sign_with_seed(seed: &[u8; 32], message: &[u8]) -> (signature: [u8; 64])
    ensures
        signature@ == ed25519_signature(seed@, message@),
        verifies_under_own_key(seed@, message@, signature@),
{
    SigningKey::from_bytes(seed).sign(message).to_bytes()
}

/// `VerifyingKey::from_bytes` of `ed25519-dalek`: fails exactly when the
/// bytes do not decode to a point of the curve. The key itself is dropped;
/// only the verdict on the bytes comes back.
#[verifier::external_body]
fn check_public_key(public_key: &[u8; 32]) -> (checked: Result<(), SignatureError>)
    ensures
        checked is Ok <==> ed25519_key_decodes(public_key@),
{
    VerifyingKey::from_bytes(public_key)?;
    Ok(())
}

/// `Verifier::verify` on a `VerifyingKey` of `ed25519-dalek`: `Ok` if the
/// signature is valid for the message under the key, an error otherwise, a
/// signature with a malformed scalar included. The key is asked to be one
/// that decodes, so rebuilding it from its bytes does not fail.
#[verifier::external_body]
fn verify_with_key(public_key: &[u8; 32], signature: &[u8; 64], message: &[u8]) -> (verified:
    Result<(), SignatureError>)
    requires
        ed25519_key_decodes(public_key@),
    ensures
        verified is Ok <==> ed25519_accepts(public_key@, signature@, message@),
{
    VerifyingKey::from_bytes(public_key)?.verify(message, &Signature::from_bytes(signature))
}

/// The hexadecimal public key that belongs to a hexadecimal private key.
pub open spec fn public_key_hex_of(private_key_hex: Seq<char>) -> Seq<char> {
    hex_encoding(ed25519_public_key(hex_decoding(private_key_hex)))
}

/// An Ed25519 key pair in its external form: each half is 32 bytes written
/// as 64 hexadecimal characters.
pub struct KeyPair {
    pub public_key: String,
    pub private_key: String,
}

impl KeyPair {
    /// Both halves are 64 lowercase hexadecimal characters, and the public
    /// half is the one that Ed25519 derives from the private half.
    pub open spec fn is_valid(&self) -> bool {
        &&& is_hex_text(self.private_key@)
        &&& self.private_key@.len() == 2 * KEY_LEN
        &&& self.private_key@ == hex_encoding(hex_decoding(self.private_key@))
        &&& self.public_key@ == public_key_hex_of(self.private_key@)
        &&& self.public_key@.len() == 2 * KEY_LEN
        &&& is_usable_public_key(hex_decoding(self.public_key@))
    }
}

/// The key pair of a 32-byte seed: the seed itself is the private key, and
/// the public key is derived from it. A seed of another length is refused
/// with `InvalidKey`.
pub fn keypair_from_seed(seed: &[u8]) -> (made: Result<KeyPair, CryptoError>)
    ensures
        made is Ok <==> seed@.len() == KEY_LEN,
        made matches Ok(pair) ==> pair.is_valid(),
        made matches Ok(pair) ==> pair.private_key@ == hex_encoding(seed@),
        made matches Ok(pair) ==> pair.public_key@ == hex_encoding(ed25519_public_key(seed@)),
        made matches Err(error) ==> error.kind() == CryptoErrorKind::InvalidKey && error.detail()
            == "Private key must be 32 bytes"@,
{
    require_len(seed.len(), KEY_LEN, CryptoErrorKind::InvalidKey, "Private key must be 32 bytes")?;
    let secret: [u8; 32] = to_array(seed);
    let public = derive_public_key(&secret);
    proof {
        lemma_hex_round_trip(seed@);
        lemma_hex_round_trip(public@);
    }
    let private_key = encode_hex(seed);
    let public_key = encode_hex(public.as_slice());
    Ok(KeyPair { public_key, private_key })
}

/// A fresh key pair: 32 bytes from the secure random source become the
/// private key, from which the public key is derived. Fails with
/// `RandomFailed` only when the random source fails.
pub fn generate_ed25519_keypair() -> (made: Result<KeyPair, CryptoError>)
    ensures
        made matches Ok(pair) ==> pair.is_valid(),
        made matches Err(error) ==> error.kind() == CryptoErrorKind::RandomFailed,
{
    let seed = generate_random_bytes(KEY_LEN)?;
    keypair_from_seed(seed.as_slice())
}

/// What signing `message` with a hexadecimal private key gives: the
/// hexadecimal signature, or `InvalidKey` where the key is not 64
/// hexadecimal characters.
pub open spec fn sign_outcome(private_key_hex: Seq<char>, message: Seq<u8>) -> Result<
    Seq<char>,
    CryptoErrorKind,
> {
    if is_hex_text(private_key_hex) && private_key_hex.len() == 2 * KEY_LEN {
        Ok(hex_encoding(ed25519_signature(hex_decoding(private_key_hex), message)))
    } else {
        Err(CryptoErrorKind::InvalidKey)
    }
}

/// What verifying gives. The checks come in this order: the key is
/// hexadecimal, the signature is hexadecimal, the key has 32 bytes, the
/// signature has 64 bytes, the key decodes to a point. Past them, the answer
/// is whether Ed25519 accepts the signature.
pub open spec fn verify_outcome(
    public_key_hex: Seq<char>,
    signature_hex: Seq<char>,
    message: Seq<u8>,
) -> Result<bool, CryptoErrorKind> {
    if !is_hex_text(public_key_hex) {
        Err(CryptoErrorKind::InvalidKey)
    } else if !is_hex_text(signature_hex) {
        Err(CryptoErrorKind::InvalidSignature)
    } else if public_key_hex.len() != 2 * KEY_LEN {
        Err(CryptoErrorKind::InvalidKey)
    } else if signature_hex.len() != 2 * SIGNATURE_LEN {
        Err(CryptoErrorKind::InvalidSignature)
    } else if !ed25519_key_decodes(hex_decoding(public_key_hex)) {
        Err(CryptoErrorKind::InvalidKey)
    } else {
        Ok(ed25519_accepts(hex_decoding(public_key_hex), hex_decoding(signature_hex), message))
    }
}

/// That verification answers, and answers `true`.
pub open spec fn is_verified(
    public_key_hex: Seq<char>,
    signature_hex: Seq<char>,
    message: Seq<u8>,
) -> bool {
    verify_outcome(public_key_hex, signature_hex, message) == Ok::<bool, CryptoErrorKind>(true)
}

/// Whether `detail` is the text that a failed verification owes for these
/// inputs.
pub open spec fn verify_detail_fits(
    public_key_hex: Seq<char>,
    signature_hex: Seq<char>,
    detail: Seq<char>,
) -> bool {
    if !is_hex_text(public_key_hex) || !is_hex_text(signature_hex) {
        reports_bad_hex(detail)
    } else if public_key_hex.len() != 2 * KEY_LEN {
        detail == "Public key must be 32 bytes"@
    } else if signature_hex.len() != 2 * SIGNATURE_LEN {
        detail == "Signature must be 64 bytes"@
    } else {
        "Invalid public key: "@.is_prefix_of(detail)
    }
}

/// Signs `data` with a private key given as 64 hexadecimal characters.
///
/// The signature comes back as 128 lowercase hexadecimal characters and is
/// the same for the same key and data. It verifies under the public key that
/// belongs to the private key. A key that is not hexadecimal, or not 32
/// bytes, is refused with `InvalidKey` before anything is computed.
pub fn sign_with_ed25519(private_key_hex: &str, data: &[u8]) -> (signed: Result<
    String,
    CryptoError,
>)
    ensures
        outcome_of(signed) == sign_outcome(private_key_hex@, data@),
        signed matches Ok(signature_hex) ==> signature_hex@.len() == 2 * SIGNATURE_LEN,
        signed matches Ok(signature_hex) ==> is_verified(
            public_key_hex_of(private_key_hex@),
            signature_hex@,
            data@,
        ),
        signed matches Err(error) ==> decode_detail_fits(
            private_key_hex@,
            "Private key must be 32 bytes"@,
            error.detail(),
        ),
{
    let seed = decode_exact(
        private_key_hex,
        KEY_LEN,
        CryptoErrorKind::InvalidKey,
        "Private key must be 32 bytes",
    )?;
    let secret: [u8; 32] = to_array(seed.as_slice());
    let signature = sign_with_seed(&secret, data);
    proof {
        lemma_hex_round_trip(signature@);
        lemma_hex_round_trip(ed25519_public_key(seed@));
    }
    Ok(encode_hex(signature.as_slice()))
}

/// Verifies a hexadecimal signature of `data` under a hexadecimal public
/// key.
///
/// `Ok(true)` and `Ok(false)` are the two ordinary answers. An error is
/// owed only for input that is malformed: `InvalidKey` for a public key that
/// is not hexadecimal, not 32 bytes or not a point of the curve,
/// `InvalidSignature` for a signature that is not hexadecimal or not 64
/// bytes. Any 64 bytes are taken as a signature: whether they encode a
/// valid one is for verification to say, and its answer is then `false`.
pub fn verify_ed25519_signature(
    public_key_hex: &str,
    signature_hex: &str,
    data: &[u8],
) -> (verdict: Result<bool, CryptoError>)
    ensures
        outcome_of(verdict) == verify_outcome(public_key_hex@, signature_hex@, data@),
        verdict matches Err(error) ==> verify_detail_fits(
            public_key_hex@,
            signature_hex@,
            error.detail(),
        ),
{
    let public_key = decode_hex_as(public_key_hex, CryptoErrorKind::InvalidKey)?;
    let signature = decode_hex_as(signature_hex, CryptoErrorKind::InvalidSignature)?;
    require_len(
        public_key.len(),
        KEY_LEN,
        CryptoErrorKind::InvalidKey,
        "Public key must be 32 bytes",
    )?;
    require_len(
        signature.len(),
        SIGNATURE_LEN,
        CryptoErrorKind::InvalidSignature,
        "Signature must be 64 bytes",
    )?;
    let encoded_key: [u8; 32] = to_array(public_key.as_slice());
    let raw_signature: [u8; 64] = to_array(signature.as_slice());
    if let Err(cause) = check_public_key(&encoded_key) {
        let cause_text = cause.to_string();
        return Err(
            CryptoError::with_cause(
                CryptoErrorKind::InvalidKey,
                "Invalid public key: ",
                cause_text.as_str(),
            ),
        );
    }
    match verify_with_key(&encoded_key, &raw_signature, data) {
        Ok(()) => Ok(true),
        Err(_) => Ok(false),
    }
}

/// Whether verification answers or fails depends on the key and on the
/// shape of the signature alone: where it has answered once, it answers for
/// every message and for every other 64-byte signature under the same key,
/// and never with an error.
pub proof fn lemma_tampering_is_answered(
    public_key_hex: Seq<char>,
    signature_hex: Seq<char>,
    message: Seq<u8>,
    other_signature: Seq<u8>,
    other_message: Seq<u8>,
)
    requires
        verify_outcome(public_key_hex, signature_hex, message) is Ok,
        other_signature.len() == SIGNATURE_LEN,
    ensures
        verify_outcome(public_key_hex, signature_hex, other_message) is Ok,
        verify_outcome(public_key_hex, hex_encoding(other_signature), other_message) is Ok,
{
    lemma_hex_round_trip(other_signature);
}

} // verus!
