//! Byte-level cryptography and compression primitives with machine-checked
//! contracts: hashing, signatures, authenticated encryption, secure
//! randomness and lossless compression.
//!
//! Every operation is one stateless call on complete in-memory buffers.
//! The ciphers, the hash and the compressor themselves come from
//! established crates; this library validates what goes in, maps what comes
//! out, and states exactly which result each input gives.

pub mod compression;
pub mod crypto;
pub mod hexcode;

pub use compression::{compress_data, decompress_data, CompressionError};
pub use crypto::{
    decrypt_aes_gcm, encrypt_aes_gcm, generate_ed25519_keypair, generate_random_bytes,
    keypair_from_seed, sha256_hash, sign_with_ed25519, verify_ed25519_signature, CryptoError,
    CryptoErrorKind, KeyPair,
};
