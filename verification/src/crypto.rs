//! The cryptographic engines: digest, signatures, authenticated encryption
//! and the secure random source, with their shared error type.

pub mod aead;
pub mod error;
pub mod hash;
pub mod random;
pub mod signature;
pub mod validate;

pub use self::aead::{decrypt_aes_gcm, encrypt_aes_gcm};
pub use self::error::{CryptoError, CryptoErrorKind};
pub use self::hash::sha256_hash;
pub use self::random::{drawn_bytes, generate_random_bytes};
pub use self::signature::{
    generate_ed25519_keypair, keypair_from_seed, sign_with_ed25519, verify_ed25519_signature,
    KeyPair,
};
