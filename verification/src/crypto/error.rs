//! The failures of the cryptographic engines.

use vstd::prelude::*;
use vstd::string::*;

verus! {

/// What went wrong, without the describing text.
#[derive(Clone, Copy, Debug, PartialEq, Eq, Structural)]
pub enum CryptoErrorKind {
    /// A key or a nonce is malformed or has the wrong length.
    InvalidKey,
    /// A signature is malformed or has the wrong length.
    InvalidSignature,
    /// The cipher refused to encrypt.
    EncryptionFailed,
    /// The ciphertext did not authenticate.
    DecryptionFailed,
    /// The operating system's entropy source failed.
    RandomFailed,
}

/// A failure of a cryptographic operation: its kind and a describing text.
#[derive(Debug)]
pub enum CryptoError {
    InvalidKey(String),
    InvalidSignature(String),
    EncryptionFailed(String),
    DecryptionFailed(String),
    RandomFailed(String),
}

/// The words that introduce the describing text of an error of `kind`.
pub open spec fn kind_label(kind: CryptoErrorKind) -> Seq<char> {
    match kind {
        CryptoErrorKind::InvalidKey => "Invalid key format: "@,
        CryptoErrorKind::InvalidSignature => "Invalid signature format: "@,
        CryptoErrorKind::EncryptionFailed => "Encryption failed: "@,
        CryptoErrorKind::DecryptionFailed => "Decryption failed: "@,
        CryptoErrorKind::RandomFailed => "Random generation failed: "@,
    }
}

/// A result as contracts speak of it: the value by its view, the error by
/// its kind.
pub open spec fn outcome_of<T: View>(result: Result<T, CryptoError>) -> Result<
    T::V,
    CryptoErrorKind,
> {
    match result {
        Ok(value) => Ok(value@),
        Err(error) => Err(error.spec_kind()),
    }
}

impl CryptoError {
    /// The kind of this error.
    pub open spec fn spec_kind(&self) -> CryptoErrorKind {
        match self {
            CryptoError::InvalidKey(_) => CryptoErrorKind::InvalidKey,
            CryptoError::InvalidSignature(_) => CryptoErrorKind::InvalidSignature,
            CryptoError::EncryptionFailed(_) => CryptoErrorKind::EncryptionFailed,
            CryptoError::DecryptionFailed(_) => CryptoErrorKind::DecryptionFailed,
            CryptoError::RandomFailed(_) => CryptoErrorKind::RandomFailed,
        }
    }

    /// The describing text that this error carries.
    pub open spec fn detail(&self) -> Seq<char> {
        match self {
            CryptoError::InvalidKey(text) => text@,
            CryptoError::InvalidSignature(text) => text@,
            CryptoError::EncryptionFailed(text) => text@,
            CryptoError::DecryptionFailed(text) => text@,
            CryptoError::RandomFailed(text) => text@,
        }
    }

    /// An error of the given kind that carries `detail`.
    pub fn new(kind: CryptoErrorKind, detail: String) -> (error: CryptoError)
        ensures
            error.kind() == kind,
            error.detail() == detail@,
    {
        match kind {
            CryptoErrorKind::InvalidKey => CryptoError::InvalidKey(detail),
            CryptoErrorKind::InvalidSignature => CryptoError::InvalidSignature(detail),
            CryptoErrorKind::EncryptionFailed => CryptoError::EncryptionFailed(detail),
            CryptoErrorKind::DecryptionFailed => CryptoError::DecryptionFailed(detail),
            CryptoErrorKind::RandomFailed => CryptoError::RandomFailed(detail),
        }
    }

    /// An error of the given kind whose text is `prefix` followed by `cause`.
    pub fn with_cause(kind: CryptoErrorKind, prefix: &str, cause: &str) -> (error: CryptoError)
        ensures
            error.kind() == kind,
            error.detail() == prefix@ + cause@,
    {
        CryptoError::new(kind, String::from_str(prefix).concat(cause))
    }

    #[verifier::when_used_as_spec(spec_kind)]
    pub fn kind(&self) -> (kind: CryptoErrorKind)
        ensures
            kind == self.spec_kind(),
    {
        match self {
            CryptoError::InvalidKey(_) => CryptoErrorKind::InvalidKey,
            CryptoError::InvalidSignature(_) => CryptoErrorKind::InvalidSignature,
            CryptoError::EncryptionFailed(_) => CryptoErrorKind::EncryptionFailed,
            CryptoError::DecryptionFailed(_) => CryptoErrorKind::DecryptionFailed,
            CryptoError::RandomFailed(_) => CryptoErrorKind::RandomFailed,
        }
    }

    /// The full message: the label of the kind, then the describing text.
    pub fn message(&self) -> (text: String)
        ensures
            text@ == kind_label(self.kind()) + self.detail(),
    {
        match self {
            CryptoError::InvalidKey(detail) => String::from_str("Invalid key format: ").concat(
                detail.as_str(),
            ),
            CryptoError::InvalidSignature(detail) => String::from_str(
                "Invalid signature format: ",
            ).concat(detail.as_str()),
            CryptoError::EncryptionFailed(detail) => String::from_str(
                "Encryption failed: ",
            ).concat(detail.as_str()),
            CryptoError::DecryptionFailed(detail) => String::from_str(
                "Decryption failed: ",
            ).concat(detail.as_str()),
            CryptoError::RandomFailed(detail) => String::from_str(
                "Random generation failed: ",
            ).concat(detail.as_str()),
        }
    }
}

} // verus!
