//! Error taxonomy of the pipeline: validation failures reported before any
//! I/O, fatal collection failures, and the cipher service's failures.

use vstd::prelude::*;
use vstd::string::StringExecFns;

verus! {

/// A request was rejected before any sampling or I/O took place.
#[derive(Clone, Copy, Debug, PartialEq, Eq, Structural)]
pub enum ValidationError {
    /// The sample count was not a positive integer.
    InvalidSampleCount,
    /// The output destination was none of `file`, `screen` or `none`.
    InvalidDestination,
    /// Destination `file` was requested without a usable path.
    MissingFilePath,
    /// No source port was given.
    PortNotSpecified,
    /// The serial baud rate was not a positive integer.
    InvalidBaudRate,
}

impl ValidationError {
    /// The descriptive message reported to the caller.
    pub fn message(&self) -> (r: String)
        ensures
            *self is InvalidSampleCount ==> r@ == "Invalid sample count"@,
            *self is InvalidDestination ==> r@ == "Invalid output destination"@,
            *self is MissingFilePath ==> r@ == "File path is required for file output"@,
            *self is PortNotSpecified ==> r@ == "Port not specified"@,
            *self is InvalidBaudRate ==> r@ == "Invalid baud rate"@,
    {
        match self {
            ValidationError::InvalidSampleCount => String::from_str("Invalid sample count"),
            ValidationError::InvalidDestination => String::from_str("Invalid output destination"),
            ValidationError::MissingFilePath => String::from_str(
                "File path is required for file output",
            ),
            ValidationError::PortNotSpecified => String::from_str("Port not specified"),
            ValidationError::InvalidBaudRate => String::from_str("Invalid baud rate"),
        }
    }
}

/// A fatal failure inside a collection run.
#[derive(Clone, Debug)]
pub enum CollectError {
    /// The OS randomness source failed; the platform reported `detail`.
    RandomSource { detail: String },
    /// A sample was too large for the kernel pool record's fixed buffer.
    OversizedSample,
}

impl CollectError {
    /// The descriptive message reported to the caller, with the
    /// platform's own error text appended where one was recorded.
    pub fn message(&self) -> (r: String)
        ensures
            *self matches CollectError::RandomSource { detail } ==> r@
                == "Failed to read from OS entropy pool: "@ + detail@,
            *self is OversizedSample ==> r@ == "Sample too large for kernel entropy pool record"@,
    {
        match self {
            CollectError::RandomSource { detail } => String::from_str(
                "Failed to read from OS entropy pool: ",
            ).concat(detail.as_str()),
            CollectError::OversizedSample => String::from_str(
                "Sample too large for kernel entropy pool record",
            ),
        }
    }
}

/// A failure of the key/cipher service.  Variants that wrap a failing
/// call carry that call's own error text in `detail`.
#[derive(Clone, Debug, PartialEq, Eq)]
pub enum CryptoError {
    /// The algorithm name is not one the service knows.
    UnsupportedAlgorithm,
    /// RSA key generation is known but not available.
    KeyGenNotImplemented,
    /// RSA encryption and decryption are known but not available.
    CipherNotImplemented,
    /// The key was not exactly 64 hex characters.
    InvalidKeyLength,
    /// A hex string could not be decoded.
    HexDecodeFailed { detail: String },
    /// The plaintext was too large for one authenticated encryption.
    EncryptionFailed { detail: String },
    /// Authenticated decryption rejected the ciphertext.
    DecryptionFailed { detail: String },
    /// The decrypted bytes were not valid UTF-8.
    Utf8DecodeFailed { detail: String },
    /// The OS randomness source failed while drawing key material.
    RandomSourceFailed { detail: String },
}

impl CryptoError {
    /// The descriptive message reported to the caller, with the failing
    /// call's own error text appended where one was recorded.
    pub fn message(&self) -> (r: String)
        ensures
            *self is UnsupportedAlgorithm ==> r@ == "Unsupported algorithm"@,
            *self is KeyGenNotImplemented ==> r@ == "RSA key generation not implemented yet"@,
            *self is CipherNotImplemented ==> r@
                == "RSA encryption/decryption not implemented yet"@,
            *self is InvalidKeyLength ==> r@ == "Invalid key length for AES-256"@,
            *self matches CryptoError::HexDecodeFailed { detail } ==> r@ == "Hex decode failed: "@
                + detail@,
            *self matches CryptoError::EncryptionFailed { detail } ==> r@
                == "Encryption failed: "@ + detail@,
            *self matches CryptoError::DecryptionFailed { detail } ==> r@
                == "Decryption failed: "@ + detail@,
            *self matches CryptoError::Utf8DecodeFailed { detail } ==> r@
                == "UTF-8 decode failed: "@ + detail@,
            *self matches CryptoError::RandomSourceFailed { detail } ==> r@
                == "Failed to read from OS entropy pool: "@ + detail@,
    {
        match self {
            CryptoError::UnsupportedAlgorithm => String::from_str("Unsupported algorithm"),
            CryptoError::KeyGenNotImplemented => String::from_str(
                "RSA key generation not implemented yet",
            ),
            CryptoError::CipherNotImplemented => String::from_str(
                "RSA encryption/decryption not implemented yet",
            ),
            CryptoError::InvalidKeyLength => String::from_str("Invalid key length for AES-256"),
            CryptoError::HexDecodeFailed { detail } => String::from_str(
                "Hex decode failed: ",
            ).concat(detail.as_str()),
            CryptoError::EncryptionFailed { detail } => String::from_str(
                "Encryption failed: ",
            ).concat(detail.as_str()),
            CryptoError::DecryptionFailed { detail } => String::from_str(
                "Decryption failed: ",
            ).concat(detail.as_str()),
            CryptoError::Utf8DecodeFailed { detail } => String::from_str(
                "UTF-8 decode failed: ",
            ).concat(detail.as_str()),
            CryptoError::RandomSourceFailed { detail } => String::from_str(
                "Failed to read from OS entropy pool: ",
            ).concat(detail.as_str()),
        }
    }
}

} // verus!
