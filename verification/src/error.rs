//! The ways in which a step of the distribution can fail.

use vstd::prelude::*;

verus! {

/// The document lies outside what can be written in canonical form.
#[derive(Debug, Clone, Copy, PartialEq, Eq)]
pub enum CanonicalizationError {
    /// An integer of the document exceeds 2^53 - 1 in magnitude.
    UnsafeInteger,
}

/// A key, a nonce or a ciphertext that the cipher cannot work with. None of
/// these is transient.
#[derive(Debug, Clone, Copy, PartialEq, Eq)]
pub enum CryptoError {
    /// The key is not `KEY_LEN` bytes long.
    KeyLength,
    /// The nonce is not `NONCE_LEN` bytes long.
    NonceLength,
    /// The key is not valid base64.
    KeyEncoding,
    /// The ciphertext was not sealed under this key and nonce.
    Unauthentic,
}

/// Why a document could not be sealed.
#[derive(Debug, Clone, Copy, PartialEq, Eq)]
pub enum SealError {
    Canonicalization(CanonicalizationError),
    Crypto(CryptoError),
}

/// The registration failed. The caller decides whether to try again.
#[derive(Debug, Clone, PartialEq, Eq)]
pub enum RegistrationError {
    /// The registry could not be reached; the cause is kept for the log.
    Transport(String),
    /// The registry answered with a status outside 200..=299.
    Status(u16),
    /// The body of the answer is no registration record.
    Undecodable,
}

/// The delivery to one receiver failed. It says nothing of the other
/// receivers.
#[derive(Debug, Clone, PartialEq, Eq)]
pub enum DeliveryError {
    /// The document could not be sealed for the receiver.
    Seal(SealError),
    /// The receiver could not be reached; the cause is kept for the log.
    Transport(String),
    /// The receiver answered with a status outside 200..=299.
    Status(u16),
}

} // verus!
