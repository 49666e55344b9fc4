//! The values that pass between the steps of a receipt's distribution.

use vstd::prelude::*;

verus! {

/// A sealed receipt together with the key it was sealed under.
#[derive(Debug)]
pub struct PreparedData {
    pub encrypted: Vec<u8>,
    pub hash: u64,
    pub key: Vec<u8>,
    pub nonce: Vec<u8>,
}

/// The transport envelope: the fingerprint in clear, the ciphertext and the
/// nonce it was sealed with.
#[derive(Debug)]
pub struct Envelope {
    pub encrypted: Vec<u8>,
    pub hash: u64,
    pub nonce: Vec<u8>,
}

/// What an envelope holds.
pub struct EnvelopeView {
    pub encrypted: Seq<u8>,
    pub hash: u64,
    pub nonce: Seq<u8>,
}

impl View for Envelope {
    type V = EnvelopeView;

    open spec fn view(&self) -> EnvelopeView {
        EnvelopeView { encrypted: self.encrypted@, hash: self.hash, nonce: self.nonce@ }
    }
}

/// What the registry is told of a receipt, and the key that belongs to it.
#[derive(Debug)]
pub struct RegistrationData {
    pub hash: u64,
    pub key: Vec<u8>,
}

/// What a registration holds.
pub struct RegistrationDataView {
    pub hash: u64,
    pub key: Seq<u8>,
}

impl View for RegistrationData {
    type V = RegistrationDataView;

    open spec fn view(&self) -> RegistrationDataView {
        RegistrationDataView { hash: self.hash, key: self.key@ }
    }
}

impl PreparedData {
    /// Splits the prepared data into the envelope that travels to the receivers
    /// and the registration that stays with the sender. Both carry the same
    /// fingerprint; only the registration carries the key.
    pub fn to_envelope_and_registration_data(self) -> (parts: (Envelope, RegistrationData))
        ensures
            parts.0@ == (EnvelopeView {
                encrypted: self.encrypted@,
                hash: self.hash,
                nonce: self.nonce@,
            }),
            parts.1@ == (RegistrationDataView { hash: self.hash, key: self.key@ }),
    {
        (
            Envelope { encrypted: self.encrypted, hash: self.hash, nonce: self.nonce },
            RegistrationData { hash: self.hash, key: self.key },
        )
    }
}

/// What is known of the customer for routing a receipt.
#[derive(Debug)]
pub struct RoutingInfo {
    pub email: Option<String>,
    pub bin: Option<String>,
    pub par: Option<String>,
}

/// A recipient that the registry has authorized for one registration.
#[derive(Debug)]
pub struct Receiver {
    pub address: String,
    pub org_id: String,
    pub secret: String,
    pub version: String,
}

/// What a receiver record holds.
pub struct ReceiverView {
    pub address: Seq<char>,
    pub org_id: Seq<char>,
    pub secret: Seq<char>,
    pub version: Seq<char>,
}

impl View for Receiver {
    type V = ReceiverView;

    open spec fn view(&self) -> ReceiverView {
        ReceiverView {
            address: self.address@,
            org_id: self.org_id@,
            secret: self.secret@,
            version: self.version@,
        }
    }
}

} // verus!
