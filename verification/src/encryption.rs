//! The fingerprint of a document and the envelope cipher.
//!
//! A document is written in canonical form; the fingerprint is a hash of that
//! text, and the envelope holds the text sealed with AES-SIV under a 256-bit
//! key and a fresh 128-bit nonce.

use vstd::prelude::*;
use vstd::std_specs::hash::DefaultHasherAdditionalSpecFns;
use vstd::utf8::encode_utf8;
use std::collections::hash_map::DefaultHasher;
use std::hash::{Hash, Hasher};
use aes_siv::aead::{Aead, KeyInit};
use aes_siv::aead::generic_array::GenericArray;
use aes_siv::Aes128SivAead;
use rand::Rng;
use crate::document::{
    Document, JsonValue, fields_view, holds_field, keys_distinct, lemma_field_order_is_immaterial,
};
use crate::error::{CanonicalizationError, CryptoError, SealError};
use crate::json::{canonical_json, canonical_text, to_json};
use crate::model::{Envelope, EnvelopeView};

verus! {

/// The length of the symmetric key in bytes: 256 bits.
pub const KEY_LEN: usize = 32;

/// The length of a nonce in bytes: 128 bits.
pub const NONCE_LEN: usize = 16;

/// By how many bytes a ciphertext is longer than its plaintext.
pub const TAG_LEN: usize = 16;

/// The byte strings that hashing a string writes into a hasher, in order.
pub uninterp spec fn string_hash_writes(text: Seq<char>) -> Seq<Seq<u8>>;

/// The ciphertext, tag included, that AES-SIV gives for a plaintext under a
/// key of `KEY_LEN` bytes and a nonce of `NONCE_LEN` bytes.
pub uninterp spec fn aead_sealed(key: Seq<u8>, nonce: Seq<u8>, plaintext: Seq<u8>) -> Seq<u8>;

/// The fingerprint of a text: what the default hasher of the standard library,
/// which has a fixed key, makes of it.
pub open spec fn fingerprint(text: Seq<char>) -> u64 {
    DefaultHasher::spec_finish(string_hash_writes(text))
}

/// The canonical form of a document, or the reason why it has none.
pub open spec fn canonical_form(doc: JsonValue) -> Result<Seq<char>, CanonicalizationError> {
    if doc.canonicalizable() {
        Ok(canonical_json(doc))
    } else {
        Err(CanonicalizationError::UnsafeInteger)
    }
}

/// The fingerprint of a document, or the reason why it has none.
pub open spec fn fingerprint_of(doc: JsonValue) -> Result<u64, CanonicalizationError> {
    match canonical_form(doc) {
        Ok(text) => Ok(fingerprint(text)),
        Err(e) => Err(e),
    }
}

/// The envelope of a canonical text under a key and a nonce: the fingerprint
/// of the text in clear, its UTF-8 bytes sealed, and the nonce. A key of the
/// wrong length is reported before a nonce of the wrong length.
pub open spec fn sealed_text(text: Seq<char>, key: Seq<u8>, nonce: Seq<u8>) -> Result<
    EnvelopeView,
    CryptoError,
> {
    if key.len() != KEY_LEN {
        Err(CryptoError::KeyLength)
    } else if nonce.len() != NONCE_LEN {
        Err(CryptoError::NonceLength)
    } else {
        Ok(
            EnvelopeView {
                encrypted: aead_sealed(key, nonce, encode_utf8(text)),
                hash: fingerprint(text),
                nonce,
            },
        )
    }
}

/// The envelope of a document under a key and a nonce, or the reason why
/// there is none. A document without canonical form is reported before a key
/// of the wrong length, and that before a nonce of the wrong length.
pub open spec fn seal_outcome(doc: JsonValue, key: Seq<u8>, nonce: Seq<u8>) -> Result<
    EnvelopeView,
    SealError,
> {
    match canonical_form(doc) {
        Err(e) => Err(SealError::Canonicalization(e)),
        Ok(text) => match sealed_text(text, key, nonce) {
            Ok(envelope) => Ok(envelope),
            Err(e) => Err(SealError::Crypto(e)),
        },
    }
}

/// Why a document cannot be sealed under a key, whatever the nonce: it has no
/// canonical form, or else the key has the wrong length. `None` where it can
/// be sealed.
pub open spec fn seal_failure(doc: JsonValue, key: Seq<u8>) -> Option<SealError> {
    match canonical_form(doc) {
        Err(e) => Some(SealError::Canonicalization(e)),
        Ok(_) => if key.len() != KEY_LEN {
            Some(SealError::Crypto(CryptoError::KeyLength))
        } else {
            None
        },
    }
}

/// Whether `opened` is what opening the envelope under the key gives: an error
/// for a key or a nonce of the wrong length; else the one plaintext that seals
/// to the ciphertext of the envelope, and `Unauthentic` where no plaintext does.
pub open spec fn opens_to(
    envelope: EnvelopeView,
    key: Seq<u8>,
    opened: Result<Seq<u8>, CryptoError>,
) -> bool {
    if key.len() != KEY_LEN {
        opened == Err::<Seq<u8>, CryptoError>(CryptoError::KeyLength)
    } else if envelope.nonce.len() != NONCE_LEN {
        opened == Err::<Seq<u8>, CryptoError>(CryptoError::NonceLength)
    } else {
        &&& opened matches Ok(plaintext) ==> envelope.encrypted == aead_sealed(
            key,
            envelope.nonce,
            plaintext,
        )
        &&& opened matches Err(e) ==> e == CryptoError::Unauthentic
        &&& forall|plaintext: Seq<u8>|
            envelope.encrypted == #[trigger] aead_sealed(key, envelope.nonce, plaintext)
                ==> opened == Ok::<Seq<u8>, CryptoError>(plaintext)
    }
}

/// `rand::Rng::fill` on the thread-local generator of `rand`: sixteen bytes
/// from a cryptographically secure source. Nothing is known of their values.
#[verifier::external_body]
fn generate_nonce() -> (nonce: Vec<u8>)
    ensures
        nonce@.len() == NONCE_LEN,
{
    let mut rng = rand::thread_rng();
    let mut nonce = [0u8; 16];
    rng.fill(&mut nonce);
    nonce.to_vec()
}

/// `Hash::hash` of a string into a hasher of the standard library: the writes
/// it makes depend on the string alone and follow those made before.
#[verifier::external_body]
fn hash_string(text: &String, state: &mut DefaultHasher)
    ensures
        final(state)@ == old(state)@ + string_hash_writes(text@),
{
    text.hash(state);
}

/// `Aead::encrypt` of `aes_siv::Aes128SivAead`, the AES-SIV cipher with a
/// 256-bit key, without associated data. With a key and a nonce of the right
/// lengths it does not fail, and the tag makes the result `TAG_LEN` bytes
/// longer than the plaintext.
#[verifier::external_body]
fn aead_encrypt(key: &Vec<u8>, nonce: &Vec<u8>, plaintext: &[u8]) -> (result: Option<Vec<u8>>)
    requires
        key@.len() == KEY_LEN,
        nonce@.len() == NONCE_LEN,
    ensures
        result is Some,
        result->Some_0@ == aead_sealed(key@, nonce@, plaintext@),
        result->Some_0@.len() == plaintext@.len() + TAG_LEN,
{
    let cipher = Aes128SivAead::new(GenericArray::from_slice(key));
    cipher.encrypt(GenericArray::from_slice(nonce), plaintext).ok()
}

/// `Aead::decrypt` of `aes_siv::Aes128SivAead`, without associated data. The
/// cipher is deterministic: it accepts a ciphertext exactly when some
/// plaintext seals to it under the key and the nonce, and returns that
/// plaintext.
#[verifier::external_body]
fn aead_decrypt(key: &Vec<u8>, nonce: &Vec<u8>, ciphertext: &Vec<u8>) -> (result: Option<Vec<u8>>)
    requires
        key@.len() == KEY_LEN,
        nonce@.len() == NONCE_LEN,
    ensures
        result matches Some(plaintext) ==> ciphertext@ == aead_sealed(key@, nonce@, plaintext@),
        forall|plaintext: Seq<u8>|
            ciphertext@ == #[trigger] aead_sealed(key@, nonce@, plaintext) ==> result is Some
                && result->Some_0@ == plaintext,
{
    let cipher = Aes128SivAead::new(GenericArray::from_slice(key));
    cipher.decrypt(GenericArray::from_slice(nonce), ciphertext.as_slice()).ok()
}

/// The fingerprint of a text.
pub fn calculate_hash(t: &String) -> (hash: u64)
    ensures
        hash == fingerprint(t@),
{
    let mut s = DefaultHasher::new();
    hash_string(t, &mut s);
    assert(s@ == string_hash_writes(t@));
    s.finish()
}

/// Writes the document in canonical form: the fields of every object sorted by
/// key, no insignificant white space, one spelling for every number and string.
/// The text depends on what the document holds alone, not on the order in
/// which its fields were written.
pub fn canonicalize(data: &Document) -> (result: Result<String, CanonicalizationError>)
    ensures
        match result {
            Ok(text) => canonical_form(data@) == Ok::<Seq<char>, CanonicalizationError>(text@),
            Err(e) => canonical_form(data@) == Err::<Seq<char>, CanonicalizationError>(e),
        },
{
    if !data.is_canonicalizable() {
        return Err(CanonicalizationError::UnsafeInteger);
    }
    let value = to_json(data);
    match canonical_text(&value) {
        Some(text) => Ok(text),
        None => Err(CanonicalizationError::UnsafeInteger),
    }
}

/// The fingerprint of a document: the hash of its canonical form. It depends
/// on what the document holds alone, so it is the same in every run.
pub fn generate_hash(data: &Document) -> (result: Result<u64, CanonicalizationError>)
    ensures
        result == fingerprint_of(data@),
{
    match canonicalize(data) {
        Ok(text) => Ok(calculate_hash(&text)),
        Err(e) => Err(e),
    }
}

/// Seals a canonical text under the key with the given nonce. The envelope
/// holds the fingerprint of the text in clear, the ciphertext and the nonce;
/// the ciphertext is `TAG_LEN` bytes longer than the text.
pub fn seal_canonical(canonicalized: &String, key: &Vec<u8>, nonce: &Vec<u8>) -> (result: Result<
    Envelope,
    CryptoError,
>)
    ensures
        match result {
            Ok(envelope) => sealed_text(canonicalized@, key@, nonce@) == Ok::<
                EnvelopeView,
                CryptoError,
            >(envelope@) && envelope@.encrypted.len() == encode_utf8(canonicalized@).len()
                + TAG_LEN,
            Err(e) => sealed_text(canonicalized@, key@, nonce@) == Err::<EnvelopeView, CryptoError>(
                e,
            ),
        },
{
    if key.len() != KEY_LEN {
        return Err(CryptoError::KeyLength);
    }
    if nonce.len() != NONCE_LEN {
        return Err(CryptoError::NonceLength);
    }
    let hash = calculate_hash(canonicalized);
    let sealed = aead_encrypt(key, nonce, canonicalized.as_str().as_bytes());
    Ok(Envelope { hash, encrypted: sealed.unwrap(), nonce: nonce.clone() })
}

/// Seals the document under the key with the given nonce: writes it in
/// canonical form and seals that text.
pub fn encrypt_envelope_with_nonce(data: &Document, key: &Vec<u8>, nonce: &Vec<u8>) -> (result:
    Result<Envelope, SealError>)
    ensures
        match result {
            Ok(envelope) => seal_outcome(data@, key@, nonce@) == Ok::<EnvelopeView, SealError>(
                envelope@,
            ),
            Err(e) => seal_outcome(data@, key@, nonce@) == Err::<EnvelopeView, SealError>(e),
        },
{
    let canonicalized = match canonicalize(data) {
        Ok(text) => text,
        Err(e) => {
            return Err(SealError::Canonicalization(e));
        },
    };
    match seal_canonical(&canonicalized, key, nonce) {
        Ok(envelope) => Ok(envelope),
        Err(e) => Err(SealError::Crypto(e)),
    }
}

/// Seals the document under the key with a nonce drawn for this call. It
/// fails exactly when the document has no canonical form or the key has the
/// wrong length; else the envelope is the one that `seal_outcome` gives for the
/// nonce that it carries.
pub fn encrypt_envelope(data: &Document, key: &Vec<u8>) -> (result: Result<Envelope, SealError>)
    ensures
        match result {
            Ok(envelope) => seal_failure(data@, key@) is None && envelope@.nonce.len()
                == NONCE_LEN && seal_outcome(data@, key@, envelope@.nonce) == Ok::<
                EnvelopeView,
                SealError,
            >(envelope@),
            Err(e) => seal_failure(data@, key@) == Some(e),
        },
{
    let nonce_bytes = generate_nonce();
    encrypt_envelope_with_nonce(data, key, &nonce_bytes)
}

/// Opens an envelope under the key and returns the canonical form that was
/// sealed into it, byte for byte.
pub fn decrypt_envelope(envelope: &Envelope, key: &Vec<u8>) -> (result: Result<
    Vec<u8>,
    CryptoError,
>)
    ensures
        match result {
            Ok(plaintext) => opens_to(envelope@, key@, Ok(plaintext@)),
            Err(e) => opens_to(envelope@, key@, Err(e)),
        },
{
    if key.len() != KEY_LEN {
        return Err(CryptoError::KeyLength);
    }
    if envelope.nonce.len() != NONCE_LEN {
        return Err(CryptoError::NonceLength);
    }
    match aead_decrypt(key, &envelope.nonce, &envelope.encrypted) {
        Some(plaintext) => Ok(plaintext),
        None => Err(CryptoError::Unauthentic),
    }
}

/// Opening an envelope under the key it was sealed with gives back the
/// canonical form of the document, for every document that has one, every key
/// of `KEY_LEN` bytes and every nonce of `NONCE_LEN` bytes.
pub proof fn law_decrypt_inverts_encrypt(
    doc: JsonValue,
    key: Seq<u8>,
    nonce: Seq<u8>,
    envelope: EnvelopeView,
    opened: Result<Seq<u8>, CryptoError>,
)
    requires
        doc.canonicalizable(),
        key.len() == KEY_LEN,
        nonce.len() == NONCE_LEN,
        seal_outcome(doc, key, nonce) == Ok::<EnvelopeView, SealError>(envelope),
        opens_to(envelope, key, opened),
    ensures
        opened == Ok::<Seq<u8>, CryptoError>(encode_utf8(canonical_json(doc))),
{
}

/// Two documents that hold the same have the same canonical form and the same
/// fingerprint, however each was put together, and both or neither have one.
pub proof fn law_canonical_form_depends_on_value_only(first: Document, second: Document)
    requires
        first@ == second@,
    ensures
        canonical_form(first@) == canonical_form(second@),
        fingerprint_of(first@) == fingerprint_of(second@),
{
}

/// The order in which the fields of an object were written does not show in
/// its canonical form nor in its fingerprint: two objects without a repeated
/// key that have the same fields, in whatever order, have the same of both.
/// Fields are the same when their keys read the same and their values stand
/// for the same.
pub proof fn law_canonical_form_ignores_field_order(
    first: Seq<(String, Document)>,
    second: Seq<(String, Document)>,
)
    requires
        keys_distinct(first),
        keys_distinct(second),
        forall|i: int|
            0 <= i < first.len() ==> holds_field(second, (#[trigger] first[i]).0@, first[i].1@),
        forall|i: int|
            0 <= i < second.len() ==> holds_field(first, (#[trigger] second[i]).0@, second[i].1@),
    ensures
        canonical_form(JsonValue::Object(fields_view(first))) == canonical_form(
            JsonValue::Object(fields_view(second)),
        ),
        fingerprint_of(JsonValue::Object(fields_view(first))) == fingerprint_of(
            JsonValue::Object(fields_view(second)),
        ),
{
    lemma_field_order_is_immaterial(first, second);
}

/// Two envelopes of one document under one key that were sealed with different
/// nonces are different envelopes: each carries its own nonce.
pub proof fn law_envelope_carries_its_nonce(
    doc: JsonValue,
    key: Seq<u8>,
    first_nonce: Seq<u8>,
    second_nonce: Seq<u8>,
)
    requires
        seal_outcome(doc, key, first_nonce) is Ok,
        seal_outcome(doc, key, second_nonce) is Ok,
        first_nonce != second_nonce,
    ensures
        seal_outcome(doc, key, first_nonce)->Ok_0.nonce == first_nonce,
        seal_outcome(doc, key, second_nonce)->Ok_0.nonce == second_nonce,
        seal_outcome(doc, key, first_nonce)->Ok_0 != seal_outcome(doc, key, second_nonce)->Ok_0,
        seal_outcome(doc, key, first_nonce)->Ok_0.hash == seal_outcome(
            doc,
            key,
            second_nonce,
        )->Ok_0.hash,
{
}

/// A key of the wrong length is refused, whatever the document and the nonce:
/// nothing is sealed under a key that was cut or padded.
pub proof fn law_wrong_key_length_is_refused(doc: JsonValue, key: Seq<u8>, nonce: Seq<u8>)
    requires
        key.len() != KEY_LEN,
    ensures
        seal_outcome(doc, key, nonce) is Err,
        doc.canonicalizable() ==> seal_outcome(doc, key, nonce) == Err::<EnvelopeView, SealError>(
            SealError::Crypto(CryptoError::KeyLength),
        ),
{
}

} // verus!
