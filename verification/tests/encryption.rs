use adapter_client_stripe::document::Document;
use adapter_client_stripe::encryption::{
    calculate_hash, canonicalize, decrypt_envelope, encrypt_envelope,
    encrypt_envelope_with_nonce, generate_hash, seal_canonical, KEY_LEN, NONCE_LEN, TAG_LEN,
};
use adapter_client_stripe::error::{CanonicalizationError, CryptoError, SealError};
use aes_siv::aead::{Aead, KeyInit, Payload};
use aes_siv::Aes128SivAead;
use rand::rngs::OsRng;

fn text(s: &str) -> Document {
    Document::Text(s.to_string())
}

fn dummy_receipt() -> Document {
    Document::Object(vec![
        ("authorized".to_string(), Document::Int(4545)),
        ("authorization_id".to_string(), text("foo")),
        ("amount".to_string(), Document::Int(3445)),
        ("merchant_entity_id".to_string(), text("Amazon")),
        ("details".to_string(), Document::Array(vec![])),
    ])
}

#[test]
fn test_encrypt_and_hash() {
    let data = dummy_receipt();

    let bytekey = Aes128SivAead::generate_key(&mut OsRng);
    let registration_hash = generate_hash(&data).expect("Canonicalization works");
    let envelope = encrypt_envelope(&data, &bytekey.to_vec()).expect("Encryption works");

    assert_eq!(registration_hash, envelope.hash);

    let cipher = Aes128SivAead::new(&bytekey);
    let decrypted = cipher
        .decrypt(
            envelope.nonce[..].into(),
            Payload::from(&envelope.encrypted[..]),
        )
        .expect("Decryption works");
    assert_eq!(decrypted, "{\"amount\":3445,\"authorization_id\":\"foo\",\"authorized\":4545,\"details\":[],\"merchant_entity_id\":\"Amazon\"}".as_bytes());
    let canonical_json = String::from_utf8(decrypted).expect("Works");
    let deserialized = serde_json::from_str::<serde_json::Value>(&canonical_json)
        .expect("Deserialization should work");
    assert_eq!(deserialized["merchant_entity_id"], "Amazon".to_string());

    let recalculated_hash = calculate_hash(&canonical_json);
    assert_eq!(recalculated_hash, registration_hash);
}

#[test]
fn canonical_form_sorts_keys_and_drops_white_space() {
    let doc = Document::Object(vec![
        ("id".to_string(), text("foo")),
        ("amount".to_string(), Document::Int(3445)),
    ]);
    assert_eq!(canonicalize(&doc).unwrap(), "{\"amount\":3445,\"id\":\"foo\"}");
}

#[test]
fn canonical_form_ignores_field_order() {
    let one = Document::Object(vec![
        ("b".to_string(), Document::Bool(true)),
        ("a".to_string(), Document::Null),
        ("c".to_string(), Document::Array(vec![Document::UInt(2), Document::Int(-1)])),
    ]);
    let other = Document::Object(vec![
        ("c".to_string(), Document::Array(vec![Document::Int(2), Document::Int(-1)])),
        ("a".to_string(), Document::Null),
        ("b".to_string(), Document::Bool(true)),
    ]);
    let text_one = canonicalize(&one).unwrap();
    assert_eq!(text_one, "{\"a\":null,\"b\":true,\"c\":[2,-1]}");
    assert_eq!(text_one, canonicalize(&other).unwrap());
    assert_eq!(generate_hash(&one), generate_hash(&other));
}

#[test]
fn canonical_form_keeps_array_order_and_null() {
    let doc = Document::Array(vec![Document::Int(3), Document::Null, Document::Int(1)]);
    assert_eq!(canonicalize(&doc).unwrap(), "[3,null,1]");
}

#[test]
fn later_field_replaces_earlier_field_of_same_key() {
    let doc = Document::Object(vec![
        ("a".to_string(), Document::Int(1)),
        ("a".to_string(), Document::Int(2)),
    ]);
    assert_eq!(canonicalize(&doc).unwrap(), "{\"a\":2}");
}

#[test]
fn unsafe_integer_has_no_canonical_form() {
    let too_large = Document::Object(vec![(
        "n".to_string(),
        Document::UInt(9_007_199_254_740_992),
    )]);
    assert_eq!(canonicalize(&too_large), Err(CanonicalizationError::UnsafeInteger));
    assert_eq!(generate_hash(&too_large), Err(CanonicalizationError::UnsafeInteger));
    let too_small = Document::Array(vec![Document::Int(i64::MIN)]);
    assert_eq!(canonicalize(&too_small), Err(CanonicalizationError::UnsafeInteger));
    let largest = Document::Int(9_007_199_254_740_991);
    assert_eq!(canonicalize(&largest).unwrap(), "9007199254740991");
    let smallest = Document::Int(-9_007_199_254_740_991);
    assert_eq!(canonicalize(&smallest).unwrap(), "-9007199254740991");
}

#[test]
fn replaced_field_does_not_count_for_canonical_form() {
    let doc = Document::Object(vec![
        ("n".to_string(), Document::UInt(u64::MAX)),
        ("n".to_string(), Document::Int(7)),
    ]);
    assert!(doc.is_canonicalizable());
    assert_eq!(canonicalize(&doc).unwrap(), "{\"n\":7}");
}

#[test]
fn fingerprint_is_stable() {
    let doc = dummy_receipt();
    let first = generate_hash(&doc).unwrap();
    let second = generate_hash(&doc).unwrap();
    assert_eq!(first, second);
    let text = canonicalize(&doc).unwrap();
    assert_eq!(first, calculate_hash(&text));
    assert_ne!(calculate_hash(&"a".to_string()), calculate_hash(&"b".to_string()));
}

#[test]
fn round_trip_recovers_canonical_bytes() {
    let doc = dummy_receipt();
    let key = vec![7u8; KEY_LEN];
    let envelope = encrypt_envelope(&doc, &key).unwrap();
    assert_eq!(envelope.nonce.len(), NONCE_LEN);
    let canonical = canonicalize(&doc).unwrap();
    assert_eq!(envelope.encrypted.len(), canonical.len() + TAG_LEN);
    let opened = decrypt_envelope(&envelope, &key).unwrap();
    assert_eq!(opened, canonical.as_bytes());
}

#[test]
fn sealing_twice_uses_fresh_nonces() {
    let doc = dummy_receipt();
    let key = vec![1u8; KEY_LEN];
    let first = encrypt_envelope(&doc, &key).unwrap();
    let second = encrypt_envelope(&doc, &key).unwrap();
    assert_ne!(first.nonce, second.nonce);
    assert_ne!(first.encrypted, second.encrypted);
    assert_eq!(first.hash, second.hash);
}

#[test]
fn key_of_wrong_length_is_refused() {
    let doc = dummy_receipt();
    for len in [0usize, 16, 31, 33, 64] {
        let key = vec![0u8; len];
        assert_eq!(
            encrypt_envelope(&doc, &key).err(),
            Some(SealError::Crypto(CryptoError::KeyLength))
        );
    }
    let envelope = encrypt_envelope(&doc, &vec![0u8; KEY_LEN]).unwrap();
    assert_eq!(
        decrypt_envelope(&envelope, &vec![0u8; 31]),
        Err(CryptoError::KeyLength)
    );
}

#[test]
fn nonce_of_wrong_length_is_refused() {
    let doc = dummy_receipt();
    let key = vec![0u8; KEY_LEN];
    assert_eq!(
        encrypt_envelope_with_nonce(&doc, &key, &vec![0u8; 12]).err(),
        Some(SealError::Crypto(CryptoError::NonceLength))
    );
}

#[test]
fn canonicalization_failure_comes_before_key_failure() {
    let doc = Document::UInt(u64::MAX);
    assert_eq!(
        encrypt_envelope(&doc, &vec![0u8; 3]).err(),
        Some(SealError::Canonicalization(CanonicalizationError::UnsafeInteger))
    );
}

#[test]
fn tampered_or_foreign_envelope_is_unauthentic() {
    let doc = dummy_receipt();
    let key = vec![9u8; KEY_LEN];
    let mut envelope = encrypt_envelope(&doc, &key).unwrap();
    let other_key = vec![8u8; KEY_LEN];
    assert_eq!(decrypt_envelope(&envelope, &other_key), Err(CryptoError::Unauthentic));
    envelope.encrypted[20] ^= 1;
    assert_eq!(decrypt_envelope(&envelope, &key), Err(CryptoError::Unauthentic));
    envelope.encrypted.truncate(5);
    assert_eq!(decrypt_envelope(&envelope, &key), Err(CryptoError::Unauthentic));
}

#[test]
fn sealing_with_fixed_nonce_is_reproducible() {
    let doc = Document::Object(vec![
        ("id".to_string(), text("foo")),
        ("amount".to_string(), Document::Int(3445)),
    ]);
    let key: Vec<u8> = (0u8..32).collect();
    let nonce: Vec<u8> = (100u8..116).collect();
    let first = encrypt_envelope_with_nonce(&doc, &key, &nonce).unwrap();
    let second = encrypt_envelope_with_nonce(&doc, &key, &nonce).unwrap();
    assert_eq!(first.encrypted, second.encrypted);
    assert_eq!(first.nonce, nonce);
    assert_eq!(first.hash, second.hash);
    assert_eq!(
        first.encrypted,
        vec![
            178, 177, 26, 188, 35, 55, 27, 89, 47, 104, 157, 17, 142, 29, 190, 21, 59, 37, 181,
            61, 108, 141, 30, 232, 43, 230, 110, 98, 182, 104, 30, 170, 116, 154, 219, 102, 39,
            55, 163, 12, 123, 136
        ]
    );
    assert_eq!(first.hash, 12288081940427980161);
    assert_eq!(generate_hash(&doc), Ok(12288081940427980161));
    let opened = decrypt_envelope(&first, &key).unwrap();
    assert_eq!(opened, "{\"amount\":3445,\"id\":\"foo\"}".as_bytes());
}

#[test]
fn canonical_text_is_sealed_as_it_is() {
    let text = "{\"amount\":3445,\"id\":\"foo\"}".to_string();
    let key: Vec<u8> = (0u8..32).collect();
    let nonce: Vec<u8> = (100u8..116).collect();
    let envelope = seal_canonical(&text, &key, &nonce).unwrap();
    assert_eq!(envelope.hash, calculate_hash(&text));
    assert_eq!(envelope.hash, 12288081940427980161);
    assert_eq!(envelope.nonce, nonce);
    assert_eq!(envelope.encrypted.len(), text.len() + TAG_LEN);
    assert_eq!(&envelope.encrypted[..4], &[178, 177, 26, 188]);
    assert_eq!(decrypt_envelope(&envelope, &key).unwrap(), text.as_bytes());
    assert_eq!(
        seal_canonical(&text, &vec![0u8; 64], &nonce).err(),
        Some(CryptoError::KeyLength)
    );
    assert_eq!(
        seal_canonical(&text, &key, &vec![0u8; 17]).err(),
        Some(CryptoError::NonceLength)
    );
    assert_eq!(
        seal_canonical(&text, &vec![0u8; 31], &vec![0u8; 17]).err(),
        Some(CryptoError::KeyLength)
    );
}
