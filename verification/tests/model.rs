use adapter_client_stripe::model::PreparedData;

#[test]
fn prepared_data_splits_into_envelope_and_registration() {
    let prepared = PreparedData {
        encrypted: vec![1, 2, 3],
        hash: 77,
        key: vec![9; 32],
        nonce: vec![4; 16],
    };
    let (envelope, registration) = prepared.to_envelope_and_registration_data();
    assert_eq!(envelope.encrypted, vec![1, 2, 3]);
    assert_eq!(envelope.hash, 77);
    assert_eq!(envelope.nonce, vec![4; 16]);
    assert_eq!(registration.hash, 77);
    assert_eq!(registration.key, vec![9; 32]);
}
