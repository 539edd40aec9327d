use mukalujauh::crypto::{SecureFaceStore, StoreError};

fn hex(bytes: &[u8]) -> String {
    bytes.iter().map(|b| format!("{:02x}", b)).collect()
}

#[test]
fn derive_key_is_sha256_of_passphrase() {
    assert_eq!(
        hex(&SecureFaceStore::derive_key("")),
        "e3b0c44298fc1c149afbf4c8996fb92427ae41e4649b934ca495991b7852b855"
    );
    assert_eq!(
        hex(&SecureFaceStore::derive_key("abc")),
        "ba7816bf8f01cfea414140de5dae2223b00361a396177a9cb410ff61f20015ad"
    );
}

#[test]
fn encrypted_payload_reads_back() {
    let key = SecureFaceStore::derive_key("secret");
    let data = b"[{\"name\":\"Endri\"}]".to_vec();
    let payload = SecureFaceStore::encrypt_payload(&data, &key).unwrap();
    assert_eq!(payload.len(), 12 + data.len() + 16);
    assert_ne!(&payload[12..12 + data.len()], &data[..]);
    assert_eq!(SecureFaceStore::decrypt_payload(&payload, &key), Ok(data));
}

#[test]
fn sealing_with_a_nonce_prefixes_it() {
    let key = [7u8; 32];
    let nonce = [1u8; 12];
    let p = SecureFaceStore::seal_payload(b"", &key, &nonce).unwrap();
    assert_eq!(p.len(), 28);
    assert_eq!(&p[..12], &nonce);
    assert_eq!(SecureFaceStore::decrypt_payload(&p, &key), Ok(Vec::new()));
    let again = SecureFaceStore::seal_payload(b"", &key, &nonce).unwrap();
    assert_eq!(p, again);
}

#[test]
fn wrong_key_or_tampering_is_rejected() {
    let key = SecureFaceStore::derive_key("secret");
    let mut payload = SecureFaceStore::encrypt_payload(b"profile", &key).unwrap();
    let other = SecureFaceStore::derive_key("other");
    assert_eq!(SecureFaceStore::decrypt_payload(&payload, &other), Err(StoreError::Decryption));
    let last = payload.len() - 1;
    payload[last] ^= 1;
    assert_eq!(SecureFaceStore::decrypt_payload(&payload, &key), Err(StoreError::Decryption));
}

#[test]
fn short_payloads_are_rejected() {
    let key = [0u8; 32];
    assert_eq!(SecureFaceStore::decrypt_payload(&[1, 2, 3], &key), Err(StoreError::PayloadTooShort));
    assert_eq!(SecureFaceStore::decrypt_payload(&[0; 12], &key), Err(StoreError::Decryption));
    assert_eq!(SecureFaceStore::decrypt_payload(&[0; 27], &key), Err(StoreError::Decryption));
}
