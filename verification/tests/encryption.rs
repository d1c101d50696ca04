use af_swarm::encryption::{
    decrypt, encrypt, encrypt_with_nonce, EncryptionKey, InMemoryKeyProvider, KeyProvider,
};
use af_swarm::error::StateError;
use af_swarm::proto::{AadBinding, EncryptionScheme};

fn aad(bytes: &[u8]) -> AadBinding {
    AadBinding { encoded: bytes.to_vec() }
}

fn test_key() -> EncryptionKey {
    InMemoryKeyProvider::new_test().get_key("any").unwrap()
}

#[test]
fn test_provider_has_one_key() {
    let provider = InMemoryKeyProvider::new_test();
    assert!(matches!(
        provider.get_key("whatever"),
        Ok(EncryptionKey::Aes256Gcm(key)) if key == [0x42u8; 32]
    ));
    assert_eq!(
        provider.current_key_id("t", EncryptionScheme::Aes256Gcm).unwrap(),
        "test-key-v1"
    );
    assert_eq!(
        provider.rotate_key("t", EncryptionScheme::Aes256Gcm).unwrap_err().message(),
        "invalid input: InMemoryKeyProvider does not support key rotation"
    );
}

#[test]
fn round_trip_gives_the_plaintext_back() {
    let key = test_key();
    for plaintext in [&b""[..], &b"x"[..], &[7u8; 1000][..]] {
        let mut envelope = encrypt(plaintext, &key, aad(b"agent-1")).unwrap();
        assert_eq!(envelope.scheme, EncryptionScheme::Aes256Gcm);
        assert_eq!(envelope.key_id, "");
        assert_eq!(envelope.iv_or_nonce.len(), 12);
        assert_eq!(envelope.aad, b"agent-1");
        assert_eq!(envelope.ciphertext.len(), plaintext.len() + 16);
        envelope.key_id = "test-key-v1".to_string();
        assert_eq!(decrypt(&envelope, &key).unwrap(), plaintext);
    }
}

#[test]
fn nonces_are_fresh() {
    let a = encrypt(b"same", &test_key(), aad(b"")).unwrap();
    let b = encrypt(b"same", &test_key(), aad(b"")).unwrap();
    assert_ne!(a.iv_or_nonce, b.iv_or_nonce);
    assert_ne!(a.ciphertext, b.ciphertext);
}

#[test]
fn ciphertext_is_that_of_aes_256_gcm() {
    // All-zero key and nonce, one block of zeros.
    let key = EncryptionKey::Aes256Gcm([0u8; 32]);
    let envelope = encrypt_with_nonce(&[0u8; 16], &key, aad(b""), &[0u8; 12]).unwrap();
    assert_eq!(
        envelope.ciphertext,
        vec![
            0xce, 0xa7, 0x40, 0x3d, 0x4d, 0x60, 0x6b, 0x6e, 0x07, 0x4e, 0xc5, 0xd3, 0xba, 0xf3,
            0x9d, 0x18, 0xd0, 0xd1, 0xc8, 0xa7, 0x99, 0x99, 0x6b, 0xf0, 0x26, 0x5b, 0x98, 0xb5,
            0xd4, 0x8a, 0xb9, 0x19,
        ]
    );
}

#[test]
fn changes_are_detected() {
    let key = test_key();
    let sealed = || encrypt(b"secret", &key, aad(b"agent-1")).unwrap();
    let mut changed = sealed();
    changed.ciphertext[0] ^= 1;
    assert!(matches!(decrypt(&changed, &key), Err(StateError::AesGcmError)));
    let mut rebound = sealed();
    rebound.aad = b"agent-2".to_vec();
    assert!(matches!(decrypt(&rebound, &key), Err(StateError::AesGcmError)));
    let mut moved = sealed();
    moved.iv_or_nonce[11] ^= 1;
    assert!(matches!(decrypt(&moved, &key), Err(StateError::AesGcmError)));
    let mut short = sealed();
    short.ciphertext.truncate(15);
    let refused = decrypt(&short, &key).unwrap_err();
    assert_eq!(
        refused.message(),
        "AES-GCM error: authentication tag mismatch or corrupted ciphertext"
    );
    let other = EncryptionKey::Aes256Gcm([0x43u8; 32]);
    assert!(matches!(decrypt(&sealed(), &other), Err(StateError::AesGcmError)));
}

#[test]
fn homomorphic_keys_are_refused() {
    let fhe = EncryptionKey::FheTfheRs(Box::new(vec![1, 2, 3]));
    assert_eq!(
        encrypt(b"x", &fhe, aad(b"")).unwrap_err().message(),
        "invalid input: FHE encryption not yet implemented — tracked for Phase 6"
    );
    let mut envelope = encrypt(b"x", &test_key(), aad(b"")).unwrap();
    envelope.scheme = EncryptionScheme::FheTfheRs;
    assert_eq!(
        decrypt(&envelope, &fhe).unwrap_err().message(),
        "invalid input: FHE decryption not yet implemented — tracked for Phase 6"
    );
}

#[test]
fn scheme_and_key_must_match() {
    let fhe = EncryptionKey::FheTfheRs(Box::new(Vec::new()));
    let mut envelope = encrypt(b"x", &test_key(), aad(b"")).unwrap();
    let mismatch = "invalid input: scheme/key type mismatch in encryption envelope";
    assert_eq!(decrypt(&envelope, &fhe).unwrap_err().message(), mismatch);
    envelope.scheme = EncryptionScheme::FheTfheRs;
    assert_eq!(decrypt(&envelope, &test_key()).unwrap_err().message(), mismatch);
    envelope.scheme = EncryptionScheme::Unrecognized(99);
    assert_eq!(decrypt(&envelope, &test_key()).unwrap_err().message(), mismatch);
}

#[test]
fn plaintext_envelope_opens_with_any_key() {
    let mut envelope = encrypt(b"x", &test_key(), aad(b"")).unwrap();
    envelope.scheme = EncryptionScheme::Plaintext;
    envelope.ciphertext = b"open".to_vec();
    assert_eq!(decrypt(&envelope, &test_key()).unwrap(), b"open");
    let fhe = EncryptionKey::FheTfheRs(Box::new(Vec::new()));
    assert_eq!(decrypt(&envelope, &fhe).unwrap(), b"open");
}
