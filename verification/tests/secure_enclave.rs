use secure_local_storage::device_kms::ios::SecureEnclaveAead;
use secure_local_storage::device_kms::ios::KEY_DERIVATION_INFO;
use secure_local_storage::device_kms::ios_secure_enclave::SecureEnclaveP256Key;
use secure_local_storage::device_kms::ios_secure_enclave::PUBLIC_KEY_SIZE;
use secure_local_storage::StorageError;

fn cipher() -> SecureEnclaveAead {
    SecureEnclaveAead::new(SecureEnclaveP256Key::from_bytes(vec![9u8; 48]))
}

fn public_key() -> Vec<u8> {
    let mut key = vec![4u8];
    key.extend((0u8..64).map(|i| i.wrapping_mul(3)));
    key
}

fn shared_secret() -> Vec<u8> {
    (0u8..32).collect()
}

#[test]
fn symmetric_key_is_hkdf_sha256_of_the_shared_secret() {
    assert_eq!(KEY_DERIVATION_INFO, "Enkra iOS SecureEnclave P256 Aead");
    let key = cipher().symmetric_encryption_key(&shared_secret()).unwrap();
    assert_eq!(
        key,
        vec![
            75u8, 84, 141, 136, 30, 116, 141, 243, 180, 232, 222, 141, 142, 119, 137, 126, 209,
            60, 140, 29, 168, 147, 146, 169, 144, 53, 7, 155, 209, 48, 169, 222
        ]
    );
}

#[test]
fn symmetric_key_depends_on_the_shared_secret() {
    let one = cipher().symmetric_encryption_key(&[1u8; 32]).unwrap();
    let two = cipher().symmetric_encryption_key(&[2u8; 32]).unwrap();
    assert_eq!(one.len(), 32);
    assert_eq!(two.len(), 32);
    assert_ne!(one, two);
    assert_ne!(one, vec![1u8; 32]);
}

#[test]
fn enclave_envelope_round_trip() {
    let aead = cipher();
    for (plaintext, ad) in [
        (&b""[..], &b""[..]),
        (&b"hello"[..], &b""[..]),
        (&b"hello"[..], &b"context"[..]),
        (&[0u8; 300][..], &[255u8; 7][..]),
    ] {
        let ciphertext = aead
            .encrypt(&public_key(), &shared_secret(), plaintext, ad)
            .unwrap();
        assert_eq!(
            aead.decrypt(&shared_secret(), &ciphertext, ad).unwrap(),
            plaintext.to_vec()
        );
    }
}

#[test]
fn enclave_ciphertext_is_public_key_then_sealed_plaintext() {
    let aead = cipher();
    let plaintext = b"some plaintext";
    let ciphertext = aead
        .encrypt(&public_key(), &shared_secret(), plaintext, b"ad")
        .unwrap();
    assert_eq!(ciphertext.len(), PUBLIC_KEY_SIZE + 40 + plaintext.len());
    assert_eq!(&ciphertext[..PUBLIC_KEY_SIZE], &public_key()[..]);
    assert_eq!(
        aead.sender_public_key(&ciphertext).unwrap(),
        &public_key()[..]
    );
    let body = &ciphertext[PUBLIC_KEY_SIZE..];
    assert!(!body.windows(plaintext.len()).any(|w| w == plaintext));
}

#[test]
fn enclave_encrypt_is_not_deterministic() {
    let aead = cipher();
    let one = aead
        .encrypt(&public_key(), &shared_secret(), b"same", b"ad")
        .unwrap();
    let two = aead
        .encrypt(&public_key(), &shared_secret(), b"same", b"ad")
        .unwrap();
    assert_ne!(one, two);
}

#[test]
fn enclave_encrypt_rejects_a_public_key_of_the_wrong_size() {
    let aead = cipher();
    assert_eq!(
        aead.encrypt(&[4u8; 64], &shared_secret(), b"x", &[]).err(),
        Some(StorageError::ProviderFailure)
    );
    assert_eq!(
        aead.encrypt(&[4u8; 66], &shared_secret(), b"x", &[]).err(),
        Some(StorageError::ProviderFailure)
    );
    assert_eq!(
        aead.encrypt(&[], &shared_secret(), b"x", &[]).err(),
        Some(StorageError::ProviderFailure)
    );
}

#[test]
fn enclave_decrypt_rejects_a_short_ciphertext() {
    let aead = cipher();
    assert_eq!(
        aead.decrypt(&shared_secret(), &[0u8; 64], &[]).err(),
        Some(StorageError::AuthenticationFailure)
    );
    assert_eq!(
        aead.decrypt(&shared_secret(), &[], &[]).err(),
        Some(StorageError::AuthenticationFailure)
    );
    assert_eq!(
        aead.sender_public_key(&[0u8; 64]).err(),
        Some(StorageError::AuthenticationFailure)
    );
    // A public key with nothing behind it is no ciphertext either.
    assert_eq!(
        aead.decrypt(&shared_secret(), &[0u8; 65], &[]).err(),
        Some(StorageError::AuthenticationFailure)
    );
}

#[test]
fn enclave_decrypt_detects_tampering() {
    let aead = cipher();
    let ciphertext = aead
        .encrypt(&public_key(), &shared_secret(), b"payload", b"ad")
        .unwrap();
    for position in [PUBLIC_KEY_SIZE, PUBLIC_KEY_SIZE + 24, ciphertext.len() - 1] {
        let mut tampered = ciphertext.clone();
        tampered[position] ^= 1;
        assert_eq!(
            aead.decrypt(&shared_secret(), &tampered, b"ad").err(),
            Some(StorageError::AuthenticationFailure)
        );
    }
    assert_eq!(
        aead.decrypt(&shared_secret(), &ciphertext, b"other").err(),
        Some(StorageError::AuthenticationFailure)
    );
    assert_eq!(
        aead.decrypt(&[7u8; 32], &ciphertext, b"ad").err(),
        Some(StorageError::AuthenticationFailure)
    );
}
