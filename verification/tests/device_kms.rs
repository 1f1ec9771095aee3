use secure_local_storage::device_kms::android::AndroidKms;
use secure_local_storage::device_kms::android::AndroidKmsClient;
use secure_local_storage::device_kms::android::CipherSchema;
use secure_local_storage::device_kms::android::ANDROID_URI_PREFIX;
use secure_local_storage::device_kms::fallback::EmptyKms;
use secure_local_storage::device_kms::fallback::FallbackKmsClient;
use secure_local_storage::device_kms::fallback::FALLBACK_URI_PREFIX;
use secure_local_storage::device_kms::ios::IosKms;
use secure_local_storage::device_kms::ios::IosKmsClient;
use secure_local_storage::device_kms::ios::IOS_URI_PREFIX;
use secure_local_storage::device_kms::ios_secure_enclave::SecureEnclaveP256Key;
use secure_local_storage::device_kms::ios_secure_enclave::PUBLIC_KEY_SIZE;
use secure_local_storage::device_kms::DeviceKms;
use secure_local_storage::StorageError;
use tink_core::Aead;

#[test]
fn fallback_key_uri_is_the_bare_scheme() {
    let kms = EmptyKms::new();
    assert_eq!(kms.new_key_uri().unwrap(), "enkra-fallback-kms://");
    assert_eq!(FALLBACK_URI_PREFIX, "enkra-fallback-kms://");
}

#[test]
fn fallback_client_supports_its_own_scheme_only() {
    let client = FallbackKmsClient::new();
    assert!(client.supported("enkra-fallback-kms://"));
    assert!(client.supported("enkra-fallback-kms://version/1/anything"));
    assert!(!client.supported("enkra-fallback-kms:/"));
    assert!(!client.supported(""));
    assert!(!client.supported("enkra-android-kms://version/1/"));
    assert!(!client.supported("enkra-ios-kms://version/1/"));
    assert!(!client.supported(" enkra-fallback-kms://"));
}

#[test]
fn fallback_client_resolves_to_the_pass_through_cipher() {
    let client = FallbackKmsClient::new();
    let uri = EmptyKms::new().new_key_uri().unwrap();
    let aead = client.get_aead(&uri).unwrap();
    assert_eq!(aead.encrypt(b"secret", b"ad").unwrap(), b"secret".to_vec());
    assert_eq!(aead.decrypt(b"secret", b"ad").unwrap(), b"secret".to_vec());
}

#[test]
fn fallback_client_rejects_other_schemes() {
    let client = FallbackKmsClient::new();
    assert_eq!(
        client.get_aead("enkra-test-kms://").err(),
        Some(StorageError::UnsupportedKeyReference)
    );
    assert_eq!(
        client.get_aead("").err(),
        Some(StorageError::UnsupportedKeyReference)
    );
}

#[test]
fn android_key_uri_is_the_bare_prefix() {
    let kms = AndroidKms::new();
    assert_eq!(kms.new_key_uri().unwrap(), "enkra-android-kms://version/1/");
    assert_eq!(ANDROID_URI_PREFIX, "enkra-android-kms://version/1/");
}

#[test]
fn android_client_supports_its_own_scheme_only() {
    let client = AndroidKmsClient::new();
    assert!(client.supported("enkra-android-kms://version/1/"));
    assert!(client.supported("enkra-android-kms://version/1/payload"));
    assert!(!client.supported("enkra-android-kms://version/2/"));
    assert!(!client.supported("enkra-android-kms://"));
    assert!(!client.supported("enkra-fallback-kms://"));
}

#[test]
fn android_client_resolves_to_the_tagging_cipher() {
    let client = AndroidKmsClient::new();
    let uri = AndroidKms::new().new_key_uri().unwrap();
    let aead = client.get_aead(&uri).unwrap();
    assert_eq!(aead.tag_bytes(), vec![1u8, 0, 0, 0, 0]);
    let ciphertext = aead.encrypt(b"secret", &[]).unwrap();
    assert_eq!(ciphertext, vec![1u8, 0, 0, 0, 0, b's', b'e', b'c', b'r', b'e', b't']);
    assert_eq!(aead.decrypt(&ciphertext, &[]).unwrap(), b"secret".to_vec());
    assert!(aead.decrypt(b"secret", &[]).is_err());
}

#[test]
fn android_client_rejects_other_schemes() {
    let client = AndroidKmsClient::new();
    assert_eq!(
        client.get_aead("enkra-fallback-kms://").err(),
        Some(StorageError::UnsupportedKeyReference)
    );
}

#[test]
fn cipher_schema_tags() {
    assert_eq!(CipherSchema::NonEncryption.tag(), 0);
    assert_eq!(CipherSchema::AndroidKeyStore.tag(), 1);
}

#[test]
fn ios_key_uri_carries_the_key_in_url_safe_base64() {
    let key = SecureEnclaveP256Key::from_bytes(vec![0xfb, 0xff, 0x00, 0x10]);
    assert_eq!(key.encode_base64(), "-_8AEA");
    let uri = IosKms::new().new_key_uri(&key);
    assert_eq!(uri, "enkra-ios-kms://version/1/-_8AEA");
    assert_eq!(IOS_URI_PREFIX, "enkra-ios-kms://version/1/");
}

#[test]
fn ios_key_uri_of_an_empty_key_is_the_bare_prefix() {
    let key = SecureEnclaveP256Key::from_bytes(Vec::new());
    assert_eq!(IosKms::new().new_key_uri(&key), "enkra-ios-kms://version/1/");
}

#[test]
fn ios_client_resolves_a_minted_uri_to_the_same_key() {
    let bytes = tink_core::subtle::random::get_random_bytes(97);
    let key = SecureEnclaveP256Key::from_bytes(bytes.clone());
    let uri = IosKms::new().new_key_uri(&key);
    let client = IosKmsClient::new();
    assert!(client.supported(&uri));
    let aead = client.get_aead(&uri).unwrap();
    assert_eq!(aead.key().as_bytes(), &bytes[..]);
}

#[test]
fn ios_client_supports_its_own_scheme_only() {
    let client = IosKmsClient::new();
    assert!(client.supported("enkra-ios-kms://version/1/"));
    assert!(client.supported("enkra-ios-kms://version/1/AAAA"));
    assert!(!client.supported("enkra-ios-kms://version/1"));
    assert!(!client.supported("enkra-android-kms://version/1/AAAA"));
    assert!(!client.supported("enkra-fallback-kms://"));
}

#[test]
fn ios_client_rejects_other_schemes() {
    let client = IosKmsClient::new();
    assert_eq!(
        client.get_aead("enkra-android-kms://version/1/AAAA").err(),
        Some(StorageError::UnsupportedKeyReference)
    );
    assert_eq!(
        client.get_aead("").err(),
        Some(StorageError::UnsupportedKeyReference)
    );
}

#[test]
fn ios_client_rejects_a_malformed_payload() {
    let client = IosKmsClient::new();
    assert_eq!(
        client.get_aead("enkra-ios-kms://version/1/not base64!").err(),
        Some(StorageError::SerializationFailure)
    );
    // The standard alphabet is not part of the encoding.
    assert_eq!(
        client.get_aead("enkra-ios-kms://version/1/+/8A").err(),
        Some(StorageError::SerializationFailure)
    );
}

#[test]
fn secure_enclave_key_decodes_what_it_encodes() {
    let key = SecureEnclaveP256Key::decode_base64("-_8AEA").unwrap();
    assert_eq!(key.as_bytes(), &[0xfbu8, 0xff, 0x00, 0x10][..]);
    assert_eq!(key.encode_base64(), "-_8AEA");
    assert_eq!(
        SecureEnclaveP256Key::decode_base64("-_8A*A").err(),
        Some(StorageError::SerializationFailure)
    );
    assert_eq!(PUBLIC_KEY_SIZE, 65);
}

#[test]
fn minted_uris_belong_to_one_provider_each() {
    let fallback = EmptyKms::new().new_key_uri().unwrap();
    let android = AndroidKms::new().new_key_uri().unwrap();
    let ios = IosKms::new().new_key_uri(&SecureEnclaveP256Key::from_bytes(vec![1, 2, 3]));
    for (uri, owner) in [(&fallback, 0), (&android, 1), (&ios, 2)] {
        assert_eq!(FallbackKmsClient::new().supported(uri), owner == 0);
        assert_eq!(AndroidKmsClient::new().supported(uri), owner == 1);
        assert_eq!(IosKmsClient::new().supported(uri), owner == 2);
    }
}
