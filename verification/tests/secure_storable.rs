use secure_local_storage::SecureStorable;
use secure_local_storage::StorageError;

#[test]
fn string_is_stored_as_utf8() {
    let text = "gr\u{fc}\u{df}e \u{1f511}".to_owned();
    assert_eq!(SecureStorable::as_bytes(&text), text.as_str().as_bytes());
    assert_eq!(
        SecureStorable::as_bytes(&"abc".to_owned()),
        &[0x61u8, 0x62, 0x63][..]
    );
}

#[test]
fn string_round_trip() {
    for text in ["", "123", "gr\u{fc}\u{df}e", "\u{1f511} key"] {
        let value = text.to_owned();
        let back: String = SecureStorable::from_bytes(SecureStorable::as_bytes(&value)).unwrap();
        assert_eq!(back, value);
    }
}

#[test]
fn string_from_bytes_rejects_invalid_utf8() {
    let r: Result<String, StorageError> = SecureStorable::from_bytes(&[0xff, 0xfe]);
    assert_eq!(r.err(), Some(StorageError::SerializationFailure));
    let r: Result<String, StorageError> = SecureStorable::from_bytes(&[0xc3]);
    assert_eq!(r.err(), Some(StorageError::SerializationFailure));
    let r: Result<String, StorageError> = SecureStorable::from_bytes(&[0xed, 0xa0, 0x80]);
    assert_eq!(r.err(), Some(StorageError::SerializationFailure));
}

#[test]
fn string_from_bytes_reads_utf8() {
    let r: Result<String, StorageError> = SecureStorable::from_bytes(&[0xc3, 0xbc, 0x31]);
    assert_eq!(r.unwrap(), "\u{fc}1");
}

#[test]
fn byte_vector_is_stored_as_it_is() {
    let value: Vec<u8> = vec![0, 255, 1, 254];
    assert_eq!(SecureStorable::as_bytes(&value), &[0u8, 255, 1, 254][..]);
    let back: Vec<u8> = SecureStorable::from_bytes(&[0u8, 255, 1, 254]).unwrap();
    assert_eq!(back, value);
    let empty: Vec<u8> = SecureStorable::from_bytes(&[]).unwrap();
    assert_eq!(empty, Vec::<u8>::new());
}

#[test]
fn error_messages() {
    assert_eq!(StorageError::ReservedKeyViolation.message(), "preserve key");
    assert_eq!(StorageError::UnsupportedKeyReference.message(), "unsupported key_uri");
    assert_eq!(StorageError::AuthenticationFailure.message(), "invalid ciphertext");
    assert_ne!(
        StorageError::ProviderFailure.message(),
        StorageError::PersistenceFailure.message()
    );
    assert_ne!(
        StorageError::SerializationFailure.message(),
        StorageError::PersistenceFailure.message()
    );
}
