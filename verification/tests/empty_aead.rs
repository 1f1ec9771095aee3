use secure_local_storage::device_kms::empty_aead::EmptyAead;
use secure_local_storage::device_kms::empty_aead::EmptyAeadWithPrefixTag;
use secure_local_storage::device_kms::empty_aead::TAG_SIZE;
use tink_core::Aead;

#[test]
fn device_kms_test_empty_aead_with_prefix_tag() {
    let aead = EmptyAeadWithPrefixTag::new(0);

    let plaintext = tink_core::subtle::random::get_random_bytes(128);

    let ciphertext = aead.encrypt(&plaintext, &[]).unwrap();

    let new_text = aead.decrypt(&ciphertext, &[]).unwrap();

    assert_eq!(plaintext, new_text);
}

#[test]
fn empty_aead_test_empty_aead_with_prefix_tag() {
    let aead = EmptyAeadWithPrefixTag::new(0);

    let plaintext = tink_core::subtle::random::get_random_bytes(128);

    let ciphertext = aead.encrypt(&plaintext, &[]).unwrap();

    let new_text = aead.decrypt(&ciphertext, &[]).unwrap();

    assert_eq!(plaintext, new_text);
}

#[test]
fn prefix_tag_is_start_byte_then_big_endian_tag() {
    assert_eq!(TAG_SIZE, 5);
    assert_eq!(EmptyAeadWithPrefixTag::new(0).tag_bytes(), vec![1u8, 0, 0, 0, 0]);
    assert_eq!(EmptyAeadWithPrefixTag::new(1).tag_bytes(), vec![1u8, 0, 0, 0, 1]);
    assert_eq!(
        EmptyAeadWithPrefixTag::new(0x0102_0304).tag_bytes(),
        vec![1u8, 1, 2, 3, 4]
    );
    assert_eq!(
        EmptyAeadWithPrefixTag::new(u32::MAX).tag_bytes(),
        vec![1u8, 255, 255, 255, 255]
    );
}

#[test]
fn prefix_tag_encrypt_puts_the_tag_in_front() {
    let aead = EmptyAeadWithPrefixTag::new(0x0a0b_0c0d);
    let ciphertext = aead.encrypt(b"abc", b"ignored").unwrap();
    assert_eq!(ciphertext, vec![1u8, 0x0a, 0x0b, 0x0c, 0x0d, b'a', b'b', b'c']);
}

#[test]
fn prefix_tag_encrypt_of_nothing_is_the_tag() {
    let aead = EmptyAeadWithPrefixTag::new(7);
    assert_eq!(aead.encrypt(&[], &[]).unwrap(), vec![1u8, 0, 0, 0, 7]);
    assert_eq!(aead.decrypt(&[1u8, 0, 0, 0, 7], &[]).unwrap(), Vec::<u8>::new());
}

#[test]
fn prefix_tag_decrypt_rejects_truncated_input() {
    let aead = EmptyAeadWithPrefixTag::new(0);
    assert!(aead.decrypt(&[], &[]).is_err());
    assert!(aead.decrypt(&[1u8, 0, 0, 0], &[]).is_err());
}

#[test]
fn prefix_tag_decrypt_rejects_another_tag() {
    let aead = EmptyAeadWithPrefixTag::new(0);
    assert!(aead.decrypt(&[1u8, 0, 0, 0, 1, 42], &[]).is_err());
    assert!(aead.decrypt(&[2u8, 0, 0, 0, 0, 42], &[]).is_err());
    let other = EmptyAeadWithPrefixTag::new(1);
    let ciphertext = other.encrypt(b"payload", &[]).unwrap();
    assert!(aead.decrypt(&ciphertext, &[]).is_err());
    assert_eq!(other.decrypt(&ciphertext, &[]).unwrap(), b"payload".to_vec());
}

#[test]
fn prefix_tag_ignores_associated_data() {
    let aead = EmptyAeadWithPrefixTag::new(0);
    let ciphertext = aead.encrypt(b"payload", b"one").unwrap();
    assert_eq!(aead.decrypt(&ciphertext, b"two").unwrap(), b"payload".to_vec());
}

#[test]
fn empty_aead_returns_its_input() {
    let aead = EmptyAead::new();
    let plaintext = tink_core::subtle::random::get_random_bytes(64);
    let ciphertext = aead.encrypt(&plaintext, b"ad").unwrap();
    assert_eq!(ciphertext, plaintext);
    assert_eq!(aead.decrypt(&ciphertext, b"other").unwrap(), plaintext);
    assert_eq!(aead.encrypt(&[], &[]).unwrap(), Vec::<u8>::new());
}

#[test]
fn empty_aead_works_as_a_boxed_tink_primitive() {
    let aead: Box<dyn Aead> = Box::new(EmptyAead::new());
    let copy = aead.box_clone();
    assert_eq!(copy.encrypt(b"xyz", &[]).unwrap(), b"xyz".to_vec());
    let tagged: Box<dyn Aead> = Box::new(EmptyAeadWithPrefixTag::new(3));
    assert_eq!(
        tagged.box_clone().encrypt(b"xyz", &[]).unwrap(),
        vec![1u8, 0, 0, 0, 3, b'x', b'y', b'z']
    );
}
