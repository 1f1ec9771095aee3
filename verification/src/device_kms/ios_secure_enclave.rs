//! Key material of the secure enclave, as this crate sees it: bytes that only
//! the enclave can use.
//!
//! Creating a key in the enclave, drawing a random public key and agreeing on
//! a shared secret are calls into the platform.  This module holds what
//! surrounds them: how a key travels inside a key reference URI.

use crate::encoding::base64_url_no_pad;
use crate::encoding::base64_url_no_pad_decoded;
use crate::encoding::decode_url_no_pad;
use crate::encoding::encode_url_no_pad;
use crate::error::StorageError;
use vstd::prelude::*;

verus! {

/// Length of a P-256 public key in ANSI X9.63 representation: one byte for the
/// form, then the two coordinates.
pub const PUBLIC_KEY_SIZE: usize = 65;

/// A reference to a P-256 key that lives in the secure enclave.  The bytes are
/// what the enclave exported; the private key itself never leaves it.
#[derive(Clone)]
pub struct SecureEnclaveP256Key {
    key: Vec<u8>,
}

impl View for SecureEnclaveP256Key {
    type V = Seq<u8>;

    closed spec fn view(&self) -> Seq<u8> {
        self.key@
    }
}

impl SecureEnclaveP256Key {
    /// Wraps the bytes that the enclave exported for a key.
    pub fn from_bytes(key: Vec<u8>) -> (k: SecureEnclaveP256Key)
        ensures
            k@ == key@,
    {
        SecureEnclaveP256Key { key }
    }

    /// The bytes that the enclave exported for this key.
    pub fn as_bytes(&self) -> (bytes: &[u8])
        ensures
            bytes@ == self@,
    {
        self.key.as_slice()
    }

    /// The key as it stands in a key reference URI: URL-safe base64 without
    /// padding.
    pub fn encode_base64(&self) -> (text: String)
        ensures
            text@ == base64_url_no_pad(self@),
            base64_url_no_pad_decoded(text@) == Some(self@),
    {
        encode_url_no_pad(self.key.as_slice())
    }

    /// Reads a key out of the payload of a key reference URI.  Fails with
    /// [`StorageError::SerializationFailure`] exactly where `key` is not
    /// URL-safe base64 without padding.
    pub fn decode_base64(key: &str) -> (r: Result<SecureEnclaveP256Key, StorageError>)
        ensures
            match base64_url_no_pad_decoded(key@) {
                Some(bytes) => r matches Ok(k) && k@ == bytes,
                None => r is Err && r->Err_0 == StorageError::SerializationFailure,
            },
    {
        match decode_url_no_pad(key) {
            Ok(key) => Ok(SecureEnclaveP256Key { key }),
            Err(_) => Err(StorageError::SerializationFailure),
        }
    }
}

} // verus!
