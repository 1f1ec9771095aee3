//! The provider for platforms with a secure enclave.
//!
//! The enclave holds a P-256 private key.  To encrypt, the caller draws a
//! random public key, lets the enclave agree on a shared secret between its
//! private key and that public key, and hands both to [`SecureEnclaveAead`]:
//! the secret is stretched to a 32-byte key with HKDF-SHA-256, the key
//! encrypts the plaintext with XChaCha20-Poly1305, and the public key goes in
//! front of the ciphertext.  To decrypt, the caller takes the public key off
//! the front, lets the enclave agree on the same secret again, and the same
//! derivation opens the rest.

use super::ios_secure_enclave::SecureEnclaveP256Key;
use super::ios_secure_enclave::PUBLIC_KEY_SIZE;
use crate::encoding::base64_url_no_pad;
use crate::encoding::base64_url_no_pad_decoded;
use crate::encoding::is_prefix_of;
use crate::encoding::lemma_prefix_then_tail;
use crate::encoding::starts_with;
use crate::encoding::strip_prefix;
use crate::error::StorageError;
use crate::tink::hkdf_sha256;
use crate::tink::hkdf_sha256_expand;
use crate::tink::xchacha20poly1305_decrypt;
use crate::tink::xchacha20poly1305_encrypt;
use crate::tink::xchacha20poly1305_opened;
use crate::tink::X_CHA_CHA20_KEY_SIZE;
use crate::tink::X_CHA_CHA20_POLY1305_MAX_PLAINTEXT;
use crate::tink::X_CHA_CHA20_POLY1305_OVERHEAD;
use vstd::prelude::*;
use vstd::slice::slice_subrange;
use vstd::slice::slice_to_vec;
use vstd::string::StringExecFns;
use vstd::string::StringSliceAdditionalSpecFns;

verus! {

/// The prefix of every key reference of this provider.
pub const IOS_URI_PREFIX: &'static str = "enkra-ios-kms://version/1/";

/// The info string that binds derived keys to this use.
pub const KEY_DERIVATION_INFO: &'static str = "Enkra iOS SecureEnclave P256 Aead";

/// The key provider of these platforms.
pub struct IosKms;

impl IosKms {
    pub fn new() -> (kms: IosKms) {
        IosKms
    }

    /// The key reference for `key`, a key that the caller has just had the
    /// enclave create: the prefix of this provider, then the key in URL-safe
    /// base64 without padding.  The client of this provider resolves the
    /// reference to the same key.
    pub fn new_key_uri(&self, key: &SecureEnclaveP256Key) -> (uri: String)
        ensures
            uri@ == IOS_URI_PREFIX@ + base64_url_no_pad(key@),
            IosKmsClient::spec_supported(uri@),
            IosKmsClient::spec_key(uri@) == Some(key@),
    {
        let payload = key.encode_base64();
        let uri = IOS_URI_PREFIX.to_owned().concat(payload.as_str());
        proof {
            lemma_prefix_then_tail(IOS_URI_PREFIX@, payload@);
        }
        uri
    }
}

/// Resolves the key references of [`IosKms`].
pub struct IosKmsClient;

impl IosKmsClient {
    pub fn new() -> (client: IosKmsClient) {
        IosKmsClient
    }

    /// Whether `key_uri` carries the scheme of this provider.
    pub open spec fn spec_supported(key_uri: Seq<char>) -> bool {
        is_prefix_of(IOS_URI_PREFIX@, key_uri)
    }

    /// The payload of `key_uri`: what follows the prefix.
    pub open spec fn spec_payload(key_uri: Seq<char>) -> Seq<char> {
        key_uri.subrange(IOS_URI_PREFIX@.len() as int, key_uri.len() as int)
    }

    /// The key that `key_uri` refers to, where it is a reference of this
    /// provider and its payload can be decoded.
    pub open spec fn spec_key(key_uri: Seq<char>) -> Option<Seq<u8>> {
        if Self::spec_supported(key_uri) {
            base64_url_no_pad_decoded(Self::spec_payload(key_uri))
        } else {
            None
        }
    }

    pub fn supported(&self, key_uri: &str) -> (b: bool)
        ensures
            b == Self::spec_supported(key_uri@),
    {
        starts_with(key_uri, IOS_URI_PREFIX)
    }

    /// The cipher behind `key_uri`.  A URI of another scheme gives
    /// [`StorageError::UnsupportedKeyReference`], a payload that cannot be
    /// decoded [`StorageError::SerializationFailure`]; every other URI gives
    /// the cipher that is bound to the key in its payload.
    pub fn get_aead(&self, key_uri: &str) -> (r: Result<SecureEnclaveAead, StorageError>)
        ensures
            !Self::spec_supported(key_uri@) ==> r is Err && r->Err_0
                == StorageError::UnsupportedKeyReference,
            Self::spec_supported(key_uri@) ==> match Self::spec_key(key_uri@) {
                Some(key) => r matches Ok(aead) && aead.key_bytes() == key,
                None => r is Err && r->Err_0 == StorageError::SerializationFailure,
            },
    {
        match strip_prefix(key_uri, IOS_URI_PREFIX) {
            None => Err(StorageError::UnsupportedKeyReference),
            Some(payload) => {
                let key = SecureEnclaveP256Key::decode_base64(payload)?;
                Ok(SecureEnclaveAead::new(key))
            },
        }
    }
}

/// The envelope cipher of the enclave: P-256 key agreement inside the
/// enclave, HKDF-SHA-256, XChaCha20-Poly1305.
#[derive(Clone)]
pub struct SecureEnclaveAead {
    key: SecureEnclaveP256Key,
}

impl SecureEnclaveAead {
    /// The bytes of the enclave key that this cipher is bound to.
    pub closed spec fn key_bytes(&self) -> Seq<u8> {
        self.key@
    }

    pub fn new(key: SecureEnclaveP256Key) -> (aead: SecureEnclaveAead)
        ensures
            aead.key_bytes() == key@,
    {
        SecureEnclaveAead { key }
    }

    /// The enclave key that this cipher is bound to.  The caller needs it to
    /// ask the enclave for a shared secret.
    pub fn key(&self) -> (key: &SecureEnclaveP256Key)
        ensures
            key@ == self.key_bytes(),
    {
        &self.key
    }

    /// The symmetric key for a shared secret: the first 32 bytes of
    /// HKDF-SHA-256 over the secret, with an empty salt and the info string of
    /// this cipher.
    pub open spec fn spec_symmetric_key(shared_secret: Seq<u8>) -> Option<Seq<u8>> {
        hkdf_sha256(
            shared_secret,
            Seq::<u8>::empty(),
            KEY_DERIVATION_INFO.spec_bytes(),
            X_CHA_CHA20_KEY_SIZE,
        )
    }

    /// What [`Self::decrypt`] makes of a ciphertext, given the secret that the
    /// enclave shares with the public key in front of it.
    pub open spec fn spec_decrypt(shared_secret: Seq<u8>, ciphertext: Seq<u8>, ad: Seq<u8>) -> Result<
        Seq<u8>,
        StorageError,
    > {
        if ciphertext.len() < PUBLIC_KEY_SIZE {
            Err(StorageError::AuthenticationFailure)
        } else {
            match Self::spec_symmetric_key(shared_secret) {
                None => Err(StorageError::ProviderFailure),
                Some(key) => match xchacha20poly1305_opened(
                    key,
                    ciphertext.subrange(PUBLIC_KEY_SIZE as int, ciphertext.len() as int),
                    ad,
                ) {
                    Some(plaintext) => Ok(plaintext),
                    None => Err(StorageError::AuthenticationFailure),
                },
            }
        }
    }

    /// Derives the symmetric key for `shared_secret`.  The derivation cannot
    /// fail for a key of this length.
    pub fn symmetric_encryption_key(&self, shared_secret: &[u8]) -> (r: Result<
        Vec<u8>,
        StorageError,
    >)
        ensures
            r matches Ok(key) && Self::spec_symmetric_key(shared_secret@) == Some(key@)
                && key@.len() == X_CHA_CHA20_KEY_SIZE,
    {
        let salt: Vec<u8> = Vec::new();
        assert(salt@ =~= Seq::<u8>::empty());
        match hkdf_sha256_expand(
            shared_secret,
            salt.as_slice(),
            KEY_DERIVATION_INFO.as_bytes(),
            X_CHA_CHA20_KEY_SIZE,
        ) {
            Ok(key) => Ok(key),
            Err(_) => Err(StorageError::ProviderFailure),
        }
    }

    /// The public key in front of `ciphertext`, which the caller hands to the
    /// enclave to agree on the secret for [`Self::decrypt`].  A ciphertext
    /// that is too short to hold one gives
    /// [`StorageError::AuthenticationFailure`].
    pub fn sender_public_key<'a>(&self, ciphertext: &'a [u8]) -> (r: Result<&'a [u8], StorageError>)
        ensures
            ciphertext@.len() >= PUBLIC_KEY_SIZE ==> (r matches Ok(public_key) && public_key@
                == ciphertext@.subrange(0, PUBLIC_KEY_SIZE as int)),
            ciphertext@.len() < PUBLIC_KEY_SIZE ==> r is Err && r->Err_0
                == StorageError::AuthenticationFailure,
    {
        if ciphertext.len() < PUBLIC_KEY_SIZE {
            return Err(StorageError::AuthenticationFailure);
        }
        Ok(slice_subrange(ciphertext, 0, PUBLIC_KEY_SIZE))
    }

    /// Encrypts `plaintext` under the secret that the enclave shares with
    /// `public_key`, a public key that the caller drew for this one message.
    ///
    /// A public key of the wrong length is refused with
    /// [`StorageError::ProviderFailure`], as is a plaintext that the cipher
    /// does not take; with a public key of the right length every plaintext
    /// up to [`X_CHA_CHA20_POLY1305_MAX_PLAINTEXT`] bytes is encrypted.  The
    /// ciphertext is the public key, then what
    /// XChaCha20-Poly1305 wrote; [`Self::decrypt`] with the same secret and
    /// associated data gives the plaintext back.
    pub fn encrypt(
        &self,
        public_key: &[u8],
        shared_secret: &[u8],
        plaintext: &[u8],
        additional_data: &[u8],
    ) -> (r: Result<Vec<u8>, StorageError>)
        ensures
            public_key@.len() != PUBLIC_KEY_SIZE ==> r is Err,
            public_key@.len() == PUBLIC_KEY_SIZE && plaintext@.len()
                <= X_CHA_CHA20_POLY1305_MAX_PLAINTEXT ==> r is Ok,
            r matches Ok(c) ==> {
                &&& c@.len() == PUBLIC_KEY_SIZE + X_CHA_CHA20_POLY1305_OVERHEAD + plaintext@.len()
                &&& c@.subrange(0, PUBLIC_KEY_SIZE as int) == public_key@
                &&& Self::spec_decrypt(shared_secret@, c@, additional_data@) == Ok::<
                    Seq<u8>,
                    StorageError,
                >(plaintext@)
            },
            r matches Err(e) ==> e == StorageError::ProviderFailure,
    {
        if public_key.len() != PUBLIC_KEY_SIZE {
            return Err(StorageError::ProviderFailure);
        }
        let symmetric_key = self.symmetric_encryption_key(shared_secret)?;
        let sealed = match xchacha20poly1305_encrypt(
            symmetric_key.as_slice(),
            plaintext,
            additional_data,
        ) {
            Ok(sealed) => sealed,
            Err(_) => {
                return Err(StorageError::ProviderFailure);
            },
        };
        let mut ciphertext = slice_to_vec(public_key);
        ciphertext.extend_from_slice(sealed.as_slice());
        assert(ciphertext@.subrange(0, PUBLIC_KEY_SIZE as int) =~= public_key@);
        assert(ciphertext@.subrange(PUBLIC_KEY_SIZE as int, ciphertext@.len() as int)
            =~= sealed@);
        Ok(ciphertext)
    }

    /// Decrypts `ciphertext` under the secret that the enclave shares with
    /// the public key in front of it.
    ///
    /// Fails with [`StorageError::AuthenticationFailure`] where the
    /// ciphertext is shorter than a public key or does not pass
    /// authentication under the derived key and `additional_data`.
    pub fn decrypt(&self, shared_secret: &[u8], ciphertext: &[u8], additional_data: &[u8]) -> (r:
        Result<Vec<u8>, StorageError>)
        ensures
            match Self::spec_decrypt(shared_secret@, ciphertext@, additional_data@) {
                Ok(plaintext) => r matches Ok(p) && p@ == plaintext,
                Err(e) => r is Err && r->Err_0 == e,
            },
    {
        if ciphertext.len() < PUBLIC_KEY_SIZE {
            return Err(StorageError::AuthenticationFailure);
        }
        let symmetric_key = self.symmetric_encryption_key(shared_secret)?;
        match xchacha20poly1305_decrypt(
            symmetric_key.as_slice(),
            slice_subrange(ciphertext, PUBLIC_KEY_SIZE, ciphertext.len()),
            additional_data,
        ) {
            Ok(plaintext) => Ok(plaintext),
            Err(_) => Err(StorageError::AuthenticationFailure),
        }
    }
}

} // verus!
