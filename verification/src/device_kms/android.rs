//! The provider for platforms whose hardware key store is left unused.
//!
//! The hardware key store of these platforms is known to misbehave on a number
//! of devices, and application data there is out of the reach of other
//! applications anyway.  So this provider encrypts nothing; it only marks what
//! passes through it with the tag of a cipher scheme, so that a real scheme
//! can take over later without breaking what was written before.

use super::empty_aead::tag_prefix;
use super::empty_aead::EmptyAeadWithPrefixTag;
use super::DeviceKms;
use crate::encoding::is_prefix_of;
use crate::encoding::starts_with;
use crate::error::StorageError;
use vstd::prelude::*;

verus! {

/// The prefix of every key reference of this provider.
pub const ANDROID_URI_PREFIX: &'static str = "enkra-android-kms://version/1/";

/// The cipher schemes that a tag can stand for.
#[derive(Clone, Copy, Debug, PartialEq, Eq, Structural)]
pub enum CipherSchema {
    /// No encryption at all.
    NonEncryption,
    /// The hardware key store.  Not in use.
    AndroidKeyStore,
}

impl CipherSchema {
    /// The number that stands for the scheme in a tag.
    pub open spec fn spec_tag(self) -> u32 {
        match self {
            CipherSchema::NonEncryption => 0,
            CipherSchema::AndroidKeyStore => 1,
        }
    }

    pub fn tag(self) -> (t: u32)
        ensures
            t == self.spec_tag(),
    {
        match self {
            CipherSchema::NonEncryption => 0,
            CipherSchema::AndroidKeyStore => 1,
        }
    }
}

/// The scheme in use.
pub open spec fn primary_cipher_schema() -> CipherSchema {
    CipherSchema::NonEncryption
}

/// The key provider of these platforms.
pub struct AndroidKms;

impl AndroidKms {
    pub fn new() -> (kms: AndroidKms) {
        AndroidKms
    }
}

impl DeviceKms for AndroidKms {
    /// Always the bare prefix: there is no key material to refer to.
    fn new_key_uri(&self) -> (r: Result<String, StorageError>)
        ensures
            r matches Ok(uri) && uri@ == ANDROID_URI_PREFIX@ && AndroidKmsClient::spec_supported(
                uri@,
            ),
    {
        let uri = ANDROID_URI_PREFIX.to_owned();
        assert(uri@.subrange(0, uri@.len() as int) =~= uri@);
        Ok(uri)
    }
}

/// Resolves the key references of [`AndroidKms`].
pub struct AndroidKmsClient;

impl AndroidKmsClient {
    pub fn new() -> (client: AndroidKmsClient) {
        AndroidKmsClient
    }

    /// Whether `key_uri` carries the scheme of this provider.
    pub open spec fn spec_supported(key_uri: Seq<char>) -> bool {
        is_prefix_of(ANDROID_URI_PREFIX@, key_uri)
    }

    pub fn supported(&self, key_uri: &str) -> (b: bool)
        ensures
            b == Self::spec_supported(key_uri@),
    {
        starts_with(key_uri, ANDROID_URI_PREFIX)
    }

    /// The cipher behind `key_uri`: for every URI of this scheme the tagging
    /// pass-through cipher, with the tag of the scheme in use.
    pub fn get_aead(&self, key_uri: &str) -> (r: Result<EmptyAeadWithPrefixTag, StorageError>)
        ensures
            Self::spec_supported(key_uri@) ==> (r matches Ok(aead) && aead.prefix() == tag_prefix(
                primary_cipher_schema().spec_tag(),
            )),
            !Self::spec_supported(key_uri@) ==> r is Err && r->Err_0
                == StorageError::UnsupportedKeyReference,
    {
        if !self.supported(key_uri) {
            return Err(StorageError::UnsupportedKeyReference);
        }
        Ok(EmptyAeadWithPrefixTag::new(CipherSchema::NonEncryption.tag()))
    }
}

} // verus!
