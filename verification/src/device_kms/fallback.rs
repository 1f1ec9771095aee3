//! The provider for platforms without secure hardware.  Its key reference has
//! no payload and resolves to the pass-through cipher.

use super::empty_aead::EmptyAead;
use super::DeviceKms;
use crate::encoding::is_prefix_of;
use crate::encoding::starts_with;
use crate::error::StorageError;
use vstd::prelude::*;

verus! {

/// The prefix of every key reference of this provider.
pub const FALLBACK_URI_PREFIX: &'static str = "enkra-fallback-kms://";

/// A key provider that does nothing.
pub struct EmptyKms;

impl EmptyKms {
    pub fn new() -> (kms: EmptyKms) {
        EmptyKms
    }
}

impl DeviceKms for EmptyKms {
    /// Always the bare scheme: there is no key material to refer to.
    fn new_key_uri(&self) -> (r: Result<String, StorageError>)
        ensures
            r matches Ok(uri) && uri@ == FALLBACK_URI_PREFIX@ && FallbackKmsClient::spec_supported(
                uri@,
            ),
    {
        let uri = FALLBACK_URI_PREFIX.to_owned();
        assert(uri@.subrange(0, uri@.len() as int) =~= uri@);
        Ok(uri)
    }
}

/// Resolves the key references of [`EmptyKms`].
pub struct FallbackKmsClient;

impl FallbackKmsClient {
    pub fn new() -> (client: FallbackKmsClient) {
        FallbackKmsClient
    }

    /// Whether `key_uri` carries the scheme of this provider.
    pub open spec fn spec_supported(key_uri: Seq<char>) -> bool {
        is_prefix_of(FALLBACK_URI_PREFIX@, key_uri)
    }

    pub fn supported(&self, key_uri: &str) -> (b: bool)
        ensures
            b == Self::spec_supported(key_uri@),
    {
        starts_with(key_uri, FALLBACK_URI_PREFIX)
    }

    /// The cipher behind `key_uri`: the pass-through cipher for every URI of
    /// this scheme, whatever follows the prefix.
    pub fn get_aead(&self, key_uri: &str) -> (r: Result<EmptyAead, StorageError>)
        ensures
            Self::spec_supported(key_uri@) ==> r is Ok,
            !Self::spec_supported(key_uri@) ==> r == Err::<EmptyAead, StorageError>(
                StorageError::UnsupportedKeyReference,
            ),
    {
        if !self.supported(key_uri) {
            return Err(StorageError::UnsupportedKeyReference);
        }
        Ok(EmptyAead::new())
    }
}

} // verus!
