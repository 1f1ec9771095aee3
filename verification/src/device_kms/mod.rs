//! Device key management: the providers of the root encryption capability.
//!
//! A provider mints key reference URIs of the form
//! `scheme://version/<n>/<payload>`; the client that belongs to it recognises
//! those URIs by their prefix and resolves them to a cipher.  There is one
//! provider for each kind of platform: [`fallback`] for platforms without
//! secure hardware, [`android`] for platforms whose hardware key store is
//! deliberately left unused, and [`ios`] for platforms with a secure enclave.

use crate::error::StorageError;
use android::AndroidKmsClient;
use fallback::FallbackKmsClient;
use ios::IosKmsClient;
use vstd::prelude::*;

pub mod android;
pub mod empty_aead;
pub mod fallback;
pub mod ios;
pub mod ios_secure_enclave;

pub use empty_aead::{EmptyAead, EmptyAeadWithPrefixTag};

verus! {

/// A source of key reference URIs.
///
/// Implementations that sit on hardware may mint fresh key material with every
/// call, so callers must not expect two calls to return the same URI.  A call
/// fails only where the hardware or the operating system does.
pub trait DeviceKms {
    fn new_key_uri(&self) -> Result<String, StorageError>;
}

/// A key reference belongs to at most one provider: no URI carries the prefix
/// of two of them.
pub proof fn lemma_schemes_are_disjoint(key_uri: Seq<char>)
    ensures
        !(FallbackKmsClient::spec_supported(key_uri) && AndroidKmsClient::spec_supported(key_uri)),
        !(FallbackKmsClient::spec_supported(key_uri) && IosKmsClient::spec_supported(key_uri)),
        !(AndroidKmsClient::spec_supported(key_uri) && IosKmsClient::spec_supported(key_uri)),
{
    reveal_strlit("enkra-fallback-kms://");
    reveal_strlit("enkra-android-kms://version/1/");
    reveal_strlit("enkra-ios-kms://version/1/");
    let fallback = fallback::FALLBACK_URI_PREFIX@;
    let android = android::ANDROID_URI_PREFIX@;
    let ios = ios::IOS_URI_PREFIX@;
    if FallbackKmsClient::spec_supported(key_uri) {
        assert(key_uri[6] == key_uri.subrange(0, fallback.len() as int)[6]);
        assert(key_uri[6] == 'f');
    }
    if AndroidKmsClient::spec_supported(key_uri) {
        assert(key_uri[6] == key_uri.subrange(0, android.len() as int)[6]);
        assert(key_uri[6] == 'a');
    }
    if IosKmsClient::spec_supported(key_uri) {
        assert(key_uri[6] == key_uri.subrange(0, ios.len() as int)[6]);
        assert(key_uri[6] == 'i');
    }
}

} // verus!
