use vstd::prelude::*;

verus! {

/// The ways in which an operation of this crate can fail.
#[derive(Clone, Copy, Debug, PartialEq, Eq, Structural)]
pub enum StorageError {
    /// A key reference URI does not carry the scheme of the provider that was
    /// asked to resolve it.
    UnsupportedKeyReference,
    /// A provider or a cipher could not mint, resolve or use a key.
    ProviderFailure,
    /// A ciphertext did not pass authentication: it was tampered with, sealed
    /// under another key, or is too short to be a ciphertext at all.
    AuthenticationFailure,
    /// Keyset or value bytes do not have the shape that was expected of them.
    SerializationFailure,
    /// A caller tried to store a value under a name that the store keeps for
    /// itself.
    ReservedKeyViolation,
    /// The durable map refused a write.
    PersistenceFailure,
}

impl StorageError {
    /// The text that describes each kind of error.
    pub open spec fn spec_message(self) -> Seq<char> {
        match self {
            StorageError::UnsupportedKeyReference => "unsupported key_uri"@,
            StorageError::ProviderFailure => "key provider failure"@,
            StorageError::AuthenticationFailure => "invalid ciphertext"@,
            StorageError::SerializationFailure => "malformed keyset or value"@,
            StorageError::ReservedKeyViolation => "preserve key"@,
            StorageError::PersistenceFailure => "durable map write failed"@,
        }
    }

    /// A short description of the error, for logs and messages.
    pub fn message(&self) -> (text: &'static str)
        ensures
            text@ == self.spec_message(),
    {
        match self {
            StorageError::UnsupportedKeyReference => "unsupported key_uri",
            StorageError::ProviderFailure => "key provider failure",
            StorageError::AuthenticationFailure => "invalid ciphertext",
            StorageError::SerializationFailure => "malformed keyset or value",
            StorageError::ReservedKeyViolation => "preserve key",
            StorageError::PersistenceFailure => "durable map write failed",
        }
    }
}

} // verus!
