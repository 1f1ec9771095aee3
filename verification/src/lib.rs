//! Key management and envelope encryption for a small on-device secret store.
//!
//! The crate has two layers.  [`device_kms`] holds the per-platform key
//! providers: each one mints a key reference URI, recognises the URIs of its
//! own scheme and resolves them to the cipher that stands behind them.
//! [`secure_local_storage`] is the key-value store built on top: it bootstraps a
//! master key, a key-name keyset and a value keyset, and encrypts both the
//! names and the contents of the entries it keeps in a durable map.
//!
//! Nothing in this crate touches the file system.  Callers load and persist the
//! durable map and the master key file themselves and hand their contents in
//! and out as plain values.

pub mod device_kms;
pub mod durable_map;
pub mod encoding;
pub mod error;
pub mod secure_local_storage;
pub mod tink;

pub use error::StorageError;
pub use secure_local_storage::{SecureLocalStorage, SecureStorable};
