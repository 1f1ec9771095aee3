//! The secure local store: a key-value store that encrypts the names and the
//! contents of its entries.
//!
//! The store keeps three keys.  The master key is an envelope key: it wraps
//! what it protects with a fresh data key and wraps that data key with the
//! cipher behind a key reference URI of the device key provider.  The
//! key-name keyset belongs to a deterministic cipher, which turns a key name
//! into the name of the entry that holds its value; the value keyset belongs
//! to a randomized cipher, which encrypts the value with the encrypted name as
//! associated data, so that a ciphertext cannot be moved to another entry.
//! Both keysets are kept in the durable map, wrapped under the master key.

use crate::device_kms::DeviceKms;
use crate::durable_map::get_bytes;
use crate::durable_map::get_number;
use crate::durable_map::set_bytes;
use crate::durable_map::set_number;
use crate::durable_map::stored_bytes;
use crate::durable_map::stored_numbers;
use crate::durable_map::writes_on_request;
use crate::encoding::base64_standard;
use crate::encoding::encode_standard;
use crate::encoding::lemma_utf8_is_injective;
use crate::encoding::same_text;
use crate::encoding::string_from_utf8;
use crate::error::StorageError;
use crate::tink::aead_decrypt;
use crate::tink::aead_encrypt;
use crate::tink::aead_opened;
use crate::tink::aead_primitive;
use crate::tink::daead_encrypt;
use crate::tink::daead_primitive;
use crate::tink::daead_sealed;
use crate::tink::aead_of;
use crate::tink::all_computed_locally;
use crate::tink::computes_locally;
use crate::tink::daead_of;
use crate::tink::key_types;
use crate::tink::key_uri;
use crate::tink::keyset_in_clear;
use crate::tink::keyset_key_types;
use crate::tink::keyset_key_uri;
use crate::tink::kms_client_registered;
use crate::tink::new_envelope_keyset;
use crate::tink::read_keyset;
use crate::tink::read_keyset_in_clear;
use crate::tink::write_keyset;
use crate::tink::write_keyset_in_clear;
use crate::tink::AES_SIV_KEY_TYPE;
use crate::tink::KMS_ENVELOPE_KEY_TYPE;
use crate::tink::X_CHA_CHA20_POLY1305_KEY_TYPE;
use vstd::prelude::*;
use vstd::slice::slice_to_vec;
use vstd::utf8::decode_utf8_encode_utf8;
use vstd::utf8::encode_utf8;
use vstd::utf8::encode_utf8_valid_utf8;
use vstd::utf8::valid_utf8;

verus! {

/// The name under which the key-name keyset is kept.
pub const KEY_KEYSET_ALIAS: &'static str = "__secure_local_storage_kms_protected_key_keyset__";

/// The name under which the value keyset is kept.
pub const VALUE_KEYSET_ALIAS: &'static str = "__secure_local_storage_kms_protected_value_keyset__";

/// The name under which the version marker is kept.
pub const VERSION_KEY: &'static str = "__secure_local_storage_version__";

/// The version that a new store starts with.
pub const INITIAL_VERSION: u64 = 1;

/// Whether `key` is one of the names that the store keeps for itself.
pub open spec fn is_reserved_key(key: Seq<char>) -> bool {
    key == KEY_KEYSET_ALIAS@ || key == VALUE_KEYSET_ALIAS@ || key == VERSION_KEY@
}

/// A value that can be kept in the store: one that knows its bytes and can be
/// read back from them.
pub trait SecureStorable: Sized {
    /// The bytes that stand for the value.
    spec fn stored(&self) -> Seq<u8>;

    /// Whether `bytes` stand for a value of this type.
    spec fn readable(bytes: Seq<u8>) -> bool;

    fn as_bytes(&self) -> (bytes: &[u8])
        ensures
            bytes@ == self.stored(),
    ;

    /// Reads a value back from its bytes.  Fails with
    /// [`StorageError::SerializationFailure`] exactly where the bytes do not
    /// stand for a value.
    fn from_bytes(bytes: &[u8]) -> (r: Result<Self, StorageError>)
        ensures
            Self::readable(bytes@) ==> (r matches Ok(value) && value.stored() == bytes@),
            !Self::readable(bytes@) ==> (r matches Err(e) && e
                == StorageError::SerializationFailure),
    ;

    /// The bytes of a value can always be read back.
    proof fn lemma_stored_is_readable(&self)
        ensures
            Self::readable(self.stored()),
    ;
}

impl SecureStorable for String {
    /// The UTF-8 encoding of the text.
    open spec fn stored(&self) -> Seq<u8> {
        encode_utf8(self@)
    }

    open spec fn readable(bytes: Seq<u8>) -> bool {
        valid_utf8(bytes)
    }

    fn as_bytes(&self) -> (bytes: &[u8]) {
        self.as_str().as_bytes()
    }

    fn from_bytes(bytes: &[u8]) -> (r: Result<Self, StorageError>) {
        match string_from_utf8(slice_to_vec(bytes)) {
            Ok(text) => {
                proof {
                    decode_utf8_encode_utf8(bytes@);
                }
                Ok(text)
            },
            Err(_) => Err(StorageError::SerializationFailure),
        }
    }

    proof fn lemma_stored_is_readable(&self) {
        encode_utf8_valid_utf8(self@);
    }
}

impl SecureStorable for Vec<u8> {
    /// The bytes themselves.
    open spec fn stored(&self) -> Seq<u8> {
        self@
    }

    open spec fn readable(bytes: Seq<u8>) -> bool {
        true
    }

    fn as_bytes(&self) -> (bytes: &[u8]) {
        self.as_slice()
    }

    fn from_bytes(bytes: &[u8]) -> (r: Result<Self, StorageError>) {
        Ok(slice_to_vec(bytes))
    }

    proof fn lemma_stored_is_readable(&self) {
    }
}

/// The name of the durable-map entry for a reserved name or an encrypted key
/// name: its standard base64 encoding.
pub open spec fn entry_name(name: Seq<u8>) -> Seq<char> {
    base64_standard(name)
}

/// The name of the durable-map entry for the reserved name `alias`.
pub open spec fn reserved_entry(alias: Seq<char>) -> Seq<char> {
    entry_name(encode_utf8(alias))
}

/// Whether the entry for the reserved name `alias` is the entry of no other
/// name.
pub open spec fn sole_alias(alias: Seq<char>) -> bool {
    forall|other: Seq<char>| other != alias ==> #[trigger] reserved_entry(other) != reserved_entry(alias)
}

/// Computes the name of the durable-map entry for a reserved name.
fn reserved_entry_name(alias: &str) -> (name: String)
    ensures
        name@ == reserved_entry(alias@),
        sole_alias(alias@),
{
    let name = encode_standard(alias.as_bytes());
    assert forall|other: Seq<char>| other != alias@ implies #[trigger] reserved_entry(other)
        != reserved_entry(alias@) by {
        if encode_utf8(other) == encode_utf8(alias@) {
            lemma_utf8_is_injective(other, alias@);
        }
        assert(base64_standard(encode_utf8(other)) != name@);
    }
    name
}

/// The three reserved names have three different entries.
proof fn lemma_reserved_entries_differ()
    requires
        sole_alias(KEY_KEYSET_ALIAS@),
        sole_alias(VALUE_KEYSET_ALIAS@),
    ensures
        reserved_entry(VERSION_KEY@) != reserved_entry(KEY_KEYSET_ALIAS@),
        reserved_entry(VERSION_KEY@) != reserved_entry(VALUE_KEYSET_ALIAS@),
        reserved_entry(KEY_KEYSET_ALIAS@) != reserved_entry(VALUE_KEYSET_ALIAS@),
{
    reveal_strlit("__secure_local_storage_kms_protected_key_keyset__");
    reveal_strlit("__secure_local_storage_kms_protected_value_keyset__");
    reveal_strlit("__secure_local_storage_version__");
    assert(VERSION_KEY@.len() != KEY_KEYSET_ALIAS@.len());
    assert(VERSION_KEY@.len() != VALUE_KEYSET_ALIAS@.len());
    assert(KEY_KEYSET_ALIAS@.len() != VALUE_KEYSET_ALIAS@.len());
}

/// Whether `entry` is the durable-map entry of one of the reserved names.
pub open spec fn is_reserved_entry(entry: Seq<char>) -> bool {
    entry == reserved_entry(KEY_KEYSET_ALIAS@) || entry == reserved_entry(VALUE_KEYSET_ALIAS@)
        || entry == reserved_entry(VERSION_KEY@)
}

/// Tells whether `entry` is the durable-map entry of one of the reserved
/// names.
fn entry_is_reserved(entry: &str) -> (reserved: bool)
    ensures
        reserved == is_reserved_entry(entry@),
{
    let key_keyset = reserved_entry_name(KEY_KEYSET_ALIAS);
    let value_keyset = reserved_entry_name(VALUE_KEYSET_ALIAS);
    let version = reserved_entry_name(VERSION_KEY);
    same_text(entry, key_keyset.as_str()) || same_text(entry, value_keyset.as_str()) || same_text(
        entry,
        version.as_str(),
    )
}

/// The texts of the given names.
pub open spec fn texts_of(names: Seq<String>) -> Seq<Seq<char>> {
    Seq::new(names.len(), |i: int| names[i]@)
}

/// Tells whether all keys of the given types are computed with in the
/// process.
fn types_computed_locally(types: &Vec<String>) -> (local: bool)
    ensures
        local == all_computed_locally(texts_of(types@)),
{
    let mut i: usize = 0;
    while i < types.len()
        invariant
            i <= types.len(),
            forall|j: int| 0 <= j < i ==> (#[trigger] types@[j])@ == X_CHA_CHA20_POLY1305_KEY_TYPE@,
        decreases types.len() - i,
    {
        if !same_text(types[i].as_str(), X_CHA_CHA20_POLY1305_KEY_TYPE) {
            assert(texts_of(types@)[i as int] == types@[i as int]@);
            return false;
        }
        i += 1;
    }
    assert forall|j: int| 0 <= j < texts_of(types@).len() implies #[trigger] texts_of(types@)[j]
        == X_CHA_CHA20_POLY1305_KEY_TYPE@ by {
        assert(types@[j]@ == X_CHA_CHA20_POLY1305_KEY_TYPE@);
    }
    true
}

/// What a bootstrap hands back: the store, and what the caller has to write
/// out for it.
pub struct Bootstrap {
    /// The store, ready for use.
    pub storage: SecureLocalStorage,
    /// The contents of the master key file, where the bootstrap made a new
    /// master key.  The caller writes them to the file before it uses the
    /// store.
    pub master_key_file: Option<Vec<u8>>,
    /// The version marker of the store.
    pub version: u64,
    /// Whether the bootstrap put the version marker into the durable map.
    /// Where it did, the caller writes the map out.
    pub version_created: bool,
}

/// The secure local store.
pub struct SecureLocalStorage {
    key_deterministic_aead: tink_core::Primitive,
    value_aead: tink_core::Primitive,
    key_keyset: Ghost<tink_core::keyset::Handle>,
    value_keyset: Ghost<tink_core::keyset::Handle>,
    /// The durable map behind the store.  The store changes it in memory
    /// only; the owner of the store writes it out.
    pub db: pickledb::PickleDb,
}

impl SecureLocalStorage {
    /// The deterministic cipher that encrypts key names.
    pub closed spec fn key_cipher(&self) -> tink_core::Primitive {
        self.key_deterministic_aead
    }

    /// The randomized cipher that encrypts values.
    pub closed spec fn value_cipher(&self) -> tink_core::Primitive {
        self.value_aead
    }

    /// The key-name keyset: the keyset that the bootstrap of this store read
    /// or made, and built the key-name cipher from.
    pub closed spec fn key_keyset(&self) -> tink_core::keyset::Handle {
        self.key_keyset@
    }

    /// The value keyset: the keyset that the bootstrap of this store read or
    /// made, and built the value cipher from.
    pub closed spec fn value_keyset(&self) -> tink_core::keyset::Handle {
        self.value_keyset@
    }

    /// The durable map behind the store.
    pub closed spec fn durable_map(&self) -> pickledb::PickleDb {
        self.db
    }

    /// Whether the store is in order: its value cipher computes in the
    /// process alone, so that what it reads out of an entry never changes,
    /// and its durable map writes on request only, so that a change touches
    /// no file.
    pub open spec fn wf(&self) -> bool {
        &&& computes_locally(self.value_cipher())
        &&& writes_on_request(self.durable_map())
    }

    /// The byte strings in the durable map, by entry name.
    pub open spec fn entries(&self) -> Map<Seq<char>, Seq<u8>> {
        stored_bytes(self.durable_map())
    }

    /// The encrypted form of the key name `key`: what the key-name cipher
    /// makes of its UTF-8 encoding, with no associated data.
    pub open spec fn encrypted_key_name(&self, key: Seq<char>) -> Option<Seq<u8>> {
        daead_sealed(self.key_cipher(), encode_utf8(key), Seq::<u8>::empty())
    }

    /// What the store holds for `key`: nothing where there is no entry under
    /// its encrypted name, else what the value cipher reads out of the entry
    /// with the encrypted name as associated data.
    pub open spec fn lookup(&self, key: Seq<char>) -> Result<Option<Seq<u8>>, StorageError> {
        match self.encrypted_key_name(key) {
            None => Err(StorageError::ProviderFailure),
            Some(name) => if !self.entries().contains_key(entry_name(name)) {
                Ok(None)
            } else {
                match aead_opened(self.value_cipher(), self.entries()[entry_name(name)], name) {
                    Some(value) => Ok(Some(value)),
                    None => Err(StorageError::AuthenticationFailure),
                }
            },
        }
    }

    /// The name of the durable-map entry for `key`.
    pub open spec fn entry_of(&self, key: Seq<char>) -> Option<Seq<char>> {
        match self.encrypted_key_name(key) {
            Some(name) => Some(entry_name(name)),
            None => None,
        }
    }

    /// Whether `after` is `before` with `value` stored under `key`: the
    /// ciphers are the same, the entry for `key` is no reserved entry and
    /// holds a ciphertext that the value cipher opens to `value`, no other key
    /// shares that entry, and nothing else in the durable map has changed.
    pub open spec fn stores(
        before: SecureLocalStorage,
        after: SecureLocalStorage,
        key: Seq<char>,
        value: Seq<u8>,
    ) -> bool {
        &&& after.key_cipher() == before.key_cipher()
        &&& after.value_cipher() == before.value_cipher()
        &&& after.key_keyset() == before.key_keyset()
        &&& after.value_keyset() == before.value_keyset()
        &&& before.encrypted_key_name(key) matches Some(name)
        &&& !is_reserved_entry(entry_name(name))
        &&& after.entries().contains_key(entry_name(name))
        &&& after.entries() == before.entries().insert(
            entry_name(name),
            after.entries()[entry_name(name)],
        )
        &&& aead_opened(after.value_cipher(), after.entries()[entry_name(name)], name) == Some(
            value,
        )
        &&& stored_numbers(after.durable_map()).remove(entry_name(name)) == stored_numbers(
            before.durable_map(),
        ).remove(entry_name(name))
        &&& forall|other: Seq<char>|
            other != key ==> #[trigger] before.entry_of(other) != Some(entry_name(name))
    }

    /// Whether `after` holds what `before` holds: the same ciphers and the
    /// same contents of the durable map.
    pub open spec fn unchanged(before: SecureLocalStorage, after: SecureLocalStorage) -> bool {
        &&& after.key_cipher() == before.key_cipher()
        &&& after.value_cipher() == before.value_cipher()
        &&& after.key_keyset() == before.key_keyset()
        &&& after.value_keyset() == before.value_keyset()
        &&& after.entries() == before.entries()
        &&& stored_numbers(after.durable_map()) == stored_numbers(before.durable_map())
    }

    /// Encrypts the name of a key.
    ///
    /// The same name always gives the same encrypted name, and no other name
    /// gives it.  Fails with [`StorageError::ProviderFailure`] exactly where
    /// the cipher does.
    pub fn encrypt_key_name(&self, key: &str) -> (r: Result<Vec<u8>, StorageError>)
        ensures
            match self.encrypted_key_name(key@) {
                Some(name) => r matches Ok(n) && n@ == name,
                None => r matches Err(e) && e == StorageError::ProviderFailure,
            },
            r matches Ok(n) ==> forall|other: Seq<char>|
                other != key@ ==> #[trigger] self.encrypted_key_name(other) != Some(n@),
    {
        let no_data: Vec<u8> = Vec::new();
        assert(no_data@ =~= Seq::<u8>::empty());
        match daead_encrypt(&self.key_deterministic_aead, key.as_bytes(), no_data.as_slice()) {
            Ok(name) => {
                assert forall|other: Seq<char>| other != key@ implies #[trigger]
                    self.encrypted_key_name(other) != Some(name@) by {
                    if encode_utf8(other) == encode_utf8(key@) {
                        lemma_utf8_is_injective(other, key@);
                    }
                }
                Ok(name)
            },
            Err(_) => Err(StorageError::ProviderFailure),
        }
    }

    /// The bytes that the store holds for `key`, if any.
    pub fn get_bytes(&self, key: &str) -> (r: Result<Option<Vec<u8>>, StorageError>)
        requires
            self.wf(),
        ensures
            match self.lookup(key@) {
                Ok(Some(value)) => r matches Ok(Some(v)) && v@ == value,
                Ok(None) => r matches Ok(None),
                Err(e) => r matches Err(f) && f == e,
            },
    {
        let name = self.encrypt_key_name(key)?;
        let entry = encode_standard(name.as_slice());
        match get_bytes(&self.db, entry.as_str()) {
            Some(sealed) => match aead_decrypt(&self.value_aead, sealed.as_slice(), name.as_slice()) {
                Ok(value) => Ok(Some(value)),
                Err(_) => Err(StorageError::AuthenticationFailure),
            },
            None => Ok(None),
        }
    }

    /// The value that the store holds for `key`, if any.
    ///
    /// Fails with [`StorageError::AuthenticationFailure`] where the entry
    /// does not pass authentication, and with
    /// [`StorageError::SerializationFailure`] where its bytes do not stand for
    /// a `T`.
    pub fn get<T: SecureStorable>(&self, key: &str) -> (r: Result<Option<T>, StorageError>)
        requires
            self.wf(),
        ensures
            match self.lookup(key@) {
                Ok(Some(bytes)) => if T::readable(bytes) {
                    r matches Ok(Some(value)) && value.stored() == bytes
                } else {
                    r matches Err(e) && e == StorageError::SerializationFailure
                },
                Ok(None) => r matches Ok(None),
                Err(e) => r matches Err(f) && f == e,
            },
    {
        match self.get_bytes(key)? {
            Some(bytes) => match T::from_bytes(bytes.as_slice()) {
                Ok(value) => Ok(Some(value)),
                Err(e) => Err(e),
            },
            None => Ok(None),
        }
    }

    /// What a call that stores `value` under `key` has to leave behind, given
    /// its result.
    ///
    /// A key name that cannot be encrypted gives
    /// [`StorageError::ProviderFailure`]; a key name whose entry would be a
    /// reserved entry gives [`StorageError::ReservedKeyViolation`]; in both
    /// cases, and wherever else the call fails, the store is left as it was,
    /// and the only other failure is [`StorageError::ProviderFailure`].  On
    /// success `after` is `before` with `value` stored under `key`.
    pub open spec fn set_outcome(
        before: SecureLocalStorage,
        after: SecureLocalStorage,
        key: Seq<char>,
        value: Seq<u8>,
        r: Result<(), StorageError>,
    ) -> bool {
        match before.entry_of(key) {
            None => r == Err::<(), StorageError>(StorageError::ProviderFailure) && Self::unchanged(
                before,
                after,
            ),
            Some(entry) => if is_reserved_entry(entry) {
                r == Err::<(), StorageError>(StorageError::ReservedKeyViolation)
                    && Self::unchanged(before, after)
            } else {
                match r {
                    Ok(_) => Self::stores(before, after, key, value),
                    Err(e) => e == StorageError::ProviderFailure && Self::unchanged(before, after),
                }
            },
        }
    }

    /// Stores `value` under `key`, in place of what was there.
    ///
    /// The entry is written to the durable map in memory; the caller writes
    /// the map out before it reports success to anyone.  An entry that would
    /// take the place of the version marker or of a keyset is refused with
    /// [`StorageError::ReservedKeyViolation`]; where a cipher fails, which is
    /// certain where the key name cannot be encrypted, the call fails with
    /// [`StorageError::ProviderFailure`].  A call that fails leaves the store
    /// as it was.
    pub fn set_bytes(&mut self, key: &str, value: &[u8]) -> (r: Result<(), StorageError>)
        requires
            old(self).wf(),
        ensures
            final(self).wf(),
            Self::set_outcome(*old(self), *final(self), key@, value@, r),
    {
        let name = self.encrypt_key_name(key)?;
        let entry = encode_standard(name.as_slice());
        if entry_is_reserved(entry.as_str()) {
            return Err(StorageError::ReservedKeyViolation);
        }
        let sealed = match aead_encrypt(&self.value_aead, value, name.as_slice()) {
            Ok(sealed) => sealed,
            Err(_) => {
                return Err(StorageError::ProviderFailure);
            },
        };
        proof {
            assert forall|other: Seq<char>| other != key@ implies #[trigger] old(self).entry_of(
                other,
            ) != Some(entry@) by {
                if let Some(other_name) = old(self).encrypted_key_name(other) {
                    assert(other_name != name@);
                    assert(base64_standard(other_name) != entry@);
                }
            }
        }
        match set_bytes(&mut self.db, entry.as_str(), &sealed) {
            Ok(_) => Ok(()),
            Err(_) => Err(StorageError::PersistenceFailure),
        }
    }

    /// Stores `value` under `key`, in place of what was there.
    ///
    /// A reserved name is refused with
    /// [`StorageError::ReservedKeyViolation`] and nothing is touched.  For
    /// every other name see [`Self::set_bytes`].
    pub fn set<T: SecureStorable>(&mut self, key: &str, value: &T) -> (r: Result<(), StorageError>)
        requires
            old(self).wf(),
        ensures
            final(self).wf(),
            is_reserved_key(key@) ==> (r matches Err(e) && e
                == StorageError::ReservedKeyViolation) && *final(self) == *old(self),
            !is_reserved_key(key@) ==> Self::set_outcome(
                *old(self),
                *final(self),
                key@,
                value.stored(),
                r,
            ),
    {
        if same_text(key, KEY_KEYSET_ALIAS) || same_text(key, VALUE_KEYSET_ALIAS) || same_text(
            key,
            VERSION_KEY,
        ) {
            return Err(StorageError::ReservedKeyViolation);
        }
        self.set_bytes(key, value.as_bytes())
    }

    /// Hands the durable map back and gives the store up.
    pub fn into_durable_map(self) -> (db: pickledb::PickleDb)
        ensures
            db == self.durable_map(),
    {
        self.db
    }

    /// The version marker in the durable map, if there is one.
    pub fn get_version(&self) -> (version: Option<u64>)
        ensures
            match version {
                Some(v) => stored_numbers(self.durable_map()).contains_key(
                    reserved_entry(VERSION_KEY@),
                ) && stored_numbers(self.durable_map())[reserved_entry(VERSION_KEY@)] == v,
                None => !stored_numbers(self.durable_map()).contains_key(
                    reserved_entry(VERSION_KEY@),
                ),
            },
    {
        let name = reserved_entry_name(VERSION_KEY);
        get_number(&self.db, name.as_str())
    }

    /// Reads the version marker, or puts the initial one where there is none.
    ///
    /// Returns the version and whether it was put there by this call.  A
    /// marker that is present is returned as it is, and the durable map is
    /// not touched.  The map has to be one that writes on request only; such
    /// a map takes the marker, so the call does not fail.
    pub fn read_or_generate_version(db: &mut pickledb::PickleDb) -> (r: Result<
        (u64, bool),
        StorageError,
    >)
        requires
            writes_on_request(*old(db)),
        ensures
            writes_on_request(*final(db)),
            sole_alias(VERSION_KEY@),
            stored_numbers(*old(db)).contains_key(reserved_entry(VERSION_KEY@)) ==> *final(db)
                == *old(db) && r == Ok::<(u64, bool), StorageError>(
                (stored_numbers(*old(db))[reserved_entry(VERSION_KEY@)], false),
            ),
            !stored_numbers(*old(db)).contains_key(reserved_entry(VERSION_KEY@)) ==> {
                &&& r == Ok::<(u64, bool), StorageError>((INITIAL_VERSION, true))
                &&& stored_numbers(*final(db)) == stored_numbers(*old(db)).insert(
                    reserved_entry(VERSION_KEY@),
                    INITIAL_VERSION,
                )
                &&& stored_bytes(*final(db)).remove(reserved_entry(VERSION_KEY@)) == stored_bytes(
                    *old(db),
                ).remove(reserved_entry(VERSION_KEY@))
            },
    {
        let name = reserved_entry_name(VERSION_KEY);
        if let Some(version) = get_number(db, name.as_str()) {
            return Ok((version, false));
        }
        match set_number(db, name.as_str(), INITIAL_VERSION) {
            Ok(_) => Ok((INITIAL_VERSION, true)),
            Err(_) => Err(StorageError::PersistenceFailure),
        }
    }

    /// What becomes of a cipher that Tink was asked to build from a keyset:
    /// the cipher, or [`StorageError::ProviderFailure`] where Tink could not
    /// build it.
    pub fn cipher_or_failure(built: Result<tink_core::Primitive, tink_core::TinkError>) -> (r:
        Result<tink_core::Primitive, StorageError>)
        ensures
            match built {
                Ok(cipher) => r matches Ok(c) && c == cipher,
                Err(_) => r matches Err(e) && e == StorageError::ProviderFailure,
            },
    {
        match built {
            Ok(cipher) => Ok(cipher),
            Err(_) => Err(StorageError::ProviderFailure),
        }
    }

    /// What becomes of a keyset that Tink was asked to unwrap and read: the
    /// keyset, or [`StorageError::SerializationFailure`] where Tink refused
    /// the bytes.
    pub fn keyset_or_failure(read: Result<tink_core::keyset::Handle, tink_core::TinkError>) -> (r:
        Result<tink_core::keyset::Handle, StorageError>)
        ensures
            match read {
                Ok(keyset) => r matches Ok(k) && k == keyset,
                Err(_) => r matches Err(e) && e == StorageError::SerializationFailure,
            },
    {
        match read {
            Ok(keyset) => Ok(keyset),
            Err(_) => Err(StorageError::SerializationFailure),
        }
    }

    /// Reads the keyset of the master key out of the contents of the master
    /// key file.  Gives the keyset that the contents hold under the
    /// pass-through cipher, and fails with
    /// [`StorageError::SerializationFailure`] exactly where they hold none.
    pub fn read_master_keyset(contents: &[u8]) -> (r: Result<
        tink_core::keyset::Handle,
        StorageError,
    >)
        ensures
            match keyset_in_clear(contents@) {
                Some(keyset) => r matches Ok(k) && k == keyset,
                None => r matches Err(e) && e == StorageError::SerializationFailure,
            },
    {
        Self::keyset_or_failure(read_keyset_in_clear(contents))
    }

    /// Makes the keyset of a new master key for the key reference `key_uri`,
    /// given whether a registered client resolves that reference.
    ///
    /// Where none does, the call fails with
    /// [`StorageError::UnsupportedKeyReference`] and makes nothing.
    /// Otherwise it makes a keyset with one envelope key that holds
    /// `key_uri`, with XChaCha20-Poly1305 data keys, and writes it under the
    /// pass-through cipher; it returns the keyset and the contents for the
    /// master key file, which hold that keyset.  Where Tink cannot make or
    /// write the keyset, the call fails with
    /// [`StorageError::ProviderFailure`].
    pub fn new_master_keyset(key_uri: &str, client_registered: bool) -> (r: Result<
        (tink_core::keyset::Handle, Vec<u8>),
        StorageError,
    >)
        ensures
            !client_registered ==> (r matches Err(e) && e
                == StorageError::UnsupportedKeyReference),
            client_registered ==> match r {
                Ok(made) => {
                    &&& keyset_key_types(made.0) == seq![KMS_ENVELOPE_KEY_TYPE@]
                    &&& keyset_key_uri(made.0) == Some(key_uri@)
                    &&& keyset_in_clear(made.1@) == Some(made.0)
                },
                Err(e) => e == StorageError::ProviderFailure,
            },
    {
        if !client_registered {
            return Err(StorageError::UnsupportedKeyReference);
        }
        let keyset = match new_envelope_keyset(key_uri) {
            Ok(keyset) => keyset,
            Err(_) => {
                return Err(StorageError::ProviderFailure);
            },
        };
        match write_keyset_in_clear(&keyset) {
            Ok(contents) => Ok((keyset, contents)),
            Err(_) => Err(StorageError::ProviderFailure),
        }
    }

    /// Makes the keyset of a new master key from what the device key
    /// provider answered when it was asked for a key reference.
    ///
    /// An error of the provider is handed on as it came.  For a key
    /// reference see [`Self::new_master_keyset`].
    pub fn generate_master_keyset(minted: Result<String, StorageError>) -> (r: Result<
        (tink_core::keyset::Handle, Vec<u8>),
        StorageError,
    >)
        ensures
            match minted {
                Err(failure) => r matches Err(e) && e == failure,
                Ok(key_uri) => match r {
                    Ok(made) => {
                        &&& keyset_key_types(made.0) == seq![KMS_ENVELOPE_KEY_TYPE@]
                        &&& keyset_key_uri(made.0) == Some(key_uri@)
                        &&& keyset_in_clear(made.1@) == Some(made.0)
                    },
                    Err(e) => e == StorageError::UnsupportedKeyReference || e
                        == StorageError::ProviderFailure,
                },
            },
    {
        match minted {
            Err(failure) => Err(failure),
            Ok(key_uri) => {
                let client_registered = kms_client_registered(key_uri.as_str());
                Self::new_master_keyset(key_uri.as_str(), client_registered)
            },
        }
    }

    /// The key reference of `keyset`, where it is the keyset of a master
    /// key: one with a single envelope key.
    pub fn key_reference(keyset: &tink_core::keyset::Handle) -> (reference: Option<String>)
        ensures
            match reference {
                Some(key_uri) => keyset_key_types(*keyset) == seq![KMS_ENVELOPE_KEY_TYPE@]
                    && keyset_key_uri(*keyset) == Some(key_uri@),
                None => keyset_key_types(*keyset) != seq![KMS_ENVELOPE_KEY_TYPE@]
                    || keyset_key_uri(*keyset) is None,
            },
    {
        let types = key_types(keyset);
        if types.len() != 1 || !same_text(types[0].as_str(), KMS_ENVELOPE_KEY_TYPE) {
            proof {
                if keyset_key_types(*keyset) == seq![KMS_ENVELOPE_KEY_TYPE@] {
                    assert(keyset_key_types(*keyset)[0] == KMS_ENVELOPE_KEY_TYPE@);
                    assert(types@[0]@ == KMS_ENVELOPE_KEY_TYPE@);
                }
            }
            return None;
        }
        assert(types@[0]@ == keyset_key_types(*keyset)[0]);
        assert(keyset_key_types(*keyset) =~= seq![KMS_ENVELOPE_KEY_TYPE@]);
        key_uri(keyset)
    }

    /// Builds the cipher of the master key from its keyset, given whether a
    /// registered client resolves the key reference of the keyset.
    ///
    /// Where none does, the call fails with
    /// [`StorageError::UnsupportedKeyReference`].  Otherwise it gives the
    /// cipher that Tink builds, or [`StorageError::ProviderFailure`] where
    /// Tink cannot build one.
    pub fn master_key_of(keyset: &tink_core::keyset::Handle, reference_resolves: bool) -> (r:
        Result<tink_core::Primitive, StorageError>)
        ensures
            !reference_resolves ==> (r matches Err(e) && e
                == StorageError::UnsupportedKeyReference),
            reference_resolves ==> (r matches Err(e) ==> e == StorageError::ProviderFailure),
    {
        if !reference_resolves {
            return Err(StorageError::UnsupportedKeyReference);
        }
        Self::cipher_or_failure(aead_primitive(keyset))
    }

    /// Reads the master key from the contents of the master key file, or
    /// makes a new one where there is no file.
    ///
    /// A new master key is an envelope key bound to a key reference URI that
    /// `device_kms` mints for it.  The master key file holds the keyset of the
    /// master key under the pass-through cipher: the keyset names the key
    /// reference and holds no secret.  The call returns the cipher of the
    /// master key and, exactly where it made a new key, the contents that the
    /// caller has to write to the master key file.
    ///
    /// Where there is a file, `device_kms` is not asked for anything: the
    /// call fails with [`StorageError::SerializationFailure`] exactly where
    /// the contents hold no keyset.  Whether the keyset is new or read, a key
    /// reference that no registered client resolves gives
    /// [`StorageError::UnsupportedKeyReference`], and a cipher that Tink
    /// cannot build [`StorageError::ProviderFailure`].  Where there is no
    /// file, an error of `device_kms` is handed on as it came.
    pub fn read_or_generate_master_key<K: DeviceKms>(
        device_kms: &K,
        master_key_file: Option<Vec<u8>>,
    ) -> (r: Result<(tink_core::Primitive, Option<Vec<u8>>), StorageError>)
        ensures
            master_key_file matches Some(contents) ==> match keyset_in_clear(contents@) {
                Some(_) => match r {
                    Ok(made) => made.1 is None,
                    Err(e) => e == StorageError::UnsupportedKeyReference || e
                        == StorageError::ProviderFailure,
                },
                None => r matches Err(e) && e == StorageError::SerializationFailure,
            },
            master_key_file is None ==> (r matches Ok(made) ==> made.1 matches Some(contents)
                && keyset_in_clear(contents@) matches Some(keyset) && keyset_key_types(keyset)
                == seq![KMS_ENVELOPE_KEY_TYPE@] && keyset_key_uri(keyset) is Some),
    {
        match master_key_file {
            None => {
                let (keyset, contents) = Self::generate_master_keyset(device_kms.new_key_uri())?;
                let master_key = Self::master_key_of(&keyset, true)?;
                Ok((master_key, Some(contents)))
            },
            Some(contents) => {
                let keyset = Self::read_master_keyset(contents.as_slice())?;
                let reference_resolves = match Self::key_reference(&keyset) {
                    Some(key_uri) => kms_client_registered(key_uri.as_str()),
                    None => true,
                };
                let master_key = Self::master_key_of(&keyset, reference_resolves)?;
                Ok((master_key, None))
            },
        }
    }

    /// Puts a new keyset under the reserved name `key_name`, given what Tink
    /// answered when it was asked to wrap the keyset under the master key.
    ///
    /// Where Tink gave the wrapped bytes, they are put under the name, the
    /// rest of the durable map stays as it was, and the keyset is returned.
    /// Where Tink failed, the call fails with
    /// [`StorageError::ProviderFailure`] and leaves the map as it was.  The
    /// map has to be one that writes on request only.
    pub fn store_wrapped_keyset(
        db: &mut pickledb::PickleDb,
        key_name: &str,
        keyset: tink_core::keyset::Handle,
        wrapped: Result<Vec<u8>, tink_core::TinkError>,
    ) -> (r: Result<tink_core::keyset::Handle, StorageError>)
        requires
            writes_on_request(*old(db)),
        ensures
            writes_on_request(*final(db)),
            sole_alias(key_name@),
            match wrapped {
                Ok(bytes) => {
                    &&& r matches Ok(k) && k == keyset
                    &&& stored_bytes(*final(db)) == stored_bytes(*old(db)).insert(
                        reserved_entry(key_name@),
                        bytes@,
                    )
                    &&& stored_numbers(*final(db)).remove(reserved_entry(key_name@))
                        == stored_numbers(*old(db)).remove(reserved_entry(key_name@))
                },
                Err(_) => {
                    &&& r matches Err(e) && e == StorageError::ProviderFailure
                    &&& *final(db) == *old(db)
                },
            },
    {
        let name = reserved_entry_name(key_name);
        match wrapped {
            Ok(bytes) => match set_bytes(db, name.as_str(), &bytes) {
                Ok(_) => Ok(keyset),
                Err(_) => Err(StorageError::PersistenceFailure),
            },
            Err(_) => Err(StorageError::ProviderFailure),
        }
    }

    /// Reads the keyset that is kept under the reserved name `key_name`, or
    /// makes one after `key_template` and puts it there, wrapped under
    /// `master_key`.
    ///
    /// A keyset that is present is never replaced.  The durable map is not
    /// touched; the result is the keyset that Tink unwraps and reads out of
    /// the entry, or [`StorageError::SerializationFailure`] where Tink
    /// refuses it.  Where there is none, the call makes a keyset with one key
    /// of the type that `key_template` names and changes the entry of
    /// `key_name` and nothing else.  It fails with
    /// [`StorageError::ProviderFailure`] where the keyset cannot be made or
    /// wrapped, and then leaves the map as it was.  The map has to be one
    /// that writes on request only.
    pub fn read_or_generate_key(
        db: &mut pickledb::PickleDb,
        master_key: &tink_core::Primitive,
        key_name: &str,
        key_template: &tink_proto::KeyTemplate,
    ) -> (r: Result<tink_core::keyset::Handle, StorageError>)
        requires
            writes_on_request(*old(db)),
        ensures
            writes_on_request(*final(db)),
            sole_alias(key_name@),
            stored_bytes(*old(db)).contains_key(reserved_entry(key_name@)) ==> {
                &&& *final(db) == *old(db)
                &&& r matches Err(e) ==> e == StorageError::SerializationFailure
            },
            !stored_bytes(*old(db)).contains_key(reserved_entry(key_name@)) ==> match r {
                Ok(keyset) => {
                    &&& keyset_key_types(keyset) == seq![key_template.type_url@]
                    &&& stored_bytes(*final(db)).contains_key(reserved_entry(key_name@))
                    &&& stored_bytes(*final(db)).remove(reserved_entry(key_name@))
                        == stored_bytes(*old(db)).remove(reserved_entry(key_name@))
                    &&& stored_numbers(*final(db)).remove(reserved_entry(key_name@))
                        == stored_numbers(*old(db)).remove(reserved_entry(key_name@))
                },
                Err(e) => e == StorageError::ProviderFailure && *final(db) == *old(db),
            },
    {
        let name = reserved_entry_name(key_name);
        if let Some(wrapped) = get_bytes(db, name.as_str()) {
            return Self::keyset_or_failure(read_keyset(wrapped.as_slice(), master_key));
        }
        let keyset = match tink_core::keyset::Handle::new(key_template) {
            Ok(keyset) => keyset,
            Err(_) => {
                return Err(StorageError::ProviderFailure);
            },
        };
        let wrapped = write_keyset(&keyset, master_key);
        let stored = Self::store_wrapped_keyset(db, key_name, keyset, wrapped);
        proof {
            if stored is Ok {
                assert(stored_bytes(*db).remove(name@) =~= stored_bytes(*old(db)).remove(name@));
            }
        }
        stored
    }

    /// Whether a bootstrap from `before` to `after` has kept what was there:
    /// the durable map holds a version marker and both keysets, every one of
    /// them that was there before is as it was, and so is every other byte
    /// string in the map.
    pub open spec fn bootstrapped(before: pickledb::PickleDb, after: pickledb::PickleDb) -> bool {
        let version = reserved_entry(VERSION_KEY@);
        let key_keyset = reserved_entry(KEY_KEYSET_ALIAS@);
        let value_keyset = reserved_entry(VALUE_KEYSET_ALIAS@);
        &&& stored_numbers(after).contains_key(version)
        &&& stored_numbers(before).contains_key(version) ==> stored_numbers(after)[version]
            == stored_numbers(before)[version]
        &&& !stored_numbers(before).contains_key(version) ==> stored_numbers(after)[version]
            == INITIAL_VERSION
        &&& stored_bytes(after).contains_key(key_keyset)
        &&& stored_bytes(before).contains_key(key_keyset) ==> stored_bytes(after)[key_keyset]
            == stored_bytes(before)[key_keyset]
        &&& stored_bytes(after).contains_key(value_keyset)
        &&& stored_bytes(before).contains_key(value_keyset) ==> stored_bytes(after)[value_keyset]
            == stored_bytes(before)[value_keyset]
        &&& forall|name: Seq<char>|
            name != version && name != key_keyset && name != value_keyset ==> (#[trigger] stored_bytes(
                after,
            ).contains_key(name) <==> stored_bytes(before).contains_key(name))
        &&& forall|name: Seq<char>|
            name != version && name != key_keyset && name != value_keyset && stored_bytes(
                before,
            ).contains_key(name) ==> #[trigger] stored_bytes(after)[name] == stored_bytes(
                before,
            )[name]
    }

    /// Whether the two ciphers of `storage` are those of its two keysets:
    /// the key-name cipher is the deterministic cipher of the key-name
    /// keyset, and the value cipher is the cipher of the value keyset, whose
    /// keys are all computed with in the process.
    pub open spec fn ciphers_of_keysets(storage: SecureLocalStorage) -> bool {
        &&& storage.key_cipher() == daead_of(storage.key_keyset())
        &&& storage.value_cipher() == aead_of(storage.value_keyset())
        &&& all_computed_locally(keyset_key_types(storage.value_keyset()))
    }

    /// Opens the store over the durable map `db`, or creates it there.
    ///
    /// `master_key_file` holds the contents of the master key file, or
    /// `None` where there is no such file yet.  The steps, in order: the
    /// version marker is read or created; the master key is read from
    /// `master_key_file` or made anew with a key reference of `device_kms`;
    /// the key-name keyset and the value keyset are read from the durable map
    /// or made and put there, wrapped under the master key.  Nothing that is
    /// found is ever made anew.
    ///
    /// The call either gives a store that is ready or fails as a whole.  What
    /// it returns says what the caller has to write out: the new master key
    /// file, where one was made, and the durable map, where the version
    /// marker was put into it.
    ///
    /// A master key file that holds no keyset gives
    /// [`StorageError::SerializationFailure`], as does a value keyset with a
    /// key that is not computed with in the process; a key reference that no
    /// registered client resolves gives
    /// [`StorageError::UnsupportedKeyReference`].  The durable map has to be
    /// one that writes on request only.
    pub fn new_with_kms<K: DeviceKms>(
        db: pickledb::PickleDb,
        device_kms: &K,
        master_key_file: Option<Vec<u8>>,
    ) -> (r: Result<Bootstrap, StorageError>)
        requires
            writes_on_request(db),
        ensures
            r matches Ok(boot) ==> {
                &&& boot.storage.wf()
                &&& Self::bootstrapped(db, boot.storage.durable_map())
                &&& Self::ciphers_of_keysets(boot.storage)
                &&& !stored_bytes(db).contains_key(reserved_entry(KEY_KEYSET_ALIAS@))
                    ==> keyset_key_types(boot.storage.key_keyset()) == seq![AES_SIV_KEY_TYPE@]
                &&& !stored_bytes(db).contains_key(reserved_entry(VALUE_KEYSET_ALIAS@))
                    ==> keyset_key_types(boot.storage.value_keyset())
                    == seq![X_CHA_CHA20_POLY1305_KEY_TYPE@]
                &&& boot.master_key_file is Some <==> master_key_file is None
                &&& boot.master_key_file matches Some(contents) ==> keyset_in_clear(
                    contents@,
                ) matches Some(keyset) && keyset_key_types(keyset) == seq![KMS_ENVELOPE_KEY_TYPE@]
                    && keyset_key_uri(keyset) is Some
                &&& boot.version == stored_numbers(boot.storage.durable_map())[reserved_entry(
                    VERSION_KEY@,
                )]
                &&& boot.version_created <==> !stored_numbers(db).contains_key(
                    reserved_entry(VERSION_KEY@),
                )
            },
            r matches Err(e) ==> master_key_file is Some ==> e
                == StorageError::SerializationFailure || e == StorageError::ProviderFailure || e
                == StorageError::UnsupportedKeyReference,
            (master_key_file matches Some(contents) && keyset_in_clear(contents@) is None) ==> (
            r matches Err(e) && e == StorageError::SerializationFailure),
    {
        let mut db = db;
        let ghost before = db;
        let (version, version_created) = Self::read_or_generate_version(&mut db)?;
        let ghost with_version = db;
        let (master_key, new_master_key_file) = Self::read_or_generate_master_key(
            device_kms,
            master_key_file,
        )?;
        let daead_keyset = Self::read_or_generate_key(
            &mut db,
            &master_key,
            KEY_KEYSET_ALIAS,
            &tink_daead::aes_siv_key_template(),
        )?;
        let ghost with_key_keyset = db;
        let key_deterministic_aead = Self::cipher_or_failure(daead_primitive(&daead_keyset))?;
        let aead_keyset = Self::read_or_generate_key(
            &mut db,
            &master_key,
            VALUE_KEYSET_ALIAS,
            &tink_aead::x_cha_cha20_poly1305_key_template(),
        )?;
        let value_key_types = key_types(&aead_keyset);
        if !types_computed_locally(&value_key_types) {
            return Err(StorageError::SerializationFailure);
        }
        assert(texts_of(value_key_types@) =~= keyset_key_types(aead_keyset));
        let value_aead = Self::cipher_or_failure(aead_primitive(&aead_keyset))?;
        proof {
            lemma_reserved_entries_differ();
            let version_name = reserved_entry(VERSION_KEY@);
            let key_name = reserved_entry(KEY_KEYSET_ALIAS@);
            let value_name = reserved_entry(VALUE_KEYSET_ALIAS@);
            assert forall|name: Seq<char>|
                name != version_name && name != key_name && name != value_name implies (
            #[trigger] stored_bytes(db).contains_key(name) <==> stored_bytes(before).contains_key(
                name,
            )) by {
                Self::lemma_untouched(before, with_version, version_name, name);
                Self::lemma_untouched(with_version, with_key_keyset, key_name, name);
                Self::lemma_untouched(with_key_keyset, db, value_name, name);
            }
            assert forall|name: Seq<char>|
                name != version_name && name != key_name && name != value_name && stored_bytes(
                    before,
                ).contains_key(name) implies #[trigger] stored_bytes(db)[name] == stored_bytes(
                before,
            )[name] by {
                Self::lemma_untouched(before, with_version, version_name, name);
                Self::lemma_untouched(with_version, with_key_keyset, key_name, name);
                Self::lemma_untouched(with_key_keyset, db, value_name, name);
            }
            Self::lemma_untouched(with_version, with_key_keyset, key_name, value_name);
            Self::lemma_untouched(with_key_keyset, db, value_name, key_name);
            Self::lemma_untouched(before, with_version, version_name, key_name);
            Self::lemma_untouched(before, with_version, version_name, value_name);
            assert(stored_numbers(with_key_keyset).remove(key_name)[version_name]
                == stored_numbers(with_key_keyset)[version_name]);
            assert(stored_numbers(with_version).remove(key_name)[version_name] == stored_numbers(
                with_version,
            )[version_name]);
            assert(stored_numbers(with_key_keyset).remove(value_name)[version_name]
                == stored_numbers(with_key_keyset)[version_name]);
            assert(stored_numbers(db).remove(value_name)[version_name] == stored_numbers(
                db,
            )[version_name]);
            assert(stored_numbers(with_key_keyset).remove(key_name).contains_key(version_name));
            assert(stored_numbers(db).remove(value_name).contains_key(version_name));
        }
        Ok(
            Bootstrap {
                storage: SecureLocalStorage {
                    key_deterministic_aead,
                    value_aead,
                    key_keyset: Ghost(daead_keyset),
                    value_keyset: Ghost(aead_keyset),
                    db,
                },
                master_key_file: new_master_key_file,
                version,
                version_created,
            },
        )
    }

    /// Where two durable maps hold the same byte strings but for the entry
    /// `changed`, they agree on every other entry.
    proof fn lemma_untouched(
        before: pickledb::PickleDb,
        after: pickledb::PickleDb,
        changed: Seq<char>,
        name: Seq<char>,
    )
        requires
            stored_bytes(after).remove(changed) == stored_bytes(before).remove(changed),
            name != changed,
        ensures
            stored_bytes(after).contains_key(name) <==> stored_bytes(before).contains_key(name),
            stored_bytes(before).contains_key(name) ==> stored_bytes(after)[name] == stored_bytes(
                before,
            )[name],
    {
        assert(stored_bytes(after).remove(changed).contains_key(name) <==> stored_bytes(
            after,
        ).contains_key(name));
        assert(stored_bytes(before).remove(changed).contains_key(name) <==> stored_bytes(
            before,
        ).contains_key(name));
        if stored_bytes(before).contains_key(name) {
            assert(stored_bytes(after).remove(changed)[name] == stored_bytes(after)[name]);
            assert(stored_bytes(before).remove(changed)[name] == stored_bytes(before)[name]);
        }
    }

    /// After a value was stored under a key, the store holds that value for
    /// the key, and its bytes can be read back as a value of its type.
    pub proof fn lemma_get_after_set<T: SecureStorable>(
        before: SecureLocalStorage,
        after: SecureLocalStorage,
        key: Seq<char>,
        value: T,
    )
        requires
            Self::stores(before, after, key, value.stored()),
        ensures
            after.lookup(key) == Ok::<Option<Seq<u8>>, StorageError>(Some(value.stored())),
            T::readable(value.stored()),
    {
        value.lemma_stored_is_readable();
    }

    /// After two values were stored under one key, the store holds the second
    /// for the key, in the entry that held the first.
    pub proof fn lemma_set_overwrites(
        first: SecureLocalStorage,
        second: SecureLocalStorage,
        third: SecureLocalStorage,
        key: Seq<char>,
        value1: Seq<u8>,
        value2: Seq<u8>,
    )
        requires
            Self::stores(first, second, key, value1),
            Self::stores(second, third, key, value2),
        ensures
            third.lookup(key) == Ok::<Option<Seq<u8>>, StorageError>(Some(value2)),
            third.entries().dom() == second.entries().dom(),
    {
        assert(third.entries().dom() =~= second.entries().dom());
    }

    /// Two stores whose ciphers are those of the same two keysets, over
    /// durable maps with the same byte strings, hold the same for every key.
    pub proof fn lemma_same_keysets_same_contents(
        first: SecureLocalStorage,
        second: SecureLocalStorage,
        key: Seq<char>,
    )
        requires
            Self::ciphers_of_keysets(first),
            Self::ciphers_of_keysets(second),
            second.key_keyset() == first.key_keyset(),
            second.value_keyset() == first.value_keyset(),
            second.entries() == first.entries(),
        ensures
            second.lookup(key) == first.lookup(key),
    {
    }

    /// Storing a value leaves the version marker and the two wrapped keysets
    /// in the durable map as they were.
    pub proof fn lemma_set_keeps_reserved_entries(
        before: SecureLocalStorage,
        after: SecureLocalStorage,
        key: Seq<char>,
        value: Seq<u8>,
        reserved: Seq<char>,
    )
        requires
            Self::stores(before, after, key, value),
            is_reserved_entry(reserved),
        ensures
            stored_numbers(after.durable_map()).contains_key(reserved) <==> stored_numbers(
                before.durable_map(),
            ).contains_key(reserved),
            stored_numbers(before.durable_map()).contains_key(reserved) ==> stored_numbers(
                after.durable_map(),
            )[reserved] == stored_numbers(before.durable_map())[reserved],
            after.entries().contains_key(reserved) <==> before.entries().contains_key(reserved),
            before.entries().contains_key(reserved) ==> after.entries()[reserved]
                == before.entries()[reserved],
    {
        let entry = entry_name(before.encrypted_key_name(key)->Some_0);
        let numbers_after = stored_numbers(after.durable_map());
        let numbers_before = stored_numbers(before.durable_map());
        assert(numbers_after.remove(entry).contains_key(reserved) <==> numbers_after.contains_key(
            reserved,
        ));
        assert(numbers_before.remove(entry).contains_key(reserved)
            <==> numbers_before.contains_key(reserved));
        if numbers_before.contains_key(reserved) {
            assert(numbers_after.remove(entry)[reserved] == numbers_after[reserved]);
            assert(numbers_before.remove(entry)[reserved] == numbers_before[reserved]);
        }
    }

    /// Storing a value under one key changes what the store holds for no
    /// other key.
    pub proof fn lemma_set_leaves_other_keys(
        before: SecureLocalStorage,
        after: SecureLocalStorage,
        key: Seq<char>,
        value: Seq<u8>,
        other: Seq<char>,
    )
        requires
            Self::stores(before, after, key, value),
            other != key,
        ensures
            after.lookup(other) == before.lookup(other),
    {
        assert(before.entry_of(other) != Some(entry_name(before.encrypted_key_name(key)->Some_0)));
    }
}

} // verus!
