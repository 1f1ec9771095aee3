//! The durable map: a `pickledb::PickleDb` that maps a text key to a value.
//!
//! This crate keeps byte strings and one number in it.  It never loads the map
//! from a file and never writes it to one; the caller does both.  So it only
//! changes maps that write on request: a map with another policy would write
//! itself out in the middle of a change.  What is taken on trust here is what
//! the in-memory operations do to the contents of such a map.

use vstd::prelude::*;

verus! {

#[verifier::external_type_specification]
#[verifier::external_body]
pub struct ExPickleDb(pickledb::PickleDb);

#[verifier::external_type_specification]
#[verifier::external_body]
pub struct ExPickleDbError(pickledb::error::Error);

/// The byte strings in `db`: for every key under which `PickleDb::get` finds
/// a value that reads as a byte vector, that vector.
pub uninterp spec fn stored_bytes(db: pickledb::PickleDb) -> Map<Seq<char>, Seq<u8>>;

/// The numbers in `db`: for every key under which `PickleDb::get` finds a
/// value that reads as a `u64`, that number.
pub uninterp spec fn stored_numbers(db: pickledb::PickleDb) -> Map<Seq<char>, u64>;

/// Whether `db` writes itself to its file on request only: it was made or
/// loaded with the policy `DumpUponRequest`.
pub uninterp spec fn writes_on_request(db: pickledb::PickleDb) -> bool;

/// `PickleDb::new` with the policy `DumpUponRequest` and CBOR values: an empty
/// map that will be written to `path` when its owner asks for it.  The call
/// itself touches no file.
#[verifier::external_body]
pub(crate) fn new_on_request(path: &str) -> (db: pickledb::PickleDb)
    ensures
        writes_on_request(db),
        forall|key: Seq<char>| !(#[trigger] stored_bytes(db).contains_key(key)),
        forall|key: Seq<char>| !(#[trigger] stored_numbers(db).contains_key(key)),
{
    pickledb::PickleDb::new(
        path,
        pickledb::PickleDbDumpPolicy::DumpUponRequest,
        pickledb::SerializationMethod::Cbor,
    )
}

/// An empty durable map for the file at `path`.  Nothing is written until the
/// owner of the map asks for it.
pub fn empty_durable_map(path: &str) -> (db: pickledb::PickleDb)
    ensures
        writes_on_request(db),
        forall|key: Seq<char>| !(#[trigger] stored_bytes(db).contains_key(key)),
        forall|key: Seq<char>| !(#[trigger] stored_numbers(db).contains_key(key)),
{
    new_on_request(path)
}

/// `PickleDb::get` for a byte vector.
#[verifier::external_body]
pub(crate) fn get_bytes(db: &pickledb::PickleDb, key: &str) -> (value: Option<Vec<u8>>)
    ensures
        match value {
            Some(v) => stored_bytes(*db).contains_key(key@) && stored_bytes(*db)[key@] == v@,
            None => !stored_bytes(*db).contains_key(key@),
        },
{
    db.get::<Vec<u8>>(key)
}

/// `PickleDb::set` for a byte vector, on a map that writes on request only.
/// Such a map takes every byte vector: afterwards the vector stands under
/// `key`, nothing has changed under any other key, and no file was touched.
#[verifier::external_body]
pub(crate) fn set_bytes(db: &mut pickledb::PickleDb, key: &str, value: &Vec<u8>) -> (r: Result<
    (),
    pickledb::error::Error,
>)
    requires
        writes_on_request(*old(db)),
    ensures
        writes_on_request(*final(db)),
        r is Ok,
        match r {
            Ok(_) => stored_bytes(*final(db)) == stored_bytes(*old(db)).insert(key@, value@)
                && stored_numbers(*final(db)).remove(key@) == stored_numbers(*old(db)).remove(
                key@,
            ),
            Err(_) => stored_bytes(*final(db)) == stored_bytes(*old(db)) && stored_numbers(
                *final(db),
            ) == stored_numbers(*old(db)),
        },
{
    db.set(key, value)
}

/// `PickleDb::get` for a `u64`.
#[verifier::external_body]
pub(crate) fn get_number(db: &pickledb::PickleDb, key: &str) -> (value: Option<u64>)
    ensures
        match value {
            Some(n) => stored_numbers(*db).contains_key(key@) && stored_numbers(*db)[key@] == n,
            None => !stored_numbers(*db).contains_key(key@),
        },
{
    db.get::<u64>(key)
}

/// `PickleDb::set` for a `u64`, on a map that writes on request only.  Such
/// a map takes every number: afterwards the number stands under `key`,
/// nothing has changed under any other key, and no file was touched.
#[verifier::external_body]
pub(crate) fn set_number(db: &mut pickledb::PickleDb, key: &str, value: u64) -> (r: Result<
    (),
    pickledb::error::Error,
>)
    requires
        writes_on_request(*old(db)),
    ensures
        writes_on_request(*final(db)),
        r is Ok,
        match r {
            Ok(_) => stored_numbers(*final(db)) == stored_numbers(*old(db)).insert(key@, value)
                && stored_bytes(*final(db)).remove(key@) == stored_bytes(*old(db)).remove(key@),
            Err(_) => stored_bytes(*final(db)) == stored_bytes(*old(db)) && stored_numbers(
                *final(db),
            ) == stored_numbers(*old(db)),
        },
{
    db.set::<u64>(key, &value)
}

} // verus!
