//! Key-value store backed by the `sled` embedded database.
//!
//! The database itself is opaque; what it holds is modelled by the
//! uninterpreted `sled_contents`, and each operation is trusted to act on
//! that model as the `sled` source shows.
use vstd::prelude::*;

use crate::kv::KVStore;
use crate::kv::StoreError;

verus! {

#[verifier::external_type_specification]
#[verifier::external_body]
pub struct ExDb(sled::Db);

/// The entries a `sled` database holds.
pub uninterp spec fn sled_contents(db: sled::Db) -> Map<Seq<u8>, Seq<u8>>;

/// Relies on sled::Config::open with `temporary(true)`: a fresh database
/// holding nothing, deleted when dropped.
#[verifier::external_body]
fn sled_open_temporary() -> (r: Result<sled::Db, StoreError>)
    ensures
        match r {
            Ok(db) => sled_contents(db) == Map::<Seq<u8>, Seq<u8>>::empty(),
            Err(_) => true,
        },
{
    sled::Config::new().temporary(true).open().map_err(|_| StoreError::Io)
}

/// Relies on sled::open: opens the database at the given path with whatever
/// entries it already holds on disk.
#[verifier::external_body]
fn sled_open_path(path: &str) -> (r: Result<sled::Db, StoreError>) {
    sled::open(path).map_err(|_| StoreError::Io)
}

/// Relies on sled::Tree::get: the value bound to the key, if any.
#[verifier::external_body]
fn sled_get(db: &sled::Db, key: &Vec<u8>) -> (r: Result<Option<Vec<u8>>, StoreError>)
    ensures
        match r {
            Ok(Some(v)) => sled_contents(*db).contains_key(key@) && v@ == sled_contents(*db)[key@],
            Ok(None) => !sled_contents(*db).contains_key(key@),
            Err(_) => true,
        },
{
    match db.get(key.as_slice()) {
        Ok(opt) => Ok(opt.map(|ivec| ivec.to_vec())),
        Err(_) => Err(StoreError::Io),
    }
}

/// Relies on sled::Tree::insert: binds the key to the value.
#[verifier::external_body]
fn sled_insert(db: &mut sled::Db, key: &Vec<u8>, value: &Vec<u8>) -> (r: Result<(), StoreError>)
    ensures
        match r {
            Ok(_) => sled_contents(*final(db)) == sled_contents(*old(db)).insert(key@, value@),
            Err(_) => true,
        },
{
    match db.insert(key.as_slice(), value.as_slice()) {
        Ok(_) => Ok(()),
        Err(_) => Err(StoreError::Io),
    }
}

/// Relies on sled::Tree::flush: forces buffered writes to disk before
/// returning, leaving the entries alone.
#[verifier::external_body]
fn sled_flush(db: &mut sled::Db) -> (r: Result<(), StoreError>)
    ensures
        match r {
            Ok(_) => sled_contents(*final(db)) == sled_contents(*old(db)),
            Err(_) => true,
        },
{
    db.flush().map(|_| ()).map_err(|_| StoreError::Io)
}

/// Relies on sled::Tree::remove: drops the key's binding.
#[verifier::external_body]
fn sled_remove(db: &mut sled::Db, key: &Vec<u8>) -> (r: Result<(), StoreError>)
    ensures
        match r {
            Ok(_) => sled_contents(*final(db)) == sled_contents(*old(db)).remove(key@),
            Err(_) => true,
        },
{
    match db.remove(key.as_slice()) {
        Ok(_) => Ok(()),
        Err(_) => Err(StoreError::Io),
    }
}

/// Relies on sled::Tree::contains_key.
#[verifier::external_body]
fn sled_contains(db: &sled::Db, key: &Vec<u8>) -> (r: Result<bool, StoreError>)
    ensures
        match r {
            Ok(b) => b == sled_contents(*db).contains_key(key@),
            Err(_) => true,
        },
{
    db.contains_key(key.as_slice()).map_err(|_| StoreError::Io)
}

/// A key-value store backed by a `sled` database.
#[derive(Debug)]
pub struct SledKVStore {
    db: sled::Db,
}

impl View for SledKVStore {
    type V = Map<Seq<u8>, Seq<u8>>;

    /// The entries the store holds.
    closed spec fn view(&self) -> Map<Seq<u8>, Seq<u8>> {
        sled_contents(self.db)
    }
}

impl SledKVStore {
    /// Create a store over an already opened database.
    pub fn new(db: sled::Db) -> (r: SledKVStore)
        ensures
            r@ == sled_contents(db),
    {
        SledKVStore { db }
    }

    /// Open a store at the given path, with whatever it holds on disk.
    pub fn from_path(path: &str) -> (r: Result<SledKVStore, StoreError>) {
        match sled_open_path(path) {
            Ok(db) => Ok(SledKVStore::new(db)),
            Err(e) => Err(e),
        }
    }

    /// Open a fresh store that never touches disk.
    pub fn in_memory() -> (r: Result<SledKVStore, StoreError>)
        ensures
            r matches Ok(s) ==> s@ == Map::<Seq<u8>, Seq<u8>>::empty(),
    {
        match sled_open_temporary() {
            Ok(db) => Ok(SledKVStore::new(db)),
            Err(e) => Err(e),
        }
    }
}

impl KVStore for SledKVStore {
    open spec fn contents(&self) -> Map<Seq<u8>, Seq<u8>> {
        self@
    }

    fn get(&self, key: &Vec<u8>) -> (r: Result<Option<Vec<u8>>, StoreError>) {
        sled_get(&self.db, key)
    }

    fn set(&mut self, key: Vec<u8>, value: Vec<u8>) -> (r: Result<(), StoreError>) {
        match sled_insert(&mut self.db, &key, &value) {
            Ok(()) => sled_flush(&mut self.db),
            Err(e) => Err(e),
        }
    }

    fn del(&mut self, key: &Vec<u8>) -> (r: Result<(), StoreError>) {
        sled_remove(&mut self.db, key)
    }

    fn ex(&self, key: &Vec<u8>) -> (r: Result<bool, StoreError>) {
        sled_contains(&self.db, key)
    }
}

} // verus!
