//! Key-value storage for key material.
//!
//! A store maps byte-string keys to byte-string values with at most one entry
//! per key.  Two backends exist: an in-memory map and a durable embedded
//! B-tree (`sled`).  Either way the store is modelled as a
//! `Map<Seq<u8>, Seq<u8>>` and every operation says exactly what it does to
//! that map.
use vstd::prelude::*;

/// In-memory backend.
pub mod mem;
/// Backend over the `sled` embedded database.
pub mod sled;

pub use mem::MemKVStore;
pub use sled::SledKVStore;

verus! {

/// A storage failure.  Store operations fail only with an I/O error kind.
#[derive(Clone, Copy, PartialEq, Eq, Structural, Debug)]
pub enum StoreError {
    /// The backend could not be read or written.
    Io,
}

/// A byte-string key-value store with at most one entry per key.
pub trait KVStore: Sized {
    /// The entries the store holds.
    spec fn contents(&self) -> Map<Seq<u8>, Seq<u8>>;

    /// Look a key up.
    fn get(&self, key: &Vec<u8>) -> (r: Result<Option<Vec<u8>>, StoreError>)
        ensures
            match r {
                Ok(Some(v)) => self.contents().contains_key(key@) && v@ == self.contents()[key@],
                Ok(None) => !self.contents().contains_key(key@),
                Err(_) => true,
            },
    ;

    /// Bind a key to a value, replacing any previous binding.
    fn set(&mut self, key: Vec<u8>, value: Vec<u8>) -> (r: Result<(), StoreError>)
        ensures
            r is Ok ==> final(self).contents() == old(self).contents().insert(key@, value@),
    ;

    /// Drop a key's binding; nothing changes when the key is absent.
    fn del(&mut self, key: &Vec<u8>) -> (r: Result<(), StoreError>)
        ensures
            r is Ok ==> final(self).contents() == old(self).contents().remove(key@),
    ;

    /// Whether a key is bound.
    fn ex(&self, key: &Vec<u8>) -> (r: Result<bool, StoreError>)
        ensures
            match r {
                Ok(b) => b == self.contents().contains_key(key@),
                Err(_) => true,
            },
    ;
}

/// A value just written is the value read back: binding `k` to `v` and then
/// looking `k` up yields `v`, whatever the store held before.
pub proof fn lemma_store_round_trip(m: Map<Seq<u8>, Seq<u8>>, k: Seq<u8>, v: Seq<u8>)
    ensures
        m.insert(k, v).contains_key(k),
        m.insert(k, v)[k] == v,
{
}

/// Writing one key leaves every other key's binding alone.
pub proof fn lemma_store_frame(m: Map<Seq<u8>, Seq<u8>>, k: Seq<u8>, v: Seq<u8>, other: Seq<u8>)
    requires
        other != k,
    ensures
        m.insert(k, v).contains_key(other) == m.contains_key(other),
        m.contains_key(other) ==> m.insert(k, v)[other] == m[other],
{
}

} // verus!
