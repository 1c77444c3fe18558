//! Key-value store tests: a value written is the value read back, on both
//! backends.
use frost_blueprint::kv::KVStore;
use frost_blueprint::kv::MemKVStore;
use frost_blueprint::kv::SledKVStore;

#[test]
fn mem_set_get_round_trip() {
    let mut store = MemKVStore::new();
    store.set(b"alpha".to_vec(), b"one".to_vec()).unwrap();
    assert_eq!(KVStore::get(&store, &b"alpha".to_vec()).unwrap(), Some(b"one".to_vec()));
}

#[test]
fn mem_overwrite_and_delete() {
    let mut store = MemKVStore::new();
    store.insert(b"k".to_vec(), b"v1".to_vec());
    store.insert(b"k".to_vec(), b"v2".to_vec());
    assert_eq!(store.get(&b"k".to_vec()), Some(b"v2".to_vec()));
    assert!(store.contains_key(&b"k".to_vec()));
    assert_eq!(store.remove(&b"k".to_vec()), Some(b"v2".to_vec()));
    assert_eq!(store.get(&b"k".to_vec()), None);
    assert!(!store.contains_key(&b"k".to_vec()));
    // Deleting an absent key is idempotent.
    store.del(&b"k".to_vec()).unwrap();
    assert_eq!(store.get(&b"k".to_vec()), None);
}

#[test]
fn mem_distinct_keys_do_not_interfere() {
    let mut store = MemKVStore::new();
    store.insert(b"a".to_vec(), b"1".to_vec());
    store.insert(b"b".to_vec(), b"2".to_vec());
    store.insert(b"a".to_vec(), b"3".to_vec());
    assert_eq!(store.get(&b"a".to_vec()), Some(b"3".to_vec()));
    assert_eq!(store.get(&b"b".to_vec()), Some(b"2".to_vec()));
    assert_eq!(store.get(&b"c".to_vec()), None);
}

#[test]
fn sled_set_get_round_trip() {
    let mut store = SledKVStore::in_memory().unwrap();
    store.set(b"alpha".to_vec(), b"one".to_vec()).unwrap();
    assert_eq!(store.get(&b"alpha".to_vec()).unwrap(), Some(b"one".to_vec()));
    assert!(store.ex(&b"alpha".to_vec()).unwrap());
    assert_eq!(store.get(&b"beta".to_vec()).unwrap(), None);
    store.del(&b"alpha".to_vec()).unwrap();
    assert_eq!(store.get(&b"alpha".to_vec()).unwrap(), None);
}
