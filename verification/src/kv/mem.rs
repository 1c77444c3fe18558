//! In-memory key-value store.
//!
//! Entries are held as a list of key-value pairs with pairwise-distinct keys;
//! the store's contents are the map that list denotes.
use vstd::prelude::*;

use crate::codec::bytes_eq;
use crate::codec::clone_bytes;
use crate::kv::KVStore;
use crate::kv::StoreError;

verus! {

/// The map denoted by a list of key-value pairs; later entries win.
pub open spec fn entries_map(s: Seq<(Vec<u8>, Vec<u8>)>) -> Map<Seq<u8>, Seq<u8>>
    decreases s.len(),
{
    if s.len() == 0 {
        Map::empty()
    } else {
        entries_map(s.drop_last()).insert(s.last().0@, s.last().1@)
    }
}

/// Whether the keys of a list of pairs are pairwise distinct.
pub open spec fn keys_distinct(s: Seq<(Vec<u8>, Vec<u8>)>) -> bool {
    forall|i: int, j: int| 0 <= i < j < s.len() ==> (#[trigger] s[i]).0@ != (#[trigger] s[j]).0@
}

/// A key is in the denoted map exactly when some entry holds it.
proof fn lemma_entries_map_contains(s: Seq<(Vec<u8>, Vec<u8>)>, k: Seq<u8>)
    ensures
        entries_map(s).contains_key(k) <==> exists|i: int|
            0 <= i < s.len() && (#[trigger] s[i]).0@ == k,
    decreases s.len(),
{
    if s.len() > 0 {
        lemma_entries_map_contains(s.drop_last(), k);
        if s.last().0@ != k && entries_map(s).contains_key(k) {
            let i = choose|i: int|
                0 <= i < s.drop_last().len() && (#[trigger] s.drop_last()[i]).0@ == k;
            assert(s[i].0@ == k);
        }
        if exists|i: int| 0 <= i < s.len() && (#[trigger] s[i]).0@ == k {
            let i = choose|i: int| 0 <= i < s.len() && (#[trigger] s[i]).0@ == k;
            if i < s.len() - 1 {
                assert(s.drop_last()[i].0@ == k);
            }
        }
    }
}

/// With distinct keys, the entry holding a key gives that key's value.
proof fn lemma_entries_map_at(s: Seq<(Vec<u8>, Vec<u8>)>, i: int)
    requires
        keys_distinct(s),
        0 <= i < s.len(),
    ensures
        entries_map(s).contains_key(s[i].0@),
        entries_map(s)[s[i].0@] == s[i].1@,
    decreases s.len(),
{
    if i == s.len() - 1 {
    } else {
        assert(s[i].0@ != s.last().0@);
        lemma_entries_map_at(s.drop_last(), i);
        assert(s.drop_last()[i] == s[i]);
    }
}

/// Removing the entry that holds a key removes exactly that key from the
/// denoted map.
proof fn lemma_entries_map_remove(s: Seq<(Vec<u8>, Vec<u8>)>, i: int)
    requires
        keys_distinct(s),
        0 <= i < s.len(),
    ensures
        entries_map(s.remove(i)) =~= entries_map(s).remove(s[i].0@),
    decreases s.len(),
{
    if i == s.len() - 1 {
        assert(s.remove(i) =~= s.drop_last());
        lemma_entries_map_contains(s.drop_last(), s[i].0@);
        assert forall|j: int|
            0 <= j < s.drop_last().len() implies (#[trigger] s.drop_last()[j]).0@ != s[i].0@ by {
            assert(s[j].0@ != s[i].0@);
        }
        assert(!entries_map(s.drop_last()).contains_key(s[i].0@));
    } else {
        lemma_entries_map_remove(s.drop_last(), i);
        assert(s.remove(i).drop_last() =~= s.drop_last().remove(i));
        assert(s.remove(i).last() == s.last());
        assert(s[i].0@ != s.last().0@);
        assert(entries_map(s.remove(i)) == entries_map(s.remove(i).drop_last()).insert(
            s.last().0@,
            s.last().1@,
        ));
    }
}

/// Removing an entry keeps the remaining keys pairwise distinct.
proof fn lemma_keys_distinct_remove(s: Seq<(Vec<u8>, Vec<u8>)>, i: int)
    requires
        keys_distinct(s),
        0 <= i < s.len(),
    ensures
        keys_distinct(s.remove(i)),
{
    let t = s.remove(i);
    assert forall|a: int, b: int|
        0 <= a < b < t.len() implies (#[trigger] t[a]).0@ != (#[trigger] t[b]).0@ by {
        let a2 = if a < i {
            a
        } else {
            a + 1
        };
        let b2 = if b < i {
            b
        } else {
            b + 1
        };
        assert(t[a] == s[a2] && t[b] == s[b2]);
        assert(s[a2].0@ != s[b2].0@);
    }
}

/// Shared in-memory key-value store.
#[derive(Debug)]
pub struct MemKVStore {
    entries: Vec<(Vec<u8>, Vec<u8>)>,
}

impl View for MemKVStore {
    type V = Map<Seq<u8>, Seq<u8>>;

    /// The entries the store holds.
    closed spec fn view(&self) -> Map<Seq<u8>, Seq<u8>> {
        entries_map(self.entries@)
    }
}

impl MemKVStore {
    /// The keys the store holds are pairwise distinct.
    #[verifier::type_invariant]
    spec fn inv(&self) -> bool {
        keys_distinct(self.entries@)
    }

    /// Create an empty store.
    pub fn new() -> (r: MemKVStore)
        ensures
            r@ == Map::<Seq<u8>, Seq<u8>>::empty(),
    {
        MemKVStore { entries: Vec::new() }
    }

    /// The position of the entry holding a key, if any.
    fn position(&self, key: &Vec<u8>) -> (r: Option<usize>)
        ensures
            match r {
                Some(i) => i < self.entries@.len() && self.entries@[i as int].0@ == key@
                    && self@.contains_key(key@) && self@[key@] == self.entries@[i as int].1@,
                None => !self@.contains_key(key@),
            },
    {
        proof {
            use_type_invariant(self);
        }
        let mut i: usize = 0;
        while i < self.entries.len()
            invariant
                keys_distinct(self.entries@),
                i <= self.entries@.len(),
                forall|j: int| 0 <= j < i ==> (#[trigger] self.entries@[j]).0@ != key@,
            decreases self.entries@.len() - i,
        {
            if bytes_eq(&self.entries[i].0, key) {
                proof {
                    lemma_entries_map_at(self.entries@, i as int);
                }
                return Some(i);
            }
            i = i + 1;
        }
        proof {
            lemma_entries_map_contains(self.entries@, key@);
        }
        None
    }

    /// Insert a key-value pair into the store, replacing any previous
    /// binding of the key.
    pub fn insert(&mut self, key: Vec<u8>, value: Vec<u8>)
        ensures
            final(self)@ == old(self)@.insert(key@, value@),
    {
        proof {
            use_type_invariant(&*self);
        }
        let ghost before = self.entries@;
        let pos = self.position(&key);
        let mut entries: Vec<(Vec<u8>, Vec<u8>)> = Vec::new();
        core::mem::swap(&mut entries, &mut self.entries);
        match pos {
            Some(i) => {
                proof {
                    lemma_entries_map_remove(before, i as int);
                    lemma_keys_distinct_remove(before, i as int);
                }
                entries.remove(i);
            },
            None => {},
        }
        let ghost mid = entries@;
        proof {
            // No remaining entry holds the key, so pushing it keeps the keys
            // distinct.
            assert forall|j: int|
                0 <= j < mid.len() implies (#[trigger] mid[j]).0@ != key@ by {
                lemma_entries_map_contains(mid, key@);
                lemma_entries_map_at(mid, j);
                if mid[j].0@ == key@ {
                    assert(entries_map(mid).contains_key(key@));
                }
            }
        }
        entries.push((key, value));
        proof {
            let now = entries@;
            assert forall|a: int, b: int|
                0 <= a < b < now.len() implies (#[trigger] now[a]).0@
                != (#[trigger] now[b]).0@ by {
                if b == now.len() - 1 {
                    assert(now[a] == mid[a]);
                } else {
                    assert(now[a] == mid[a] && now[b] == mid[b]);
                }
            }
            assert(now.drop_last() =~= mid);
            assert(entries_map(now) == entries_map(mid).insert(key@, value@));
            if before != mid {
                assert(entries_map(mid) =~= entries_map(before).remove(key@));
                assert(entries_map(mid).insert(key@, value@) =~= entries_map(before).insert(
                    key@,
                    value@,
                ));
            }
        }
        core::mem::swap(&mut entries, &mut self.entries);
    }

    /// Get the value bound to a key.
    pub fn get(&self, key: &Vec<u8>) -> (r: Option<Vec<u8>>)
        ensures
            match r {
                Some(v) => self@.contains_key(key@) && v@ == self@[key@],
                None => !self@.contains_key(key@),
            },
    {
        match self.position(key) {
            Some(i) => Some(clone_bytes(&self.entries[i].1)),
            None => None,
        }
    }

    /// Remove a key's binding from the store.
    pub fn remove(&mut self, key: &Vec<u8>) -> (r: Option<Vec<u8>>)
        ensures
            final(self)@ == old(self)@.remove(key@),
            match r {
                Some(v) => old(self)@.contains_key(key@) && v@ == old(self)@[key@],
                None => !old(self)@.contains_key(key@),
            },
    {
        proof {
            use_type_invariant(&*self);
        }
        match self.position(key) {
            Some(i) => {
                proof {
                    lemma_entries_map_remove(self.entries@, i as int);
                    lemma_keys_distinct_remove(self.entries@, i as int);
                }
                let mut entries: Vec<(Vec<u8>, Vec<u8>)> = Vec::new();
                core::mem::swap(&mut entries, &mut self.entries);
                let pair = entries.remove(i);
                core::mem::swap(&mut entries, &mut self.entries);
                Some(pair.1)
            },
            None => {
                proof {
                    assert(self@ =~= self@.remove(key@));
                }
                None
            },
        }
    }

    /// Whether the store holds a key.
    pub fn contains_key(&self, key: &Vec<u8>) -> (r: bool)
        ensures
            r == self@.contains_key(key@),
    {
        self.position(key).is_some()
    }
}

impl Default for MemKVStore {
    /// An empty store.
    fn default() -> (r: MemKVStore)
        ensures
            r@ == Map::<Seq<u8>, Seq<u8>>::empty(),
    {
        MemKVStore::new()
    }
}

impl KVStore for MemKVStore {
    open spec fn contents(&self) -> Map<Seq<u8>, Seq<u8>> {
        self@
    }

    fn get(&self, key: &Vec<u8>) -> (r: Result<Option<Vec<u8>>, StoreError>) {
        Ok(MemKVStore::get(self, key))
    }

    fn set(&mut self, key: Vec<u8>, value: Vec<u8>) -> (r: Result<(), StoreError>) {
        self.insert(key, value);
        Ok(())
    }

    fn del(&mut self, key: &Vec<u8>) -> (r: Result<(), StoreError>) {
        self.remove(key);
        Ok(())
    }

    fn ex(&self, key: &Vec<u8>) -> (r: Result<bool, StoreError>) {
        Ok(self.contains_key(key))
    }
}

} // verus!
