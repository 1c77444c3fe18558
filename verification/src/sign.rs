//! The signing job surface.
//!
//! A signing request names a previously generated verifying key and a
//! message.  The surface loads the persisted key material, derives the
//! deterministic signer subset from the verifying key, checks that this
//! operator is one of the chosen signers, and hands the run to the signing
//! engine.  A node outside the subset returns `SelfNotInSigners` without any
//! network activity.
use vstd::prelude::*;

use crate::codec;
use crate::frost;
use crate::kv::KVStore;
use crate::kv::StoreError;
use crate::rounds::sign::SignRound1;
use crate::rounds::sign::signer_set_wf;
use crate::suite::Suite;
use crate::suite::spec_suite_id;

verus! {

/// Why a signing request failed at the surface.
#[derive(Clone, PartialEq, Eq, Debug)]
pub enum Error {
    /// The persisted entry is malformed.
    InvalidEntry,
    /// The persisted entry names a ciphersuite this node does not support;
    /// holds the name's bytes.
    UnknownCiphersuite(Vec<u8>),
    /// No key material is stored under the requested verifying key.
    KeyNotFound,
    /// This operator is not among the operators of the service.
    SelfNotInOperators,
    /// The deterministic signer subset does not include this operator; a
    /// recoverable outcome, not a protocol failure.
    SelfNotInSigners,
    /// The protocol engine failed.
    Protocol(crate::rounds::sign::Error),
    /// The key-value store failed.
    Store(StoreError),
}

/// The Keccak-256 digest of a byte string; it depends on the bytes alone.
pub uninterp spec fn keccak256_of(data: Seq<u8>) -> Seq<u8>;

/// Relies on sha3's Keccak-256: a 32-byte digest of the input, depending on
/// the input alone.
#[verifier::external_body]
fn keccak256(data: &Vec<u8>) -> (r: Vec<u8>)
    ensures
        r@ == keccak256_of(data@),
        r@.len() == 32,
{
    <sha3::Keccak256 as sha3::digest::Digest>::digest(data.as_slice()).to_vec()
}

/// The signer sample drawn from a 32-byte seed: which indices below `n` a
/// ChaCha20 generator seeded with the seed picks; it depends on the
/// arguments alone, so every party draws the same sample.
pub uninterp spec fn sample_of(seed: Seq<u8>, n: u16, t: u16) -> Seq<u16>;

/// Relies on rand_chacha's ChaCha20 generator and rand's reservoir
/// sampling: a draw, without replacement, of `min(t, n)` distinct indices
/// below `n`, determined by the seed alone.
#[verifier::external_body]
fn sample_signers(seed: &Vec<u8>, n: u16, t: u16) -> (r: Vec<u16>)
    requires
        seed@.len() == 32,
    ensures
        r@ == sample_of(seed@, n, t),
        r@.len() == (if t <= n {
            t as int
        } else {
            n as int
        }),
        forall|j: int| 0 <= j < r@.len() ==> (#[trigger] r@[j]) < n,
        forall|j1: int, j2: int| 0 <= j1 < j2 < r@.len() ==> (#[trigger] r@[j1]) != (
        #[trigger] r@[j2]),
{
    let mut s = [0u8; 32];
    s.copy_from_slice(seed.as_slice());
    let mut rng = <rand_chacha::ChaCha20Rng as rand::SeedableRng>::from_seed(s);
    rand::seq::IteratorRandom::choose_multiple(0..n, &mut rng, t as usize)
}

/// Whether bytes parse as a key package of the suite.
pub open spec fn spec_keypkg_ok(s: Suite, keypkg: Seq<u8>) -> bool {
    match s {
        Suite::Ed25519Sha512 => frost::ed25519_keypkg_ok(keypkg),
        Suite::Secp256K1Sha256 => frost::secp256k1_keypkg_ok(keypkg),
    }
}

/// The threshold recorded in a serialized key package of the suite.
pub open spec fn spec_min_signers(s: Suite, keypkg: Seq<u8>) -> u16 {
    match s {
        Suite::Ed25519Sha512 => frost::ed25519_min_signers_of(keypkg),
        Suite::Secp256K1Sha256 => frost::secp256k1_min_signers_of(keypkg),
    }
}

/// The serialized identifier scalar recorded in a serialized key package of
/// the suite.
pub open spec fn spec_id_bytes(s: Suite, keypkg: Seq<u8>) -> Seq<u8> {
    match s {
        Suite::Ed25519Sha512 => frost::ed25519_identifier_bytes_of(keypkg),
        Suite::Secp256K1Sha256 => frost::secp256k1_identifier_bytes_of(keypkg),
    }
}

/// The party index recorded in a serialized key package of the suite, read
/// off the identifier scalar by the suite's byte order; `None` when the
/// serialization is too short to carry it.
pub open spec fn spec_self_index(s: Suite, keypkg: Seq<u8>) -> Option<u16> {
    let b = spec_id_bytes(s, keypkg);
    match s {
        Suite::Ed25519Sha512 => if b.len() >= 2 {
            Some(crate::rounds::index_of_le2(b[0], b[1]))
        } else {
            None
        },
        Suite::Secp256K1Sha256 => if b.len() >= 32 {
            Some(crate::rounds::index_of_le2(b[31], b[30]))
        } else {
            None
        },
    }
}

/// Whether a stored key package yields what a signing run needs: it parses
/// and carries a readable identifier.
pub open spec fn spec_entry_readable(s: Suite, keypkg: Seq<u8>) -> bool {
    spec_keypkg_ok(s, keypkg) && spec_self_index(s, keypkg) is Some
}

/// Whether the party recorded in the key package falls inside the
/// deterministic signer subset for this verifying key and operator count.
pub open spec fn spec_in_subset(vk: Seq<u8>, n: u16, s: Suite, keypkg: Seq<u8>) -> bool {
    match spec_self_index(s, keypkg) {
        Some(me) => sample_of(keccak256_of(vk), n, spec_min_signers(s, keypkg)).contains(me),
        None => false,
    }
}

/// Sort a list of pairwise-distinct indices into increasing order, keeping
/// exactly the same indices.
fn sort_indices(v: &Vec<u16>) -> (r: Vec<u16>)
    requires
        forall|j1: int, j2: int| 0 <= j1 < j2 < v@.len() ==> (#[trigger] v@[j1]) != (
        #[trigger] v@[j2]),
    ensures
        r@.len() == v@.len(),
        forall|j1: int, j2: int| 0 <= j1 < j2 < r@.len() ==> (#[trigger] r@[j1]) < (
        #[trigger] r@[j2]),
        forall|x: u16| r@.contains(x) <==> v@.contains(x),
{
    let mut out: Vec<u16> = Vec::new();
    let mut i: usize = 0;
    while i < v.len()
        invariant
            forall|j1: int, j2: int| 0 <= j1 < j2 < v@.len() ==> (#[trigger] v@[j1]) != (
            #[trigger] v@[j2]),
            i <= v@.len(),
            out@.len() == i,
            forall|j1: int, j2: int| 0 <= j1 < j2 < out@.len() ==> (#[trigger] out@[j1]) < (
            #[trigger] out@[j2]),
            forall|x: u16| out@.contains(x) <==> v@.take(i as int).contains(x),
        decreases v@.len() - i,
    {
        let x = v[i];
        proof {
            // The element is new: it differs from every already-placed one.
            assert forall|k: int| 0 <= k < out@.len() implies (#[trigger] out@[k]) != x by {
                if out@[k] == x {
                    assert(out@.contains(x));
                    let m = choose|m: int| 0 <= m < i && v@.take(i as int)[m] == x;
                    assert(v@[m] == x && v@[i as int] == x);
                }
            }
        }
        // Find the first position whose element is larger.
        let mut pos: usize = 0;
        while pos < out.len() && out[pos] < x
            invariant
                pos <= out@.len(),
                forall|k: int| 0 <= k < pos ==> (#[trigger] out@[k]) < x,
            decreases out@.len() - pos,
        {
            pos = pos + 1;
        }
        let ghost before = out@;
        out.insert(pos, x);
        proof {
            assert(out@ =~= before.insert(pos as int, x));
            assert forall|j1: int, j2: int|
                0 <= j1 < j2 < out@.len() implies (#[trigger] out@[j1]) < (
            #[trigger] out@[j2]) by {
                let a = if j1 < pos {
                    j1
                } else {
                    j1 - 1
                };
                let b = if j2 < pos {
                    j2
                } else {
                    j2 - 1
                };
                if j1 != pos && j2 != pos {
                    assert(out@[j1] == before[a] && out@[j2] == before[b]);
                }
                if j1 == pos {
                    assert(out@[j2] == before[b] && b >= pos);
                    assert(before[b] != x);
                }
                if j2 == pos {
                    assert(out@[j1] == before[a] && a < pos);
                }
            }
            assert forall|x2: u16| out@.contains(x2) <==> v@.take(i + 1).contains(x2) by {
                if out@.contains(x2) {
                    let m = choose|m: int| 0 <= m < out@.len() && #[trigger] out@[m] == x2;
                    if m == pos {
                        assert(v@.take(i + 1)[i as int] == x);
                    } else {
                        let a = if m < pos {
                            m
                        } else {
                            m - 1
                        };
                        assert(before[a] == x2);
                        assert(before.contains(x2));
                        let m2 = choose|m2: int|
                            0 <= m2 < v@.take(i as int).len() && #[trigger] v@.take(
                                i as int,
                            )[m2] == x2;
                        assert(v@.take(i + 1)[m2] == x2);
                    }
                }
                if v@.take(i + 1).contains(x2) {
                    let m = choose|m: int| 0 <= m < i + 1 && #[trigger] v@.take(i + 1)[m] == x2;
                    if m == i {
                        assert(out@[pos as int] == x2);
                    } else {
                        assert(v@.take(i as int)[m] == x2);
                        assert(before.contains(x2));
                        let m2 = choose|m2: int| 0 <= m2 < before.len() && #[trigger] before[m2] == x2;
                        let m3 = if m2 < pos {
                            m2
                        } else {
                            m2 + 1
                        };
                        assert(out@[m3] == x2);
                    }
                }
            }
        }
        i = i + 1;
    }
    proof {
        assert(v@.take(v@.len() as int) =~= v@);
    }
    out
}

/// The deterministic signer subset for a verifying key: seed a ChaCha20
/// generator with the Keccak-256 digest of the verifying key bytes, draw
/// `t` of the `n` operators without replacement, and order them by index.
/// Every honest party computes the same subset.  The message deliberately
/// does not enter the seed.
pub fn select_signers(verifying_key: &Vec<u8>, n: u16, t: u16) -> (r: Vec<u16>)
    ensures
        r@.len() == (if t <= n {
            t as int
        } else {
            n as int
        }),
        forall|j: int| 0 <= j < r@.len() ==> (#[trigger] r@[j]) < n,
        forall|j1: int, j2: int| 0 <= j1 < j2 < r@.len() ==> (#[trigger] r@[j1]) < (
        #[trigger] r@[j2]),
        forall|x: u16| r@.contains(x) <==> sample_of(
            keccak256_of(verifying_key@),
            n,
            t,
        ).contains(x),
{
    let seed = keccak256(verifying_key);
    let sample = sample_signers(&seed, n, t);
    let sorted = sort_indices(&sample);
    proof {
        assert forall|j: int| 0 <= j < sorted@.len() implies (#[trigger] sorted@[j]) < n by {
            assert(sorted@.contains(sorted@[j]));
            assert(sample@.contains(sorted@[j]));
            let k = choose|k: int| 0 <= k < sample@.len() && #[trigger] sample@[k] == sorted@[j];
            assert(sample@[k] < n);
        }
    }
    sorted
}

/// Load the persisted key material for a verifying key.  Fails with
/// `KeyNotFound` exactly when the store holds nothing under the key's hex;
/// with `UnknownCiphersuite`, naming the claimed suite, when the stored
/// bytes decode as no entry but do open with a ciphersuite name that is
/// neither supported identifier; and with `InvalidEntry` on every other
/// malformed value.
pub fn load_entry<S: KVStore>(store: &S, pubkey: &Vec<u8>) -> (r: Result<
    crate::keygen::KeygenEntry,
    Error,
>)
    ensures
        match r {
            Ok(entry) => store.contents().contains_key(codec::hex_of(pubkey@))
                && store.contents()[codec::hex_of(pubkey@)] == codec::spec_entry_frame(
                entry.ciphersuite,
                entry.keypkg@,
                entry.pubkeypkg@,
            ),
            Err(Error::KeyNotFound) => !store.contents().contains_key(codec::hex_of(pubkey@)),
            Err(Error::UnknownCiphersuite(id)) => {
                let value = store.contents()[codec::hex_of(pubkey@)];
                &&& store.contents().contains_key(codec::hex_of(pubkey@))
                &&& forall|s: Suite, k: Seq<u8>, p: Seq<u8>|
                    value != codec::spec_entry_frame(s, k, p)
                &&& codec::spec_has_suite_prefix(value)
                &&& codec::spec_suite_id_end(value, 16 + id@.len() as int)
                &&& id@ == value.subrange(16, 16 + id@.len() as int)
                &&& id@ != codec::ascii_bytes(spec_suite_id(Suite::Ed25519Sha512))
                &&& id@ != codec::ascii_bytes(spec_suite_id(Suite::Secp256K1Sha256))
            },
            Err(Error::InvalidEntry) => {
                let value = store.contents()[codec::hex_of(pubkey@)];
                &&& store.contents().contains_key(codec::hex_of(pubkey@))
                &&& forall|s: Suite, k: Seq<u8>, p: Seq<u8>|
                    value != codec::spec_entry_frame(s, k, p)
                &&& (!codec::spec_has_suite_prefix(value) || (forall|t: int|
                    16 <= t < value.len() ==> value[t] != 0x22) || (exists|qe: int|
                    codec::spec_suite_id_end(value, qe) && (value.subrange(16, qe)
                        == codec::ascii_bytes(spec_suite_id(Suite::Ed25519Sha512))
                        || value.subrange(16, qe) == codec::ascii_bytes(
                        spec_suite_id(Suite::Secp256K1Sha256),
                    ))))
            },
            Err(e) => e matches Error::Store(_),
        },
{
    let key = codec::hex_encode(pubkey);
    let raw = match store.get(&key) {
        Ok(Some(raw)) => raw,
        Ok(None) => {
            return Err(Error::KeyNotFound);
        },
        Err(e) => {
            return Err(Error::Store(e));
        },
    };
    match codec::decode_entry(&raw) {
        Some((ciphersuite, keypkg, pubkeypkg)) => Ok(
            crate::keygen::KeygenEntry { ciphersuite, keypkg, pubkeypkg },
        ),
        None => {
            // Not an entry; report an unsupported ciphersuite by name when
            // the bytes claim one.
            match codec::claimed_suite_id(&raw) {
                Some(id) => {
                    let ed = codec::suite_id_bytes(Suite::Ed25519Sha512);
                    let secp = codec::suite_id_bytes(Suite::Secp256K1Sha256);
                    if codec::bytes_eq(&id, &ed) || codec::bytes_eq(&id, &secp) {
                        proof {
                            assert(codec::spec_suite_id_end(raw@, 16 + id@.len() as int));
                        }
                        Err(Error::InvalidEntry)
                    } else {
                        Err(Error::UnknownCiphersuite(id))
                    }
                },
                None => Err(Error::InvalidEntry),
            }
        },
    }
}

/// Start a signing run from the persisted key material.  The signer subset
/// is derived deterministically from the verifying key; when this operator
/// is not among the chosen signers the run ends here, with
/// `SelfNotInSigners`, before any network activity.
pub fn sign<S: KVStore>(store: &S, pubkey: &Vec<u8>, msg: Vec<u8>, n_operators: u16) -> (r: Result<
    (SignRound1, Vec<u8>),
    Error,
>)
    ensures
        match r {
            Ok((st, _)) => store.contents().contains_key(codec::hex_of(pubkey@)) && (exists|
                k: Seq<u8>,
                p: Seq<u8>,
            |
                store.contents()[codec::hex_of(pubkey@)] == #[trigger] codec::spec_entry_frame(
                    st.spec_suite(),
                    k,
                    p,
                ) && spec_entry_readable(st.spec_suite(), k) && spec_in_subset(
                    pubkey@,
                    n_operators,
                    st.spec_suite(),
                    k,
                )),
            Err(Error::KeyNotFound) => !store.contents().contains_key(codec::hex_of(pubkey@)),
            Err(Error::UnknownCiphersuite(id)) => {
                let value = store.contents()[codec::hex_of(pubkey@)];
                &&& store.contents().contains_key(codec::hex_of(pubkey@))
                &&& forall|s2: Suite, k2: Seq<u8>, p2: Seq<u8>|
                    value != codec::spec_entry_frame(s2, k2, p2)
                &&& codec::spec_has_suite_prefix(value)
                &&& id@ == value.subrange(16, 16 + id@.len() as int)
                &&& id@ != codec::ascii_bytes(spec_suite_id(Suite::Ed25519Sha512))
                &&& id@ != codec::ascii_bytes(spec_suite_id(Suite::Secp256K1Sha256))
            },
            Err(Error::InvalidEntry) => store.contents().contains_key(codec::hex_of(pubkey@)) && (
            (forall|s2: Suite, k2: Seq<u8>, p2: Seq<u8>|
                store.contents()[codec::hex_of(pubkey@)] != codec::spec_entry_frame(s2, k2, p2))
                || (exists|s2: Suite, k2: Seq<u8>, p2: Seq<u8>|
                store.contents()[codec::hex_of(pubkey@)] == #[trigger] codec::spec_entry_frame(
                    s2,
                    k2,
                    p2,
                ) && !spec_entry_readable(s2, k2))),
            Err(Error::SelfNotInSigners) => store.contents().contains_key(codec::hex_of(pubkey@))
                && (exists|s2: Suite, k2: Seq<u8>, p2: Seq<u8>|
                store.contents()[codec::hex_of(pubkey@)] == #[trigger] codec::spec_entry_frame(
                    s2,
                    k2,
                    p2,
                ) && spec_entry_readable(s2, k2) && !spec_in_subset(
                    pubkey@,
                    n_operators,
                    s2,
                    k2,
                )),
            Err(Error::Protocol(pe)) => store.contents().contains_key(codec::hex_of(pubkey@)) && (
            exists|s2: Suite, k2: Seq<u8>, p2: Seq<u8>|
                store.contents()[codec::hex_of(pubkey@)] == #[trigger] codec::spec_entry_frame(
                    s2,
                    k2,
                    p2,
                ) && spec_entry_readable(s2, k2) && spec_in_subset(pubkey@, n_operators, s2, k2)
                    && (match pe.spec_reason() {
                    crate::rounds::sign::Reason::Bug(
                        crate::rounds::sign::Bug::InvalidProtocolParameters,
                    ) => n_operators < spec_min_signers(s2, k2),
                    crate::rounds::sign::Reason::Aborted(
                        crate::rounds::sign::SigningAborted::Frost(_),
                    ) => true,
                    _ => false,
                })),
            Err(Error::SelfNotInOperators) => false,
            Err(Error::Store(_)) => true,
        },
{
    let entry = match load_entry(store, pubkey) {
        Ok(entry) => entry,
        Err(e) => {
            return Err(e);
        },
    };
    let suite = entry.ciphersuite;
    let ghost gk: Seq<u8> = entry.keypkg@;
    let ghost gp: Seq<u8> = entry.pubkeypkg@;
    // The threshold and this party's identifier come from the key package.
    let t = match suite {
        Suite::Ed25519Sha512 => frost::keypkg_min_signers_ed25519(&entry.keypkg),
        Suite::Secp256K1Sha256 => frost::keypkg_min_signers_secp256k1(&entry.keypkg),
    };
    let t = match t {
        Ok(t) => t,
        Err(_) => {
            proof {
                assert(!spec_keypkg_ok(suite, gk));
                assert(store.contents()[codec::hex_of(pubkey@)] == codec::spec_entry_frame(
                    suite,
                    gk,
                    gp,
                ) && !spec_entry_readable(suite, gk));
            }
            return Err(Error::InvalidEntry);
        },
    };
    let id_bytes = match suite {
        Suite::Ed25519Sha512 => frost::keypkg_identifier_bytes_ed25519(&entry.keypkg),
        Suite::Secp256K1Sha256 => frost::keypkg_identifier_bytes_secp256k1(&entry.keypkg),
    };
    let id_bytes = match id_bytes {
        Ok(b) => b,
        Err(_) => {
            proof {
                assert(!spec_keypkg_ok(suite, gk));
                assert(store.contents()[codec::hex_of(pubkey@)] == codec::spec_entry_frame(
                    suite,
                    gk,
                    gp,
                ) && !spec_entry_readable(suite, gk));
            }
            return Err(Error::InvalidEntry);
        },
    };
    let me = match crate::rounds::index_from_id_bytes(suite, &id_bytes) {
        Some(w) => w.as_u16(),
        None => {
            proof {
                assert(spec_self_index(suite, gk) is None);
                assert(store.contents()[codec::hex_of(pubkey@)] == codec::spec_entry_frame(
                    suite,
                    gk,
                    gp,
                ) && !spec_entry_readable(suite, gk));
            }
            return Err(Error::InvalidEntry);
        },
    };
    proof {
        assert(spec_self_index(suite, gk) == Some(me));
        assert(spec_entry_readable(suite, gk));
        assert(t == spec_min_signers(suite, gk));
    }
    // Derive the deterministic signer subset and find this party in it.
    let signer_set = select_signers(pubkey, n_operators, t);
    let mut in_set = false;
    let mut j: usize = 0;
    while j < signer_set.len()
        invariant
            j <= signer_set@.len(),
            in_set <==> exists|k: int| 0 <= k < j && (#[trigger] signer_set@[k]) == me,
        decreases signer_set@.len() - j,
    {
        if signer_set[j] == me {
            in_set = true;
        }
        j = j + 1;
    }
    if !in_set {
        proof {
            assert(forall|k: int|
                0 <= k < signer_set@.len() ==> (#[trigger] signer_set@[k]) != me);
            assert(!signer_set@.contains(me));
            assert(!spec_in_subset(pubkey@, n_operators, suite, gk));
            assert(store.contents()[codec::hex_of(pubkey@)] == codec::spec_entry_frame(
                suite,
                gk,
                gp,
            ));
        }
        return Err(Error::SelfNotInSigners);
    }
    proof {
        assert(signer_set@.contains(me));
        assert(spec_in_subset(pubkey@, n_operators, suite, gk));
        assert forall|k: int| 0 <= k < signer_set@.len() implies (#[trigger] signer_set@[k])
            < 0xFFFF by {
            assert(signer_set@[k] < n_operators);
        }
        assert(signer_set_wf(signer_set@));
    }
    let ghost gset = signer_set@;
    match crate::rounds::sign::start(suite, entry.keypkg, entry.pubkeypkg, t, me, signer_set, msg) {
        Ok(out) => {
            proof {
                assert(store.contents()[codec::hex_of(pubkey@)] == codec::spec_entry_frame(
                    suite,
                    gk,
                    gp,
                ));
            }
            Ok(out)
        },
        Err(e) => {
            proof {
                if e.spec_reason() matches crate::rounds::sign::Reason::Bug(
                    crate::rounds::sign::Bug::InvalidProtocolParameters,
                ) {
                    assert(gset.len() < t);
                    assert(n_operators < spec_min_signers(suite, gk));
                }
                assert(store.contents()[codec::hex_of(pubkey@)] == codec::spec_entry_frame(
                    suite,
                    gk,
                    gp,
                ));
            }
            Err(Error::Protocol(e))
        },
    }
}

} // verus!
