//! The keygen job surface.
//!
//! A keygen request names a ciphersuite and a threshold.  The surface
//! resolves the ciphersuite, finds this operator's position among the
//! operators, starts the engine, and persists the resulting key material
//! under the hex of the group verifying key.  The network driving between
//! those steps happens outside the crate.
use vstd::prelude::*;

use crate::codec;
use crate::kv::KVStore;
use crate::kv::StoreError;
use crate::rounds::keygen::KeygenOutput;
use crate::rounds::keygen::KeygenRound1;
use crate::suite::Suite;
use crate::suite::spec_suite_id;

verus! {

/// Why a keygen request failed at the surface.
#[derive(Clone, PartialEq, Eq, Debug)]
pub enum Error {
    /// The request names no supported ciphersuite; holds the name.
    UnknownCiphersuite(String),
    /// This operator is not among the operators of the service.
    SelfNotInOperators,
    /// The protocol engine failed.
    Protocol(crate::rounds::keygen::Error),
    /// The key-value store failed.
    Store(StoreError),
    /// The store already holds an entry under this verifying key; an entry,
    /// once written, is never rewritten.
    DuplicateKey,
}

/// The persisted outcome of a keygen run: the ciphersuite and the
/// ciphersuite-defined serializations of the two packages.
#[derive(Clone, PartialEq, Eq, Debug)]
pub struct KeygenEntry {
    /// The ciphersuite the key belongs to.
    pub ciphersuite: Suite,
    /// This participant's key package, serialized; secret.
    pub keypkg: Vec<u8>,
    /// The group's public key package, serialized.
    pub pubkeypkg: Vec<u8>,
}

/// This operator's position among the operators, which are given in their
/// canonical registry order as their identity key bytes.  Fails exactly when
/// no operator's key equals this operator's.
pub fn find_self_index(operators: &Vec<Vec<u8>>, me: &Vec<u8>) -> (r: Result<u16, Error>)
    requires
        operators@.len() <= 0xFFFF,
    ensures
        match r {
            Ok(i) => i < operators@.len() && operators@[i as int]@ == me@ && (forall|j: int|
                0 <= j < i ==> (#[trigger] operators@[j])@ != me@),
            Err(e) => e == Error::SelfNotInOperators && (forall|j: int|
                0 <= j < operators@.len() ==> (#[trigger] operators@[j])@ != me@),
        },
{
    let mut j: usize = 0;
    while j < operators.len()
        invariant
            operators@.len() <= 0xFFFF,
            j <= operators@.len(),
            forall|k: int| 0 <= k < j ==> (#[trigger] operators@[k])@ != me@,
        decreases operators@.len() - j,
    {
        if codec::bytes_eq(&operators[j], me) {
            return Ok(j as u16);
        }
        j = j + 1;
    }
    Err(Error::SelfNotInOperators)
}

/// Start a keygen run: resolve the ciphersuite and hand the parameters to
/// the engine.  An unknown ciphersuite is rejected, with its name, before
/// any network activity; so are parameters outside `1 <= t <= n` and an
/// out-of-range party index.
pub fn keygen(ciphersuite: &String, threshold: u16, n: u16, i: u16) -> (r: Result<
    (KeygenRound1, Vec<u8>),
    Error,
>)
    ensures
        match r {
            Ok((st, _)) => (ciphersuite@ == spec_suite_id(st.spec_suite())) && 1 <= threshold <= n
                && i < n && st.wf() && st.spec_t() == threshold && st.spec_n() == n && st.spec_i()
                == i,
            Err(e) => match e {
                Error::UnknownCiphersuite(id) => id@ == ciphersuite@ && ciphersuite@
                    != spec_suite_id(Suite::Ed25519Sha512) && ciphersuite@ != spec_suite_id(
                    Suite::Secp256K1Sha256,
                ),
                Error::Protocol(pe) => (ciphersuite@ == spec_suite_id(Suite::Ed25519Sha512)
                    || ciphersuite@ == spec_suite_id(Suite::Secp256K1Sha256)) && match pe.spec_reason() {
                    crate::rounds::keygen::Reason::Bug(
                        crate::rounds::keygen::Bug::InvalidProtocolParameters,
                    ) => !(1 <= threshold <= n),
                    crate::rounds::keygen::Reason::Bug(
                        crate::rounds::keygen::Bug::InvalidPartyIndex,
                    ) => 1 <= threshold <= n && i >= n,
                    crate::rounds::keygen::Reason::Aborted(_) => 1 <= threshold <= n && i < n,
                    _ => false,
                },
                _ => false,
            },
        },
{
    let suite = match Suite::from_id(ciphersuite) {
        Some(s) => s,
        None => {
            return Err(Error::UnknownCiphersuite(ciphersuite.clone()));
        },
    };
    match crate::rounds::keygen::start(suite, threshold, n, i) {
        Ok(out) => Ok(out),
        Err(e) => Err(Error::Protocol(e)),
    }
}

/// Persist a finished keygen run: the entry frame goes into the store under
/// the lowercase hex of the group verifying key, and nothing else changes.
/// An entry, once written, is never rewritten: a key collision is reported
/// as a fatal `DuplicateKey` and the store is left alone.
pub fn persist_entry<S: KVStore>(store: &mut S, out: &KeygenOutput) -> (r: Result<Vec<u8>, Error>)
    ensures
        match r {
            Ok(key) => !old(store).contents().contains_key(codec::hex_of(out.verifying_key@))
                && key@ == codec::hex_of(out.verifying_key@) && final(store).contents() == old(
                store,
            ).contents().insert(
                codec::hex_of(out.verifying_key@),
                codec::spec_entry_frame(out.suite, out.keypkg@, out.pubkeypkg@),
            ),
            Err(Error::DuplicateKey) => old(store).contents().contains_key(
                codec::hex_of(out.verifying_key@),
            ) && final(store).contents() == old(store).contents(),
            Err(e) => e matches Error::Store(_),
        },
{
    let key = codec::hex_encode(&out.verifying_key);
    match store.ex(&key) {
        Ok(true) => {
            return Err(Error::DuplicateKey);
        },
        Ok(false) => {},
        Err(e) => {
            return Err(Error::Store(e));
        },
    }
    let value = codec::encode_entry(out.suite, &out.keypkg, &out.pubkeypkg);
    let returned_key = codec::clone_bytes(&key);
    match store.set(key, value) {
        Ok(()) => Ok(returned_key),
        Err(e) => Err(Error::Store(e)),
    }
}

} // verus!
