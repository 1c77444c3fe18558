//! Core of a FROST threshold-signature service node.
//!
//! The node is one of `n` mutually distrusting operators that together run a
//! distributed key generation and later produce Schnorr signatures over
//! arbitrary messages with any `t`-sized subset of operators.  This crate
//! holds the protocol engines, the message router, the delivery bookkeeping,
//! the key-material store and the job surface; the cryptographic operations
//! themselves are performed by the `frost-core` family of crates behind
//! narrow trusted wrappers.
use vstd::prelude::*;

/// Byte-level codecs: hex keys and the persisted entry frame.
pub mod codec;
/// Trusted boundary to the FROST cryptography crates.
pub mod frost;
/// FROST keygen job surface.
pub mod keygen;
/// Key-value storage.
pub mod kv;
/// Round-based protocol engines and their support types.
pub mod rounds;
/// FROST signing job surface.
pub mod sign;
/// Ciphersuite identifiers.
pub mod suite;

verus! {

/// Job identifier for the distributed key generation job.
pub const KEYGEN_JOB_ID: u8 = 0;
/// Job identifier for the signing job.
pub const SIGN_JOB_ID: u8 = 1;

} // verus!
