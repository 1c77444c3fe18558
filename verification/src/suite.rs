//! The closed set of supported ciphersuites.
//!
//! A ciphersuite fixes an elliptic-curve group, a scalar field, a hash
//! function and a short textual identifier.  Exactly two are supported; an
//! unknown identifier is rejected before any network activity.
use vstd::prelude::*;

verus! {

/// A supported ciphersuite, selected by its textual identifier.
#[derive(Clone, Copy, PartialEq, Eq, Structural, Debug)]
pub enum Suite {
    /// `FROST-ED25519-SHA512-v1`
    Ed25519Sha512,
    /// `FROST-secp256k1-SHA256-v1`
    Secp256K1Sha256,
}

/// The textual identifier of a suite, as a sequence of characters.
pub open spec fn spec_suite_id(s: Suite) -> Seq<char> {
    match s {
        Suite::Ed25519Sha512 => "FROST-ED25519-SHA512-v1"@,
        Suite::Secp256K1Sha256 => "FROST-secp256k1-SHA256-v1"@,
    }
}

impl Suite {
    /// The textual identifier of this suite.
    pub fn id(&self) -> (r: &'static str)
        ensures
            r@ == spec_suite_id(*self),
    {
        match self {
            Suite::Ed25519Sha512 => "FROST-ED25519-SHA512-v1",
            Suite::Secp256K1Sha256 => "FROST-secp256k1-SHA256-v1",
        }
    }

    /// Select a suite from its textual identifier.  Returns `None` exactly
    /// when the identifier names no supported suite.
    pub fn from_id(id: &String) -> (r: Option<Suite>)
        ensures
            r == Some(Suite::Ed25519Sha512) <==> id@ == spec_suite_id(Suite::Ed25519Sha512),
            r == Some(Suite::Secp256K1Sha256) <==> id@ == spec_suite_id(Suite::Secp256K1Sha256),
            r is None <==> (id@ != spec_suite_id(Suite::Ed25519Sha512) && id@ != spec_suite_id(
                Suite::Secp256K1Sha256,
            )),
    {
        proof {
            // The two identifiers differ, so at most one branch can match.
            lemma_suite_ids_distinct();
        }
        let ed: String = "FROST-ED25519-SHA512-v1".to_owned();
        let secp: String = "FROST-secp256k1-SHA256-v1".to_owned();
        if *id == ed {
            Some(Suite::Ed25519Sha512)
        } else if *id == secp {
            Some(Suite::Secp256K1Sha256)
        } else {
            None
        }
    }
}

/// The two suite identifiers are distinct, so `from_id` is unambiguous.
pub proof fn lemma_suite_ids_distinct()
    ensures
        spec_suite_id(Suite::Ed25519Sha512) != spec_suite_id(Suite::Secp256K1Sha256),
{
    reveal_strlit("FROST-ED25519-SHA512-v1");
    reveal_strlit("FROST-secp256k1-SHA256-v1");
    assert(spec_suite_id(Suite::Ed25519Sha512).len() != spec_suite_id(
        Suite::Secp256K1Sha256,
    ).len());
}

} // verus!
