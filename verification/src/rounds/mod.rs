//! Round-based protocol support: party identifiers, transport errors, the
//! round router, delivery bookkeeping and the tracer.
use vstd::prelude::*;

/// Delivery bookkeeping: message ids, outgoing queue, envelopes.
pub mod delivery;
/// FROST keygen protocol rounds.
pub mod keygen;
/// Per-round inboxes and message classification.
pub mod router;
/// FROST signing protocol rounds.
pub mod sign;
/// Progress observer.
pub mod trace;

use crate::rounds::router::RouteError;

verus! {

/// A transport-level failure while a protocol run is in flight.
#[derive(Clone, PartialEq, Eq, Debug)]
pub enum IoError {
    /// The transport failed to send a message; holds the transport's error
    /// text.
    SendMessage(String),
    /// The transport failed while receiving, or an inbound payload could not
    /// be deserialized; holds the error text.
    ReceiveMessage(String),
    /// The inbound stream ended before the round completed.
    ReceiveMessageEof,
    /// An inbound message could not be routed; possibly malicious behavior.
    RouteReceivedError(RouteError),
}

/// What the receiving side reports when a round cannot complete.
#[derive(Clone, PartialEq, Eq, Debug)]
pub enum RecvError {
    /// The transport itself failed; holds its error text.
    Io(String),
    /// The inbound stream ended.
    Eof,
    /// The router rejected a message.
    Route(RouteError),
}

impl IoError {
    /// Wrap a transport send failure.
    pub fn send_message(err: String) -> (r: IoError)
        ensures
            r == IoError::SendMessage(err),
    {
        IoError::SendMessage(err)
    }

    /// Classify a receive-side failure: transport errors surface verbatim, an
    /// ended stream is an EOF, and a routing rejection is flagged as possibly
    /// malicious.
    pub fn receive_message(err: RecvError) -> (r: IoError)
        ensures
            match err {
                RecvError::Io(e) => r == IoError::ReceiveMessage(e),
                RecvError::Eof => r == IoError::ReceiveMessageEof,
                RecvError::Route(e) => r == IoError::RouteReceivedError(e),
            },
    {
        match err {
            RecvError::Io(e) => IoError::ReceiveMessage(e),
            RecvError::Eof => IoError::ReceiveMessageEof,
            RecvError::Route(e) => IoError::RouteReceivedError(e),
        }
    }
}

/// The wire identifier of a party index: indices start at zero, identifiers
/// at one, so that every party's identifier is a nonzero scalar.
pub open spec fn wire_of_index(i: u16) -> u16
    recommends
        i < 0xFFFF,
{
    (i + 1) as u16
}

/// The party index read back from the first two little-endian bytes of an
/// identifier scalar: the wire value minus one, saturating at zero.
pub open spec fn index_of_le2(b0: u8, b1: u8) -> u16 {
    if b0 + 256 * b1 >= 1 {
        (b0 + 256 * b1 - 1) as u16
    } else {
        0
    }
}

/// A party identifier that converts between the party index and the nonzero
/// wire scalar value.
#[derive(Clone, Copy, PartialEq, Eq, Structural, Debug)]
pub struct IdentifierWrapper {
    index: u16,
}

impl View for IdentifierWrapper {
    type V = u16;

    /// The party index the identifier stands for.
    closed spec fn view(&self) -> u16 {
        self.index
    }
}

impl IdentifierWrapper {
    /// The wire scalar stays in range.
    #[verifier::type_invariant]
    spec fn inv(&self) -> bool {
        self.index < 0xFFFF
    }

    /// Create an identifier from a party index.
    pub fn new(i: u16) -> (r: IdentifierWrapper)
        requires
            i < 0xFFFF,
        ensures
            r@ == i,
    {
        IdentifierWrapper { index: i }
    }

    /// Create an identifier from a party index, rejecting the one index
    /// whose wire value would not fit.
    pub fn try_new(i: u16) -> (r: Option<IdentifierWrapper>)
        ensures
            match r {
                Some(w) => i < 0xFFFF && w@ == i,
                None => i == 0xFFFF,
            },
    {
        if i < 0xFFFF {
            Some(IdentifierWrapper { index: i })
        } else {
            None
        }
    }

    /// The party index.
    pub fn as_u16(&self) -> (r: u16)
        ensures
            r == self@,
    {
        self.index
    }

    /// The nonzero wire scalar value.
    pub fn wire(&self) -> (r: u16)
        ensures
            r == wire_of_index(self@),
            r >= 1,
    {
        proof {
            use_type_invariant(self);
        }
        self.index + 1
    }

    /// Read an identifier back from the little-endian serialization of its
    /// scalar; the low two bytes carry the wire value.
    pub fn from_le_bytes(b0: u8, b1: u8) -> (r: IdentifierWrapper)
        ensures
            r@ == index_of_le2(b0, b1),
    {
        let wire: u16 = (b0 as u16) + 256 * (b1 as u16);
        if wire >= 1 {
            IdentifierWrapper { index: wire - 1 }
        } else {
            IdentifierWrapper { index: 0 }
        }
    }
}

/// Read a party index out of a serialized identifier scalar, by the suite's
/// byte order: little-endian for Ed25519, big-endian for secp256k1.  Fails
/// exactly when the serialization is too short to carry the wire value.
pub fn index_from_id_bytes(suite: crate::suite::Suite, bytes: &Vec<u8>) -> (r: Option<
    IdentifierWrapper,
>)
    ensures
        match r {
            Some(w) => match suite {
                crate::suite::Suite::Ed25519Sha512 => bytes@.len() >= 2 && w@ == index_of_le2(
                    bytes@[0],
                    bytes@[1],
                ),
                crate::suite::Suite::Secp256K1Sha256 => bytes@.len() >= 32 && w@ == index_of_le2(
                    bytes@[31],
                    bytes@[30],
                ),
            },
            None => match suite {
                crate::suite::Suite::Ed25519Sha512 => bytes@.len() < 2,
                crate::suite::Suite::Secp256K1Sha256 => bytes@.len() < 32,
            },
        },
{
    match suite {
        crate::suite::Suite::Ed25519Sha512 => {
            if bytes.len() < 2 {
                None
            } else {
                Some(IdentifierWrapper::from_le_bytes(bytes[0], bytes[1]))
            }
        },
        crate::suite::Suite::Secp256K1Sha256 => {
            if bytes.len() < 32 {
                None
            } else {
                Some(IdentifierWrapper::from_le_bytes(bytes[31], bytes[30]))
            }
        },
    }
}

/// The identifier map round-trips: converting a party index to its wire
/// scalar and reading the scalar's low two little-endian bytes back gives the
/// same index.
pub proof fn lemma_identifier_round_trip(i: u16)
    requires
        i < 0xFFFF,
    ensures
        index_of_le2((wire_of_index(i) & 0xff) as u8, ((wire_of_index(i) >> 8) & 0xff) as u8) == i,
{
    let w = wire_of_index(i);
    assert(w == i + 1);
    let b0 = (w & 0xff) as u8;
    let b1 = ((w >> 8) & 0xff) as u8;
    assert(b0 == (w & 0xff) as u8 && b1 == ((w >> 8) & 0xff) as u8 ==> b0 + 256 * b1 == w)
        by (bit_vector);
}

/// The identifier map round-trips through the Ed25519 scalar field itself:
/// a party index converted to an identifier scalar and read back from the
/// scalar's serialization is unchanged.
pub fn identifier_round_trip_ed25519(i: u16) -> (r: u16)
    requires
        i < 0xFFFF,
    ensures
        r == i,
{
    let bytes = crate::frost::identifier_bytes_ed25519(i + 1);
    let w = IdentifierWrapper::from_le_bytes(bytes[0], bytes[1]);
    proof {
        lemma_identifier_round_trip(i);
    }
    w.as_u16()
}

/// The identifier map round-trips through the secp256k1 scalar field itself:
/// a party index converted to an identifier scalar and read back from the
/// scalar's serialization is unchanged.
pub fn identifier_round_trip_secp256k1(i: u16) -> (r: u16)
    requires
        i < 0xFFFF,
    ensures
        r == i,
{
    let bytes = crate::frost::identifier_bytes_secp256k1(i + 1);
    let w = IdentifierWrapper::from_le_bytes(bytes[31], bytes[30]);
    proof {
        lemma_identifier_round_trip(i);
    }
    w.as_u16()
}

} // verus!
