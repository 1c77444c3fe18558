//! The FROST signing engine.
//!
//! The protocol is an explicit state machine: `start` validates the signer
//! set and emits the commitment broadcast; `on_round1` consumes the other
//! signers' commitments and emits this signer's signature share; `on_round2`
//! consumes the shares, verifies each against the public key package,
//! assigns blame for invalid ones, and aggregates the group signature.  The
//! caller drives the steps, delivering messages through the router in
//! between; the cryptography is performed by `frost-core` behind the trusted
//! boundary.
use vstd::prelude::*;

use crate::frost;
use crate::rounds::IoError;
use crate::suite::Suite;

verus! {

/// A caller mistake caught before any network activity.
#[derive(Clone, Copy, PartialEq, Eq, Structural, Debug)]
pub enum Bug {
    /// This party is no member of the signer set.
    InvalidPartyIndex,
    /// The signer set holds fewer parties than the threshold requires.
    InvalidProtocolParameters,
    /// The public key package records no verifying share for a signer.
    VerifyingShareNotFound,
}

/// Why a signing run aborted; an abort is final at this layer.
#[derive(Clone, PartialEq, Eq, Debug)]
pub enum SigningAborted {
    /// The underlying FROST library rejected a step; holds its error text.
    Frost(String),
    /// One or more signers sent shares that failed verification.
    InvalidSignatureShare {
        /// The party indices whose shares failed.
        blames: Vec<u16>,
    },
}

/// The cause carried by a signing error.
#[derive(Clone, PartialEq, Eq, Debug)]
pub enum Reason {
    /// Another party aborted the protocol, possibly maliciously.
    Aborted(SigningAborted),
    /// The transport failed or delivered garbage.
    IoError(IoError),
    /// A caller mistake.
    Bug(Bug),
}

/// A signing run failed to complete.
#[derive(Clone, PartialEq, Eq, Debug)]
pub struct Error(Reason);

impl Error {
    /// The cause of the failure.
    pub closed spec fn spec_reason(&self) -> Reason {
        self.0
    }

    /// The cause of the failure.
    pub fn reason(&self) -> (r: &Reason)
        ensures
            *r == self.spec_reason(),
    {
        &self.0
    }
}

/// The signing nonces, per ciphersuite; secret, used once.
pub enum SignSecret {
    /// Ed25519 suite nonces.
    Ed25519(frost::SigningNoncesEd25519),
    /// secp256k1 suite nonces.
    Secp256k1(frost::SigningNoncesSecp256k1),
}

impl SignSecret {
    /// The suite the nonces belong to.
    pub open spec fn suite(&self) -> Suite {
        match self {
            SignSecret::Ed25519(_) => Suite::Ed25519Sha512,
            SignSecret::Secp256k1(_) => Suite::Secp256K1Sha256,
        }
    }
}

/// Whether a signer set is sound: at most a `u16`'s worth of parties, every
/// party index convertible to a wire identifier, and no party listed twice.
pub open spec fn signer_set_wf(s: Seq<u16>) -> bool {
    &&& s.len() <= 0xFFFF
    &&& forall|j: int| 0 <= j < s.len() ==> (#[trigger] s[j]) < 0xFFFF
    &&& forall|j1: int, j2: int| 0 <= j1 < j2 < s.len() ==> (#[trigger] s[j1]) != (#[trigger] s[j2])
}

/// The engine after the commitment broadcast, waiting for the other signers'
/// commitments.
pub struct SignRound1 {
    i: u16,
    signer_set: Vec<u16>,
    secret: SignSecret,
    own_commitments: Vec<u8>,
    keypkg: Vec<u8>,
    pubkeypkg: Vec<u8>,
    msg: Vec<u8>,
}

impl SignRound1 {
    /// This signer's position in the signer set.
    pub closed spec fn spec_i(&self) -> u16 {
        self.i
    }

    /// The signer set, in the order all parties agreed on.
    pub closed spec fn spec_signer_set(&self) -> Seq<u16> {
        self.signer_set@
    }

    /// The ciphersuite of the run.
    pub closed spec fn spec_suite(&self) -> Suite {
        self.secret.suite()
    }

    /// This signer's own serialized commitments.
    pub closed spec fn spec_own_commitments(&self) -> Seq<u8> {
        self.own_commitments@
    }

    /// The message the run signs.
    pub closed spec fn spec_msg(&self) -> Seq<u8> {
        self.msg@
    }

    /// The state `start` set up: a sound signer set with this signer inside.
    pub closed spec fn wf(&self) -> bool {
        signer_set_wf(self.signer_set@) && self.i < self.signer_set@.len()
    }
}

/// The wire-keyed commitments a signer bundles: its own at its position in
/// the signer set, every other signer's collected commitments at theirs.
pub open spec fn spec_all_commitments(state: SignRound1, msgs: Seq<(u16, Vec<u8>)>) -> Seq<
    (u16, Seq<u8>),
> {
    Seq::new(
        state.spec_signer_set().len(),
        |j: int|
            (
                (state.spec_signer_set()[j] + 1) as u16,
                if j == state.spec_i() {
                    state.spec_own_commitments()
                } else if j < state.spec_i() {
                    msgs[j].1@
                } else {
                    msgs[j - 1].1@
                },
            ),
    )
}

/// The engine after the share broadcast, waiting for the other signers'
/// shares.
pub struct SignRound2 {
    i: u16,
    signer_set: Vec<u16>,
    suite: Suite,
    signing_pkg: Vec<u8>,
    own_share: Vec<u8>,
    pubkeypkg: Vec<u8>,
}

impl SignRound2 {
    /// This signer's position in the signer set.
    pub closed spec fn spec_i(&self) -> u16 {
        self.i
    }

    /// The signer set, in the order all parties agreed on.
    pub closed spec fn spec_signer_set(&self) -> Seq<u16> {
        self.signer_set@
    }

    /// The ciphersuite of the run.
    pub closed spec fn spec_suite(&self) -> Suite {
        self.suite
    }

    /// The serialized signing package every signer of the run agrees on.
    pub closed spec fn spec_signing_pkg(&self) -> Seq<u8> {
        self.signing_pkg@
    }

    /// The serialized public key package of the run.
    pub closed spec fn spec_pubkeypkg(&self) -> Seq<u8> {
        self.pubkeypkg@
    }

    /// This signer's own serialized signature share.
    pub closed spec fn spec_own_share(&self) -> Seq<u8> {
        self.own_share@
    }

    /// The state `on_round1` set up: a sound signer set with this signer
    /// inside.
    pub closed spec fn wf(&self) -> bool {
        signer_set_wf(self.signer_set@) && self.i < self.signer_set@.len()
    }
}

/// The wire-keyed shares a signer aggregates: its own share at its position
/// in the signer set, every other signer's collected share at theirs.
pub open spec fn spec_all_shares(state: SignRound2, msgs: Seq<(u16, Vec<u8>)>) -> Seq<
    (u16, Seq<u8>),
> {
    Seq::new(
        state.spec_signer_set().len(),
        |j: int|
            (
                (state.spec_signer_set()[j] + 1) as u16,
                if j == state.spec_i() {
                    state.spec_own_share()
                } else if j < state.spec_i() {
                    msgs[j].1@
                } else {
                    msgs[j - 1].1@
                },
            ),
    )
}

/// Whether bytes parse as signing commitments of the suite.
pub open spec fn commitments_ok(suite: Suite, b: Seq<u8>) -> bool {
    match suite {
        Suite::Ed25519Sha512 => frost::ed25519_commitments_ok(b),
        Suite::Secp256K1Sha256 => frost::secp256k1_commitments_ok(b),
    }
}

/// Whether bytes parse as a signature share of the suite.
pub open spec fn share_ok(suite: Suite, b: Seq<u8>) -> bool {
    match suite {
        Suite::Ed25519Sha512 => frost::ed25519_share_ok(b),
        Suite::Secp256K1Sha256 => frost::secp256k1_share_ok(b),
    }
}

/// The outcome of checking a signature share of the suite: `None` when some
/// input is malformed, `Some(None)` when the public key package records no
/// verifying share for the wire identifier, `Some(Some(v))` for verdict `v`.
pub open spec fn share_check(
    suite: Suite,
    wire: u16,
    share: Seq<u8>,
    signing_pkg: Seq<u8>,
    pubkeypkg: Seq<u8>,
) -> Option<Option<bool>> {
    match suite {
        Suite::Ed25519Sha512 => frost::ed25519_share_check(wire, share, signing_pkg, pubkeypkg),
        Suite::Secp256K1Sha256 => frost::secp256k1_share_check(
            wire,
            share,
            signing_pkg,
            pubkeypkg,
        ),
    }
}

/// Whether aggregation of the suite succeeds on these serialized inputs.
pub open spec fn aggregate_ok(
    suite: Suite,
    signing_pkg: Seq<u8>,
    shares: Seq<(u16, Seq<u8>)>,
    pubkeypkg: Seq<u8>,
) -> bool {
    match suite {
        Suite::Ed25519Sha512 => frost::ed25519_aggregate_ok(signing_pkg, shares, pubkeypkg),
        Suite::Secp256K1Sha256 => frost::secp256k1_aggregate_ok(signing_pkg, shares, pubkeypkg),
    }
}

/// The outcome of checking the share at signer-set position `j`.
pub open spec fn spec_outcome(state: SignRound2, msgs: Seq<(u16, Vec<u8>)>, j: int) -> Option<
    Option<bool>,
> {
    share_check(
        state.spec_suite(),
        (state.spec_signer_set()[j] + 1) as u16,
        spec_all_shares(state, msgs)[j].1,
        state.spec_signing_pkg(),
        state.spec_pubkeypkg(),
    )
}

/// The blamed party indices among the first `j` signer-set positions: those
/// whose share check yields a false verdict, in signer-set order.
pub open spec fn spec_blames_upto(state: SignRound2, msgs: Seq<(u16, Vec<u8>)>, j: int) -> Seq<
    u16,
>
    decreases j,
{
    if j <= 0 {
        Seq::empty()
    } else {
        spec_blames_upto(state, msgs, j - 1) + (if spec_outcome(state, msgs, j - 1) == Some(
            Some(false),
        ) {
            seq![state.spec_signer_set()[j - 1]]
        } else {
            Seq::empty()
        })
    }
}

/// With no blames among the first `j` positions, every decided check there
/// came back true.
proof fn lemma_no_blames_all_true(state: SignRound2, msgs: Seq<(u16, Vec<u8>)>, j: int)
    requires
        spec_blames_upto(state, msgs, j).len() == 0,
    ensures
        forall|k: int| 0 <= k < j ==> spec_outcome(state, msgs, k) != Some(Some(false)),
    decreases j,
{
    if j > 0 {
        lemma_no_blames_all_true(state, msgs, j - 1);
    }
}

/// Whether the sender list handed over by the router is sound for a signing
/// run over `count` signers of which this one is at position `i`: every
/// other signer position exactly once, in increasing order.
pub open spec fn senders_complete(msgs: Seq<(u16, Vec<u8>)>, count: int, i: u16) -> bool {
    &&& msgs.len() == count - 1
    &&& forall|j: int|
        0 <= j < msgs.len() ==> (#[trigger] msgs[j]).0 == (if j < i {
            j
        } else {
            j + 1
        })
}

/// Validate the signer set and emit the commitment broadcast.  Fails with
/// `InvalidProtocolParameters` exactly when the set holds fewer than `t`
/// signers, and with `InvalidPartyIndex` exactly when it holds enough but
/// `me` is not among them; both are caught before any network activity.
pub fn start(
    suite: Suite,
    keypkg: Vec<u8>,
    pubkeypkg: Vec<u8>,
    t: u16,
    me: u16,
    signer_set: Vec<u16>,
    msg: Vec<u8>,
) -> (r: Result<(SignRound1, Vec<u8>), Error>)
    requires
        signer_set_wf(signer_set@),
    ensures
        match r {
            Ok((st, _)) => signer_set@.len() >= t && signer_set@.contains(me) && st.wf()
                && st.spec_signer_set() == signer_set@ && st.spec_suite() == suite && st.spec_i()
                < signer_set@.len() && signer_set@[st.spec_i() as int] == me,
            Err(e) => match e.spec_reason() {
                Reason::Bug(Bug::InvalidProtocolParameters) => signer_set@.len() < t,
                Reason::Bug(Bug::InvalidPartyIndex) => signer_set@.len() >= t
                    && !signer_set@.contains(me),
                Reason::Aborted(SigningAborted::Frost(_)) => signer_set@.len() >= t
                    && signer_set@.contains(me),
                _ => false,
            },
        },
{
    if signer_set.len() < t as usize {
        return Err(Error(Reason::Bug(Bug::InvalidProtocolParameters)));
    }
    // Find this party's position in the signer set.
    let mut pos: usize = 0;
    let mut found = false;
    let mut j: usize = 0;
    while j < signer_set.len()
        invariant
            j <= signer_set@.len(),
            signer_set@.len() <= 0xFFFF,
            !found ==> forall|k: int| 0 <= k < j ==> (#[trigger] signer_set@[k]) != me,
            found ==> pos < j <= signer_set@.len() && signer_set@[pos as int] == me,
        decreases signer_set@.len() - j,
    {
        if !found && signer_set[j] == me {
            pos = j;
            found = true;
        }
        j = j + 1;
    }
    if !found {
        proof {
            assert(forall|k: int|
                0 <= k < signer_set@.len() ==> (#[trigger] signer_set@[k]) != me);
        }
        return Err(Error(Reason::Bug(Bug::InvalidPartyIndex)));
    }
    proof {
        assert(signer_set@[pos as int] == me);
        assert(signer_set@.contains(me));
    }
    let i = pos as u16;
    match suite {
        Suite::Ed25519Sha512 => match frost::signing_commit_ed25519(&keypkg) {
            Ok((nonces, own)) => {
                let bcast = crate::codec::clone_bytes(&own);
                Ok(
                    (
                        SignRound1 {
                            i,
                            signer_set,
                            secret: SignSecret::Ed25519(nonces),
                            own_commitments: own,
                            keypkg,
                            pubkeypkg,
                            msg,
                        },
                        bcast,
                    ),
                )
            },
            Err(e) => Err(Error(Reason::Aborted(SigningAborted::Frost(e)))),
        },
        Suite::Secp256K1Sha256 => match frost::signing_commit_secp256k1(&keypkg) {
            Ok((nonces, own)) => {
                let bcast = crate::codec::clone_bytes(&own);
                Ok(
                    (
                        SignRound1 {
                            i,
                            signer_set,
                            secret: SignSecret::Secp256k1(nonces),
                            own_commitments: own,
                            keypkg,
                            pubkeypkg,
                            msg,
                        },
                        bcast,
                    ),
                )
            },
            Err(e) => Err(Error(Reason::Aborted(SigningAborted::Frost(e)))),
        },
    }
}

/// Consume the other signers' commitments and emit this signer's signature
/// share broadcast.  A payload that does not deserialize surfaces as a
/// `ReceiveMessage` error, never a panic.
pub fn on_round1(state: SignRound1, msgs: &Vec<(u16, Vec<u8>)>) -> (r: Result<
    (SignRound2, Vec<u8>),
    Error,
>)
    requires
        state.wf(),
        senders_complete(msgs@, state.spec_signer_set().len() as int, state.spec_i()),
    ensures
        match r {
            Ok((st, _)) => (forall|m: int|
                0 <= m < msgs@.len() ==> commitments_ok(
                    state.spec_suite(),
                    (#[trigger] msgs@[m]).1@,
                )) && st.wf() && st.spec_i() == state.spec_i() && st.spec_signer_set()
                == state.spec_signer_set() && st.spec_suite() == state.spec_suite()
                && st.spec_signing_pkg() == (match state.spec_suite() {
                Suite::Ed25519Sha512 => frost::ed25519_signing_package_of(
                    spec_all_commitments(state, msgs@),
                    state.spec_msg(),
                ),
                Suite::Secp256K1Sha256 => frost::secp256k1_signing_package_of(
                    spec_all_commitments(state, msgs@),
                    state.spec_msg(),
                ),
            }),
            Err(e) => match e.spec_reason() {
                Reason::IoError(IoError::ReceiveMessage(_)) => exists|m: int|
                    0 <= m < msgs@.len() && !commitments_ok(
                        state.spec_suite(),
                        (#[trigger] msgs@[m]).1@,
                    ),
                Reason::Aborted(SigningAborted::Frost(_)) => forall|m: int|
                    0 <= m < msgs@.len() ==> commitments_ok(
                        state.spec_suite(),
                        (#[trigger] msgs@[m]).1@,
                    ),
                _ => false,
            },
        },
{
    let i = state.i;
    let count = state.signer_set.len();
    // One commitment per signer, keyed by that signer's wire identifier, in
    // signer-set order; this signer's own commitment fills its position.
    let mut commitments: Vec<(u16, Vec<u8>)> = Vec::new();
    let mut j: usize = 0;
    while j < count
        invariant
            state.wf(),
            senders_complete(msgs@, state.spec_signer_set().len() as int, state.spec_i()),
            i == state.spec_i(),
            count == state.spec_signer_set().len(),
            j <= count,
            commitments@.len() == j,
            forall|m: int|
                0 <= m < (if j <= i {
                    j as int
                } else {
                    j - 1
                }) ==> commitments_ok(state.spec_suite(), (#[trigger] msgs@[m]).1@),
            forall|k: int|
                0 <= k < j ==> (#[trigger] commitments@[k]).0 == state.spec_signer_set()[k] + 1,
            forall|k: int|
                0 <= k < j ==> (#[trigger] commitments@[k]).1@ == spec_all_commitments(
                    state,
                    msgs@,
                )[k].1,
        decreases count - j,
    {
        let wire = state.signer_set[j] + 1;
        let payload = if j == i as usize {
            crate::codec::clone_bytes(&state.own_commitments)
        } else {
            let mpos = if j < i as usize {
                j
            } else {
                j - 1
            };
            let (_, p) = &msgs[mpos];
            let check = match &state.secret {
                SignSecret::Ed25519(_) => frost::check_commitments_ed25519(p),
                SignSecret::Secp256k1(_) => frost::check_commitments_secp256k1(p),
            };
            match check {
                Ok(()) => {},
                Err(e) => {
                    proof {
                        assert(!commitments_ok(state.spec_suite(), msgs@[mpos as int].1@));
                    }
                    return Err(Error(Reason::IoError(IoError::ReceiveMessage(e))));
                },
            }
            proof {
                assert(commitments_ok(state.spec_suite(), msgs@[mpos as int].1@));
            }
            crate::codec::clone_bytes(p)
        };
        commitments.push((wire, payload));
        j = j + 1;
    }
    proof {
        assert(forall|m: int|
            0 <= m < msgs@.len() ==> commitments_ok(state.spec_suite(), (#[trigger] msgs@[m]).1@));
    }
    proof {
        assert(frost::pairs_view(commitments@) =~= spec_all_commitments(state, msgs@));
    }
    let signing_pkg = match &state.secret {
        SignSecret::Ed25519(_) => frost::make_signing_package_ed25519(&commitments, &state.msg),
        SignSecret::Secp256k1(_) => frost::make_signing_package_secp256k1(
            &commitments,
            &state.msg,
        ),
    };
    let signing_pkg = match signing_pkg {
        Ok(p) => p,
        Err(e) => {
            return Err(Error(Reason::Aborted(SigningAborted::Frost(e))));
        },
    };
    let share = match &state.secret {
        SignSecret::Ed25519(nonces) => frost::sign_share_ed25519(
            &signing_pkg,
            nonces,
            &state.keypkg,
        ),
        SignSecret::Secp256k1(nonces) => frost::sign_share_secp256k1(
            &signing_pkg,
            nonces,
            &state.keypkg,
        ),
    };
    let suite = match &state.secret {
        SignSecret::Ed25519(_) => Suite::Ed25519Sha512,
        SignSecret::Secp256k1(_) => Suite::Secp256K1Sha256,
    };
    match share {
        Ok(own_share) => {
            let bcast = crate::codec::clone_bytes(&own_share);
            let st = SignRound2 {
                i,
                signer_set: state.signer_set,
                suite,
                signing_pkg,
                own_share,
                pubkeypkg: state.pubkeypkg,
            };
            Ok((st, bcast))
        },
        Err(e) => Err(Error(Reason::Aborted(SigningAborted::Frost(e)))),
    }
}

/// Consume the other signers' signature shares, verify each against the
/// public key package, and aggregate the group signature.  Signers whose
/// shares fail verification are blamed by party index and the run aborts
/// with `InvalidSignatureShare` naming them, in signer-set order; no
/// signature is produced then.  A payload that does not deserialize surfaces
/// as a `ReceiveMessage` error, never a panic.
pub fn on_round2(state: SignRound2, msgs: &Vec<(u16, Vec<u8>)>) -> (r: Result<Vec<u8>, Error>)
    requires
        state.wf(),
        senders_complete(msgs@, state.spec_signer_set().len() as int, state.spec_i()),
    ensures
        match r {
            Ok(sig) => (forall|m: int|
                0 <= m < msgs@.len() ==> share_ok(state.spec_suite(), (#[trigger] msgs@[m]).1@))
                && (forall|j: int|
                0 <= j < state.spec_signer_set().len() ==> spec_outcome(state, msgs@, j) == Some(
                    Some(true),
                )) && aggregate_ok(
                state.spec_suite(),
                state.spec_signing_pkg(),
                spec_all_shares(state, msgs@),
                state.spec_pubkeypkg(),
            ) && sig@ == (match state.spec_suite() {
                Suite::Ed25519Sha512 => frost::ed25519_aggregate_of(
                    state.spec_signing_pkg(),
                    spec_all_shares(state, msgs@),
                    state.spec_pubkeypkg(),
                ),
                Suite::Secp256K1Sha256 => frost::secp256k1_aggregate_of(
                    state.spec_signing_pkg(),
                    spec_all_shares(state, msgs@),
                    state.spec_pubkeypkg(),
                ),
            }),
            Err(e) => match e.spec_reason() {
                Reason::IoError(IoError::ReceiveMessage(_)) => exists|m: int|
                    0 <= m < msgs@.len() && !share_ok(
                        state.spec_suite(),
                        (#[trigger] msgs@[m]).1@,
                    ),
                Reason::Aborted(SigningAborted::InvalidSignatureShare { blames }) => (forall|
                    m: int,
                |
                    0 <= m < msgs@.len() ==> share_ok(state.spec_suite(), (#[trigger] msgs@[m]).1@))
                    && (forall|j: int|
                    0 <= j < state.spec_signer_set().len() ==> (#[trigger] spec_outcome(
                        state,
                        msgs@,
                        j,
                    )) matches Some(Some(_))) && blames@ == spec_blames_upto(
                    state,
                    msgs@,
                    state.spec_signer_set().len() as int,
                ) && blames@.len() >= 1,
                Reason::Bug(Bug::VerifyingShareNotFound) => (forall|m: int|
                    0 <= m < msgs@.len() ==> share_ok(state.spec_suite(), (#[trigger] msgs@[m]).1@))
                    && (exists|j: int|
                    0 <= j < state.spec_signer_set().len() && (#[trigger] spec_outcome(
                        state,
                        msgs@,
                        j,
                    )) == Some(None::<bool>)),
                Reason::Aborted(SigningAborted::Frost(_)) => (forall|m: int|
                    0 <= m < msgs@.len() ==> share_ok(state.spec_suite(), (#[trigger] msgs@[m]).1@))
                    && ((exists|j: int|
                    0 <= j < state.spec_signer_set().len() && (#[trigger] spec_outcome(
                        state,
                        msgs@,
                        j,
                    )) is None) || ((forall|j: int|
                    0 <= j < state.spec_signer_set().len() ==> (#[trigger] spec_outcome(
                        state,
                        msgs@,
                        j,
                    )) == Some(Some(true))) && !aggregate_ok(
                    state.spec_suite(),
                    state.spec_signing_pkg(),
                    spec_all_shares(state, msgs@),
                    state.spec_pubkeypkg(),
                ))),
                _ => false,
            },
        },
{
    let i = state.i;
    let count = state.signer_set.len();
    // One share per signer, keyed by that signer's wire identifier, in
    // signer-set order; this signer's own share fills its position.
    let mut shares: Vec<(u16, Vec<u8>)> = Vec::new();
    let mut j: usize = 0;
    while j < count
        invariant
            state.wf(),
            senders_complete(msgs@, state.spec_signer_set().len() as int, state.spec_i()),
            i == state.spec_i(),
            count == state.spec_signer_set().len(),
            j <= count,
            shares@.len() == j,
            forall|k: int|
                0 <= k < j ==> (#[trigger] shares@[k]).0 == state.spec_signer_set()[k] + 1,
            forall|k: int|
                0 <= k < j ==> (#[trigger] shares@[k]).1@ == spec_all_shares(state, msgs@)[k].1,
            forall|m: int|
                0 <= m < (if j <= i {
                    j as int
                } else {
                    j - 1
                }) ==> share_ok(state.spec_suite(), (#[trigger] msgs@[m]).1@),
        decreases count - j,
    {
        let wire = state.signer_set[j] + 1;
        let payload = if j == i as usize {
            crate::codec::clone_bytes(&state.own_share)
        } else {
            let mpos = if j < i as usize {
                j
            } else {
                j - 1
            };
            let (_, p) = &msgs[mpos];
            let check = match state.suite {
                Suite::Ed25519Sha512 => frost::check_share_ed25519(p),
                Suite::Secp256K1Sha256 => frost::check_share_secp256k1(p),
            };
            match check {
                Ok(()) => {},
                Err(e) => {
                    proof {
                        assert(!share_ok(state.spec_suite(), msgs@[mpos as int].1@));
                    }
                    return Err(Error(Reason::IoError(IoError::ReceiveMessage(e))));
                },
            }
            proof {
                assert(share_ok(state.spec_suite(), msgs@[mpos as int].1@));
            }
            crate::codec::clone_bytes(p)
        };
        shares.push((wire, payload));
        j = j + 1;
    }
    proof {
        assert(forall|m: int|
            0 <= m < msgs@.len() ==> share_ok(state.spec_suite(), (#[trigger] msgs@[m]).1@));
    }
    // Verify every share, assigning blame for the invalid ones.
    let mut blames: Vec<u16> = Vec::new();
    let mut j: usize = 0;
    while j < count
        invariant
            state.wf(),
            i == state.spec_i(),
            count == state.spec_signer_set().len(),
            shares@.len() == count,
            forall|k: int|
                0 <= k < count ==> (#[trigger] shares@[k]).0 == state.spec_signer_set()[k] + 1,
            forall|k: int|
                0 <= k < count ==> (#[trigger] shares@[k]).1@ == spec_all_shares(state, msgs@)[k].1,
            forall|m: int|
                0 <= m < msgs@.len() ==> share_ok(state.spec_suite(), (#[trigger] msgs@[m]).1@),
            j <= count,
            forall|k: int|
                0 <= k < j ==> (#[trigger] spec_outcome(state, msgs@, k)) matches Some(Some(_)),
            blames@ == spec_blames_upto(state, msgs@, j as int),
        decreases count - j,
    {
        let (wire, share) = &shares[j];
        proof {
            assert(shares@[j as int].0 == state.spec_signer_set()[j as int] + 1);
            assert(shares@[j as int].1@ == spec_all_shares(state, msgs@)[j as int].1);
        }
        let outcome = match state.suite {
            Suite::Ed25519Sha512 => frost::verify_share_ed25519(
                *wire,
                share,
                &state.signing_pkg,
                &state.pubkeypkg,
            ),
            Suite::Secp256K1Sha256 => frost::verify_share_secp256k1(
                *wire,
                share,
                &state.signing_pkg,
                &state.pubkeypkg,
            ),
        };
        match outcome {
            Ok(Some(true)) => {
                proof {
                    assert(spec_outcome(state, msgs@, j as int) == Some(Some(true)));
                    assert(spec_blames_upto(state, msgs@, j + 1) =~= blames@);
                }
            },
            Ok(Some(false)) => {
                let who = *wire - 1;
                proof {
                    assert(who == state.spec_signer_set()[j as int]);
                    assert(spec_outcome(state, msgs@, j as int) == Some(Some(false)));
                    assert(spec_blames_upto(state, msgs@, j + 1) =~= blames@.push(who));
                }
                blames.push(who);
            },
            Ok(None) => {
                proof {
                    assert(spec_outcome(state, msgs@, j as int) == Some(None::<bool>));
                }
                return Err(Error(Reason::Bug(Bug::VerifyingShareNotFound)));
            },
            Err(e) => {
                proof {
                    assert(spec_outcome(state, msgs@, j as int) is None);
                }
                return Err(Error(Reason::Aborted(SigningAborted::Frost(e))));
            },
        }
        j = j + 1;
    }
    if blames.len() > 0 {
        return Err(Error(Reason::Aborted(SigningAborted::InvalidSignatureShare { blames })));
    }
    proof {
        // No blames, so every decided check came back true.
        lemma_no_blames_all_true(state, msgs@, count as int);
        assert forall|k: int|
            0 <= k < count implies #[trigger] spec_outcome(state, msgs@, k) == Some(
            Some(true),
        ) by {
            assert(spec_outcome(state, msgs@, k) matches Some(Some(_)));
            assert(spec_outcome(state, msgs@, k) != Some(Some(false)));
        }
        assert(frost::pairs_view(shares@) =~= spec_all_shares(state, msgs@));
    }
    let result = match state.suite {
        Suite::Ed25519Sha512 => frost::aggregate_ed25519(
            &state.signing_pkg,
            &shares,
            &state.pubkeypkg,
        ),
        Suite::Secp256K1Sha256 => frost::aggregate_secp256k1(
            &state.signing_pkg,
            &shares,
            &state.pubkeypkg,
        ),
    };
    match result {
        Ok(sig) => Ok(sig),
        Err(e) => Err(Error(Reason::Aborted(SigningAborted::Frost(e)))),
    }
}

} // verus!
