//! The FROST distributed key generation engine.
//!
//! The protocol is an explicit state machine with three steps: `start`
//! validates the parameters and emits the round-one broadcast; `on_round1`
//! consumes every other party's round-one package and emits one round-two
//! package per recipient, point to point; `on_round2` consumes the round-two
//! packages and derives the key material.  The caller drives the steps,
//! delivering messages through the router in between; the cryptography is
//! performed by `frost-core` behind the trusted boundary.
use vstd::prelude::*;

use crate::frost;
use crate::rounds::IoError;
use crate::suite::Suite;

verus! {

/// A caller mistake caught before any network activity.
#[derive(Clone, Copy, PartialEq, Eq, Structural, Debug)]
pub enum Bug {
    /// The party index is not in range.
    InvalidPartyIndex,
    /// The protocol parameters do not satisfy `1 <= t <= n`.
    InvalidProtocolParameters,
}

/// Why a keygen run aborted; an abort is final at this layer.
#[derive(Clone, PartialEq, Eq, Debug)]
pub enum KeygenAborted {
    /// The underlying FROST library rejected a step; holds its error text.
    Frost(String),
}

/// The cause carried by a keygen error.
#[derive(Clone, PartialEq, Eq, Debug)]
pub enum Reason {
    /// Another party aborted the protocol, possibly maliciously.
    Aborted(KeygenAborted),
    /// The transport failed or delivered garbage.
    IoError(IoError),
    /// A caller mistake.
    Bug(Bug),
}

/// A keygen run failed to complete.
#[derive(Clone, PartialEq, Eq, Debug)]
pub struct Error(Reason);

impl Error {
    /// The cause of the failure.
    pub closed spec fn spec_reason(&self) -> Reason {
        self.0
    }

    /// The cause of the failure.
    pub fn reason(&self) -> (r: &Reason)
        ensures
            *r == self.spec_reason(),
    {
        &self.0
    }
}

/// The round-one secret, per ciphersuite.
pub enum DkgSecretRound1 {
    /// Ed25519 suite secret.
    Ed25519(frost::DkgRound1SecretEd25519),
    /// secp256k1 suite secret.
    Secp256k1(frost::DkgRound1SecretSecp256k1),
}

impl DkgSecretRound1 {
    /// The suite the secret belongs to.
    pub open spec fn suite(&self) -> Suite {
        match self {
            DkgSecretRound1::Ed25519(_) => Suite::Ed25519Sha512,
            DkgSecretRound1::Secp256k1(_) => Suite::Secp256K1Sha256,
        }
    }
}

/// The round-two secret, per ciphersuite.
pub enum DkgSecretRound2 {
    /// Ed25519 suite secret.
    Ed25519(frost::DkgRound2SecretEd25519),
    /// secp256k1 suite secret.
    Secp256k1(frost::DkgRound2SecretSecp256k1),
}

impl DkgSecretRound2 {
    /// The suite the secret belongs to.
    pub open spec fn suite(&self) -> Suite {
        match self {
            DkgSecretRound2::Ed25519(_) => Suite::Ed25519Sha512,
            DkgSecretRound2::Secp256k1(_) => Suite::Secp256K1Sha256,
        }
    }
}

/// The engine after the round-one broadcast, waiting for the other parties'
/// round-one packages.
pub struct KeygenRound1 {
    t: u16,
    n: u16,
    i: u16,
    secret: DkgSecretRound1,
}

impl KeygenRound1 {
    /// The threshold of the run.
    pub closed spec fn spec_t(&self) -> u16 {
        self.t
    }

    /// The number of parties.
    pub closed spec fn spec_n(&self) -> u16 {
        self.n
    }

    /// This party's index.
    pub closed spec fn spec_i(&self) -> u16 {
        self.i
    }

    /// The ciphersuite of the run.
    pub closed spec fn spec_suite(&self) -> Suite {
        self.secret.suite()
    }

    /// The parameters are the ones `start` validated.
    pub closed spec fn wf(&self) -> bool {
        1 <= self.t <= self.n && self.i < self.n
    }
}

/// The engine after the round-two sends, waiting for the other parties'
/// round-two packages.
pub struct KeygenRound2 {
    t: u16,
    n: u16,
    i: u16,
    secret: DkgSecretRound2,
    round1_packages: Vec<(u16, Vec<u8>)>,
}

impl KeygenRound2 {
    /// The threshold of the run.
    pub closed spec fn spec_t(&self) -> u16 {
        self.t
    }

    /// The number of parties.
    pub closed spec fn spec_n(&self) -> u16 {
        self.n
    }

    /// This party's index.
    pub closed spec fn spec_i(&self) -> u16 {
        self.i
    }

    /// The ciphersuite of the run.
    pub closed spec fn spec_suite(&self) -> Suite {
        self.secret.suite()
    }

    /// The parameters are the ones `start` validated, and the kept round-one
    /// packages are keyed by valid wire identifiers.
    pub closed spec fn wf(&self) -> bool {
        1 <= self.t <= self.n && self.i < self.n && forall|j: int|
            0 <= j < self.round1_packages@.len() ==> 1 <= (#[trigger] self.round1_packages@[j]).0
                <= self.n
    }
}

/// The key material a successful run produces: the participant's serialized
/// key package, the group's serialized public key package, and the group
/// verifying key, all in the ciphersuite's encoding.
pub struct KeygenOutput {
    /// The ciphersuite of the run.
    pub suite: Suite,
    /// This participant's key package, serialized; secret, never shared.
    pub keypkg: Vec<u8>,
    /// The group's public key package, serialized; identical across parties.
    pub pubkeypkg: Vec<u8>,
    /// The group's verifying key, serialized.
    pub verifying_key: Vec<u8>,
}

/// Whether the sender list handed over by the router is sound for a run with
/// `n` parties of which this one is `i`: every other party exactly once, in
/// increasing order.
pub open spec fn senders_complete(msgs: Seq<(u16, Vec<u8>)>, n: u16, i: u16) -> bool {
    &&& msgs.len() == n - 1
    &&& forall|j: int|
        0 <= j < msgs.len() ==> (#[trigger] msgs[j]).0 == (if j < i {
            j
        } else {
            j + 1
        })
}

/// Whether bytes parse as a round-one package of the suite.
pub open spec fn round1_package_ok(suite: Suite, b: Seq<u8>) -> bool {
    match suite {
        Suite::Ed25519Sha512 => frost::ed25519_round1_package_ok(b),
        Suite::Secp256K1Sha256 => frost::secp256k1_round1_package_ok(b),
    }
}

/// Whether bytes parse as a round-two package of the suite.
pub open spec fn round2_package_ok(suite: Suite, b: Seq<u8>) -> bool {
    match suite {
        Suite::Ed25519Sha512 => frost::ed25519_round2_package_ok(b),
        Suite::Secp256K1Sha256 => frost::secp256k1_round2_package_ok(b),
    }
}

/// The serialized group verifying key of a serialized public key package of
/// the suite.
pub open spec fn verifying_key_of(suite: Suite, pubkeypkg: Seq<u8>) -> Seq<u8> {
    match suite {
        Suite::Ed25519Sha512 => frost::ed25519_verifying_key_of(pubkeypkg),
        Suite::Secp256K1Sha256 => frost::secp256k1_verifying_key_of(pubkeypkg),
    }
}

/// Validate the parameters and emit the round-one broadcast package.
/// Fails with `InvalidProtocolParameters` exactly when `1 <= t <= n` does
/// not hold, and with `InvalidPartyIndex` exactly when it holds but `i` is
/// no party of the run; both are caught before any network activity.
///
/// A threshold of one passes this validation but aborts in the cryptography:
/// `frost_core::keys::validate_num_of_signers` demands at least two signers,
/// so `t == 1` (and `n == 1`) end in a Frost abort.
pub fn start(suite: Suite, t: u16, n: u16, i: u16) -> (r: Result<(KeygenRound1, Vec<u8>), Error>)
    ensures
        match r {
            Ok((st, _)) => 1 <= t <= n && i < n && st.wf() && st.spec_t() == t && st.spec_n() == n
                && st.spec_i() == i && st.spec_suite() == suite,
            Err(e) => match e.spec_reason() {
                Reason::Bug(Bug::InvalidProtocolParameters) => !(1 <= t <= n),
                Reason::Bug(Bug::InvalidPartyIndex) => 1 <= t <= n && i >= n,
                Reason::Aborted(KeygenAborted::Frost(_)) => 1 <= t <= n && i < n,
                _ => false,
            },
        },
{
    if t < 1 || t > n {
        return Err(Error(Reason::Bug(Bug::InvalidProtocolParameters)));
    }
    if i >= n {
        return Err(Error(Reason::Bug(Bug::InvalidPartyIndex)));
    }
    let wire = i + 1;
    match suite {
        Suite::Ed25519Sha512 => match frost::dkg_part1_ed25519(wire, n, t) {
            Ok((secret, pkg)) => Ok(
                (KeygenRound1 { t, n, i, secret: DkgSecretRound1::Ed25519(secret) }, pkg),
            ),
            Err(e) => Err(Error(Reason::Aborted(KeygenAborted::Frost(e)))),
        },
        Suite::Secp256K1Sha256 => match frost::dkg_part1_secp256k1(wire, n, t) {
            Ok((secret, pkg)) => Ok(
                (KeygenRound1 { t, n, i, secret: DkgSecretRound1::Secp256k1(secret) }, pkg),
            ),
            Err(e) => Err(Error(Reason::Aborted(KeygenAborted::Frost(e)))),
        },
    }
}

/// Consume the other parties' round-one packages and emit one round-two
/// package per recipient, to be sent point to point.  A payload that does
/// not deserialize surfaces as a `ReceiveMessage` error, never a panic.
pub fn on_round1(state: KeygenRound1, msgs: &Vec<(u16, Vec<u8>)>) -> (r: Result<
    (KeygenRound2, Vec<(u16, Vec<u8>)>),
    Error,
>)
    requires
        state.wf(),
        senders_complete(msgs@, state.spec_n(), state.spec_i()),
    ensures
        match r {
            Ok((st, sends)) => (forall|j: int|
                0 <= j < msgs@.len() ==> round1_package_ok(
                    state.spec_suite(),
                    (#[trigger] msgs@[j]).1@,
                )) && st.wf() && st.spec_t() == state.spec_t() && st.spec_n() == state.spec_n()
                && st.spec_i() == state.spec_i() && st.spec_suite() == state.spec_suite()
                && sends@.len() == msgs@.len() && (forall|j: int|
                0 <= j < sends@.len() ==> (#[trigger] sends@[j]).0 < state.spec_n()
                    && sends@[j].0 != state.spec_i()) && (forall|j1: int, j2: int|
                0 <= j1 < j2 < sends@.len() ==> (#[trigger] sends@[j1]).0 != (
                #[trigger] sends@[j2]).0),
            Err(e) => match e.spec_reason() {
                Reason::IoError(IoError::ReceiveMessage(_)) => exists|j: int|
                    0 <= j < msgs@.len() && !round1_package_ok(
                        state.spec_suite(),
                        (#[trigger] msgs@[j]).1@,
                    ),
                Reason::Aborted(KeygenAborted::Frost(_)) => forall|j: int|
                    0 <= j < msgs@.len() ==> round1_package_ok(
                        state.spec_suite(),
                        (#[trigger] msgs@[j]).1@,
                    ),
                _ => false,
            },
        },
{
    let n = state.n;
    let i = state.i;
    let ghost gsuite = state.spec_suite();
    // Validate and re-key every package by its sender's wire identifier.
    let mut wires: Vec<(u16, Vec<u8>)> = Vec::new();
    let mut j: usize = 0;
    while j < msgs.len()
        invariant
            state.wf(),
            senders_complete(msgs@, state.spec_n(), state.spec_i()),
            n == state.spec_n(),
            i == state.spec_i(),
            gsuite == state.spec_suite(),
            j <= msgs@.len(),
            wires@.len() == j,
            forall|k: int|
                0 <= k < j ==> round1_package_ok(gsuite, (#[trigger] msgs@[k]).1@),
            forall|k: int|
                0 <= k < j ==> (#[trigger] wires@[k]).0 == msgs@[k].0 + 1 && wires@[k].1@
                    == msgs@[k].1@,
        decreases msgs@.len() - j,
    {
        let (sender, payload) = &msgs[j];
        let check = match &state.secret {
            DkgSecretRound1::Ed25519(_) => frost::check_round1_package_ed25519(payload),
            DkgSecretRound1::Secp256k1(_) => frost::check_round1_package_secp256k1(payload),
        };
        match check {
            Ok(()) => {},
            Err(e) => {
                proof {
                    assert(!round1_package_ok(gsuite, msgs@[j as int].1@));
                }
                return Err(Error(Reason::IoError(IoError::ReceiveMessage(e))));
            },
        }
        proof {
            assert(msgs@[j as int].0 < n);
            assert(round1_package_ok(gsuite, msgs@[j as int].1@));
        }
        wires.push((*sender + 1, crate::codec::clone_bytes(payload)));
        j = j + 1;
    }
    proof {
        assert(forall|k: int|
            0 <= k < msgs@.len() ==> round1_package_ok(gsuite, (#[trigger] msgs@[k]).1@));
    }
    proof {
        // The wire identifiers inherit the senders' strict order.
        assert forall|k1: int, k2: int|
            0 <= k1 < k2 < wires@.len() implies (#[trigger] wires@[k1]).0 < (
        #[trigger] wires@[k2]).0 by {
            assert(msgs@[k1].0 < msgs@[k2].0);
        }
    }
    let t = state.t;
    let (secret2, outs) = match state.secret {
        DkgSecretRound1::Ed25519(secret) => match frost::dkg_part2_ed25519(secret, &wires) {
            Ok((s2, outs)) => (DkgSecretRound2::Ed25519(s2), outs),
            Err(e) => {
                return Err(Error(Reason::Aborted(KeygenAborted::Frost(e))));
            },
        },
        DkgSecretRound1::Secp256k1(secret) => match frost::dkg_part2_secp256k1(secret, &wires) {
            Ok((s2, outs)) => (DkgSecretRound2::Secp256k1(s2), outs),
            Err(e) => {
                return Err(Error(Reason::Aborted(KeygenAborted::Frost(e))));
            },
        },
    };
    // Convert each recipient's wire identifier back to a party index: the
    // recipients are the senders, in the same order.
    let mut sends: Vec<(u16, Vec<u8>)> = Vec::new();
    let mut j: usize = 0;
    while j < outs.len()
        invariant
            j <= outs@.len(),
            sends@.len() == j,
            i < n,
            msgs@.len() == n - 1,
            forall|k: int|
                0 <= k < msgs@.len() ==> (#[trigger] msgs@[k]).0 == (if k < i {
                    k
                } else {
                    k + 1
                }),
            outs@.len() == wires@.len(),
            forall|k: int| 0 <= k < outs@.len() ==> (#[trigger] outs@[k]).0 == wires@[k].0,
            wires@.len() == msgs@.len(),
            forall|k: int|
                0 <= k < wires@.len() ==> (#[trigger] wires@[k]).0 == msgs@[k].0 + 1,
            forall|k: int|
                0 <= k < j ==> (#[trigger] sends@[k]).0 == msgs@[k].0 && sends@[k].1@
                    == outs@[k].1@,
        decreases outs@.len() - j,
    {
        let (wire, pkg) = &outs[j];
        proof {
            assert(outs@[j as int].0 == msgs@[j as int].0 + 1);
            assert(msgs@[j as int].0 < n && msgs@[j as int].0 != i);
        }
        if *wire < 1 || *wire > n {
            // Unreachable: every recipient is one of the senders.
            return Err(Error(Reason::Bug(Bug::InvalidPartyIndex)));
        }
        sends.push((*wire - 1, crate::codec::clone_bytes(pkg)));
        j = j + 1;
    }
    proof {
        assert forall|k: int|
            0 <= k < sends@.len() implies (#[trigger] sends@[k]).0 < n && sends@[k].0 != i by {
            assert(sends@[k].0 == msgs@[k].0);
        }
        assert forall|k1: int, k2: int|
            0 <= k1 < k2 < sends@.len() implies (#[trigger] sends@[k1]).0 != (
        #[trigger] sends@[k2]).0 by {
            assert(msgs@[k1].0 != msgs@[k2].0);
        }
    }
    let st = KeygenRound2 { t, n, i, secret: secret2, round1_packages: wires };
    Ok((st, sends))
}

/// Consume the other parties' round-two packages and derive the key
/// material; this part is offline.  A payload that does not deserialize
/// surfaces as a `ReceiveMessage` error, never a panic.
pub fn on_round2(state: KeygenRound2, msgs: &Vec<(u16, Vec<u8>)>) -> (r: Result<
    KeygenOutput,
    Error,
>)
    requires
        state.wf(),
        senders_complete(msgs@, state.spec_n(), state.spec_i()),
    ensures
        match r {
            Ok(out) => (forall|j: int|
                0 <= j < msgs@.len() ==> round2_package_ok(
                    state.spec_suite(),
                    (#[trigger] msgs@[j]).1@,
                )) && out.suite == state.spec_suite() && out.verifying_key@ == verifying_key_of(
                state.spec_suite(),
                out.pubkeypkg@,
            ),
            Err(e) => match e.spec_reason() {
                Reason::IoError(IoError::ReceiveMessage(_)) => exists|j: int|
                    0 <= j < msgs@.len() && !round2_package_ok(
                        state.spec_suite(),
                        (#[trigger] msgs@[j]).1@,
                    ),
                Reason::Aborted(KeygenAborted::Frost(_)) => forall|j: int|
                    0 <= j < msgs@.len() ==> round2_package_ok(
                        state.spec_suite(),
                        (#[trigger] msgs@[j]).1@,
                    ),
                _ => false,
            },
        },
{
    let n = state.n;
    let i = state.i;
    let ghost gsuite = state.spec_suite();
    let mut wires: Vec<(u16, Vec<u8>)> = Vec::new();
    let mut j: usize = 0;
    while j < msgs.len()
        invariant
            state.wf(),
            senders_complete(msgs@, state.spec_n(), state.spec_i()),
            n == state.spec_n(),
            i == state.spec_i(),
            gsuite == state.spec_suite(),
            j <= msgs@.len(),
            wires@.len() == j,
            forall|k: int|
                0 <= k < j ==> round2_package_ok(gsuite, (#[trigger] msgs@[k]).1@),
            forall|k: int| 0 <= k < j ==> (#[trigger] wires@[k]).0 >= 1,
        decreases msgs@.len() - j,
    {
        let (sender, payload) = &msgs[j];
        let check = match &state.secret {
            DkgSecretRound2::Ed25519(_) => frost::check_round2_package_ed25519(payload),
            DkgSecretRound2::Secp256k1(_) => frost::check_round2_package_secp256k1(payload),
        };
        match check {
            Ok(()) => {},
            Err(e) => {
                proof {
                    assert(!round2_package_ok(gsuite, msgs@[j as int].1@));
                }
                return Err(Error(Reason::IoError(IoError::ReceiveMessage(e))));
            },
        }
        proof {
            assert(msgs@[j as int].0 < n);
            assert(round2_package_ok(gsuite, msgs@[j as int].1@));
        }
        wires.push((*sender + 1, crate::codec::clone_bytes(payload)));
        j = j + 1;
    }
    proof {
        assert(forall|k: int|
            0 <= k < msgs@.len() ==> round2_package_ok(gsuite, (#[trigger] msgs@[k]).1@));
    }
    let result = match &state.secret {
        DkgSecretRound2::Ed25519(secret) => frost::dkg_part3_ed25519(
            secret,
            &state.round1_packages,
            &wires,
        ),
        DkgSecretRound2::Secp256k1(secret) => frost::dkg_part3_secp256k1(
            secret,
            &state.round1_packages,
            &wires,
        ),
    };
    let suite = match &state.secret {
        DkgSecretRound2::Ed25519(_) => Suite::Ed25519Sha512,
        DkgSecretRound2::Secp256k1(_) => Suite::Secp256K1Sha256,
    };
    let (keypkg, pubkeypkg) = match result {
        Ok(out) => out,
        Err(e) => {
            return Err(Error(Reason::Aborted(KeygenAborted::Frost(e))));
        },
    };
    let vk = match suite {
        Suite::Ed25519Sha512 => frost::group_verifying_key_ed25519(&pubkeypkg),
        Suite::Secp256K1Sha256 => frost::group_verifying_key_secp256k1(&pubkeypkg),
    };
    match vk {
        Ok(verifying_key) => Ok(KeygenOutput { suite, keypkg, pubkeypkg, verifying_key }),
        Err(e) => Err(Error(Reason::Aborted(KeygenAborted::Frost(e)))),
    }
}

} // verus!
