//! Trusted boundary to the FROST cryptography crates.
//!
//! Each supported ciphersuite gets one set of wrappers; a wrapper makes one
//! step of the protocol and is trusted to do what the `frost-core` source
//! shows.  Key material and protocol packages cross this boundary in their
//! ciphersuite-defined serialized form; the secret state that must not be
//! serialized is held in opaque structs.  Party identifiers cross as nonzero
//! `u16` wire values; the wrappers convert them to and from
//! `frost_core::Identifier` scalars.
use std::collections::BTreeMap;

use frost_core::Identifier;
use frost_core::SigningPackage;
use frost_core::keys::KeyPackage;
use frost_core::keys::PublicKeyPackage;
use frost_core::keys::dkg;
use frost_core::round1::SigningCommitments;
use frost_core::round2::SignatureShare;
use frost_ed25519::Ed25519Sha512;
use frost_secp256k1::Secp256K1Sha256;
use vstd::prelude::*;

verus! {

/// The view of a list of wire-keyed byte strings.
pub open spec fn pairs_view(v: Seq<(u16, Vec<u8>)>) -> Seq<(u16, Seq<u8>)> {
    Seq::new(v.len(), |j: int| (v[j].0, v[j].1@))
}

/// Whether bytes parse as an Ed25519 round-one DKG package; parsing is a
/// function of the bytes alone.
pub uninterp spec fn ed25519_round1_package_ok(b: Seq<u8>) -> bool;

/// Whether bytes parse as a secp256k1 round-one DKG package.
pub uninterp spec fn secp256k1_round1_package_ok(b: Seq<u8>) -> bool;

/// Whether bytes parse as an Ed25519 round-two DKG package.
pub uninterp spec fn ed25519_round2_package_ok(b: Seq<u8>) -> bool;

/// Whether bytes parse as a secp256k1 round-two DKG package.
pub uninterp spec fn secp256k1_round2_package_ok(b: Seq<u8>) -> bool;

/// Whether bytes parse as Ed25519 signing commitments.
pub uninterp spec fn ed25519_commitments_ok(b: Seq<u8>) -> bool;

/// Whether bytes parse as secp256k1 signing commitments.
pub uninterp spec fn secp256k1_commitments_ok(b: Seq<u8>) -> bool;

/// Whether bytes parse as an Ed25519 signature share.
pub uninterp spec fn ed25519_share_ok(b: Seq<u8>) -> bool;

/// Whether bytes parse as a secp256k1 signature share.
pub uninterp spec fn secp256k1_share_ok(b: Seq<u8>) -> bool;

/// The outcome of checking an Ed25519 signature share against the signing
/// package and public key package, a function of the four inputs alone:
/// `None` when some input is malformed, `Some(None)` when the package
/// records no verifying share for the wire identifier, and `Some(Some(v))`
/// for the verification verdict `v`.
pub uninterp spec fn ed25519_share_check(
    wire: u16,
    share: Seq<u8>,
    signing_pkg: Seq<u8>,
    pubkeypkg: Seq<u8>,
) -> Option<Option<bool>>;

/// The outcome of checking a secp256k1 signature share; see the Ed25519
/// counterpart for the reading.
pub uninterp spec fn secp256k1_share_check(
    wire: u16,
    share: Seq<u8>,
    signing_pkg: Seq<u8>,
    pubkeypkg: Seq<u8>,
) -> Option<Option<bool>>;

/// Whether Ed25519 aggregation of these serialized inputs succeeds; a
/// function of the inputs alone.
pub uninterp spec fn ed25519_aggregate_ok(
    signing_pkg: Seq<u8>,
    shares: Seq<(u16, Seq<u8>)>,
    pubkeypkg: Seq<u8>,
) -> bool;

/// Whether secp256k1 aggregation of these serialized inputs succeeds.
pub uninterp spec fn secp256k1_aggregate_ok(
    signing_pkg: Seq<u8>,
    shares: Seq<(u16, Seq<u8>)>,
    pubkeypkg: Seq<u8>,
) -> bool;

/// The serialized group verifying key read from a serialized Ed25519 public
/// key package; a function of the bytes alone.
pub uninterp spec fn ed25519_verifying_key_of(pubkeypkg: Seq<u8>) -> Seq<u8>;

/// The serialized group verifying key read from a serialized secp256k1
/// public key package.
pub uninterp spec fn secp256k1_verifying_key_of(pubkeypkg: Seq<u8>) -> Seq<u8>;

/// Whether bytes parse as an Ed25519 key package.
pub uninterp spec fn ed25519_keypkg_ok(b: Seq<u8>) -> bool;

/// Whether bytes parse as a secp256k1 key package.
pub uninterp spec fn secp256k1_keypkg_ok(b: Seq<u8>) -> bool;

/// The threshold recorded in a serialized Ed25519 key package.
pub uninterp spec fn ed25519_min_signers_of(keypkg: Seq<u8>) -> u16;

/// The threshold recorded in a serialized secp256k1 key package.
pub uninterp spec fn secp256k1_min_signers_of(keypkg: Seq<u8>) -> u16;

/// The serialized identifier scalar recorded in a serialized Ed25519 key
/// package.
pub uninterp spec fn ed25519_identifier_bytes_of(keypkg: Seq<u8>) -> Seq<u8>;

/// The serialized identifier scalar recorded in a serialized secp256k1 key
/// package.
pub uninterp spec fn secp256k1_identifier_bytes_of(keypkg: Seq<u8>) -> Seq<u8>;

/// The serialized Ed25519 signing package built from the signers' serialized
/// commitments, keyed by wire identifier, and the message; it depends on
/// those inputs alone, so every signer that collects the same commitments
/// builds the same package.
pub uninterp spec fn ed25519_signing_package_of(
    commitments: Seq<(u16, Seq<u8>)>,
    msg: Seq<u8>,
) -> Seq<u8>;

/// The serialized secp256k1 signing package built from the signers'
/// serialized commitments, keyed by wire identifier, and the message; it
/// depends on those inputs alone, so every signer that collects the same
/// commitments builds the same package.
pub uninterp spec fn secp256k1_signing_package_of(
    commitments: Seq<(u16, Seq<u8>)>,
    msg: Seq<u8>,
) -> Seq<u8>;

/// The Ed25519 group signature aggregated from a serialized signing package,
/// the signers' serialized shares and the serialized public key package; it
/// depends on those inputs alone, so every signer that aggregates the same
/// inputs emits the same signature bytes.
pub uninterp spec fn ed25519_aggregate_of(
    signing_pkg: Seq<u8>,
    shares: Seq<(u16, Seq<u8>)>,
    pubkeypkg: Seq<u8>,
) -> Seq<u8>;

/// The secp256k1 group signature aggregated from a serialized signing
/// package, the signers' serialized shares and the serialized public key
/// package; it depends on those inputs alone, so every signer that
/// aggregates the same inputs emits the same signature bytes.
pub uninterp spec fn secp256k1_aggregate_of(
    signing_pkg: Seq<u8>,
    shares: Seq<(u16, Seq<u8>)>,
    pubkeypkg: Seq<u8>,
) -> Seq<u8>;

/// Signers that aggregate the same inputs emit the same signature bytes,
/// under either suite; agreement across a run follows from every signer
/// collecting the same broadcasts.
pub proof fn lemma_signature_agreement(
    signing_pkg: Seq<u8>,
    shares: Seq<(u16, Seq<u8>)>,
    pubkeypkg: Seq<u8>,
    s1: Seq<u8>,
    s2: Seq<u8>,
)
    requires
        (s1 == ed25519_aggregate_of(signing_pkg, shares, pubkeypkg) && s2 == ed25519_aggregate_of(
            signing_pkg,
            shares,
            pubkeypkg,
        )) || (s1 == secp256k1_aggregate_of(signing_pkg, shares, pubkeypkg) && s2
            == secp256k1_aggregate_of(signing_pkg, shares, pubkeypkg)),
    ensures
        s1 == s2,
{
}

/// Holds a `frost_core` round-one DKG secret for the Ed25519 suite; opaque,
/// never serialized, dropped when the round ends.
#[verifier::external_body]
pub struct DkgRound1SecretEd25519 {
    inner: dkg::round1::SecretPackage<Ed25519Sha512>,
}

/// Holds a `frost_core` round-two DKG secret for the Ed25519 suite; opaque,
/// never serialized, dropped when the run ends.
#[verifier::external_body]
pub struct DkgRound2SecretEd25519 {
    inner: dkg::round2::SecretPackage<Ed25519Sha512>,
}

/// Holds `frost_core` signing nonces for the Ed25519 suite; opaque, secret,
/// used for one signing run only.
#[verifier::external_body]
pub struct SigningNoncesEd25519 {
    inner: frost_core::round1::SigningNonces<Ed25519Sha512>,
}

/// Relies on frost_core::keys::dkg::part1: draws the round-one secret and the
/// serialized broadcast package for the participant with the given nonzero
/// wire identifier, using the operating system's entropy source.
#[verifier::external_body]
pub(crate) fn dkg_part1_ed25519(wire: u16, n: u16, t: u16) -> (r: Result<
    (DkgRound1SecretEd25519, Vec<u8>),
    String,
>)
    requires
        wire >= 1,
{
    let id = Identifier::<Ed25519Sha512>::try_from(wire).map_err(|e| e.to_string())?;
    let (secret, pkg) = dkg::part1(id, n, t, rand::rngs::OsRng).map_err(|e| e.to_string())?;
    Ok((DkgRound1SecretEd25519 { inner: secret }, pkg.serialize().map_err(|e| e.to_string())?))
}

/// Relies on frost_core::keys::dkg::round1::Package::deserialize: whether the
/// bytes parse as a round-one package; malformed bytes are rejected with an
/// error, never a panic.
#[verifier::external_body]
pub(crate) fn check_round1_package_ed25519(b: &Vec<u8>) -> (r: Result<(), String>)
    ensures
        r is Ok <==> ed25519_round1_package_ok(b@),
{
    dkg::round1::Package::<Ed25519Sha512>::deserialize(b).map(|_| ()).map_err(|e| e.to_string())
}

/// Relies on frost_core::keys::dkg::round2::Package::deserialize: whether the
/// bytes parse as a round-two package; malformed bytes are rejected with an
/// error, never a panic.
#[verifier::external_body]
pub(crate) fn check_round2_package_ed25519(b: &Vec<u8>) -> (r: Result<(), String>)
    ensures
        r is Ok <==> ed25519_round2_package_ok(b@),
{
    dkg::round2::Package::<Ed25519Sha512>::deserialize(b).map(|_| ()).map_err(|e| e.to_string())
}

/// Relies on frost_core::keys::dkg::part2: verifies each round-one package
/// and derives one serialized round-two package per other participant, keyed
/// by that participant's identifier.  The recipients are exactly the senders
/// of the round-one packages, one each; identifiers made from `u16` wire
/// values order like the wire values, and the output map iterates in
/// identifier order, so the packages come back in the senders' order.
#[verifier::external_body]
pub(crate) fn dkg_part2_ed25519(secret: DkgRound1SecretEd25519, pkgs: &Vec<(u16, Vec<u8>)>) -> (r: Result<
    (DkgRound2SecretEd25519, Vec<(u16, Vec<u8>)>),
    String,
>)
    requires
        forall|j: int| 0 <= j < pkgs@.len() ==> (#[trigger] pkgs@[j]).0 >= 1,
        forall|j1: int, j2: int|
            0 <= j1 < j2 < pkgs@.len() ==> (#[trigger] pkgs@[j1]).0 < (#[trigger] pkgs@[j2]).0,
    ensures
        match r {
            Ok((_, outs)) => outs@.len() == pkgs@.len() && (forall|j: int|
                0 <= j < outs@.len() ==> (#[trigger] outs@[j]).0 == pkgs@[j].0),
            Err(_) => true,
        },
{
    let es = |e: frost_core::Error<Ed25519Sha512>| e.to_string();
    let mut map = BTreeMap::new();
    let mut back = BTreeMap::new();
    for (w, b) in pkgs.iter() {
        let id = Identifier::try_from(*w).map_err(es)?;
        map.insert(id, dkg::round1::Package::deserialize(b).map_err(es)?);
        back.insert(id, *w);
    }
    let (sec2, outs) = dkg::part2(secret.inner, &map).map_err(es)?;
    let mut v = Vec::new();
    for (id, pkg) in outs {
        v.push((*back.get(&id).ok_or("unknown recipient")?, pkg.serialize().map_err(es)?));
    }
    Ok((DkgRound2SecretEd25519 { inner: sec2 }, v))
}

/// Relies on frost_core::keys::dkg::part3: combines the collected packages
/// into this participant's serialized key package and the group's serialized
/// public key package.
#[verifier::external_body]
pub(crate) fn dkg_part3_ed25519(
    secret: &DkgRound2SecretEd25519,
    round1: &Vec<(u16, Vec<u8>)>,
    round2: &Vec<(u16, Vec<u8>)>,
) -> (r: Result<(Vec<u8>, Vec<u8>), String>)
    requires
        forall|j: int| 0 <= j < round1@.len() ==> (#[trigger] round1@[j]).0 >= 1,
        forall|j: int| 0 <= j < round2@.len() ==> (#[trigger] round2@[j]).0 >= 1,
{
    let es = |e: frost_core::Error<Ed25519Sha512>| e.to_string();
    let mut m1 = BTreeMap::new();
    let mut m2 = BTreeMap::new();
    for (w, b) in round1.iter() {
        m1.insert(Identifier::try_from(*w).map_err(es)?, dkg::round1::Package::deserialize(b).map_err(es)?);
    }
    for (w, b) in round2.iter() {
        m2.insert(Identifier::try_from(*w).map_err(es)?, dkg::round2::Package::deserialize(b).map_err(es)?);
    }
    let (kp, pkp) = dkg::part3(&secret.inner, &m1, &m2).map_err(es)?;
    Ok((kp.serialize().map_err(es)?, pkp.serialize().map_err(es)?))
}

/// Relies on frost_core::keys::PublicKeyPackage::verifying_key over the
/// deserialized public key package: the serialized group verifying key.
#[verifier::external_body]
pub(crate) fn group_verifying_key_ed25519(pubkeypkg: &Vec<u8>) -> (r: Result<Vec<u8>, String>)
    ensures
        match r {
            Ok(vk) => vk@ == ed25519_verifying_key_of(pubkeypkg@),
            Err(_) => true,
        },
{
    let pkp = PublicKeyPackage::<Ed25519Sha512>::deserialize(pubkeypkg).map_err(|e| e.to_string())?;
    pkp.verifying_key().serialize().map_err(|e| e.to_string())
}

/// Relies on frost_core::keys::KeyPackage::deserialize and
/// frost_core::round1::commit: draws fresh signing nonces and their
/// serialized commitments for this participant's signing share, using the
/// operating system's entropy source.
#[verifier::external_body]
pub(crate) fn signing_commit_ed25519(keypkg: &Vec<u8>) -> (r: Result<
    (SigningNoncesEd25519, Vec<u8>),
    String,
>) {
    let kp = KeyPackage::<Ed25519Sha512>::deserialize(keypkg).map_err(|e| e.to_string())?;
    let (nonces, commitments) = frost_core::round1::commit(kp.signing_share(), &mut rand::rngs::OsRng);
    Ok((SigningNoncesEd25519 { inner: nonces }, commitments.serialize().map_err(|e| e.to_string())?))
}

/// Relies on frost_core::round1::SigningCommitments::deserialize: whether the
/// bytes parse as signing commitments; malformed bytes are rejected with an
/// error, never a panic.
#[verifier::external_body]
pub(crate) fn check_commitments_ed25519(b: &Vec<u8>) -> (r: Result<(), String>)
    ensures
        r is Ok <==> ed25519_commitments_ok(b@),
{
    SigningCommitments::<Ed25519Sha512>::deserialize(b).map(|_| ()).map_err(|e| e.to_string())
}

/// Relies on frost_core::round2::SignatureShare::deserialize: whether the
/// bytes parse as a signature share; malformed bytes are rejected with an
/// error, never a panic.
#[verifier::external_body]
pub(crate) fn check_share_ed25519(b: &Vec<u8>) -> (r: Result<(), String>)
    ensures
        r is Ok <==> ed25519_share_ok(b@),
{
    SignatureShare::<Ed25519Sha512>::deserialize(b).map(|_| ()).map_err(|e| e.to_string())
}

/// Relies on frost_core::SigningPackage::new: bundles the collected signing
/// commitments, keyed by each signer's wire identifier, with the message,
/// serialized for the later signing steps.
#[verifier::external_body]
pub(crate) fn make_signing_package_ed25519(
    commitments: &Vec<(u16, Vec<u8>)>,
    msg: &Vec<u8>,
) -> (r: Result<Vec<u8>, String>)
    requires
        forall|j: int| 0 <= j < commitments@.len() ==> (#[trigger] commitments@[j]).0 >= 1,
    ensures
        match r {
            Ok(pkg) => pkg@ == ed25519_signing_package_of(pairs_view(commitments@), msg@),
            Err(_) => true,
        },
{
    let mut map = BTreeMap::new();
    for (w, b) in commitments.iter() {
        let id = Identifier::<Ed25519Sha512>::try_from(*w).map_err(|e| e.to_string())?;
        map.insert(id, SigningCommitments::deserialize(b).map_err(|e| e.to_string())?);
    }
    SigningPackage::new(map, msg).serialize().map_err(|e| e.to_string())
}

/// Relies on frost_core::round2::sign over the deserialized signing package
/// and key package: this participant's serialized signature share.
#[verifier::external_body]
pub(crate) fn sign_share_ed25519(
    signing_pkg: &Vec<u8>,
    nonces: &SigningNoncesEd25519,
    keypkg: &Vec<u8>,
) -> (r: Result<Vec<u8>, String>) {
    let pkg = SigningPackage::<Ed25519Sha512>::deserialize(signing_pkg).map_err(|e| e.to_string())?;
    let kp = KeyPackage::deserialize(keypkg).map_err(|e| e.to_string())?;
    Ok(frost_core::round2::sign(&pkg, &nonces.inner, &kp).map_err(|e| e.to_string())?.serialize())
}

/// Relies on frost_core::verify_signature_share over the deserialized public
/// key package: `Ok(None)` when the package records no verifying share for
/// the wire identifier, otherwise whether the share is that party's valid
/// contribution.
#[verifier::external_body]
pub(crate) fn verify_share_ed25519(
    wire: u16,
    share: &Vec<u8>,
    signing_pkg: &Vec<u8>,
    pubkeypkg: &Vec<u8>,
) -> (r: Result<Option<bool>, String>)
    requires
        wire >= 1,
    ensures
        match r {
            Ok(Some(v)) => ed25519_share_check(wire, share@, signing_pkg@, pubkeypkg@) == Some(
                Some(v),
            ),
            Ok(None) => ed25519_share_check(wire, share@, signing_pkg@, pubkeypkg@) == Some(
                None::<bool>,
            ),
            Err(_) => ed25519_share_check(wire, share@, signing_pkg@, pubkeypkg@) is None,
        },
{
    let es = |e: frost_core::Error<Ed25519Sha512>| e.to_string();
    let pkg = SigningPackage::deserialize(signing_pkg).map_err(es)?;
    let pkp = PublicKeyPackage::deserialize(pubkeypkg).map_err(es)?;
    let id = Identifier::try_from(wire).map_err(es)?;
    let s = SignatureShare::deserialize(share).map_err(es)?;
    let vs = match pkp.verifying_shares().get(&id) {
        Some(vs) => *vs,
        None => return Ok(None),
    };
    Ok(Some(frost_core::verify_signature_share(id, &vs, &s, &pkg, pkp.verifying_key()).is_ok()))
}

/// Relies on frost_core::aggregate over the deserialized public key package:
/// the serialized group Schnorr signature combined from the shares.
#[verifier::external_body]
pub(crate) fn aggregate_ed25519(
    signing_pkg: &Vec<u8>,
    shares: &Vec<(u16, Vec<u8>)>,
    pubkeypkg: &Vec<u8>,
) -> (r: Result<Vec<u8>, String>)
    requires
        forall|j: int| 0 <= j < shares@.len() ==> (#[trigger] shares@[j]).0 >= 1,
    ensures
        match r {
            Ok(sig) => ed25519_aggregate_ok(signing_pkg@, pairs_view(shares@), pubkeypkg@) && sig@
                == ed25519_aggregate_of(signing_pkg@, pairs_view(shares@), pubkeypkg@),
            Err(_) => !ed25519_aggregate_ok(signing_pkg@, pairs_view(shares@), pubkeypkg@),
        },
{
    let es = |e: frost_core::Error<Ed25519Sha512>| e.to_string();
    let mut smap = BTreeMap::new();
    for (w, b) in shares.iter() {
        smap.insert(Identifier::try_from(*w).map_err(es)?, SignatureShare::deserialize(b).map_err(es)?);
    }
    let pkg = SigningPackage::deserialize(signing_pkg).map_err(es)?;
    let pkp = PublicKeyPackage::deserialize(pubkeypkg).map_err(es)?;
    frost_core::aggregate(&pkg, &smap, &pkp).map_err(es)?.serialize().map_err(es)
}

/// Relies on frost_core::keys::KeyPackage::min_signers over the deserialized
/// key package: the threshold the key was generated with.
#[verifier::external_body]
pub(crate) fn keypkg_min_signers_ed25519(keypkg: &Vec<u8>) -> (r: Result<u16, String>)
    ensures
        r is Ok <==> ed25519_keypkg_ok(keypkg@),
        match r {
            Ok(t) => t == ed25519_min_signers_of(keypkg@),
            Err(_) => true,
        },
{
    let kp = KeyPackage::<Ed25519Sha512>::deserialize(keypkg).map_err(|e| e.to_string())?;
    Ok(*kp.min_signers())
}

/// Relies on frost_core::keys::KeyPackage::identifier and
/// frost_core::Identifier::serialize over the deserialized key package: the
/// ciphersuite encoding of this participant's identifier scalar.
#[verifier::external_body]
pub(crate) fn keypkg_identifier_bytes_ed25519(keypkg: &Vec<u8>) -> (r: Result<Vec<u8>, String>)
    ensures
        r is Ok <==> ed25519_keypkg_ok(keypkg@),
        match r {
            Ok(b) => b@ == ed25519_identifier_bytes_of(keypkg@),
            Err(_) => true,
        },
{
    let kp = KeyPackage::<Ed25519Sha512>::deserialize(keypkg).map_err(|e| e.to_string())?;
    Ok(kp.identifier().serialize())
}

/// Holds a `frost_core` round-one DKG secret for the secp256k1 suite; opaque,
/// never serialized, dropped when the round ends.
#[verifier::external_body]
pub struct DkgRound1SecretSecp256k1 {
    inner: dkg::round1::SecretPackage<Secp256K1Sha256>,
}

/// Holds a `frost_core` round-two DKG secret for the secp256k1 suite; opaque,
/// never serialized, dropped when the run ends.
#[verifier::external_body]
pub struct DkgRound2SecretSecp256k1 {
    inner: dkg::round2::SecretPackage<Secp256K1Sha256>,
}

/// Holds `frost_core` signing nonces for the secp256k1 suite; opaque, secret,
/// used for one signing run only.
#[verifier::external_body]
pub struct SigningNoncesSecp256k1 {
    inner: frost_core::round1::SigningNonces<Secp256K1Sha256>,
}

/// Relies on frost_core::keys::dkg::part1: draws the round-one secret and the
/// serialized broadcast package for the participant with the given nonzero
/// wire identifier, using the operating system's entropy source.
#[verifier::external_body]
pub(crate) fn dkg_part1_secp256k1(wire: u16, n: u16, t: u16) -> (r: Result<
    (DkgRound1SecretSecp256k1, Vec<u8>),
    String,
>)
    requires
        wire >= 1,
{
    let id = Identifier::<Secp256K1Sha256>::try_from(wire).map_err(|e| e.to_string())?;
    let (secret, pkg) = dkg::part1(id, n, t, rand::rngs::OsRng).map_err(|e| e.to_string())?;
    Ok((DkgRound1SecretSecp256k1 { inner: secret }, pkg.serialize().map_err(|e| e.to_string())?))
}

/// Relies on frost_core::keys::dkg::round1::Package::deserialize: whether the
/// bytes parse as a round-one package; malformed bytes are rejected with an
/// error, never a panic.
#[verifier::external_body]
pub(crate) fn check_round1_package_secp256k1(b: &Vec<u8>) -> (r: Result<(), String>)
    ensures
        r is Ok <==> secp256k1_round1_package_ok(b@),
{
    dkg::round1::Package::<Secp256K1Sha256>::deserialize(b).map(|_| ()).map_err(|e| e.to_string())
}

/// Relies on frost_core::keys::dkg::round2::Package::deserialize: whether the
/// bytes parse as a round-two package; malformed bytes are rejected with an
/// error, never a panic.
#[verifier::external_body]
pub(crate) fn check_round2_package_secp256k1(b: &Vec<u8>) -> (r: Result<(), String>)
    ensures
        r is Ok <==> secp256k1_round2_package_ok(b@),
{
    dkg::round2::Package::<Secp256K1Sha256>::deserialize(b).map(|_| ()).map_err(|e| e.to_string())
}

/// Relies on frost_core::keys::dkg::part2: verifies each round-one package
/// and derives one serialized round-two package per other participant, keyed
/// by that participant's identifier.  The recipients are exactly the senders
/// of the round-one packages, one each; identifiers made from `u16` wire
/// values order like the wire values, and the output map iterates in
/// identifier order, so the packages come back in the senders' order.
#[verifier::external_body]
pub(crate) fn dkg_part2_secp256k1(secret: DkgRound1SecretSecp256k1, pkgs: &Vec<(u16, Vec<u8>)>) -> (r: Result<
    (DkgRound2SecretSecp256k1, Vec<(u16, Vec<u8>)>),
    String,
>)
    requires
        forall|j: int| 0 <= j < pkgs@.len() ==> (#[trigger] pkgs@[j]).0 >= 1,
        forall|j1: int, j2: int|
            0 <= j1 < j2 < pkgs@.len() ==> (#[trigger] pkgs@[j1]).0 < (#[trigger] pkgs@[j2]).0,
    ensures
        match r {
            Ok((_, outs)) => outs@.len() == pkgs@.len() && (forall|j: int|
                0 <= j < outs@.len() ==> (#[trigger] outs@[j]).0 == pkgs@[j].0),
            Err(_) => true,
        },
{
    let es = |e: frost_core::Error<Secp256K1Sha256>| e.to_string();
    let mut map = BTreeMap::new();
    let mut back = BTreeMap::new();
    for (w, b) in pkgs.iter() {
        let id = Identifier::try_from(*w).map_err(es)?;
        map.insert(id, dkg::round1::Package::deserialize(b).map_err(es)?);
        back.insert(id, *w);
    }
    let (sec2, outs) = dkg::part2(secret.inner, &map).map_err(es)?;
    let mut v = Vec::new();
    for (id, pkg) in outs {
        v.push((*back.get(&id).ok_or("unknown recipient")?, pkg.serialize().map_err(es)?));
    }
    Ok((DkgRound2SecretSecp256k1 { inner: sec2 }, v))
}

/// Relies on frost_core::keys::dkg::part3: combines the collected packages
/// into this participant's serialized key package and the group's serialized
/// public key package.
#[verifier::external_body]
pub(crate) fn dkg_part3_secp256k1(
    secret: &DkgRound2SecretSecp256k1,
    round1: &Vec<(u16, Vec<u8>)>,
    round2: &Vec<(u16, Vec<u8>)>,
) -> (r: Result<(Vec<u8>, Vec<u8>), String>)
    requires
        forall|j: int| 0 <= j < round1@.len() ==> (#[trigger] round1@[j]).0 >= 1,
        forall|j: int| 0 <= j < round2@.len() ==> (#[trigger] round2@[j]).0 >= 1,
{
    let es = |e: frost_core::Error<Secp256K1Sha256>| e.to_string();
    let mut m1 = BTreeMap::new();
    let mut m2 = BTreeMap::new();
    for (w, b) in round1.iter() {
        m1.insert(Identifier::try_from(*w).map_err(es)?, dkg::round1::Package::deserialize(b).map_err(es)?);
    }
    for (w, b) in round2.iter() {
        m2.insert(Identifier::try_from(*w).map_err(es)?, dkg::round2::Package::deserialize(b).map_err(es)?);
    }
    let (kp, pkp) = dkg::part3(&secret.inner, &m1, &m2).map_err(es)?;
    Ok((kp.serialize().map_err(es)?, pkp.serialize().map_err(es)?))
}

/// Relies on frost_core::keys::PublicKeyPackage::verifying_key over the
/// deserialized public key package: the serialized group verifying key.
#[verifier::external_body]
pub(crate) fn group_verifying_key_secp256k1(pubkeypkg: &Vec<u8>) -> (r: Result<Vec<u8>, String>)
    ensures
        match r {
            Ok(vk) => vk@ == secp256k1_verifying_key_of(pubkeypkg@),
            Err(_) => true,
        },
{
    let pkp = PublicKeyPackage::<Secp256K1Sha256>::deserialize(pubkeypkg).map_err(|e| e.to_string())?;
    pkp.verifying_key().serialize().map_err(|e| e.to_string())
}

/// Relies on frost_core::keys::KeyPackage::deserialize and
/// frost_core::round1::commit: draws fresh signing nonces and their
/// serialized commitments for this participant's signing share, using the
/// operating system's entropy source.
#[verifier::external_body]
pub(crate) fn signing_commit_secp256k1(keypkg: &Vec<u8>) -> (r: Result<
    (SigningNoncesSecp256k1, Vec<u8>),
    String,
>) {
    let kp = KeyPackage::<Secp256K1Sha256>::deserialize(keypkg).map_err(|e| e.to_string())?;
    let (nonces, commitments) = frost_core::round1::commit(kp.signing_share(), &mut rand::rngs::OsRng);
    Ok((SigningNoncesSecp256k1 { inner: nonces }, commitments.serialize().map_err(|e| e.to_string())?))
}

/// Relies on frost_core::round1::SigningCommitments::deserialize: whether the
/// bytes parse as signing commitments; malformed bytes are rejected with an
/// error, never a panic.
#[verifier::external_body]
pub(crate) fn check_commitments_secp256k1(b: &Vec<u8>) -> (r: Result<(), String>)
    ensures
        r is Ok <==> secp256k1_commitments_ok(b@),
{
    SigningCommitments::<Secp256K1Sha256>::deserialize(b).map(|_| ()).map_err(|e| e.to_string())
}

/// Relies on frost_core::round2::SignatureShare::deserialize: whether the
/// bytes parse as a signature share; malformed bytes are rejected with an
/// error, never a panic.
#[verifier::external_body]
pub(crate) fn check_share_secp256k1(b: &Vec<u8>) -> (r: Result<(), String>)
    ensures
        r is Ok <==> secp256k1_share_ok(b@),
{
    SignatureShare::<Secp256K1Sha256>::deserialize(b).map(|_| ()).map_err(|e| e.to_string())
}

/// Relies on frost_core::SigningPackage::new: bundles the collected signing
/// commitments, keyed by each signer's wire identifier, with the message,
/// serialized for the later signing steps.
#[verifier::external_body]
pub(crate) fn make_signing_package_secp256k1(
    commitments: &Vec<(u16, Vec<u8>)>,
    msg: &Vec<u8>,
) -> (r: Result<Vec<u8>, String>)
    requires
        forall|j: int| 0 <= j < commitments@.len() ==> (#[trigger] commitments@[j]).0 >= 1,
    ensures
        match r {
            Ok(pkg) => pkg@ == secp256k1_signing_package_of(pairs_view(commitments@), msg@),
            Err(_) => true,
        },
{
    let mut map = BTreeMap::new();
    for (w, b) in commitments.iter() {
        let id = Identifier::<Secp256K1Sha256>::try_from(*w).map_err(|e| e.to_string())?;
        map.insert(id, SigningCommitments::deserialize(b).map_err(|e| e.to_string())?);
    }
    SigningPackage::new(map, msg).serialize().map_err(|e| e.to_string())
}

/// Relies on frost_core::round2::sign over the deserialized signing package
/// and key package: this participant's serialized signature share.
#[verifier::external_body]
pub(crate) fn sign_share_secp256k1(
    signing_pkg: &Vec<u8>,
    nonces: &SigningNoncesSecp256k1,
    keypkg: &Vec<u8>,
) -> (r: Result<Vec<u8>, String>) {
    let pkg = SigningPackage::<Secp256K1Sha256>::deserialize(signing_pkg).map_err(|e| e.to_string())?;
    let kp = KeyPackage::deserialize(keypkg).map_err(|e| e.to_string())?;
    Ok(frost_core::round2::sign(&pkg, &nonces.inner, &kp).map_err(|e| e.to_string())?.serialize())
}

/// Relies on frost_core::verify_signature_share over the deserialized public
/// key package: `Ok(None)` when the package records no verifying share for
/// the wire identifier, otherwise whether the share is that party's valid
/// contribution.
#[verifier::external_body]
pub(crate) fn verify_share_secp256k1(
    wire: u16,
    share: &Vec<u8>,
    signing_pkg: &Vec<u8>,
    pubkeypkg: &Vec<u8>,
) -> (r: Result<Option<bool>, String>)
    requires
        wire >= 1,
    ensures
        match r {
            Ok(Some(v)) => secp256k1_share_check(wire, share@, signing_pkg@, pubkeypkg@) == Some(
                Some(v),
            ),
            Ok(None) => secp256k1_share_check(wire, share@, signing_pkg@, pubkeypkg@) == Some(
                None::<bool>,
            ),
            Err(_) => secp256k1_share_check(wire, share@, signing_pkg@, pubkeypkg@) is None,
        },
{
    let es = |e: frost_core::Error<Secp256K1Sha256>| e.to_string();
    let pkg = SigningPackage::deserialize(signing_pkg).map_err(es)?;
    let pkp = PublicKeyPackage::deserialize(pubkeypkg).map_err(es)?;
    let id = Identifier::try_from(wire).map_err(es)?;
    let s = SignatureShare::deserialize(share).map_err(es)?;
    let vs = match pkp.verifying_shares().get(&id) {
        Some(vs) => *vs,
        None => return Ok(None),
    };
    Ok(Some(frost_core::verify_signature_share(id, &vs, &s, &pkg, pkp.verifying_key()).is_ok()))
}

/// Relies on frost_core::aggregate over the deserialized public key package:
/// the serialized group Schnorr signature combined from the shares.
#[verifier::external_body]
pub(crate) fn aggregate_secp256k1(
    signing_pkg: &Vec<u8>,
    shares: &Vec<(u16, Vec<u8>)>,
    pubkeypkg: &Vec<u8>,
) -> (r: Result<Vec<u8>, String>)
    requires
        forall|j: int| 0 <= j < shares@.len() ==> (#[trigger] shares@[j]).0 >= 1,
    ensures
        match r {
            Ok(sig) => secp256k1_aggregate_ok(signing_pkg@, pairs_view(shares@), pubkeypkg@) && sig@
                == secp256k1_aggregate_of(signing_pkg@, pairs_view(shares@), pubkeypkg@),
            Err(_) => !secp256k1_aggregate_ok(signing_pkg@, pairs_view(shares@), pubkeypkg@),
        },
{
    let es = |e: frost_core::Error<Secp256K1Sha256>| e.to_string();
    let mut smap = BTreeMap::new();
    for (w, b) in shares.iter() {
        smap.insert(Identifier::try_from(*w).map_err(es)?, SignatureShare::deserialize(b).map_err(es)?);
    }
    let pkg = SigningPackage::deserialize(signing_pkg).map_err(es)?;
    let pkp = PublicKeyPackage::deserialize(pubkeypkg).map_err(es)?;
    frost_core::aggregate(&pkg, &smap, &pkp).map_err(es)?.serialize().map_err(es)
}

/// Relies on frost_core::keys::KeyPackage::min_signers over the deserialized
/// key package: the threshold the key was generated with.
#[verifier::external_body]
pub(crate) fn keypkg_min_signers_secp256k1(keypkg: &Vec<u8>) -> (r: Result<u16, String>)
    ensures
        r is Ok <==> secp256k1_keypkg_ok(keypkg@),
        match r {
            Ok(t) => t == secp256k1_min_signers_of(keypkg@),
            Err(_) => true,
        },
{
    let kp = KeyPackage::<Secp256K1Sha256>::deserialize(keypkg).map_err(|e| e.to_string())?;
    Ok(*kp.min_signers())
}

/// Relies on frost_core::keys::KeyPackage::identifier and
/// frost_core::Identifier::serialize over the deserialized key package: the
/// ciphersuite encoding of this participant's identifier scalar.
#[verifier::external_body]
pub(crate) fn keypkg_identifier_bytes_secp256k1(keypkg: &Vec<u8>) -> (r: Result<Vec<u8>, String>)
    ensures
        r is Ok <==> secp256k1_keypkg_ok(keypkg@),
        match r {
            Ok(b) => b@ == secp256k1_identifier_bytes_of(keypkg@),
            Err(_) => true,
        },
{
    let kp = KeyPackage::<Secp256K1Sha256>::deserialize(keypkg).map_err(|e| e.to_string())?;
    Ok(kp.identifier().serialize())
}

/// Relies on frost_ed25519's scalar field: a scalar made from a nonzero
/// `u16` wire value serializes to 32 little-endian bytes whose low two bytes
/// carry the value.
#[verifier::external_body]
pub fn identifier_bytes_ed25519(wire: u16) -> (r: Vec<u8>)
    requires
        wire >= 1,
    ensures
        r@.len() == 32,
        r@[0] == (wire & 0xff) as u8,
        r@[1] == ((wire >> 8) & 0xff) as u8,
{
    Identifier::<Ed25519Sha512>::try_from(wire).unwrap().serialize()
}

/// Relies on frost_secp256k1's scalar field: a scalar made from a nonzero
/// `u16` wire value serializes to 32 big-endian bytes whose last two bytes
/// carry the value.
#[verifier::external_body]
pub fn identifier_bytes_secp256k1(wire: u16) -> (r: Vec<u8>)
    requires
        wire >= 1,
    ensures
        r@.len() == 32,
        r@[31] == (wire & 0xff) as u8,
        r@[30] == ((wire >> 8) & 0xff) as u8,
{
    Identifier::<Secp256K1Sha256>::try_from(wire).unwrap().serialize()
}

} // verus!
