//! Signing tests: full keygen-then-sign runs over an in-process message
//! exchange, the deterministic signer selection, and blame assignment.
use frost_blueprint::keygen::persist_entry;
use frost_blueprint::rounds::keygen::on_round1 as keygen_on_round1;
use frost_blueprint::rounds::keygen::on_round2 as keygen_on_round2;
use frost_blueprint::rounds::keygen::start as keygen_start;
use frost_blueprint::rounds::sign::on_round1 as sign_on_round1;
use frost_blueprint::rounds::sign::on_round2 as sign_on_round2;
use frost_blueprint::kv::KVStore;
use frost_blueprint::kv::MemKVStore;
use frost_blueprint::rounds::IoError;
use frost_blueprint::rounds::keygen::KeygenOutput;
use frost_blueprint::rounds::router::MsgKind;
use frost_blueprint::rounds::router::Router;
use frost_blueprint::rounds::sign::Bug;
use frost_blueprint::rounds::sign::Reason;
use frost_blueprint::rounds::sign::SignRound2;
use frost_blueprint::rounds::sign::SigningAborted;
use frost_blueprint::sign::Error;
use frost_blueprint::sign::load_entry;
use frost_blueprint::sign::select_signers;
use frost_blueprint::sign::sign;
use frost_blueprint::suite::Suite;

fn run_dkg(suite: Suite, t: u16, n: u16) -> Vec<KeygenOutput> {
    let mut states = Vec::new();
    let mut routers = Vec::new();
    let mut bcasts = Vec::new();
    for i in 0..n {
        let (st, bcast) = keygen_start(suite, t, n, i).unwrap();
        let mut router = Router::new(i, n);
        router.add_round(MsgKind::Broadcast);
        router.add_round(MsgKind::P2p);
        states.push(st);
        routers.push(router);
        bcasts.push(bcast);
    }
    for p in 0..n as usize {
        for q in 0..n as usize {
            if p != q {
                routers[q]
                    .receive(0, p as u16, MsgKind::Broadcast, bcasts[p].clone())
                    .unwrap();
            }
        }
    }
    let mut states2 = Vec::new();
    let mut sends = Vec::new();
    for (i, st) in states.into_iter().enumerate() {
        let msgs = routers[i].take_round(0).unwrap();
        let (st2, out) = keygen_on_round1(st, &msgs).unwrap();
        states2.push(st2);
        sends.push(out);
    }
    for p in 0..n as usize {
        for (to, payload) in &sends[p] {
            routers[*to as usize]
                .receive(1, p as u16, MsgKind::P2p, payload.clone())
                .unwrap();
        }
    }
    let mut outputs = Vec::new();
    for (i, st) in states2.into_iter().enumerate() {
        let msgs = routers[i].take_round(1).unwrap();
        outputs.push(keygen_on_round2(st, &msgs).unwrap());
    }
    outputs
}

/// Run the signing protocol among the selected signers.  Returns the states
/// and collected messages just before share verification, so tests can also
/// tamper with a share.
fn run_sign_to_round2(
    outputs: &[KeygenOutput],
    msg: &[u8],
    n: u16,
) -> (Vec<u16>, Vec<SignRound2>, Vec<Vec<(u16, Vec<u8>)>>) {
    let vk = outputs[0].verifying_key.clone();
    // Each party persists its own entry and invokes the surface.
    let mut starts = Vec::new();
    let mut signers = Vec::new();
    for out in outputs.iter() {
        let mut store = MemKVStore::new();
        persist_entry(&mut store, out).unwrap();
        match sign(&store, &vk, msg.to_vec(), n) {
            Ok((st, bcast)) => {
                starts.push((st, bcast));
            },
            Err(Error::SelfNotInSigners) => {},
            Err(e) => panic!("unexpected signing failure: {:?}", e),
        }
    }
    // The subset that did participate, in signer-set order.
    let count = starts.len() as u16;
    let mut routers: Vec<Router> = (0..count).map(|i| {
        let mut r = Router::new(i, count);
        r.add_round(MsgKind::Broadcast);
        r.add_round(MsgKind::Broadcast);
        r
    }).collect();
    for p in 0..count as usize {
        for q in 0..count as usize {
            if p != q {
                routers[q]
                    .receive(0, p as u16, MsgKind::Broadcast, starts[p].1.clone())
                    .unwrap();
            }
        }
    }
    let mut states2 = Vec::new();
    let mut share_bcasts = Vec::new();
    for (i, (st, _)) in starts.into_iter().enumerate() {
        let msgs = routers[i].take_round(0).unwrap();
        let (st2, share) = sign_on_round1(st, &msgs).unwrap();
        states2.push(st2);
        share_bcasts.push(share);
        signers.push(i as u16);
    }
    for p in 0..count as usize {
        for q in 0..count as usize {
            if p != q {
                routers[q]
                    .receive(1, p as u16, MsgKind::Broadcast, share_bcasts[p].clone())
                    .unwrap();
            }
        }
    }
    let mut round2_msgs = Vec::new();
    for i in 0..count as usize {
        round2_msgs.push(routers[i].take_round(1).unwrap());
    }
    (signers, states2, round2_msgs)
}

fn run_sign(outputs: &[KeygenOutput], msg: &[u8], n: u16) -> Vec<Vec<u8>> {
    let (_, states2, round2_msgs) = run_sign_to_round2(outputs, msg, n);
    states2
        .into_iter()
        .zip(round2_msgs.into_iter())
        .map(|(st, msgs)| sign_on_round2(st, &msgs).unwrap())
        .collect()
}

#[test]
fn ed25519_two_of_three_signs_and_verifies() {
    let outputs = run_dkg(Suite::Ed25519Sha512, 2, 3);
    let msg = b"Hello, FROST!";
    let sigs = run_sign(&outputs, msg, 3);
    assert_eq!(sigs.len(), 2);
    assert_eq!(sigs[0].len(), 64);
    // Every participant emits the same signature bytes.
    for sig in &sigs {
        assert_eq!(sig, &sigs[0]);
    }
    // The signature verifies under the joint verifying key.
    let vk = frost_core::VerifyingKey::<frost_ed25519::Ed25519Sha512>::deserialize(
        &outputs[0].verifying_key,
    )
    .unwrap();
    let sig =
        frost_core::Signature::<frost_ed25519::Ed25519Sha512>::deserialize(&sigs[0]).unwrap();
    vk.verify(msg, &sig).unwrap();
}

#[test]
fn secp256k1_three_of_five_signs_and_verifies() {
    let outputs = run_dkg(Suite::Secp256K1Sha256, 3, 5);
    let msg = [0u8; 32];
    let sigs = run_sign(&outputs, &msg, 5);
    assert_eq!(sigs.len(), 3);
    for sig in &sigs {
        assert_eq!(sig, &sigs[0]);
    }
    let vk = frost_core::VerifyingKey::<frost_secp256k1::Secp256K1Sha256>::deserialize(
        &outputs[0].verifying_key,
    )
    .unwrap();
    let sig =
        frost_core::Signature::<frost_secp256k1::Secp256K1Sha256>::deserialize(&sigs[0]).unwrap();
    vk.verify(&msg, &sig).unwrap();
}

#[test]
fn persisted_entry_loads_back() {
    let outputs = run_dkg(Suite::Ed25519Sha512, 2, 3);
    let mut store = MemKVStore::new();
    let key = persist_entry(&mut store, &outputs[0]).unwrap();
    assert_eq!(
        key,
        frost_blueprint::codec::hex_encode(&outputs[0].verifying_key)
    );
    let entry = load_entry(&store, &outputs[0].verifying_key).unwrap();
    assert_eq!(entry.ciphersuite, Suite::Ed25519Sha512);
    assert_eq!(entry.keypkg, outputs[0].keypkg);
    assert_eq!(entry.pubkeypkg, outputs[0].pubkeypkg);
}

#[test]
fn persisting_twice_is_a_fatal_collision() {
    let outputs = run_dkg(Suite::Ed25519Sha512, 2, 3);
    let mut store = MemKVStore::new();
    persist_entry(&mut store, &outputs[0]).unwrap();
    match persist_entry(&mut store, &outputs[0]) {
        Err(frost_blueprint::keygen::Error::DuplicateKey) => {},
        Err(e) => panic!("expected a duplicate-key failure, got {:?}", e),
        Ok(_) => panic!("an entry must never be rewritten"),
    }
    // The first entry is untouched.
    let entry = load_entry(&store, &outputs[0].verifying_key).unwrap();
    assert_eq!(entry.keypkg, outputs[0].keypkg);
}

#[test]
fn sign_unknown_key_returns_key_not_found() {
    let store = MemKVStore::new();
    let pubkey = vec![0u8; 32];
    match sign(&store, &pubkey, b"x".to_vec(), 5) {
        Err(Error::KeyNotFound) => {},
        Err(e) => panic!("expected KeyNotFound, got {:?}", e),
        Ok(_) => panic!("signing must not start without key material"),
    }
}

#[test]
fn stored_entry_with_unsupported_ciphersuite_is_named() {
    let mut store = MemKVStore::new();
    let pubkey = vec![0x11u8; 32];
    let key = frost_blueprint::codec::hex_encode(&pubkey);
    let value =
        b"{\"ciphersuite\":\"FROST-P256-SHA256-v1\",\"entry\":{\"keypkg\":\"ab\",\"pubkeypkg\":\"cd\"}}"
            .to_vec();
    store.set(key, value).unwrap();
    match sign(&store, &pubkey, b"x".to_vec(), 5) {
        Err(Error::UnknownCiphersuite(id)) => {
            assert_eq!(id, b"FROST-P256-SHA256-v1".to_vec());
        },
        Err(e) => panic!("expected the unsupported suite by name, got {:?}", e),
        Ok(_) => panic!("an unsupported suite must not start a run"),
    }
}

#[test]
fn stored_garbage_is_an_invalid_entry() {
    let mut store = MemKVStore::new();
    let pubkey = vec![0x22u8; 32];
    let key = frost_blueprint::codec::hex_encode(&pubkey);
    store.set(key, b"not an entry at all".to_vec()).unwrap();
    match sign(&store, &pubkey, b"x".to_vec(), 5) {
        Err(Error::InvalidEntry) => {},
        Err(e) => panic!("expected InvalidEntry, got {:?}", e),
        Ok(_) => panic!("garbage must not start a run"),
    }
}

#[test]
fn malformed_share_is_a_receive_error() {
    let outputs = run_dkg(Suite::Ed25519Sha512, 2, 3);
    let (_, states2, round2_msgs) = run_sign_to_round2(&outputs, b"m", 3);
    let mut msgs = round2_msgs[0].clone();
    msgs[0].1 = vec![0xff; 3];
    let st = states2.into_iter().next().unwrap();
    match sign_on_round2(st, &msgs) {
        Err(e) => assert!(matches!(e.reason(), Reason::IoError(IoError::ReceiveMessage(_)))),
        Ok(_) => panic!("a share that does not parse must surface as a receive error"),
    }
}

#[test]
fn node_outside_subset_returns_self_not_in_signers() {
    // In a 2-of-5 configuration only two parties are selected; the others
    // must learn it without any network activity.
    let outputs = run_dkg(Suite::Ed25519Sha512, 2, 5);
    let vk = outputs[0].verifying_key.clone();
    let selected = select_signers(&vk, 5, 2);
    assert_eq!(selected.len(), 2);
    let mut outside = 0;
    for (p, out) in outputs.iter().enumerate() {
        let mut store = MemKVStore::new();
        persist_entry(&mut store, out).unwrap();
        let r = sign(&store, &vk, b"m".to_vec(), 5);
        if selected.contains(&(p as u16)) {
            assert!(r.is_ok());
        } else {
            outside += 1;
            match r {
                Err(Error::SelfNotInSigners) => {},
                Err(e) => panic!("expected SelfNotInSigners, got {:?}", e),
                Ok(_) => panic!("a party outside the subset must not start signing"),
            }
        }
    }
    assert_eq!(outside, 3);
}

#[test]
fn signer_selection_is_deterministic_and_sorted() {
    let vk = vec![7u8; 33];
    let a = select_signers(&vk, 10, 4);
    let b = select_signers(&vk, 10, 4);
    assert_eq!(a, b);
    assert_eq!(a.len(), 4);
    for w in a.windows(2) {
        assert!(w[0] < w[1]);
    }
    for x in &a {
        assert!(*x < 10);
    }
}

#[test]
fn undersized_signer_set_is_rejected() {
    let outputs = run_dkg(Suite::Ed25519Sha512, 2, 3);
    // Hand the engine a signer set smaller than the threshold.
    let r = frost_blueprint::rounds::sign::start(
        Suite::Ed25519Sha512,
        outputs[0].keypkg.clone(),
        outputs[0].pubkeypkg.clone(),
        2,
        0,
        vec![0u16],
        b"m".to_vec(),
    );
    match r {
        Err(e) => assert!(matches!(
            e.reason(),
            Reason::Bug(Bug::InvalidProtocolParameters)
        )),
        Ok(_) => panic!("an undersized signer set must be rejected"),
    }
}

#[test]
fn party_outside_signer_set_is_rejected_by_engine() {
    let outputs = run_dkg(Suite::Ed25519Sha512, 2, 3);
    let r = frost_blueprint::rounds::sign::start(
        Suite::Ed25519Sha512,
        outputs[2].keypkg.clone(),
        outputs[2].pubkeypkg.clone(),
        2,
        2,
        vec![0u16, 1u16],
        b"m".to_vec(),
    );
    match r {
        Err(e) => assert!(matches!(e.reason(), Reason::Bug(Bug::InvalidPartyIndex))),
        Ok(_) => panic!("a party outside the signer set must be rejected"),
    }
}

#[test]
fn corrupted_share_is_blamed() {
    // secp256k1 serializes scalars in big-endian order, so flipping the last
    // byte of a share leaves it well formed but invalid.
    let outputs = run_dkg(Suite::Secp256K1Sha256, 2, 3);
    let selected = select_signers(&outputs[0].verifying_key, 3, 2);
    let (signers, states2, round2_msgs) = run_sign_to_round2(&outputs, b"blame me", 3);
    assert_eq!(signers.len(), 2);
    // The first signer receives a tampered share from the second.
    let mut msgs = round2_msgs[0].clone();
    let last = msgs[0].1.len() - 1;
    msgs[0].1[last] ^= 0x01;
    let st = states2.into_iter().next().unwrap();
    match sign_on_round2(st, &msgs) {
        Err(e) => match e.reason() {
            Reason::Aborted(SigningAborted::InvalidSignatureShare { blames }) => {
                // Exactly the tampering signer is blamed, by party index.
                assert_eq!(blames, &vec![selected[1]]);
            },
            other => panic!("expected blame, got {:?}", other),
        },
        Ok(_) => panic!("a corrupted share must not aggregate"),
    }
}
