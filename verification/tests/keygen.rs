//! Distributed key generation tests: full runs over an in-process message
//! exchange, and the parameter boundaries.
use frost_blueprint::keygen::Error;
use frost_blueprint::keygen::keygen;
use frost_blueprint::rounds::keygen::Bug;
use frost_blueprint::rounds::keygen::KeygenOutput;
use frost_blueprint::rounds::keygen::Reason;
use frost_blueprint::rounds::keygen::on_round1;
use frost_blueprint::rounds::keygen::on_round2;
use frost_blueprint::rounds::keygen::start;
use frost_blueprint::rounds::router::MsgKind;
use frost_blueprint::rounds::router::Router;
use frost_blueprint::suite::Suite;

fn run_dkg(suite: Suite, t: u16, n: u16) -> Vec<KeygenOutput> {
    let mut states = Vec::new();
    let mut routers = Vec::new();
    let mut bcasts = Vec::new();
    for i in 0..n {
        let (st, bcast) = start(suite, t, n, i).unwrap();
        let mut router = Router::new(i, n);
        assert_eq!(router.add_round(MsgKind::Broadcast), 0);
        assert_eq!(router.add_round(MsgKind::P2p), 1);
        states.push(st);
        routers.push(router);
        bcasts.push(bcast);
    }
    // Round 1: everyone broadcasts.
    for p in 0..n as usize {
        for q in 0..n as usize {
            if p != q {
                routers[q]
                    .receive(0, p as u16, MsgKind::Broadcast, bcasts[p].clone())
                    .unwrap();
            }
        }
    }
    let mut states2 = Vec::new();
    let mut sends = Vec::new();
    for (i, st) in states.into_iter().enumerate() {
        assert!(routers[i].is_complete(0));
        let msgs = routers[i].take_round(0).unwrap();
        let (st2, out) = on_round1(st, &msgs).unwrap();
        states2.push(st2);
        sends.push(out);
    }
    // Round 2: point-to-point packages.
    for p in 0..n as usize {
        for (to, payload) in &sends[p] {
            routers[*to as usize]
                .receive(1, p as u16, MsgKind::P2p, payload.clone())
                .unwrap();
        }
    }
    let mut outputs = Vec::new();
    for (i, st) in states2.into_iter().enumerate() {
        assert!(routers[i].is_complete(1));
        let msgs = routers[i].take_round(1).unwrap();
        outputs.push(on_round2(st, &msgs).unwrap());
    }
    outputs
}

#[test]
fn dkg_ed25519_two_of_three_agrees() {
    let outputs = run_dkg(Suite::Ed25519Sha512, 2, 3);
    assert_eq!(outputs.len(), 3);
    let vk = &outputs[0].verifying_key;
    assert_eq!(vk.len(), 32);
    for out in &outputs {
        assert_eq!(&out.verifying_key, vk);
        assert_eq!(out.pubkeypkg, outputs[0].pubkeypkg);
        assert_eq!(out.suite, Suite::Ed25519Sha512);
    }
}

#[test]
fn dkg_secp256k1_three_of_five_agrees() {
    let outputs = run_dkg(Suite::Secp256K1Sha256, 3, 5);
    assert_eq!(outputs.len(), 5);
    let vk = &outputs[0].verifying_key;
    assert_eq!(vk.len(), 33);
    for out in &outputs {
        assert_eq!(&out.verifying_key, vk);
        assert_eq!(out.pubkeypkg, outputs[0].pubkeypkg);
    }
}

#[test]
fn dkg_with_threshold_equal_to_parties_succeeds() {
    let outputs = run_dkg(Suite::Ed25519Sha512, 3, 3);
    for out in &outputs {
        assert_eq!(out.verifying_key, outputs[0].verifying_key);
    }
}

#[test]
fn dkg_rejects_zero_threshold() {
    let r = start(Suite::Ed25519Sha512, 0, 3, 0);
    match r {
        Err(e) => assert!(matches!(
            e.reason(),
            Reason::Bug(Bug::InvalidProtocolParameters)
        )),
        Ok(_) => panic!("a zero threshold must be rejected"),
    }
}

#[test]
fn dkg_rejects_threshold_above_parties() {
    let r = start(Suite::Secp256K1Sha256, 4, 3, 0);
    match r {
        Err(e) => assert!(matches!(
            e.reason(),
            Reason::Bug(Bug::InvalidProtocolParameters)
        )),
        Ok(_) => panic!("a threshold above the party count must be rejected"),
    }
}

#[test]
fn dkg_rejects_out_of_range_party() {
    let r = start(Suite::Ed25519Sha512, 2, 3, 3);
    match r {
        Err(e) => assert!(matches!(e.reason(), Reason::Bug(Bug::InvalidPartyIndex))),
        Ok(_) => panic!("an out-of-range party index must be rejected"),
    }
}

#[test]
fn keygen_surface_rejects_unknown_ciphersuite() {
    let r = keygen(&"FROST-P256-SHA256-v1".to_string(), 2, 3, 0);
    match r {
        Err(Error::UnknownCiphersuite(id)) => assert_eq!(id, "FROST-P256-SHA256-v1"),
        _ => panic!("an unknown ciphersuite must be rejected with its name"),
    }
}

#[test]
fn keygen_surface_accepts_known_ciphersuite() {
    let r = keygen(&"FROST-ED25519-SHA512-v1".to_string(), 2, 3, 1);
    assert!(r.is_ok());
}

#[test]
fn malformed_round1_package_is_a_receive_error() {
    let n = 3u16;
    let (st, _bcast) = start(Suite::Ed25519Sha512, 2, n, 0).unwrap();
    // Two senders, both handing over garbage instead of packages.
    let msgs = vec![(1u16, vec![0xffu8; 5]), (2u16, vec![0u8; 0])];
    match on_round1(st, &msgs) {
        Err(e) => assert!(matches!(
            e.reason(),
            Reason::IoError(frost_blueprint::rounds::IoError::ReceiveMessage(_))
        )),
        Ok(_) => panic!("garbage must surface as a receive error"),
    }
}
