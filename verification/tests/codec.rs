//! Codec tests: hex against a reference implementation, and the persisted
//! entry frame round trip.
use frost_blueprint::codec::decode_entry;
use frost_blueprint::codec::encode_entry;
use frost_blueprint::codec::hex_decode;
use frost_blueprint::codec::hex_encode;
use frost_blueprint::suite::Suite;

#[test]
fn hex_matches_reference() {
    let cases: Vec<Vec<u8>> = vec![
        vec![],
        vec![0x00],
        vec![0xff],
        vec![0xde, 0xad, 0xbe, 0xef],
        (0u16..256).map(|b| b as u8).collect(),
    ];
    for bytes in cases {
        assert_eq!(hex_encode(&bytes), hex::encode(&bytes).into_bytes());
    }
}

#[test]
fn hex_round_trip() {
    let bytes: Vec<u8> = (0u16..256).map(|b| b as u8).collect();
    let encoded = hex_encode(&bytes);
    assert_eq!(hex_decode(&encoded), Some(bytes));
}

#[test]
fn hex_decode_rejects_bad_input() {
    assert_eq!(hex_decode(&b"abc".to_vec()), None);
    assert_eq!(hex_decode(&b"zz".to_vec()), None);
    assert_eq!(hex_decode(&b"AB".to_vec()), None);
    assert_eq!(hex_decode(&Vec::new()), Some(Vec::new()));
}

#[test]
fn entry_frame_round_trip() {
    let keypkg = vec![1u8, 2, 3, 255];
    let pubkeypkg = vec![9u8, 8, 7];
    let frame = encode_entry(Suite::Ed25519Sha512, &keypkg, &pubkeypkg);
    let (suite, k, p) = decode_entry(&frame).unwrap();
    assert_eq!(suite, Suite::Ed25519Sha512);
    assert_eq!(k, keypkg);
    assert_eq!(p, pubkeypkg);

    let frame = encode_entry(Suite::Secp256K1Sha256, &pubkeypkg, &keypkg);
    let (suite, k, p) = decode_entry(&frame).unwrap();
    assert_eq!(suite, Suite::Secp256K1Sha256);
    assert_eq!(k, pubkeypkg);
    assert_eq!(p, keypkg);
}

#[test]
fn entry_frame_is_readable_json() {
    let frame = encode_entry(Suite::Ed25519Sha512, &vec![0xab], &vec![0xcd]);
    let text = String::from_utf8(frame).unwrap();
    assert_eq!(
        text,
        "{\"ciphersuite\":\"FROST-ED25519-SHA512-v1\",\"entry\":{\"keypkg\":\"ab\",\"pubkeypkg\":\"cd\"}}"
    );
}

#[test]
fn decode_rejects_garbage() {
    assert!(decode_entry(&Vec::new()).is_none());
    assert!(decode_entry(&b"{}".to_vec()).is_none());
    assert!(decode_entry(&b"{\"ciphersuite\":\"FROST-P256-SHA256-v1\",\"entry\":{\"keypkg\":\"ab\",\"pubkeypkg\":\"cd\"}}".to_vec()).is_none());
    // A frame with an odd-length hex region is rejected.
    assert!(decode_entry(&b"{\"ciphersuite\":\"FROST-ED25519-SHA512-v1\",\"entry\":{\"keypkg\":\"abc\",\"pubkeypkg\":\"cd\"}}".to_vec()).is_none());
    // A truncated frame is rejected.
    let mut frame = encode_entry(Suite::Ed25519Sha512, &vec![0xab], &vec![0xcd]);
    frame.pop();
    assert!(decode_entry(&frame).is_none());
}

#[test]
fn suite_ids() {
    assert_eq!(Suite::Ed25519Sha512.id(), "FROST-ED25519-SHA512-v1");
    assert_eq!(Suite::Secp256K1Sha256.id(), "FROST-secp256k1-SHA256-v1");
    assert_eq!(
        Suite::from_id(&"FROST-ED25519-SHA512-v1".to_string()),
        Some(Suite::Ed25519Sha512)
    );
    assert_eq!(
        Suite::from_id(&"FROST-secp256k1-SHA256-v1".to_string()),
        Some(Suite::Secp256K1Sha256)
    );
    assert_eq!(Suite::from_id(&"FROST-P256-SHA256-v1".to_string()), None);
}
