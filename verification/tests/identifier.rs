//! Identifier map tests: the party index and the ciphersuite scalar convert
//! back and forth without loss.
use frost_blueprint::rounds::IdentifierWrapper;
use frost_blueprint::rounds::identifier_round_trip_ed25519;
use frost_blueprint::rounds::identifier_round_trip_secp256k1;
use frost_blueprint::rounds::index_from_id_bytes;
use frost_blueprint::suite::Suite;

#[test]
fn test_new() {
    let non_zero = 1;
    let wrapper = IdentifierWrapper::new(non_zero);
    assert_eq!(wrapper.as_u16(), 1);
}

#[test]
fn test_new_zero() {
    let z = 0;
    let wrapper = IdentifierWrapper::new(z);
    assert_eq!(wrapper.as_u16(), 0);
}

#[test]
fn test_try_from() {
    let wrapper = IdentifierWrapper::try_new(1).unwrap();
    assert_eq!(wrapper.as_u16(), 1);
}

#[test]
fn test_from_frost_identifier() {
    let id = frost_core::Identifier::<frost_ed25519::Ed25519Sha512>::try_from(1u16).unwrap();
    let wrapper = index_from_id_bytes(Suite::Ed25519Sha512, &id.serialize()).unwrap();
    assert_eq!(wrapper.as_u16(), 0);

    let id = frost_core::Identifier::<frost_ed25519::Ed25519Sha512>::try_from(2u16).unwrap();
    let wrapper = index_from_id_bytes(Suite::Ed25519Sha512, &id.serialize()).unwrap();
    assert_eq!(wrapper.as_u16(), 1);
}

#[test]
fn test_from_frost_identifier_secp256k1() {
    let id = frost_core::Identifier::<frost_secp256k1::Secp256K1Sha256>::try_from(1u16).unwrap();
    let wrapper = index_from_id_bytes(Suite::Secp256K1Sha256, &id.serialize()).unwrap();
    assert_eq!(wrapper.as_u16(), 0);

    let id = frost_core::Identifier::<frost_secp256k1::Secp256K1Sha256>::try_from(300u16).unwrap();
    let wrapper = index_from_id_bytes(Suite::Secp256K1Sha256, &id.serialize()).unwrap();
    assert_eq!(wrapper.as_u16(), 299);
}

#[test]
fn test_round_trip_all_small_indices() {
    for i in 0..300u16 {
        assert_eq!(identifier_round_trip_ed25519(i), i);
        assert_eq!(identifier_round_trip_secp256k1(i), i);
    }
    assert_eq!(identifier_round_trip_ed25519(0xFFFE), 0xFFFE);
    assert_eq!(identifier_round_trip_secp256k1(0xFFFE), 0xFFFE);
}

#[test]
fn test_too_short_identifier_bytes_rejected() {
    let short = vec![1u8];
    assert!(index_from_id_bytes(Suite::Ed25519Sha512, &short).is_none());
    assert!(index_from_id_bytes(Suite::Secp256K1Sha256, &vec![0u8; 31]).is_none());
}
