//! Custom ciphersuites: what `Ciphersuite::custom` accepts.

use openmls_traits::{
    AeadType, Ciphersuite, CiphersuiteParams, CustomCiphersuiteError, HashType, HpkeKdfType,
    HpkeKemType, SignatureScheme, StoredVariant,
};

const PARAMS: CiphersuiteParams = CiphersuiteParams {
    kem: HpkeKemType::DhKemP256,
    kdf: HpkeKdfType::HkdfSha256,
    aead: AeadType::ChaCha20Poly1305,
    hash: HashType::Sha2_256,
    signature: SignatureScheme::ECDSA_SECP256R1_SHA256,
};

fn custom() -> Ciphersuite {
    Ciphersuite::custom(0xF0F0, PARAMS)
}

#[test]
fn custom_carries_its_parameters() {
    let custom = custom();
    assert_eq!(custom.id(), 0xF0F0);
    assert!(!custom.is_builtin());
    assert_eq!(custom.params(), PARAMS);
    assert_eq!(custom.hpke_kem_algorithm(), HpkeKemType::DhKemP256);
    assert_eq!(custom.aead_algorithm(), AeadType::ChaCha20Poly1305);
    assert_eq!(
        custom.signature_algorithm(),
        SignatureScheme::ECDSA_SECP256R1_SHA256
    );
    assert!(Ciphersuite::MLS_128_DHKEMP256_AES128GCM_SHA256_P256().is_builtin());
}

#[test]
fn rejected_code_points() {
    let err = |id| Ciphersuite::try_custom(id, PARAMS).err().unwrap();
    assert_eq!(err(0x0002), CustomCiphersuiteError::OutsidePrivateUse);
    assert_eq!(err(0xEFFF), CustomCiphersuiteError::OutsidePrivateUse);
    // GREASE values all lie below the private use range; 0xFAFA is not one
    // of them (RFC 9420, Section 13.5) and is a valid private use code point.
    assert_eq!(err(0x0A0A), CustomCiphersuiteError::OutsidePrivateUse);
    assert!(Ciphersuite::try_custom(0xFAFA, PARAMS).is_ok());
    assert!(Ciphersuite::try_custom(0xF000, PARAMS).is_ok());
    assert!(Ciphersuite::try_custom(0xFFFF, PARAMS).is_ok());
}

#[test]
fn equality_is_on_the_code_point() {
    let other = Ciphersuite::try_custom(
        0xF0F0,
        CiphersuiteParams {
            hash: HashType::Sha2_512,
            ..PARAMS
        },
    )
    .ok()
    .unwrap();
    assert!(custom() == other);
    assert!(custom() != Ciphersuite::try_custom(0xF0F1, PARAMS).ok().unwrap());
}

#[test]
fn custom_ciphersuites_outside_the_table() {
    let custom = custom();
    assert_eq!(custom.index(), None);
    assert_eq!(custom.name(), None);
    assert_eq!(custom.stored_variant(), StoredVariant::Custom);
    assert_eq!(custom.hash_length(), 32);
    assert_eq!(custom.mac_length(), 16);
    // The custom code point is not a built-in one, and its wire form does not
    // resolve to a built-in ciphersuite.
    assert!(Ciphersuite::try_from(0xF0F0u16).is_err());
    let wire = openmls_traits::VerifiableCiphersuite::from(custom);
    assert_eq!(wire.value(), 0xF0F0);
    assert!(!wire.is_grease());
    assert!(Ciphersuite::try_from(wire).is_err());
    // Its TLS encoding is its code point.
    assert_eq!(custom.tls_serialize_detached().unwrap(), vec![0xF0, 0xF0]);
    // Every private use code point is accepted.
    let accepted = (0..=u16::MAX)
        .filter(|v| Ciphersuite::try_custom(*v, PARAMS).is_ok())
        .count();
    assert_eq!(accepted, 0x1000);
    // A custom suite with built-in parameters is still not the built-in one.
    let lookalike = Ciphersuite::custom(
        0xF001,
        Ciphersuite::MLS_128_DHKEMP256_AES128GCM_SHA256_P256().params(),
    );
    assert!(lookalike != Ciphersuite::MLS_128_DHKEMP256_AES128GCM_SHA256_P256());
    assert!(custom.partial_cmp(&lookalike) == Some(core::cmp::Ordering::Greater));
}
