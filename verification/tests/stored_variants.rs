//! Which variant serde stores each parameter value under, and which variant
//! an index or a name stands for; and the TLS decoding of a signature
//! scheme, which refuses code points that name no known scheme.

use openmls_traits::{
    AeadType, HashType, HpkeAeadType, HpkeKdfType, HpkeKemType, SignatureScheme, StoredVariant,
    VariantNameError, AEAD_VARIANT_NAMES, HASH_VARIANT_NAMES, HPKE_AEAD_VARIANT_NAMES,
    HPKE_KDF_VARIANT_NAMES, HPKE_KEM_VARIANT_NAMES, SIGNATURE_SCHEME_VARIANT_NAMES,
};

#[test]
fn named_aeads_are_stored_at_their_positions() {
    let named = [AeadType::Aes128Gcm, AeadType::Aes256Gcm, AeadType::ChaCha20Poly1305];
    for (i, aead) in named.iter().enumerate() {
        assert_eq!(aead.stored_variant(), StoredVariant::Builtin(i));
        assert_eq!(AeadType::stored_named(i), Some(*aead));
        assert_eq!(AeadType::stored_variant_from_u64(i as u64), Some(StoredVariant::Builtin(i)));
        assert_eq!(
            AeadType::stored_variant_from_str(AEAD_VARIANT_NAMES[i]),
            Some(StoredVariant::Builtin(i))
        );
        assert_eq!(
            AeadType::stored_variant_from_bytes(AEAD_VARIANT_NAMES[i].as_bytes()),
            Ok(StoredVariant::Builtin(i))
        );
    }
    assert_eq!(AeadType::stored_named(3), None);
    assert_eq!(AeadType::stored_named(usize::MAX), None);
}

#[test]
fn a_custom_aead_with_named_parts_is_stored_as_the_named_one() {
    let spelled_out = AeadType::Custom { id: 0x0002, key_size: 32, tag_size: 16 };
    assert_eq!(spelled_out.stored_variant(), StoredVariant::Builtin(1));
    let other = AeadType::new(0x0004, 32, 16);
    assert_eq!(other.stored_variant(), StoredVariant::Custom);
    // The same code point with other sizes is not the named AEAD.
    let resized = AeadType::new(0x0001, 32, 16);
    assert_eq!(resized.stored_variant(), StoredVariant::Custom);
    assert_eq!(AeadType::new(resized.id(), resized.key_size(), resized.tag_size()), resized);
}

#[test]
fn stored_indices_past_the_names_are_refused() {
    assert_eq!(AeadType::stored_variant_from_u64(3), None);
    assert_eq!(AeadType::stored_variant_from_u64(0xFFFE), None);
    assert_eq!(AeadType::stored_variant_from_u64(0xFFFF), Some(StoredVariant::Custom));
    assert_eq!(AeadType::stored_variant_from_u64(0x1_0000_FFFF), None);
    assert_eq!(AeadType::stored_variant_from_u64(u64::MAX), None);
    assert_eq!(HashType::stored_variant_from_u64(u64::MAX), None);
    assert_eq!(SignatureScheme::stored_variant_from_u64(5), None);
    assert_eq!(SignatureScheme::stored_variant_from_u64(4), Some(StoredVariant::Builtin(4)));
    assert_eq!(HpkeKemType::stored_variant_from_u64(5), None);
    assert_eq!(HpkeKdfType::stored_variant_from_u64(3), None);
    assert_eq!(HpkeAeadType::stored_variant_from_u64(3), Some(StoredVariant::Builtin(3)));
    assert_eq!(HpkeAeadType::stored_variant_from_u64(4), None);
    assert_eq!(HpkeAeadType::stored_variant_from_u64(0xFFFF), Some(StoredVariant::Custom));
}

#[test]
fn stored_names_are_looked_up_exactly() {
    assert_eq!(AeadType::stored_variant_from_str("Custom"), Some(StoredVariant::Custom));
    assert_eq!(AeadType::stored_variant_from_str("Aes192Gcm"), None);
    assert_eq!(AeadType::stored_variant_from_str("aes128gcm"), None);
    assert_eq!(AeadType::stored_variant_from_str(""), None);
    assert_eq!(HashType::stored_variant_from_str("Sha2_512"), Some(StoredVariant::Builtin(2)));
    assert_eq!(HashType::stored_variant_from_str("Sha2_224"), None);
    assert_eq!(SignatureScheme::stored_variant_from_str("ED448"), Some(StoredVariant::Builtin(4)));
    assert_eq!(HpkeKemType::stored_variant_from_str("DhKem25519"), Some(StoredVariant::Builtin(3)));
    assert_eq!(HpkeKdfType::stored_variant_from_str("HkdfSha384"), Some(StoredVariant::Builtin(1)));
    assert_eq!(HpkeAeadType::stored_variant_from_str("Export"), Some(StoredVariant::Builtin(3)));
    assert_eq!(
        HpkeAeadType::stored_variant_from_bytes(b"Custom"),
        Ok(StoredVariant::Custom)
    );
    assert_eq!(
        HpkeKdfType::stored_variant_from_bytes(b"HkdfSha1"),
        Err(VariantNameError::UnknownName)
    );
    assert_eq!(
        HpkeKemType::stored_variant_from_bytes(&[0xff, 0xfe]),
        Err(VariantNameError::InvalidUtf8)
    );
}

#[test]
fn every_named_value_round_trips_through_its_stored_variant() {
    fn check<T: Copy + PartialEq + core::fmt::Debug>(
        values: &[T],
        names: &[&str],
        stored: fn(&T) -> StoredVariant,
        named: fn(usize) -> Option<T>,
        from_str: fn(&str) -> Option<StoredVariant>,
    ) {
        assert_eq!(names.len(), values.len() + 1);
        assert_eq!(names[values.len()], "Custom");
        for (i, v) in values.iter().enumerate() {
            assert_eq!(stored(v), StoredVariant::Builtin(i));
            assert_eq!(named(i), Some(*v));
            assert_eq!(from_str(names[i]), Some(StoredVariant::Builtin(i)));
        }
        assert_eq!(named(values.len()), None);
    }
    check(
        &[HashType::Sha2_256, HashType::Sha2_384, HashType::Sha2_512],
        &HASH_VARIANT_NAMES,
        HashType::stored_variant,
        HashType::stored_named,
        HashType::stored_variant_from_str,
    );
    check(
        &[
            SignatureScheme::ECDSA_SECP256R1_SHA256,
            SignatureScheme::ECDSA_SECP384R1_SHA384,
            SignatureScheme::ECDSA_SECP521R1_SHA512,
            SignatureScheme::ED25519,
            SignatureScheme::ED448,
        ],
        &SIGNATURE_SCHEME_VARIANT_NAMES,
        SignatureScheme::stored_variant,
        SignatureScheme::stored_named,
        SignatureScheme::stored_variant_from_str,
    );
    check(
        &[
            HpkeKemType::DhKemP256,
            HpkeKemType::DhKemP384,
            HpkeKemType::DhKemP521,
            HpkeKemType::DhKem25519,
            HpkeKemType::DhKem448,
        ],
        &HPKE_KEM_VARIANT_NAMES,
        HpkeKemType::stored_variant,
        HpkeKemType::stored_named,
        HpkeKemType::stored_variant_from_str,
    );
    check(
        &[HpkeKdfType::HkdfSha256, HpkeKdfType::HkdfSha384, HpkeKdfType::HkdfSha512],
        &HPKE_KDF_VARIANT_NAMES,
        HpkeKdfType::stored_variant,
        HpkeKdfType::stored_named,
        HpkeKdfType::stored_variant_from_str,
    );
    check(
        &[
            HpkeAeadType::AesGcm128,
            HpkeAeadType::AesGcm256,
            HpkeAeadType::ChaCha20Poly1305,
            HpkeAeadType::Export,
        ],
        &HPKE_AEAD_VARIANT_NAMES,
        HpkeAeadType::stored_variant,
        HpkeAeadType::stored_named,
        HpkeAeadType::stored_variant_from_str,
    );
}

#[test]
fn custom_code_points_are_stored_as_custom_and_rebuilt() {
    let brainpool = SignatureScheme::new(0x081A);
    assert_eq!(brainpool.stored_variant(), StoredVariant::Custom);
    assert_eq!(SignatureScheme::new(brainpool.id()), brainpool);
    assert_eq!(SignatureScheme::Custom(0x0807).stored_variant(), StoredVariant::Builtin(3));
    assert_eq!(HpkeKemType::new(0x0050).stored_variant(), StoredVariant::Custom);
    assert_eq!(HpkeKdfType::new(0x0004).stored_variant(), StoredVariant::Custom);
    assert_eq!(HpkeAeadType::Custom(0xFFFF).stored_variant(), StoredVariant::Builtin(3));
    let blake3 = HashType::new(0x0100, 32);
    assert_eq!(blake3.stored_variant(), StoredVariant::Custom);
    assert_eq!(HashType::new(blake3.id(), blake3.size()), blake3);
}

#[test]
fn tls_decoding_refuses_an_unknown_scheme() {
    assert!(matches!(
        SignatureScheme::tls_deserialize_bytes(&[0x08, 0x1A]),
        Err(tls_codec::Error::UnknownValue(0x081A))
    ));
    assert!(matches!(
        SignatureScheme::tls_deserialize_bytes(&[0x08, 0x1A, 0x08, 0x07]),
        Err(tls_codec::Error::UnknownValue(0x081A))
    ));
    assert!(matches!(
        SignatureScheme::tls_deserialize_bytes(&[]),
        Err(tls_codec::Error::EndOfStream)
    ));
    let (scheme, rest) = SignatureScheme::tls_deserialize_bytes(&[0x08, 0x07, 0x01]).unwrap();
    assert_eq!(scheme, SignatureScheme::ED25519);
    assert_eq!(rest, &[0x01]);
    assert_eq!(SignatureScheme::from_tls_code(0x0503), Ok(SignatureScheme::ECDSA_SECP384R1_SHA384));
    assert_eq!(SignatureScheme::from_tls_code(0x0000), Err(tls_codec::Error::UnknownValue(0)));
}

#[test]
fn stored_names_are_the_written_names() {
    assert_eq!(AeadType::Aes256Gcm.stored_name(), "Aes256Gcm");
    assert_eq!(AeadType::new(0x0004, 32, 16).stored_name(), "Custom");
    assert_eq!(HashType::Sha2_384.stored_name(), "Sha2_384");
    assert_eq!(SignatureScheme::ECDSA_SECP521R1_SHA512.stored_name(), "ECDSA_SECP521R1_SHA512");
    assert_eq!(HpkeKemType::DhKem448.stored_name(), "DhKem448");
    assert_eq!(HpkeKdfType::new(0x0009).stored_name(), "Custom");
    assert_eq!(HpkeAeadType::ChaCha20Poly1305.stored_name(), "ChaCha20Poly1305");
}
