//! The code points, positions and names of the built-in ciphersuites.

use openmls_traits::{Ciphersuite, StoredVariant, VariantNameError};

/// Code point, former declaration index, former variant name.
const EXPECTED: &[(u16, u32, &str)] = &[
    (0x0001, 0, "MLS_128_DHKEMX25519_AES128GCM_SHA256_Ed25519"),
    (0x0002, 1, "MLS_128_DHKEMP256_AES128GCM_SHA256_P256"),
    (
        0x0003,
        2,
        "MLS_128_DHKEMX25519_CHACHA20POLY1305_SHA256_Ed25519",
    ),
    (0x0004, 3, "MLS_256_DHKEMX448_AES256GCM_SHA512_Ed448"),
    (0x0005, 4, "MLS_256_DHKEMP521_AES256GCM_SHA512_P521"),
    (0x0006, 5, "MLS_256_DHKEMX448_CHACHA20POLY1305_SHA512_Ed448"),
    (0x0007, 6, "MLS_256_DHKEMP384_AES256GCM_SHA384_P384"),
];

#[test]
fn every_builtin_is_listed() {
    let builtin: Vec<u16> = (0..=u16::MAX)
        .filter(|v| Ciphersuite::try_from(*v).is_ok())
        .collect();
    let mut listed: Vec<u16> = EXPECTED.iter().map(|(cp, _, _)| *cp).collect();
    listed.sort();
    assert_eq!(builtin, listed);
}

#[test]
fn debug_prints_the_name() {
    for (cp, _, name) in EXPECTED {
        assert_eq!(Ciphersuite::try_from(*cp).unwrap().name(), Some(*name));
    }
}

#[test]
fn index_and_name_follow_the_table() {
    for (cp, index, name) in EXPECTED {
        let cs = Ciphersuite::try_from(*cp).unwrap();
        let i = *index as usize;
        assert_eq!(cs.index(), Some(i));
        assert_eq!(cs.id(), *cp);
        assert!(cs.is_builtin());
        assert_eq!(cs.stored_variant(), StoredVariant::Builtin(i));
        assert!(Ciphersuite::builtin_at(i) == cs);
        assert_eq!(Ciphersuite::name_at(i), *name);
        assert_eq!(Ciphersuite::variant_index_from_str(name), Some(i));
        assert_eq!(
            Ciphersuite::stored_variant_from_str(name),
            Some(StoredVariant::Builtin(i))
        );
        assert_eq!(
            Ciphersuite::stored_variant_from_bytes(name.as_bytes()),
            Ok(StoredVariant::Builtin(i))
        );
        assert_eq!(
            Ciphersuite::stored_variant_from_u64(*index as u64),
            Some(StoredVariant::Builtin(i))
        );
    }
}

#[test]
fn stored_variant_lookups() {
    assert_eq!(
        Ciphersuite::stored_variant_from_u64(0xFFFF),
        Some(StoredVariant::Custom)
    );
    assert_eq!(
        Ciphersuite::stored_variant_from_str("Custom"),
        Some(StoredVariant::Custom)
    );
    assert_eq!(
        Ciphersuite::stored_variant_from_bytes(b"Custom"),
        Ok(StoredVariant::Custom)
    );
    assert_eq!(Ciphersuite::stored_variant_from_u64(7), None);
    assert_eq!(Ciphersuite::stored_variant_from_u64(0xFFFE), None);
    assert_eq!(Ciphersuite::stored_variant_from_u64(u64::MAX), None);
    assert_eq!(Ciphersuite::stored_variant_from_str("MLS_000_NOPE"), None);
    assert_eq!(Ciphersuite::stored_variant_from_str("custom"), None);
    assert_eq!(Ciphersuite::stored_variant_from_str(""), None);
    // A prefix of a name is not the name.
    assert_eq!(
        Ciphersuite::variant_index_from_str("MLS_128_DHKEMP256_AES128GCM_SHA256"),
        None
    );
    assert_eq!(
        Ciphersuite::stored_variant_from_bytes(b"MLS_000_NOPE"),
        Err(VariantNameError::UnknownName)
    );
    assert_eq!(
        Ciphersuite::stored_variant_from_bytes(&[0xff, 0xfe]),
        Err(VariantNameError::InvalidUtf8)
    );
}
