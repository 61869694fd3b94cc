//! Properties that hold across the functions of the library.

use vstd::prelude::*;
use vstd::std_specs::cmp::{PartialEqSpec, PartialOrdSpec};

use crate::ciphersuite::{
    builtin_model, builtin_name, builtin_name_position, builtin_position, builtin_suite,
    custom_refusal, is_builtin_model, is_custom_model, lemma_builtin_position,
    lemma_builtin_suite, lemma_position_in_table, lemma_view_injective, lemma_wf, lookup,
    model_of, name_position_from, stored_variant_named, Ciphersuite, CiphersuiteParams,
    VerifiableCiphersuite, hpke_aead_of, suite_name, BUILTIN_COUNT, STORED_VARIANT_NAMES,
};
use crate::stored::{
    first_position, variant_at_index, variant_named, StoredVariant, CUSTOM_VARIANT_INDEX,
};
use crate::grease::is_grease;
use crate::params::{
    AeadType, HashType, HpkeAeadType, HpkeKdfType, HpkeKemType, SignatureScheme,
    AEAD_VARIANT_NAMES, HASH_VARIANT_NAMES, HPKE_AEAD_VARIANT_NAMES, HPKE_KDF_VARIANT_NAMES,
    HPKE_KEM_VARIANT_NAMES, SIGNATURE_SCHEME_VARIANT_NAMES,
};
use crate::wire::{be_bytes, be_u16};

verus! {

/// Every ciphersuite is either built in, and then it is the entry of the
/// table for its code point, or custom, with a private-use code point that
/// no built-in ciphersuite has; never both.
pub proof fn law_builtin_or_custom(c: Ciphersuite)
    requires
        c.wf(),
    ensures
        is_builtin_model(c@) != is_custom_model(c@),
        is_builtin_model(c@) <==> builtin_position(c@.id) is Some,
        builtin_position(c@.id) is Some ==> {
            &&& 0 <= c.position() < BUILTIN_COUNT
            &&& c@ == builtin_model(c.position())
            &&& builtin_suite(c.position()) == c
        },
{
    lemma_wf(c);
}

/// Looking up the code point of a built-in ciphersuite gives back that
/// ciphersuite, and the lookup refuses the code point of a custom one; a
/// code point that the lookup accepts is the code point of what it gives.
pub proof fn law_lookup_inverts_id(c: Ciphersuite, v: u16)
    requires
        c.wf(),
    ensures
        c.is_builtin_spec() ==> lookup(c@.id) == Ok::<Ciphersuite, tls_codec::Error>(c),
        !c.is_builtin_spec() ==> lookup(c@.id) is Err,
        lookup(v) matches Ok(d) ==> d@.id == v && is_builtin_model(d@),
{
    lemma_wf(c);
    lemma_position_in_table(v, 0);
    if let Some(i) = builtin_position(v) {
        lemma_builtin_suite(i);
        lemma_builtin_position(i);
    }
}

/// Equality of ciphersuites is equality of their code points; two built-in
/// ciphersuites with the same code point are the same value.
pub proof fn law_equality_is_on_the_code_point(a: Ciphersuite, b: Ciphersuite)
    requires
        a.wf(),
        b.wf(),
    ensures
        a.eq_spec(&b) == (a@.id == b@.id),
        a.is_builtin_spec() && b.is_builtin_spec() ==> ((a@.id == b@.id) == (a == b)),
{
    lemma_wf(a);
    lemma_wf(b);
}

/// The order of ciphersuites is the order of their code points, and it
/// calls two ciphersuites equal exactly when `==` does.
pub proof fn law_order_is_on_the_code_point(a: Ciphersuite, b: Ciphersuite)
    ensures
        (a.partial_cmp_spec(&b) == Some(core::cmp::Ordering::Less)) == (a@.id < b@.id),
        (a.partial_cmp_spec(&b) == Some(core::cmp::Ordering::Equal)) == a.eq_spec(&b),
        (a.partial_cmp_spec(&b) == Some(core::cmp::Ordering::Greater)) == (a@.id > b@.id),
{
}

/// The built-in table has distinct code points and distinct names, none of
/// them `Custom`, so the stored variant named by an entry's name is that
/// entry's, and the name `Custom` names the custom variant.
pub proof fn law_table_is_injective(i: int)
    requires
        0 <= i < BUILTIN_COUNT,
    ensures
        builtin_position(builtin_model(i).id) == Some(i),
        builtin_name_position(builtin_name(i)) == Some(i),
        stored_variant_named(builtin_name(i)) == Some(StoredVariant::Builtin(i as usize)),
        stored_variant_named("Custom"@) == Some(StoredVariant::Custom),
{
    lemma_builtin_position(i);
    reveal_strlit("MLS_128_DHKEMX25519_AES128GCM_SHA256_Ed25519");
    reveal_strlit("MLS_128_DHKEMP256_AES128GCM_SHA256_P256");
    reveal_strlit("MLS_128_DHKEMX25519_CHACHA20POLY1305_SHA256_Ed25519");
    reveal_strlit("MLS_256_DHKEMX448_AES256GCM_SHA512_Ed448");
    reveal_strlit("MLS_256_DHKEMP521_AES256GCM_SHA512_P521");
    reveal_strlit("MLS_256_DHKEMX448_CHACHA20POLY1305_SHA512_Ed448");
    reveal_strlit("MLS_256_DHKEMP384_AES256GCM_SHA384_P384");
    reveal_strlit("Custom");
    assert(builtin_name(0).len() == 44);
    assert(builtin_name(1).len() == 39);
    assert(builtin_name(2).len() == 51);
    assert(builtin_name(3).len() == 40);
    assert(builtin_name(4).len() == 39);
    assert(builtin_name(5).len() == 47);
    assert(builtin_name(6).len() == 39);
    assert("Custom"@.len() == 6);
    assert(builtin_name(1)[4] != builtin_name(4)[4]);
    assert(builtin_name(1)[4] != builtin_name(6)[4]);
    assert(builtin_name(4)[16] != builtin_name(6)[16]);
    reveal_with_fuel(name_position_from, 8);
}

/// The names that serde writes for ciphersuites are the names of the table,
/// in its order, then `Custom`; each of them, read back, leads to the
/// position it was written for.
pub proof fn law_stored_names_are_the_table(i: int)
    requires
        0 <= i < BUILTIN_COUNT,
    ensures
        STORED_VARIANT_NAMES@.len() == BUILTIN_COUNT + 1,
        STORED_VARIANT_NAMES@[i]@ == builtin_name(i),
        STORED_VARIANT_NAMES@[BUILTIN_COUNT as int]@ == "Custom"@,
        stored_variant_named(STORED_VARIANT_NAMES@[i]@) == Some(
            StoredVariant::Builtin(i as usize),
        ),
        stored_variant_named(STORED_VARIANT_NAMES@[BUILTIN_COUNT as int]@) == Some(
            StoredVariant::Custom,
        ),
{
    law_table_is_injective(i);
}

/// The serde encoding round-trips. A built-in ciphersuite is stored under
/// its position and name, which both lead back to it. A custom one is
/// stored with its code point and parameters, which the custom constructor
/// accepts and turns back into the same ciphersuite.
pub proof fn law_serde_round_trip(c: Ciphersuite, d: Ciphersuite)
    requires
        c.wf(),
    ensures
        c.is_builtin_spec() ==> {
            &&& 0 <= c.position() < BUILTIN_COUNT
            &&& STORED_VARIANT_NAMES@[c.position()]@ == builtin_name(c.position())
            &&& stored_variant_named(builtin_name(c.position())) == Some(
                StoredVariant::Builtin(c.position() as usize),
            )
            &&& builtin_suite(c.position()) == c
            &&& (d@ == builtin_model(c.position()) ==> d == c)
        },
        !c.is_builtin_spec() ==> {
            &&& STORED_VARIANT_NAMES@[BUILTIN_COUNT as int]@ == "Custom"@
            &&& stored_variant_named("Custom"@) == Some(StoredVariant::Custom)
            &&& custom_refusal(c@.id) is None
            &&& model_of(c@.id, c.params_spec()) == c@
            &&& (d@ == c@ ==> d == c)
        },
{
    lemma_wf(c);
    law_table_is_injective(0);
    if c.is_builtin_spec() {
        law_table_is_injective(c.position());
    }
    if d@ == c@ {
        lemma_view_injective(c, d);
    }
}

/// The custom constructor refuses exactly the code points below the private
/// use range and those of built-in ciphersuites.
pub proof fn law_custom_code_points(id: u16)
    ensures
        custom_refusal(id) is None <==> (id >= 0xF000 && builtin_position(id) is None),
        id < 0xF000 ==> custom_refusal(id) is Some,
{
}

/// The TLS encoding of a built-in ciphersuite round-trips: reading the two
/// bytes that encode it, in front of any other bytes, gives back the
/// ciphersuite and exactly the other bytes.
pub proof fn law_tls_round_trip(c: Ciphersuite, rest: Seq<u8>)
    requires
        c.wf(),
        c.is_builtin_spec(),
    ensures
        ({
            let bytes = be_bytes(c@.id) + rest;
            &&& bytes.len() >= 2
            &&& lookup(be_u16(bytes[0], bytes[1])) == Ok::<Ciphersuite, tls_codec::Error>(c)
            &&& bytes.skip(2) == rest
        }),
{
    let bytes = be_bytes(c@.id) + rest;
    let v = c@.id;
    assert(be_u16(((v as int) / 256) as u8, ((v as int) % 256) as u8) == v) by (bit_vector);
    assert(bytes.skip(2) =~= rest);
    law_lookup_inverts_id(c, v);
}

/// A built-in ciphersuite survives the trip through its wire form.
pub proof fn law_wire_round_trip(c: Ciphersuite)
    requires
        c.wf(),
        c.is_builtin_spec(),
    ensures
        VerifiableCiphersuite::with_code(c@.id).code() == c@.id,
        lookup(VerifiableCiphersuite::with_code(c@.id).code()) == Ok::<
            Ciphersuite,
            tls_codec::Error,
        >(c),
{
    VerifiableCiphersuite::lemma_with_code(c@.id, VerifiableCiphersuite::with_code(c@.id));
    law_lookup_inverts_id(c, c@.id);
}

/// No ciphersuite, built-in or custom, has a GREASE code point.
pub proof fn law_no_ciphersuite_is_grease(c: Ciphersuite)
    requires
        c.wf(),
    ensures
        !is_grease(c@.id),
{
    lemma_wf(c);
}

/// The HPKE AEAD identifier of a ciphersuite has the code point of its AEAD.
pub proof fn law_hpke_aead_is_the_same_code_point(aead: AeadType)
    ensures
        hpke_aead_of(aead).code() == aead.code(),
{
}

/// A parameter value made from a code point (and sizes) has that code point
/// (and those sizes), and a named value is what its own code point makes.
pub proof fn law_parameter_code_points(v: u16, key_size: usize, tag_size: usize, size: usize)
    ensures
        HpkeKemType::from_code(v).code() == v,
        HpkeKdfType::from_code(v).code() == v,
        HpkeAeadType::from_code(v).code() == v,
        SignatureScheme::from_code(v).code() == v,
        AeadType::from_parts(v, key_size, tag_size).code() == v,
        AeadType::from_parts(v, key_size, tag_size).key_len() == key_size,
        AeadType::from_parts(v, key_size, tag_size).tag_len() == tag_size,
        HashType::from_parts(v, size).code() == v,
        HashType::from_parts(v, size).output_len() == size,
        HpkeKemType::from_code(HpkeKemType::DhKemP256.code()) == HpkeKemType::DhKemP256,
{
}

/// A named signature scheme's code point converts back to the scheme, and a
/// code point that converts names the scheme it gives.
pub proof fn law_signature_scheme_code_round_trip(s: SignatureScheme, v: u16)
    ensures
        !(s is Custom) ==> SignatureScheme::known(s.code()) == Some(s),
        SignatureScheme::known(v) matches Some(t) ==> t.code() == v && !(t is Custom),
{
}

/// The TLS encoding of a named signature scheme round-trips: reading the
/// two bytes that encode it, in front of any other bytes, gives back the
/// scheme and exactly the other bytes.
pub proof fn law_signature_scheme_tls_round_trip(s: SignatureScheme, rest: Seq<u8>)
    requires
        !(s is Custom),
    ensures
        ({
            let bytes = be_bytes(s.code()) + rest;
            &&& bytes.len() >= 2
            &&& SignatureScheme::known(be_u16(bytes[0], bytes[1])) == Some(s)
            &&& bytes.skip(2) == rest
        }),
{
    let bytes = be_bytes(s.code()) + rest;
    let v = s.code();
    assert(be_u16(((v as int) / 256) as u8, ((v as int) % 256) as u8) == v) by (bit_vector);
    assert(bytes.skip(2) =~= rest);
}

/// Serde's stored form of an AEAD leads back to it. A named AEAD is stored
/// at its position, whose index and name both lead back to that position,
/// and the AEAD stored there equals it. Any other is stored as `Custom`,
/// under the fixed index and name, with its code point and sizes, from which the
/// constructor makes it again.
pub proof fn law_aead_stored_round_trip(a: AeadType)
    ensures
        match a.stored_as() {
            StoredVariant::Builtin(i) => {
                &&& variant_at_index(AEAD_VARIANT_NAMES@, i as u64) == Some(StoredVariant::Builtin(i))
                &&& variant_named(AEAD_VARIANT_NAMES@, AEAD_VARIANT_NAMES@[i as int]@) == Some(
                    StoredVariant::Builtin(i),
                )
                &&& AeadType::stored_at(i as int) matches Some(b) && b.eq_spec(&a)
            },
            StoredVariant::Custom => {
                &&& variant_at_index(AEAD_VARIANT_NAMES@, CUSTOM_VARIANT_INDEX as u64) == Some(
                    StoredVariant::Custom,
                )
                &&& variant_named(AEAD_VARIANT_NAMES@, "Custom"@) == Some(StoredVariant::Custom)
                &&& AeadType::from_parts(a.code(), a.key_len(), a.tag_len()) == a
            },
        },
{
    reveal_strlit("Aes128Gcm");
    reveal_strlit("Aes256Gcm");
    reveal_strlit("ChaCha20Poly1305");
    reveal_strlit("Custom");
    assert(AEAD_VARIANT_NAMES@[0]@ == "Aes128Gcm"@);
    assert(AEAD_VARIANT_NAMES@[1]@ == "Aes256Gcm"@);
    assert(AEAD_VARIANT_NAMES@[2]@ == "ChaCha20Poly1305"@);
    assert(AEAD_VARIANT_NAMES@[3]@ == "Custom"@);
    assert("Aes128Gcm"@[3] != "Aes256Gcm"@[3]);
    assert("Aes128Gcm"@.len() != "ChaCha20Poly1305"@.len());
    assert("Aes128Gcm"@.len() != "Custom"@.len());
    assert("Aes256Gcm"@.len() != "ChaCha20Poly1305"@.len());
    assert("Aes256Gcm"@.len() != "Custom"@.len());
    assert("ChaCha20Poly1305"@.len() != "Custom"@.len());
    reveal_with_fuel(first_position, 5);
}

/// Serde's stored form of a hash leads back to it. A named hash is stored
/// at its position, whose index and name both lead back to that position,
/// and the hash stored there equals it. Any other is stored as `Custom`,
/// under the fixed index and name, with its code point and size, from which the
/// constructor makes it again.
pub proof fn law_hash_stored_round_trip(a: HashType)
    ensures
        match a.stored_as() {
            StoredVariant::Builtin(i) => {
                &&& variant_at_index(HASH_VARIANT_NAMES@, i as u64) == Some(StoredVariant::Builtin(i))
                &&& variant_named(HASH_VARIANT_NAMES@, HASH_VARIANT_NAMES@[i as int]@) == Some(
                    StoredVariant::Builtin(i),
                )
                &&& HashType::stored_at(i as int) matches Some(b) && b.eq_spec(&a)
            },
            StoredVariant::Custom => {
                &&& variant_at_index(HASH_VARIANT_NAMES@, CUSTOM_VARIANT_INDEX as u64) == Some(
                    StoredVariant::Custom,
                )
                &&& variant_named(HASH_VARIANT_NAMES@, "Custom"@) == Some(StoredVariant::Custom)
                &&& HashType::from_parts(a.code(), a.output_len()) == a
            },
        },
{
    reveal_strlit("Sha2_256");
    reveal_strlit("Sha2_384");
    reveal_strlit("Sha2_512");
    reveal_strlit("Custom");
    assert(HASH_VARIANT_NAMES@[0]@ == "Sha2_256"@);
    assert(HASH_VARIANT_NAMES@[1]@ == "Sha2_384"@);
    assert(HASH_VARIANT_NAMES@[2]@ == "Sha2_512"@);
    assert(HASH_VARIANT_NAMES@[3]@ == "Custom"@);
    assert("Sha2_256"@[5] != "Sha2_384"@[5]);
    assert("Sha2_256"@[5] != "Sha2_512"@[5]);
    assert("Sha2_256"@.len() != "Custom"@.len());
    assert("Sha2_384"@[5] != "Sha2_512"@[5]);
    assert("Sha2_384"@.len() != "Custom"@.len());
    assert("Sha2_512"@.len() != "Custom"@.len());
    reveal_with_fuel(first_position, 5);
}

/// Serde's stored form of a signature scheme leads back to it. A named scheme is stored
/// at its position, whose index and name both lead back to that position,
/// and the scheme stored there equals it. Any other is stored as `Custom`,
/// under the fixed index and name, with its code point, from which the
/// constructor makes it again.
pub proof fn law_signature_scheme_stored_round_trip(a: SignatureScheme)
    ensures
        match a.stored_as() {
            StoredVariant::Builtin(i) => {
                &&& variant_at_index(SIGNATURE_SCHEME_VARIANT_NAMES@, i as u64) == Some(StoredVariant::Builtin(i))
                &&& variant_named(SIGNATURE_SCHEME_VARIANT_NAMES@, SIGNATURE_SCHEME_VARIANT_NAMES@[i as int]@) == Some(
                    StoredVariant::Builtin(i),
                )
                &&& SignatureScheme::stored_at(i as int) matches Some(b) && b.eq_spec(&a)
            },
            StoredVariant::Custom => {
                &&& variant_at_index(SIGNATURE_SCHEME_VARIANT_NAMES@, CUSTOM_VARIANT_INDEX as u64) == Some(
                    StoredVariant::Custom,
                )
                &&& variant_named(SIGNATURE_SCHEME_VARIANT_NAMES@, "Custom"@) == Some(StoredVariant::Custom)
                &&& SignatureScheme::from_code(a.code()) == a
            },
        },
{
    reveal_strlit("ECDSA_SECP256R1_SHA256");
    reveal_strlit("ECDSA_SECP384R1_SHA384");
    reveal_strlit("ECDSA_SECP521R1_SHA512");
    reveal_strlit("ED25519");
    reveal_strlit("ED448");
    reveal_strlit("Custom");
    assert(SIGNATURE_SCHEME_VARIANT_NAMES@[0]@ == "ECDSA_SECP256R1_SHA256"@);
    assert(SIGNATURE_SCHEME_VARIANT_NAMES@[1]@ == "ECDSA_SECP384R1_SHA384"@);
    assert(SIGNATURE_SCHEME_VARIANT_NAMES@[2]@ == "ECDSA_SECP521R1_SHA512"@);
    assert(SIGNATURE_SCHEME_VARIANT_NAMES@[3]@ == "ED25519"@);
    assert(SIGNATURE_SCHEME_VARIANT_NAMES@[4]@ == "ED448"@);
    assert(SIGNATURE_SCHEME_VARIANT_NAMES@[5]@ == "Custom"@);
    assert("ECDSA_SECP256R1_SHA256"@[10] != "ECDSA_SECP384R1_SHA384"@[10]);
    assert("ECDSA_SECP256R1_SHA256"@[10] != "ECDSA_SECP521R1_SHA512"@[10]);
    assert("ECDSA_SECP256R1_SHA256"@.len() != "ED25519"@.len());
    assert("ECDSA_SECP256R1_SHA256"@.len() != "ED448"@.len());
    assert("ECDSA_SECP256R1_SHA256"@.len() != "Custom"@.len());
    assert("ECDSA_SECP384R1_SHA384"@[10] != "ECDSA_SECP521R1_SHA512"@[10]);
    assert("ECDSA_SECP384R1_SHA384"@.len() != "ED25519"@.len());
    assert("ECDSA_SECP384R1_SHA384"@.len() != "ED448"@.len());
    assert("ECDSA_SECP384R1_SHA384"@.len() != "Custom"@.len());
    assert("ECDSA_SECP521R1_SHA512"@.len() != "ED25519"@.len());
    assert("ECDSA_SECP521R1_SHA512"@.len() != "ED448"@.len());
    assert("ECDSA_SECP521R1_SHA512"@.len() != "Custom"@.len());
    assert("ED25519"@.len() != "ED448"@.len());
    assert("ED25519"@.len() != "Custom"@.len());
    assert("ED448"@.len() != "Custom"@.len());
    reveal_with_fuel(first_position, 7);
}

/// Serde's stored form of a KEM leads back to it. A named KEM is stored
/// at its position, whose index and name both lead back to that position,
/// and the KEM stored there equals it. Any other is stored as `Custom`,
/// under the fixed index and name, with its code point, from which the
/// constructor makes it again.
pub proof fn law_hpke_kem_stored_round_trip(a: HpkeKemType)
    ensures
        match a.stored_as() {
            StoredVariant::Builtin(i) => {
                &&& variant_at_index(HPKE_KEM_VARIANT_NAMES@, i as u64) == Some(StoredVariant::Builtin(i))
                &&& variant_named(HPKE_KEM_VARIANT_NAMES@, HPKE_KEM_VARIANT_NAMES@[i as int]@) == Some(
                    StoredVariant::Builtin(i),
                )
                &&& HpkeKemType::stored_at(i as int) matches Some(b) && b.eq_spec(&a)
            },
            StoredVariant::Custom => {
                &&& variant_at_index(HPKE_KEM_VARIANT_NAMES@, CUSTOM_VARIANT_INDEX as u64) == Some(
                    StoredVariant::Custom,
                )
                &&& variant_named(HPKE_KEM_VARIANT_NAMES@, "Custom"@) == Some(StoredVariant::Custom)
                &&& HpkeKemType::from_code(a.code()) == a
            },
        },
{
    reveal_strlit("DhKemP256");
    reveal_strlit("DhKemP384");
    reveal_strlit("DhKemP521");
    reveal_strlit("DhKem25519");
    reveal_strlit("DhKem448");
    reveal_strlit("Custom");
    assert(HPKE_KEM_VARIANT_NAMES@[0]@ == "DhKemP256"@);
    assert(HPKE_KEM_VARIANT_NAMES@[1]@ == "DhKemP384"@);
    assert(HPKE_KEM_VARIANT_NAMES@[2]@ == "DhKemP521"@);
    assert(HPKE_KEM_VARIANT_NAMES@[3]@ == "DhKem25519"@);
    assert(HPKE_KEM_VARIANT_NAMES@[4]@ == "DhKem448"@);
    assert(HPKE_KEM_VARIANT_NAMES@[5]@ == "Custom"@);
    assert("DhKemP256"@[6] != "DhKemP384"@[6]);
    assert("DhKemP256"@[6] != "DhKemP521"@[6]);
    assert("DhKemP256"@.len() != "DhKem25519"@.len());
    assert("DhKemP256"@.len() != "DhKem448"@.len());
    assert("DhKemP256"@.len() != "Custom"@.len());
    assert("DhKemP384"@[6] != "DhKemP521"@[6]);
    assert("DhKemP384"@.len() != "DhKem25519"@.len());
    assert("DhKemP384"@.len() != "DhKem448"@.len());
    assert("DhKemP384"@.len() != "Custom"@.len());
    assert("DhKemP521"@.len() != "DhKem25519"@.len());
    assert("DhKemP521"@.len() != "DhKem448"@.len());
    assert("DhKemP521"@.len() != "Custom"@.len());
    assert("DhKem25519"@.len() != "DhKem448"@.len());
    assert("DhKem25519"@.len() != "Custom"@.len());
    assert("DhKem448"@.len() != "Custom"@.len());
    reveal_with_fuel(first_position, 7);
}

/// Serde's stored form of a KDF leads back to it. A named KDF is stored
/// at its position, whose index and name both lead back to that position,
/// and the KDF stored there equals it. Any other is stored as `Custom`,
/// under the fixed index and name, with its code point, from which the
/// constructor makes it again.
pub proof fn law_hpke_kdf_stored_round_trip(a: HpkeKdfType)
    ensures
        match a.stored_as() {
            StoredVariant::Builtin(i) => {
                &&& variant_at_index(HPKE_KDF_VARIANT_NAMES@, i as u64) == Some(StoredVariant::Builtin(i))
                &&& variant_named(HPKE_KDF_VARIANT_NAMES@, HPKE_KDF_VARIANT_NAMES@[i as int]@) == Some(
                    StoredVariant::Builtin(i),
                )
                &&& HpkeKdfType::stored_at(i as int) matches Some(b) && b.eq_spec(&a)
            },
            StoredVariant::Custom => {
                &&& variant_at_index(HPKE_KDF_VARIANT_NAMES@, CUSTOM_VARIANT_INDEX as u64) == Some(
                    StoredVariant::Custom,
                )
                &&& variant_named(HPKE_KDF_VARIANT_NAMES@, "Custom"@) == Some(StoredVariant::Custom)
                &&& HpkeKdfType::from_code(a.code()) == a
            },
        },
{
    reveal_strlit("HkdfSha256");
    reveal_strlit("HkdfSha384");
    reveal_strlit("HkdfSha512");
    reveal_strlit("Custom");
    assert(HPKE_KDF_VARIANT_NAMES@[0]@ == "HkdfSha256"@);
    assert(HPKE_KDF_VARIANT_NAMES@[1]@ == "HkdfSha384"@);
    assert(HPKE_KDF_VARIANT_NAMES@[2]@ == "HkdfSha512"@);
    assert(HPKE_KDF_VARIANT_NAMES@[3]@ == "Custom"@);
    assert("HkdfSha256"@[7] != "HkdfSha384"@[7]);
    assert("HkdfSha256"@[7] != "HkdfSha512"@[7]);
    assert("HkdfSha256"@.len() != "Custom"@.len());
    assert("HkdfSha384"@[7] != "HkdfSha512"@[7]);
    assert("HkdfSha384"@.len() != "Custom"@.len());
    assert("HkdfSha512"@.len() != "Custom"@.len());
    reveal_with_fuel(first_position, 5);
}

/// Serde's stored form of an HPKE AEAD leads back to it. A named HPKE AEAD is stored
/// at its position, whose index and name both lead back to that position,
/// and the HPKE AEAD stored there equals it. Any other is stored as `Custom`,
/// under the fixed index and name, with its code point, from which the
/// constructor makes it again.
pub proof fn law_hpke_aead_stored_round_trip(a: HpkeAeadType)
    ensures
        match a.stored_as() {
            StoredVariant::Builtin(i) => {
                &&& variant_at_index(HPKE_AEAD_VARIANT_NAMES@, i as u64) == Some(StoredVariant::Builtin(i))
                &&& variant_named(HPKE_AEAD_VARIANT_NAMES@, HPKE_AEAD_VARIANT_NAMES@[i as int]@) == Some(
                    StoredVariant::Builtin(i),
                )
                &&& HpkeAeadType::stored_at(i as int) matches Some(b) && b.eq_spec(&a)
            },
            StoredVariant::Custom => {
                &&& variant_at_index(HPKE_AEAD_VARIANT_NAMES@, CUSTOM_VARIANT_INDEX as u64) == Some(
                    StoredVariant::Custom,
                )
                &&& variant_named(HPKE_AEAD_VARIANT_NAMES@, "Custom"@) == Some(StoredVariant::Custom)
                &&& HpkeAeadType::from_code(a.code()) == a
            },
        },
{
    reveal_strlit("AesGcm128");
    reveal_strlit("AesGcm256");
    reveal_strlit("ChaCha20Poly1305");
    reveal_strlit("Export");
    reveal_strlit("Custom");
    assert(HPKE_AEAD_VARIANT_NAMES@[0]@ == "AesGcm128"@);
    assert(HPKE_AEAD_VARIANT_NAMES@[1]@ == "AesGcm256"@);
    assert(HPKE_AEAD_VARIANT_NAMES@[2]@ == "ChaCha20Poly1305"@);
    assert(HPKE_AEAD_VARIANT_NAMES@[3]@ == "Export"@);
    assert(HPKE_AEAD_VARIANT_NAMES@[4]@ == "Custom"@);
    assert("AesGcm128"@[6] != "AesGcm256"@[6]);
    assert("AesGcm128"@.len() != "ChaCha20Poly1305"@.len());
    assert("AesGcm128"@.len() != "Export"@.len());
    assert("AesGcm128"@.len() != "Custom"@.len());
    assert("AesGcm256"@.len() != "ChaCha20Poly1305"@.len());
    assert("AesGcm256"@.len() != "Export"@.len());
    assert("AesGcm256"@.len() != "Custom"@.len());
    assert("ChaCha20Poly1305"@.len() != "Export"@.len());
    assert("ChaCha20Poly1305"@.len() != "Custom"@.len());
    assert("Export"@[0] != "Custom"@[0]);
    reveal_with_fuel(first_position, 6);
}
/// The lengths of an AEAD that this library names are the ones RFC 9180
/// gives its HPKE counterpart: the key (Nk), nonce (Nn) and tag (Nt)
/// lengths. That counterpart is named as well.
pub proof fn law_aead_lengths_agree_with_hpke(a: AeadType)
    requires
        !(a is Custom),
    ensures
        !(hpke_aead_of(a) is Custom),
        hpke_aead_of(a).hpke_key_len() == Some(a.key_len()),
        hpke_aead_of(a).hpke_nonce_len() == Some(a.nonce_len()),
        hpke_aead_of(a).hpke_tag_len() == Some(a.tag_len()),
{
}

/// The HPKE AEAD of an AEAD is the value that its code point names, so a
/// named AEAD has a named HPKE AEAD, never a custom one with the same code
/// point.
pub proof fn law_hpke_aead_is_named(a: AeadType)
    ensures
        hpke_aead_of(a) == HpkeAeadType::from_code(a.code()),
        !(a is Custom) ==> !(hpke_aead_of(a) is Custom),
        a is Custom ==> hpke_aead_of(a).code() == a.code(),
{
}

/// The value stored at a named position is a named value, the one its own
/// code point (and sizes) make, and it is stored back at that position.
pub proof fn law_stored_values_are_named(i: int)
    ensures
        AeadType::stored_at(i) matches Some(b) ==> !(b is Custom) && b == AeadType::from_parts(
            b.code(),
            b.key_len(),
            b.tag_len(),
        ) && b.stored_as() == StoredVariant::Builtin(i as usize),
        HashType::stored_at(i) matches Some(b) ==> !(b is Custom) && b == HashType::from_parts(
            b.code(),
            b.output_len(),
        ) && b.stored_as() == StoredVariant::Builtin(i as usize),
        SignatureScheme::stored_at(i) matches Some(b) ==> !(b is Custom) && b
            == SignatureScheme::from_code(b.code()) && b.stored_as() == StoredVariant::Builtin(
            i as usize,
        ),
        HpkeKemType::stored_at(i) matches Some(b) ==> !(b is Custom) && b == HpkeKemType::from_code(
            b.code(),
        ) && b.stored_as() == StoredVariant::Builtin(i as usize),
        HpkeKdfType::stored_at(i) matches Some(b) ==> !(b is Custom) && b == HpkeKdfType::from_code(
            b.code(),
        ) && b.stored_as() == StoredVariant::Builtin(i as usize),
        HpkeAeadType::stored_at(i) matches Some(b) ==> !(b is Custom) && b
            == HpkeAeadType::from_code(b.code()) && b.stored_as() == StoredVariant::Builtin(
            i as usize,
        ),
{
}

/// Named values are stored in the order of their code points: a later
/// position holds a larger code point.
pub proof fn law_stored_positions_follow_code_points(i: int, j: int)
    requires
        0 <= i < j,
    ensures
        AeadType::stored_at(i) is Some && AeadType::stored_at(j) is Some ==> AeadType::stored_at(
            i,
        ).unwrap().code() < AeadType::stored_at(j).unwrap().code(),
        HashType::stored_at(i) is Some && HashType::stored_at(j) is Some ==> HashType::stored_at(
            i,
        ).unwrap().code() < HashType::stored_at(j).unwrap().code(),
        SignatureScheme::stored_at(i) is Some && SignatureScheme::stored_at(j) is Some ==> SignatureScheme::stored_at(
            i,
        ).unwrap().code() < SignatureScheme::stored_at(j).unwrap().code(),
        HpkeKemType::stored_at(i) is Some && HpkeKemType::stored_at(j) is Some ==> HpkeKemType::stored_at(
            i,
        ).unwrap().code() < HpkeKemType::stored_at(j).unwrap().code(),
        HpkeKdfType::stored_at(i) is Some && HpkeKdfType::stored_at(j) is Some ==> HpkeKdfType::stored_at(
            i,
        ).unwrap().code() < HpkeKdfType::stored_at(j).unwrap().code(),
        HpkeAeadType::stored_at(i) is Some && HpkeAeadType::stored_at(j) is Some ==> HpkeAeadType::stored_at(
            i,
        ).unwrap().code() < HpkeAeadType::stored_at(j).unwrap().code(),
{
}

/// Each built-in ciphersuite has the parameters that its RFC 9420 name
/// spells out, and the code points run from 1 in the order of the table;
/// each parameter is a named value, the one its own code point
/// (and sizes) make; its KDF's hash has the length of its hash; and its
/// AEAD's lengths are those RFC 9180 gives the HPKE AEAD it uses.
pub proof fn law_builtin_parameters_match_their_names(i: int)
    requires
        0 <= i < BUILTIN_COUNT,
    ensures
        builtin_name(i) == suite_name(builtin_model(i)),
        builtin_model(i).id == i + 1,
        ({
            let m = builtin_model(i);
            &&& !(m.kem is Custom) && m.kem == HpkeKemType::from_code(m.kem.code())
            &&& !(m.kdf is Custom) && m.kdf == HpkeKdfType::from_code(m.kdf.code())
            &&& !(m.aead is Custom) && m.aead == AeadType::from_parts(
                m.aead.code(),
                m.aead.key_len(),
                m.aead.tag_len(),
            )
            &&& !(m.hash is Custom) && m.hash == HashType::from_parts(
                m.hash.code(),
                m.hash.output_len(),
            )
            &&& !(m.signature is Custom) && m.signature == SignatureScheme::from_code(
                m.signature.code(),
            )
            &&& m.kdf.hpke_hash_len() == Some(m.hash.output_len())
            &&& hpke_aead_of(m.aead).hpke_key_len() == Some(m.aead.key_len())
            &&& hpke_aead_of(m.aead).hpke_nonce_len() == Some(m.aead.nonce_len())
            &&& hpke_aead_of(m.aead).hpke_tag_len() == Some(m.aead.tag_len())
        }),
{
    reveal_strlit("MLS_128_DHKEMX25519_AES128GCM_SHA256_Ed25519");
    reveal_strlit("MLS_128_DHKEMP256_AES128GCM_SHA256_P256");
    reveal_strlit("MLS_128_DHKEMX25519_CHACHA20POLY1305_SHA256_Ed25519");
    reveal_strlit("MLS_256_DHKEMX448_AES256GCM_SHA512_Ed448");
    reveal_strlit("MLS_256_DHKEMP521_AES256GCM_SHA512_P521");
    reveal_strlit("MLS_256_DHKEMX448_CHACHA20POLY1305_SHA512_Ed448");
    reveal_strlit("MLS_256_DHKEMP384_AES256GCM_SHA384_P384");
    reveal_strlit("MLS_");
    reveal_strlit("_DHKEM");
    reveal_strlit("_");
    reveal_strlit("128");
    reveal_strlit("256");
    reveal_strlit("P256");
    reveal_strlit("P384");
    reveal_strlit("P521");
    reveal_strlit("X25519");
    reveal_strlit("X448");
    reveal_strlit("AES128GCM");
    reveal_strlit("AES256GCM");
    reveal_strlit("CHACHA20POLY1305");
    reveal_strlit("SHA256");
    reveal_strlit("SHA384");
    reveal_strlit("SHA512");
    reveal_strlit("Ed25519");
    reveal_strlit("Ed448");
    assert(builtin_name(i) =~= suite_name(builtin_model(i)));
}

} // verus!
