//! MLS ciphersuites: the table of built-in ciphersuites, the lookup of a
//! ciphersuite by its code point, and the encodings that stored data uses.

use vstd::prelude::*;

use vstd::string::StringSliceAdditionalSpecFns;
use vstd::utf8::{decode_utf8, valid_utf8};

use crate::params::{
    hash_u16, AeadType, HashType, HpkeAeadType, HpkeConfig, HpkeKdfType, HpkeKemType, SignatureScheme,
};
use crate::grease::{is_grease, is_grease_value};
use crate::stored::{StoredVariant, VariantNameError, CUSTOM_VARIANT_INDEX, CUSTOM_VARIANT_NAME};
use crate::text::{bytes_equal, lemma_decode_of_encoding, lemma_encoding_injective, str_from_utf8};
use crate::wire::{
    be_bytes, be_u16, decoding_error, format_invalid_ciphersuite, invalid_ciphersuite_message,
    tls_decoding_error, u16_decode_error, u16_tls_deserialize_bytes, u16_tls_serialize_detached,
    u16_tls_serialized_len,
};

verus! {

/// What a ciphersuite is: its code point and its parameters.
pub struct CiphersuiteModel {
    pub id: u16,
    pub kem: HpkeKemType,
    pub kdf: HpkeKdfType,
    pub aead: AeadType,
    pub hash: HashType,
    pub signature: SignatureScheme,
}

/// Number of built-in ciphersuites.
pub const BUILTIN_COUNT: usize = 7;

/// The names of the built-in ciphersuites, in the order of the table.
pub const BUILTIN_NAMES: [&'static str; BUILTIN_COUNT] = [
    "MLS_128_DHKEMX25519_AES128GCM_SHA256_Ed25519",
    "MLS_128_DHKEMP256_AES128GCM_SHA256_P256",
    "MLS_128_DHKEMX25519_CHACHA20POLY1305_SHA256_Ed25519",
    "MLS_256_DHKEMX448_AES256GCM_SHA512_Ed448",
    "MLS_256_DHKEMP521_AES256GCM_SHA512_P521",
    "MLS_256_DHKEMX448_CHACHA20POLY1305_SHA512_Ed448",
    "MLS_256_DHKEMP384_AES256GCM_SHA384_P384",
];

/// The built-in ciphersuites, in their declaration order, which is part of
/// the compact serde encoding.
pub open spec fn builtin_model(i: int) -> CiphersuiteModel {
    if i == 0 {
        CiphersuiteModel {
            id: 0x0001,
            kem: HpkeKemType::DhKem25519,
            kdf: HpkeKdfType::HkdfSha256,
            aead: AeadType::Aes128Gcm,
            hash: HashType::Sha2_256,
            signature: SignatureScheme::ED25519,
        }
    } else if i == 1 {
        CiphersuiteModel {
            id: 0x0002,
            kem: HpkeKemType::DhKemP256,
            kdf: HpkeKdfType::HkdfSha256,
            aead: AeadType::Aes128Gcm,
            hash: HashType::Sha2_256,
            signature: SignatureScheme::ECDSA_SECP256R1_SHA256,
        }
    } else if i == 2 {
        CiphersuiteModel {
            id: 0x0003,
            kem: HpkeKemType::DhKem25519,
            kdf: HpkeKdfType::HkdfSha256,
            aead: AeadType::ChaCha20Poly1305,
            hash: HashType::Sha2_256,
            signature: SignatureScheme::ED25519,
        }
    } else if i == 3 {
        CiphersuiteModel {
            id: 0x0004,
            kem: HpkeKemType::DhKem448,
            kdf: HpkeKdfType::HkdfSha512,
            aead: AeadType::Aes256Gcm,
            hash: HashType::Sha2_512,
            signature: SignatureScheme::ED448,
        }
    } else if i == 4 {
        CiphersuiteModel {
            id: 0x0005,
            kem: HpkeKemType::DhKemP521,
            kdf: HpkeKdfType::HkdfSha512,
            aead: AeadType::Aes256Gcm,
            hash: HashType::Sha2_512,
            signature: SignatureScheme::ECDSA_SECP521R1_SHA512,
        }
    } else if i == 5 {
        CiphersuiteModel {
            id: 0x0006,
            kem: HpkeKemType::DhKem448,
            kdf: HpkeKdfType::HkdfSha512,
            aead: AeadType::ChaCha20Poly1305,
            hash: HashType::Sha2_512,
            signature: SignatureScheme::ED448,
        }
    } else {
        CiphersuiteModel {
            id: 0x0007,
            kem: HpkeKemType::DhKemP384,
            kdf: HpkeKdfType::HkdfSha384,
            aead: AeadType::Aes256Gcm,
            hash: HashType::Sha2_384,
            signature: SignatureScheme::ECDSA_SECP384R1_SHA384,
        }
    }
}

/// The names of the built-in ciphersuites, in the same order as
/// [`builtin_model`]; the self-describing serde encoding stores them.
pub open spec fn builtin_name(i: int) -> Seq<char> {
    if i == 0 {
        "MLS_128_DHKEMX25519_AES128GCM_SHA256_Ed25519"@
    } else if i == 1 {
        "MLS_128_DHKEMP256_AES128GCM_SHA256_P256"@
    } else if i == 2 {
        "MLS_128_DHKEMX25519_CHACHA20POLY1305_SHA256_Ed25519"@
    } else if i == 3 {
        "MLS_256_DHKEMX448_AES256GCM_SHA512_Ed448"@
    } else if i == 4 {
        "MLS_256_DHKEMP521_AES256GCM_SHA512_P521"@
    } else if i == 5 {
        "MLS_256_DHKEMX448_CHACHA20POLY1305_SHA512_Ed448"@
    } else {
        "MLS_256_DHKEMP384_AES256GCM_SHA384_P384"@
    }
}

/// How RFC 9420 spells a KEM in a ciphersuite's name.
pub open spec fn kem_label(kem: HpkeKemType) -> Seq<char> {
    match kem {
        HpkeKemType::DhKemP256 => "P256"@,
        HpkeKemType::DhKemP384 => "P384"@,
        HpkeKemType::DhKemP521 => "P521"@,
        HpkeKemType::DhKem25519 => "X25519"@,
        HpkeKemType::DhKem448 => "X448"@,
        HpkeKemType::Custom(_) => Seq::empty(),
    }
}

/// How RFC 9420 spells an AEAD in a ciphersuite's name.
pub open spec fn aead_label(aead: AeadType) -> Seq<char> {
    match aead {
        AeadType::Aes128Gcm => "AES128GCM"@,
        AeadType::Aes256Gcm => "AES256GCM"@,
        AeadType::ChaCha20Poly1305 => "CHACHA20POLY1305"@,
        AeadType::Custom { .. } => Seq::empty(),
    }
}

/// How RFC 9420 spells a hash in a ciphersuite's name.
pub open spec fn hash_label(hash: HashType) -> Seq<char> {
    match hash {
        HashType::Sha2_256 => "SHA256"@,
        HashType::Sha2_384 => "SHA384"@,
        HashType::Sha2_512 => "SHA512"@,
        HashType::Custom { .. } => Seq::empty(),
    }
}

/// How RFC 9420 spells a signature scheme in a ciphersuite's name.
pub open spec fn signature_label(signature: SignatureScheme) -> Seq<char> {
    match signature {
        SignatureScheme::ECDSA_SECP256R1_SHA256 => "P256"@,
        SignatureScheme::ECDSA_SECP384R1_SHA384 => "P384"@,
        SignatureScheme::ECDSA_SECP521R1_SHA512 => "P521"@,
        SignatureScheme::ED25519 => "Ed25519"@,
        SignatureScheme::ED448 => "Ed448"@,
        SignatureScheme::Custom(_) => Seq::empty(),
    }
}

/// The security level in a ciphersuite's name: 128 for the ciphersuites
/// that hash with SHA-256, 256 for the others.
pub open spec fn level_label(hash: HashType) -> Seq<char> {
    match hash {
        HashType::Sha2_256 => "128"@,
        _ => "256"@,
    }
}

/// The name that RFC 9420 gives a ciphersuite with these parameters:
/// `MLS_<level>_DHKEM<kem>_<aead>_<hash>_<signature>`.
pub open spec fn suite_name(m: CiphersuiteModel) -> Seq<char> {
    "MLS_"@ + level_label(m.hash) + "_DHKEM"@ + kem_label(m.kem) + "_"@ + aead_label(m.aead)
        + "_"@ + hash_label(m.hash) + "_"@ + signature_label(m.signature)
}

/// The position of the first built-in ciphersuite at or after `start` whose
/// code point is `id`.
pub open spec fn position_from(id: u16, start: int) -> Option<int>
    decreases BUILTIN_COUNT - start,
{
    if start < 0 || start >= BUILTIN_COUNT {
        None
    } else if builtin_model(start).id == id {
        Some(start)
    } else {
        position_from(id, start + 1)
    }
}

/// The position in the table of the built-in ciphersuite whose code point is
/// `id`, if there is one.
pub open spec fn builtin_position(id: u16) -> Option<int> {
    position_from(id, 0)
}

/// A model is well formed when it is the built-in ciphersuite of its code
/// point.
pub open spec fn is_builtin_model(m: CiphersuiteModel) -> bool {
    match builtin_position(m.id) {
        Some(i) => m == builtin_model(i),
        None => false,
    }
}

/// First code point of the range that RFC 9420 (Section 17.1) reserves for
/// private use; custom ciphersuites take their code points from it.
pub const PRIVATE_USE_START: u16 = 0xF000;

/// A custom model: its code point is for private use and names no built-in
/// ciphersuite. Its parameters may be any.
pub open spec fn is_custom_model(m: CiphersuiteModel) -> bool {
    m.id >= PRIVATE_USE_START && builtin_position(m.id) is None
}

/// The parameters of a ciphersuite.
#[derive(Clone, Copy, Debug, PartialEq, Eq)]
pub struct CiphersuiteParams {
    pub kem: HpkeKemType,
    pub kdf: HpkeKdfType,
    pub aead: AeadType,
    pub hash: HashType,
    pub signature: SignatureScheme,
}

/// The model of the ciphersuite with code point `id` and parameters `p`.
pub open spec fn model_of(id: u16, p: CiphersuiteParams) -> CiphersuiteModel {
    CiphersuiteModel {
        id,
        kem: p.kem,
        kdf: p.kdf,
        aead: p.aead,
        hash: p.hash,
        signature: p.signature,
    }
}

/// Why a code point cannot be that of a custom ciphersuite.
#[derive(Debug, PartialEq, Eq, Clone, Copy, Structural)]
pub enum CustomCiphersuiteError {
    /// The code point lies outside the private use range.
    OutsidePrivateUse,
    /// The code point is that of a built-in ciphersuite.
    BuiltIn,
}

/// Why `id` is refused as the code point of a custom ciphersuite, if it is.
pub open spec fn custom_refusal(id: u16) -> Option<CustomCiphersuiteError> {
    if id < PRIVATE_USE_START {
        Some(CustomCiphersuiteError::OutsidePrivateUse)
    } else if builtin_position(id) is Some {
        Some(CustomCiphersuiteError::BuiltIn)
    } else {
        None
    }
}

/// MLS ciphersuites.
///
/// The identity of a ciphersuite is its code point; the parameters are kept
/// alongside so the accessors stay infallible. A built-in ciphersuite has
/// the parameters of its row in the table; a custom one has a private-use
/// code point and any parameters.
#[derive(Clone, Copy)]
pub struct Ciphersuite {
    id: u16,
    kem: HpkeKemType,
    kdf: HpkeKdfType,
    aead: AeadType,
    hash: HashType,
    signature: SignatureScheme,
}

impl View for Ciphersuite {
    type V = CiphersuiteModel;

    closed spec fn view(&self) -> CiphersuiteModel {
        CiphersuiteModel {
            id: self.id,
            kem: self.kem,
            kdf: self.kdf,
            aead: self.aead,
            hash: self.hash,
            signature: self.signature,
        }
    }
}

impl Ciphersuite {
    /// The fields are private and only the constructors make a value: a
    /// built-in code point comes with its row of the table, any other code
    /// point is for private use.
    #[verifier::type_invariant]
    pub closed spec fn wf(self) -> bool {
        is_builtin_model(self@) || is_custom_model(self@)
    }

    /// The position of this ciphersuite in the table, for a built-in one.
    pub open spec fn position(self) -> int {
        builtin_position(self@.id)->0
    }

    /// Whether this is one of the built-in ciphersuites.
    pub open spec fn is_builtin_spec(self) -> bool {
        builtin_position(self@.id) is Some
    }

    /// The parameters of this ciphersuite.
    pub open spec fn params_spec(self) -> CiphersuiteParams {
        CiphersuiteParams {
            kem: self@.kem,
            kdf: self@.kdf,
            aead: self@.aead,
            hash: self@.hash,
            signature: self@.signature,
        }
    }
}

/// Two ciphersuites with the same model are the same value.
pub proof fn lemma_view_injective(a: Ciphersuite, b: Ciphersuite)
    requires
        a@ == b@,
    ensures
        a == b,
{
}

/// What the type invariant states: a ciphersuite whose code point is in the
/// table is the entry of the table there; any other is custom.
pub proof fn lemma_wf(c: Ciphersuite)
    requires
        c.wf(),
    ensures
        is_builtin_model(c@) || is_custom_model(c@),
        !(is_builtin_model(c@) && is_custom_model(c@)),
        builtin_position(c@.id) is Some ==> {
            &&& is_builtin_model(c@)
            &&& 0 <= c.position() < BUILTIN_COUNT
            &&& builtin_position(c@.id) == Some(c.position())
            &&& c@ == builtin_model(c.position())
            &&& builtin_suite(c.position()) == c
        },
        builtin_position(c@.id) is None ==> is_custom_model(c@),
{
    lemma_position_in_table(c@.id, 0);
}

/// A position found in the table lies in it, and holds the code point that
/// was looked for.
pub proof fn lemma_position_in_table(id: u16, start: int)
    ensures
        position_from(id, start) matches Some(i) ==> 0 <= start <= i < BUILTIN_COUNT
            && builtin_model(i).id == id,
    decreases BUILTIN_COUNT - start,
{
    if 0 <= start < BUILTIN_COUNT && builtin_model(start).id != id {
        lemma_position_in_table(id, start + 1);
    }
}

/// The code points of the table are pairwise distinct, so the position of
/// the code point of entry `i` is `i`.
pub proof fn lemma_builtin_position(i: int)
    requires
        0 <= i < BUILTIN_COUNT,
    ensures
        builtin_position(builtin_model(i).id) == Some(i),
        is_builtin_model(builtin_model(i)),
{
    reveal_with_fuel(position_from, 8);
}


#[allow(non_snake_case)]
impl Ciphersuite {
    /// Builds a ciphersuite from its code point and parameters: a row of the
    /// table, or a private-use code point that no row has, with any
    /// parameters.
    fn builtin(
        id: u16,
        kem: HpkeKemType,
        kdf: HpkeKdfType,
        aead: AeadType,
        hash: HashType,
        signature: SignatureScheme,
    ) -> (r: Self)
        requires
            is_builtin_model(CiphersuiteModel { id, kem, kdf, aead, hash, signature })
                || is_custom_model(CiphersuiteModel { id, kem, kdf, aead, hash, signature }),
        ensures
            r@ == (CiphersuiteModel { id, kem, kdf, aead, hash, signature }),
    {
        Self { id, kem, kdf, aead, hash, signature }
    }

    /// DH KEM x25519 | AES-GCM 128 | SHA2-256 | Ed25519
    pub fn MLS_128_DHKEMX25519_AES128GCM_SHA256_Ed25519() -> (r: Self)
        ensures
            r@ == builtin_model(0),
    {
        proof {
            lemma_builtin_position(0);
        }
        Self::builtin(
            0x0001,
            HpkeKemType::DhKem25519,
            HpkeKdfType::HkdfSha256,
            AeadType::Aes128Gcm,
            HashType::Sha2_256,
            SignatureScheme::ED25519,
        )
    }

    /// DH KEM P256 | AES-GCM 128 | SHA2-256 | EcDSA P256
    pub fn MLS_128_DHKEMP256_AES128GCM_SHA256_P256() -> (r: Self)
        ensures
            r@ == builtin_model(1),
    {
        proof {
            lemma_builtin_position(1);
        }
        Self::builtin(
            0x0002,
            HpkeKemType::DhKemP256,
            HpkeKdfType::HkdfSha256,
            AeadType::Aes128Gcm,
            HashType::Sha2_256,
            SignatureScheme::ECDSA_SECP256R1_SHA256,
        )
    }

    /// DH KEM x25519 | Chacha20Poly1305 | SHA2-256 | Ed25519
    pub fn MLS_128_DHKEMX25519_CHACHA20POLY1305_SHA256_Ed25519() -> (r: Self)
        ensures
            r@ == builtin_model(2),
    {
        proof {
            lemma_builtin_position(2);
        }
        Self::builtin(
            0x0003,
            HpkeKemType::DhKem25519,
            HpkeKdfType::HkdfSha256,
            AeadType::ChaCha20Poly1305,
            HashType::Sha2_256,
            SignatureScheme::ED25519,
        )
    }

    /// DH KEM x448 | AES-GCM 256 | SHA2-512 | Ed448
    pub fn MLS_256_DHKEMX448_AES256GCM_SHA512_Ed448() -> (r: Self)
        ensures
            r@ == builtin_model(3),
    {
        proof {
            lemma_builtin_position(3);
        }
        Self::builtin(
            0x0004,
            HpkeKemType::DhKem448,
            HpkeKdfType::HkdfSha512,
            AeadType::Aes256Gcm,
            HashType::Sha2_512,
            SignatureScheme::ED448,
        )
    }

    /// DH KEM P521 | AES-GCM 256 | SHA2-512 | EcDSA P521
    pub fn MLS_256_DHKEMP521_AES256GCM_SHA512_P521() -> (r: Self)
        ensures
            r@ == builtin_model(4),
    {
        proof {
            lemma_builtin_position(4);
        }
        Self::builtin(
            0x0005,
            HpkeKemType::DhKemP521,
            HpkeKdfType::HkdfSha512,
            AeadType::Aes256Gcm,
            HashType::Sha2_512,
            SignatureScheme::ECDSA_SECP521R1_SHA512,
        )
    }

    /// DH KEM x448 | Chacha20Poly1305 | SHA2-512 | Ed448
    pub fn MLS_256_DHKEMX448_CHACHA20POLY1305_SHA512_Ed448() -> (r: Self)
        ensures
            r@ == builtin_model(5),
    {
        proof {
            lemma_builtin_position(5);
        }
        Self::builtin(
            0x0006,
            HpkeKemType::DhKem448,
            HpkeKdfType::HkdfSha512,
            AeadType::ChaCha20Poly1305,
            HashType::Sha2_512,
            SignatureScheme::ED448,
        )
    }

    /// DH KEM P384 | AES-GCM 256 | SHA2-384 | EcDSA P384
    pub fn MLS_256_DHKEMP384_AES256GCM_SHA384_P384() -> (r: Self)
        ensures
            r@ == builtin_model(6),
    {
        proof {
            lemma_builtin_position(6);
        }
        Self::builtin(
            0x0007,
            HpkeKemType::DhKemP384,
            HpkeKdfType::HkdfSha384,
            AeadType::Aes256Gcm,
            HashType::Sha2_384,
            SignatureScheme::ECDSA_SECP384R1_SHA384,
        )
    }

    /// The built-in ciphersuite at position `i` of the table.
    pub fn builtin_at(i: usize) -> (r: Self)
        requires
            i < BUILTIN_COUNT,
        ensures
            r@ == builtin_model(i as int),
    {
        match i {
            0 => Self::MLS_128_DHKEMX25519_AES128GCM_SHA256_Ed25519(),
            1 => Self::MLS_128_DHKEMP256_AES128GCM_SHA256_P256(),
            2 => Self::MLS_128_DHKEMX25519_CHACHA20POLY1305_SHA256_Ed25519(),
            3 => Self::MLS_256_DHKEMX448_AES256GCM_SHA512_Ed448(),
            4 => Self::MLS_256_DHKEMP521_AES256GCM_SHA512_P521(),
            5 => Self::MLS_256_DHKEMX448_CHACHA20POLY1305_SHA512_Ed448(),
            _ => Self::MLS_256_DHKEMP384_AES256GCM_SHA384_P384(),
        }
    }

    /// The name of the built-in ciphersuite at position `i` of the table.
    pub fn name_at(i: usize) -> (r: &'static str)
        requires
            i < BUILTIN_COUNT,
        ensures
            r@ == builtin_name(i as int),
    {
        BUILTIN_NAMES[i]
    }

    /// The position in the table of the built-in ciphersuite whose code
    /// point is `v`: the first one, as the table is searched in order.
    fn position_of(v: u16) -> (r: Option<usize>)
        ensures
            match r {
                Some(i) => builtin_position(v) == Some(i as int),
                None => builtin_position(v) is None,
            },
    {
        let mut i: usize = 0;
        while i < BUILTIN_COUNT
            invariant
                i <= BUILTIN_COUNT,
                builtin_position(v) == position_from(v, i as int),
            decreases BUILTIN_COUNT - i,
        {
            let c = Self::builtin_at(i);
            if c.id == v {
                return Some(i);
            }
            i = i + 1;
        }
        None
    }

    /// The code point of this ciphersuite.
    pub fn id(&self) -> (r: u16)
        ensures
            r == self@.id,
    {
        self.id
    }

    /// Position in the table of built-in ciphersuites, for a built-in one.
    pub fn index(&self) -> (r: Option<usize>)
        ensures
            match r {
                Some(i) => i < BUILTIN_COUNT && i == self.position() && builtin_position(self@.id)
                    == Some(i as int) && self@ == builtin_model(i as int),
                None => builtin_position(self@.id) is None,
            },
    {
        proof {
            use_type_invariant(self);
            lemma_position_in_table(self@.id, 0);
        }
        Self::position_of(self.id)
    }

    /// Whether this is one of the built-in ciphersuites.
    pub fn is_builtin(&self) -> (r: bool)
        ensures
            r == self.is_builtin_spec(),
    {
        Self::position_of(self.id).is_some()
    }

    /// The parameters of this ciphersuite.
    pub fn params(&self) -> (r: CiphersuiteParams)
        ensures
            r == self.params_spec(),
    {
        CiphersuiteParams {
            kem: self.kem,
            kdf: self.kdf,
            aead: self.aead,
            hash: self.hash,
            signature: self.signature,
        }
    }

    /// A custom ciphersuite: `id` must be a private-use code point that no
    /// built-in ciphersuite has.
    pub fn try_custom(id: u16, params: CiphersuiteParams) -> (r: Result<
        Ciphersuite,
        CustomCiphersuiteError,
    >)
        ensures
            match r {
                Ok(c) => custom_refusal(id) is None && c@ == model_of(id, params),
                Err(e) => custom_refusal(id) == Some(e),
            },
    {
        if id < PRIVATE_USE_START {
            return Err(CustomCiphersuiteError::OutsidePrivateUse);
        }
        if Self::position_of(id).is_some() {
            return Err(CustomCiphersuiteError::BuiltIn);
        }
        Ok(
            Self::builtin(
                id,
                params.kem,
                params.kdf,
                params.aead,
                params.hash,
                params.signature,
            ),
        )
    }

    /// A custom ciphersuite, for a code point that [`Ciphersuite::try_custom`]
    /// accepts.
    pub fn custom(id: u16, params: CiphersuiteParams) -> (r: Ciphersuite)
        requires
            custom_refusal(id) is None,
        ensures
            r@ == model_of(id, params),
    {
        Self::builtin(id, params.kem, params.kdf, params.aead, params.hash, params.signature)
    }
}

/// The HPKE AEAD identifier with the same code point as an AEAD type.
pub open spec fn hpke_aead_of(aead: AeadType) -> HpkeAeadType {
    HpkeAeadType::from_code(aead.code())
}

impl Ciphersuite {
    /// Name of a built-in ciphersuite, as the self-describing serde
    /// encoding stores it.
    pub fn name(&self) -> (r: Option<&'static str>)
        ensures
            match r {
                Some(n) => builtin_position(self@.id) is Some && n@ == builtin_name(
                    self.position(),
                ),
                None => builtin_position(self@.id) is None,
            },
    {
        match self.index() {
            Some(i) => Some(Self::name_at(i)),
            None => None,
        }
    }

    /// Get the [`HashType`] for this [`Ciphersuite`]
    pub fn hash_algorithm(&self) -> (r: HashType)
        ensures
            r == self@.hash,
    {
        self.hash
    }

    /// Get the [`SignatureScheme`] for this [`Ciphersuite`].
    pub fn signature_algorithm(&self) -> (r: SignatureScheme)
        ensures
            r == self@.signature,
    {
        self.signature
    }

    /// Get the [`AeadType`] for this [`Ciphersuite`].
    pub fn aead_algorithm(&self) -> (r: AeadType)
        ensures
            r == self@.aead,
    {
        self.aead
    }

    /// Get the [`HpkeKdfType`] for this [`Ciphersuite`].
    pub fn hpke_kdf_algorithm(&self) -> (r: HpkeKdfType)
        ensures
            r == self@.kdf,
    {
        self.kdf
    }

    /// Get the [`HpkeKemType`] for this [`Ciphersuite`].
    pub fn hpke_kem_algorithm(&self) -> (r: HpkeKemType)
        ensures
            r == self@.kem,
    {
        self.kem
    }

    /// Get the [`HpkeAeadType`] for this [`Ciphersuite`].
    pub fn hpke_aead_algorithm(&self) -> (r: HpkeAeadType)
        ensures
            r == hpke_aead_of(self@.aead),
    {
        HpkeAeadType::new(self.aead.id())
    }

    /// Get the [`HpkeConfig`] for this [`Ciphersuite`].
    pub fn hpke_config(&self) -> (r: HpkeConfig)
        ensures
            r.0 == self@.kem,
            r.1 == self@.kdf,
            r.2 == hpke_aead_of(self@.aead),
    {
        HpkeConfig(self.hpke_kem_algorithm(), self.hpke_kdf_algorithm(), self.hpke_aead_algorithm())
    }

    /// Get the length of the used hash algorithm.
    pub fn hash_length(&self) -> (r: usize)
        ensures
            r == self@.hash.output_len(),
    {
        self.hash_algorithm().size()
    }

    /// Get the length of the AEAD tag.
    pub fn mac_length(&self) -> (r: usize)
        ensures
            r == self@.aead.tag_len(),
    {
        self.aead_algorithm().tag_size()
    }

    /// Returns the key size of the used AEAD.
    pub fn aead_key_length(&self) -> (r: usize)
        ensures
            r == self@.aead.key_len(),
    {
        self.aead_algorithm().key_size()
    }

    /// Returns the length of the nonce of the AEAD.
    pub fn aead_nonce_length(&self) -> (r: usize)
        ensures
            r == self@.aead.nonce_len(),
    {
        self.aead_algorithm().nonce_size()
    }
}

impl PartialEq for Ciphersuite {
    fn eq(&self, other: &Self) -> (r: bool) {
        self.id == other.id
    }
}

impl vstd::std_specs::cmp::PartialEqSpecImpl for Ciphersuite {
    open spec fn obeys_eq_spec() -> bool {
        true
    }

    open spec fn eq_spec(&self, other: &Self) -> bool {
        self@.id == other@.id
    }
}

impl Eq for Ciphersuite {

}

impl PartialOrd for Ciphersuite {
    fn partial_cmp(&self, other: &Self) -> (r: Option<core::cmp::Ordering>) {
        if self.id < other.id {
            Some(core::cmp::Ordering::Less)
        } else if self.id == other.id {
            Some(core::cmp::Ordering::Equal)
        } else {
            Some(core::cmp::Ordering::Greater)
        }
    }
}

impl vstd::std_specs::cmp::PartialOrdSpecImpl for Ciphersuite {
    open spec fn obeys_partial_cmp_spec() -> bool {
        true
    }

    open spec fn partial_cmp_spec(&self, other: &Self) -> Option<core::cmp::Ordering> {
        if self@.id < other@.id {
            Some(core::cmp::Ordering::Less)
        } else if self@.id == other@.id {
            Some(core::cmp::Ordering::Equal)
        } else {
            Some(core::cmp::Ordering::Greater)
        }
    }
}

impl core::hash::Hash for Ciphersuite {
    fn hash<H: core::hash::Hasher>(&self, state: &mut H) {
        hash_u16(self.id, state)
    }
}

/// The built-in ciphersuite at position `i` of the table, as a value.
pub closed spec fn builtin_suite(i: int) -> Ciphersuite {
    let m = builtin_model(i);
    Ciphersuite { id: m.id, kem: m.kem, kdf: m.kdf, aead: m.aead, hash: m.hash, signature: m.signature }
}

/// The value of the built-in ciphersuite at position `i` has the model of
/// that position.
pub proof fn lemma_builtin_suite(i: int)
    ensures
        builtin_suite(i)@ == builtin_model(i),
{
}

/// What looking a code point up gives: the built-in ciphersuite with that
/// code point, or the decoding error that names the code point.
pub open spec fn lookup(v: u16) -> Result<Ciphersuite, tls_codec::Error> {
    match builtin_position(v) {
        Some(i) => Ok(builtin_suite(i)),
        None => Err(decoding_error(invalid_ciphersuite_message(v))),
    }
}

impl TryFrom<u16> for Ciphersuite {
    type Error = tls_codec::Error;

    fn try_from(v: u16) -> (r: Result<Self, Self::Error>)
        ensures
            r == lookup(v),
            match r {
                Ok(c) => builtin_position(v) == Some(c.position()) && c@ == builtin_model(
                    c.position(),
                ) && c@.id == v,
                Err(e) => builtin_position(v) is None && e == decoding_error(
                    invalid_ciphersuite_message(v),
                ),
            },
    {
        match Self::position_of(v) {
            Some(i) => {
                proof {
                    lemma_position_in_table(v, 0);
                }
                let c = Self::builtin_at(i);
                proof {
                    reveal_with_fuel(position_from, 8);
                    lemma_view_injective(c, builtin_suite(i as int));
                }
                Ok(c)
            },
            None => Err(tls_decoding_error(format_invalid_ciphersuite(v))),
        }
    }
}

impl vstd::std_specs::convert::TryFromSpecImpl<u16> for Ciphersuite {
    open spec fn obeys_try_from_spec() -> bool {
        true
    }

    open spec fn try_from_spec(v: u16) -> Result<Self, tls_codec::Error> {
        lookup(v)
    }
}


impl From<Ciphersuite> for u16 {
    fn from(s: Ciphersuite) -> (r: u16) {
        s.id
    }
}

impl vstd::std_specs::convert::FromSpecImpl<Ciphersuite> for u16 {
    open spec fn obeys_from_spec() -> bool {
        true
    }

    open spec fn from_spec(s: Ciphersuite) -> u16 {
        s@.id
    }
}

impl From<&Ciphersuite> for u16 {
    fn from(s: &Ciphersuite) -> (r: u16) {
        s.id
    }
}

impl vstd::std_specs::convert::FromSpecImpl<&Ciphersuite> for u16 {
    open spec fn obeys_from_spec() -> bool {
        true
    }

    open spec fn from_spec(s: &Ciphersuite) -> u16 {
        s@.id
    }
}

impl From<Ciphersuite> for SignatureScheme {
    fn from(ciphersuite_name: Ciphersuite) -> (r: Self) {
        ciphersuite_name.signature_algorithm()
    }
}

impl vstd::std_specs::convert::FromSpecImpl<Ciphersuite> for SignatureScheme {
    open spec fn obeys_from_spec() -> bool {
        true
    }

    open spec fn from_spec(s: Ciphersuite) -> SignatureScheme {
        s@.signature
    }
}

impl From<Ciphersuite> for AeadType {
    fn from(ciphersuite_name: Ciphersuite) -> (r: Self) {
        ciphersuite_name.aead_algorithm()
    }
}

impl vstd::std_specs::convert::FromSpecImpl<Ciphersuite> for AeadType {
    open spec fn obeys_from_spec() -> bool {
        true
    }

    open spec fn from_spec(s: Ciphersuite) -> AeadType {
        s@.aead
    }
}

impl From<Ciphersuite> for HpkeKemType {
    fn from(ciphersuite_name: Ciphersuite) -> (r: Self) {
        ciphersuite_name.hpke_kem_algorithm()
    }
}

impl vstd::std_specs::convert::FromSpecImpl<Ciphersuite> for HpkeKemType {
    open spec fn obeys_from_spec() -> bool {
        true
    }

    open spec fn from_spec(s: Ciphersuite) -> HpkeKemType {
        s@.kem
    }
}

impl From<Ciphersuite> for HpkeAeadType {
    fn from(ciphersuite_name: Ciphersuite) -> (r: Self) {
        ciphersuite_name.hpke_aead_algorithm()
    }
}

impl vstd::std_specs::convert::FromSpecImpl<Ciphersuite> for HpkeAeadType {
    open spec fn obeys_from_spec() -> bool {
        true
    }

    open spec fn from_spec(s: Ciphersuite) -> HpkeAeadType {
        hpke_aead_of(s@.aead)
    }
}

impl From<Ciphersuite> for HpkeKdfType {
    fn from(ciphersuite_name: Ciphersuite) -> (r: Self) {
        ciphersuite_name.hpke_kdf_algorithm()
    }
}

impl vstd::std_specs::convert::FromSpecImpl<Ciphersuite> for HpkeKdfType {
    open spec fn obeys_from_spec() -> bool {
        true
    }

    open spec fn from_spec(s: Ciphersuite) -> HpkeKdfType {
        s@.kdf
    }
}

impl From<Ciphersuite> for HashType {
    fn from(ciphersuite_name: Ciphersuite) -> (r: Self) {
        ciphersuite_name.hash_algorithm()
    }
}

impl vstd::std_specs::convert::FromSpecImpl<Ciphersuite> for HashType {
    open spec fn obeys_from_spec() -> bool {
        true
    }

    open spec fn from_spec(s: Ciphersuite) -> HashType {
        s@.hash
    }
}


/// The position of the first built-in ciphersuite at or after `start` whose
/// name is `name`.
pub open spec fn name_position_from(name: Seq<char>, start: int) -> Option<int>
    decreases BUILTIN_COUNT - start,
{
    if start < 0 || start >= BUILTIN_COUNT {
        None
    } else if builtin_name(start) == name {
        Some(start)
    } else {
        name_position_from(name, start + 1)
    }
}

/// The position in the table of the built-in ciphersuite named `name`, if
/// there is one.
pub open spec fn builtin_name_position(name: Seq<char>) -> Option<int> {
    name_position_from(name, 0)
}

/// The names of all stored variants: the built-in ones in the order of the
/// table, then `Custom`.
pub const STORED_VARIANT_NAMES: [&'static str; 8] = [
    "MLS_128_DHKEMX25519_AES128GCM_SHA256_Ed25519",
    "MLS_128_DHKEMP256_AES128GCM_SHA256_P256",
    "MLS_128_DHKEMX25519_CHACHA20POLY1305_SHA256_Ed25519",
    "MLS_256_DHKEMX448_AES256GCM_SHA512_Ed448",
    "MLS_256_DHKEMP521_AES256GCM_SHA512_P521",
    "MLS_256_DHKEMX448_CHACHA20POLY1305_SHA512_Ed448",
    "MLS_256_DHKEMP384_AES256GCM_SHA384_P384",
    "Custom",
];

/// The stored variant named `name`, if there is one.
pub open spec fn stored_variant_named(name: Seq<char>) -> Option<StoredVariant> {
    match builtin_name_position(name) {
        Some(i) => Some(StoredVariant::Builtin(i as usize)),
        None => if name == "Custom"@ {
            Some(StoredVariant::Custom)
        } else {
            None
        },
    }
}

impl Ciphersuite {
    /// The variant under which serde stores this ciphersuite.
    pub fn stored_variant(&self) -> (r: StoredVariant)
        ensures
            match builtin_position(self@.id) {
                Some(i) => r == StoredVariant::Builtin(i as usize),
                None => r == StoredVariant::Custom,
            },
    {
        match self.index() {
            Some(i) => StoredVariant::Builtin(i),
            None => StoredVariant::Custom,
        }
    }

    /// The name under which serde stores this ciphersuite, taken from
    /// [`STORED_VARIANT_NAMES`]: a built-in one's name in the table,
    /// `Custom` for any other.
    pub fn stored_name(&self) -> (r: &'static str)
        ensures
            match builtin_position(self@.id) {
                Some(i) => r@ == builtin_name(i) && r@ == STORED_VARIANT_NAMES@[i]@,
                None => r@ == "Custom"@ && r@ == STORED_VARIANT_NAMES@[BUILTIN_COUNT as int]@,
            },
    {
        match self.index() {
            Some(i) => STORED_VARIANT_NAMES[i],
            None => STORED_VARIANT_NAMES[BUILTIN_COUNT],
        }
    }

    /// The stored variant whose index, in the compact serde encoding, is
    /// `v`, if `v` is one.
    pub fn stored_variant_from_u64(v: u64) -> (r: Option<StoredVariant>)
        ensures
            r == (if v < BUILTIN_COUNT {
                Some(StoredVariant::Builtin(v as usize))
            } else if v == CUSTOM_VARIANT_INDEX {
                Some(StoredVariant::Custom)
            } else {
                None
            }),
    {
        if v < BUILTIN_COUNT as u64 {
            Some(StoredVariant::Builtin(v as usize))
        } else if v == CUSTOM_VARIANT_INDEX as u64 {
            Some(StoredVariant::Custom)
        } else {
            None
        }
    }

    /// The position in the table of the built-in ciphersuite named `v`.
    pub fn variant_index_from_str(v: &str) -> (r: Option<usize>)
        ensures
            match r {
                Some(i) => builtin_name_position(v@) == Some(i as int),
                None => builtin_name_position(v@) is None,
            },
    {
        let bytes = v.as_bytes();
        let mut i: usize = 0;
        while i < BUILTIN_COUNT
            invariant
                i <= BUILTIN_COUNT,
                bytes@ == v.spec_bytes(),
                builtin_name_position(v@) == name_position_from(v@, i as int),
            decreases BUILTIN_COUNT - i,
        {
            let name = Self::name_at(i);
            let same = bytes_equal(bytes, name.as_bytes());
            proof {
                lemma_encoding_injective(v@, name@);
            }
            if same {
                return Some(i);
            }
            i = i + 1;
        }
        None
    }

    /// The stored variant named `v`, if there is one.
    pub fn stored_variant_from_str(v: &str) -> (r: Option<StoredVariant>)
        ensures
            r == stored_variant_named(v@),
    {
        match Self::variant_index_from_str(v) {
            Some(i) => Some(StoredVariant::Builtin(i)),
            None => {
                let same = bytes_equal(v.as_bytes(), CUSTOM_VARIANT_NAME.as_bytes());
                proof {
                    lemma_encoding_injective(v@, CUSTOM_VARIANT_NAME@);
                }
                if same {
                    Some(StoredVariant::Custom)
                } else {
                    None
                }
            },
        }
    }

    /// The stored variant whose name the bytes `v` spell in UTF-8.
    pub fn stored_variant_from_bytes(v: &[u8]) -> (r: Result<StoredVariant, VariantNameError>)
        ensures
            !valid_utf8(v@) ==> r == Err::<StoredVariant, VariantNameError>(
                VariantNameError::InvalidUtf8,
            ),
            valid_utf8(v@) ==> r == match stored_variant_named(decode_utf8(v@)) {
                Some(s) => Ok::<StoredVariant, VariantNameError>(s),
                None => Err(VariantNameError::UnknownName),
            },
    {
        match str_from_utf8(v) {
            Some(s) => {
                proof {
                    lemma_decode_of_encoding(s@, v@);
                }
                match Self::stored_variant_from_str(s) {
                    Some(x) => Ok(x),
                    None => Err(VariantNameError::UnknownName),
                }
            },
            None => Err(VariantNameError::InvalidUtf8),
        }
    }

    /// Length of the TLS encoding of a ciphersuite, its code point.
    pub fn tls_serialized_len(&self) -> (r: usize)
        ensures
            r == 2,
    {
        u16_tls_serialized_len(self.id)
    }

    /// The TLS encoding of this ciphersuite: its code point in network byte
    /// order.
    pub fn tls_serialize_detached(&self) -> (r: Result<Vec<u8>, tls_codec::Error>)
        ensures
            match r {
                Ok(bytes) => bytes@ == be_bytes(self@.id),
                Err(_) => false,
            },
    {
        u16_tls_serialize_detached(self.id)
    }

    /// Reads a ciphersuite from the front of `bytes`: a code point in network
    /// byte order, which must be that of a built-in ciphersuite.
    pub fn tls_deserialize_bytes(bytes: &[u8]) -> (r: Result<(Ciphersuite, &[u8]), tls_codec::Error>)
        ensures
            match r {
                Ok((c, rest)) => bytes@.len() >= 2 && lookup(be_u16(bytes@[0], bytes@[1])) == Ok::<
                    Ciphersuite,
                    tls_codec::Error,
                >(c) && rest@ == bytes@.skip(2),
                Err(e) => if bytes@.len() < 2 {
                    e == u16_decode_error(bytes@)
                } else {
                    lookup(be_u16(bytes@[0], bytes@[1])) == Err::<Ciphersuite, tls_codec::Error>(e)
                },
            },
    {
        match u16_tls_deserialize_bytes(bytes) {
            Ok((v, rest)) => match Self::try_from(v) {
                Ok(c) => Ok((c, rest)),
                Err(e) => Err(e),
            },
            Err(e) => Err(e),
        }
    }
}


/// A ciphersuite code point as it arrives on the wire, which may name no
/// built-in ciphersuite.
///
/// Used to accept unknown values, e.g., in `Capabilities`.
#[derive(Clone, Copy, Debug, PartialEq, Eq, Structural)]
pub struct VerifiableCiphersuite(u16);

impl VerifiableCiphersuite {
    /// The code point this value carries.
    pub closed spec fn code(self) -> u16 {
        self.0
    }

    /// The value that carries `value`.
    pub closed spec fn with_code(value: u16) -> Self {
        VerifiableCiphersuite(value)
    }

    /// The value that carries a code point is determined by it.
    pub proof fn lemma_with_code(value: u16, other: Self)
        ensures
            Self::with_code(value).code() == value,
            other.code() == value ==> other == Self::with_code(value),
    {
    }

    /// Wraps a raw code point.
    pub fn new(value: u16) -> (r: Self)
        ensures
            r == Self::with_code(value),
            r.code() == value,
    {
        Self(value)
    }

    /// Returns the raw u16 value of this ciphersuite.
    pub fn value(&self) -> (r: u16)
        ensures
            r == self.code(),
    {
        self.0
    }

    /// Returns true if this is a GREASE ciphersuite value.
    ///
    /// GREASE values are used to ensure implementations properly handle unknown
    /// ciphersuites. See [RFC 9420 Section 13.5](https://www.rfc-editor.org/rfc/rfc9420.html#section-13.5).
    ///
    /// GREASE ciphersuites cannot be used for actual cryptographic operations.
    pub fn is_grease(&self) -> (r: bool)
        ensures
            r == is_grease(self.code()),
    {
        is_grease_value(self.0)
    }
}

impl From<Ciphersuite> for VerifiableCiphersuite {
    fn from(value: Ciphersuite) -> (r: Self)
        ensures
            r == VerifiableCiphersuite::with_code(value@.id),
            r.code() == value@.id,
    {
        Self(value.id())
    }
}

impl vstd::std_specs::convert::FromSpecImpl<Ciphersuite> for VerifiableCiphersuite {
    open spec fn obeys_from_spec() -> bool {
        true
    }

    open spec fn from_spec(value: Ciphersuite) -> VerifiableCiphersuite {
        VerifiableCiphersuite::with_code(value@.id)
    }
}

impl TryFrom<VerifiableCiphersuite> for Ciphersuite {
    type Error = tls_codec::Error;

    fn try_from(value: VerifiableCiphersuite) -> (r: Result<Self, Self::Error>)
        ensures
            r == lookup(value.code()),
    {
        Ciphersuite::try_from(value.0)
    }
}

impl vstd::std_specs::convert::TryFromSpecImpl<VerifiableCiphersuite> for Ciphersuite {
    open spec fn obeys_try_from_spec() -> bool {
        true
    }

    open spec fn try_from_spec(value: VerifiableCiphersuite) -> Result<Self, tls_codec::Error> {
        lookup(value.code())
    }
}

} // verus!
