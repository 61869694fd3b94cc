//! The algorithm identifiers that make up a ciphersuite. Each is a code
//! point; the ones this library knows have names, and any other code point
//! can be carried as a custom value. Two values are equal when they have the
//! same code point (and, for AEADs and hashes, the same sizes).

use vstd::prelude::*;
use vstd::std_specs::cmp::PartialEqSpecImpl;

use vstd::utf8::{decode_utf8, valid_utf8};

use crate::stored::{
    variant_at_index, variant_from_bytes, variant_from_index, variant_from_name, variant_named,
    StoredVariant, VariantNameError,
};
use crate::text::decimal;
use crate::wire::{
    be_bytes, be_u16, tls_unknown_value, u16_decode_error, u16_tls_deserialize_bytes,
    u16_tls_serialize_detached, u16_tls_serialized_len, unknown_value_error,
};

verus! {

/// `<u16 as Hash>::hash`: feeds a code point to the hasher. Nothing is
/// stated of the hasher's state afterwards.
#[verifier::external_body]
pub(crate) fn hash_u16<H: core::hash::Hasher>(v: u16, state: &mut H) {
    core::hash::Hash::hash(&v, state)
}

/// AEAD types
#[derive(Copy, Clone, Debug)]
pub enum AeadType {
    /// AES GCM 128
    Aes128Gcm,
    /// AES GCM 256
    Aes256Gcm,
    /// ChaCha20 Poly1305
    ChaCha20Poly1305,
    /// An AEAD that this library has no name for, with its sizes in bytes.
    Custom { id: u16, key_size: usize, tag_size: usize },
}

impl AeadType {
    /// The HPKE AEAD identifier of this algorithm.
    pub open spec fn code(self) -> u16 {
        match self {
            AeadType::Aes128Gcm => 0x0001,
            AeadType::Aes256Gcm => 0x0002,
            AeadType::ChaCha20Poly1305 => 0x0003,
            AeadType::Custom { id, .. } => id,
        }
    }

    /// Length of the authentication tag in bytes.
    pub open spec fn tag_len(self) -> usize {
        match self {
            AeadType::Aes128Gcm => 16,
            AeadType::Aes256Gcm => 16,
            AeadType::ChaCha20Poly1305 => 16,
            AeadType::Custom { tag_size, .. } => tag_size,
        }
    }

    /// Length of the key in bytes.
    pub open spec fn key_len(self) -> usize {
        match self {
            AeadType::Aes128Gcm => 16,
            AeadType::Aes256Gcm => 32,
            AeadType::ChaCha20Poly1305 => 32,
            AeadType::Custom { key_size, .. } => key_size,
        }
    }

    /// Length of the nonce in bytes, the same for every AEAD.
    pub open spec fn nonce_len(self) -> usize {
        12
    }

    /// The AEAD with this code point and these sizes: the named one where
    /// there is one.
    pub open spec fn from_parts(id: u16, key_size: usize, tag_size: usize) -> Self {
        if id == 0x0001 && key_size == 16 && tag_size == 16 {
            AeadType::Aes128Gcm
        } else if id == 0x0002 && key_size == 32 && tag_size == 16 {
            AeadType::Aes256Gcm
        } else if id == 0x0003 && key_size == 32 && tag_size == 16 {
            AeadType::ChaCha20Poly1305
        } else {
            AeadType::Custom { id, key_size, tag_size }
        }
    }

    /// The AEAD with this code point, key size and tag size (in bytes).
    pub fn new(id: u16, key_size: usize, tag_size: usize) -> (r: Self)
        ensures
            r == Self::from_parts(id, key_size, tag_size),
            r.code() == id,
            r.key_len() == key_size,
            r.tag_len() == tag_size,
    {
        if id == 0x0001 && key_size == 16 && tag_size == 16 {
            AeadType::Aes128Gcm
        } else if id == 0x0002 && key_size == 32 && tag_size == 16 {
            AeadType::Aes256Gcm
        } else if id == 0x0003 && key_size == 32 && tag_size == 16 {
            AeadType::ChaCha20Poly1305
        } else {
            AeadType::Custom { id, key_size, tag_size }
        }
    }

    /// The code point of this [`AeadType`].
    pub fn id(&self) -> (r: u16)
        ensures
            r == self.code(),
    {
        match self {
            AeadType::Aes128Gcm => 0x0001,
            AeadType::Aes256Gcm => 0x0002,
            AeadType::ChaCha20Poly1305 => 0x0003,
            AeadType::Custom { id, .. } => *id,
        }
    }

    /// Get the tag size of the [`AeadType`] in bytes.
    pub fn tag_size(&self) -> (r: usize)
        ensures
            r == self.tag_len(),
    {
        match self {
            AeadType::Aes128Gcm => 16,
            AeadType::Aes256Gcm => 16,
            AeadType::ChaCha20Poly1305 => 16,
            AeadType::Custom { tag_size, .. } => *tag_size,
        }
    }

    /// Get the key size of the [`AeadType`] in bytes.
    pub fn key_size(&self) -> (r: usize)
        ensures
            r == self.key_len(),
    {
        match self {
            AeadType::Aes128Gcm => 16,
            AeadType::Aes256Gcm => 32,
            AeadType::ChaCha20Poly1305 => 32,
            AeadType::Custom { key_size, .. } => *key_size,
        }
    }

    /// Get the nonce size of the [`AeadType`] in bytes.
    pub fn nonce_size(&self) -> (r: usize)
        ensures
            r == self.nonce_len(),
    {
        12
    }
}

impl PartialEq for AeadType {
    fn eq(&self, other: &Self) -> (r: bool) {
        self.id() == other.id() && self.key_size() == other.key_size() && self.tag_size()
            == other.tag_size()
    }
}

impl PartialEqSpecImpl for AeadType {
    open spec fn obeys_eq_spec() -> bool {
        true
    }

    open spec fn eq_spec(&self, other: &Self) -> bool {
        self.code() == other.code() && self.key_len() == other.key_len() && self.tag_len()
            == other.tag_len()
    }
}

impl Eq for AeadType {

}

/// Hash types
#[allow(non_camel_case_types)]
#[derive(Copy, Clone, Debug)]
pub enum HashType {
    Sha2_256,
    Sha2_384,
    Sha2_512,
    /// A hash that this library has no name for, with its output size in
    /// bytes.
    Custom { id: u16, size: usize },
}

impl HashType {
    /// The TLS HashAlgorithm identifier of this hash.
    pub open spec fn code(self) -> u16 {
        match self {
            HashType::Sha2_256 => 0x04,
            HashType::Sha2_384 => 0x05,
            HashType::Sha2_512 => 0x06,
            HashType::Custom { id, .. } => id,
        }
    }

    /// Output length of the hash in bytes.
    pub open spec fn output_len(self) -> usize {
        match self {
            HashType::Sha2_256 => 32,
            HashType::Sha2_384 => 48,
            HashType::Sha2_512 => 64,
            HashType::Custom { size, .. } => size,
        }
    }

    /// The hash with this code point and output size: the named one where
    /// there is one.
    pub open spec fn from_parts(id: u16, size: usize) -> Self {
        if id == 0x04 && size == 32 {
            HashType::Sha2_256
        } else if id == 0x05 && size == 48 {
            HashType::Sha2_384
        } else if id == 0x06 && size == 64 {
            HashType::Sha2_512
        } else {
            HashType::Custom { id, size }
        }
    }

    /// The hash with this code point and output size (in bytes).
    pub fn new(id: u16, size: usize) -> (r: Self)
        ensures
            r == Self::from_parts(id, size),
            r.code() == id,
            r.output_len() == size,
    {
        if id == 0x04 && size == 32 {
            HashType::Sha2_256
        } else if id == 0x05 && size == 48 {
            HashType::Sha2_384
        } else if id == 0x06 && size == 64 {
            HashType::Sha2_512
        } else {
            HashType::Custom { id, size }
        }
    }

    /// The code point of this [`HashType`].
    pub fn id(&self) -> (r: u16)
        ensures
            r == self.code(),
    {
        match self {
            HashType::Sha2_256 => 0x04,
            HashType::Sha2_384 => 0x05,
            HashType::Sha2_512 => 0x06,
            HashType::Custom { id, .. } => *id,
        }
    }

    /// Returns the output size of a hash by [`HashType`].
    pub fn size(&self) -> (r: usize)
        ensures
            r == self.output_len(),
    {
        match self {
            HashType::Sha2_256 => 32,
            HashType::Sha2_384 => 48,
            HashType::Sha2_512 => 64,
            HashType::Custom { size, .. } => *size,
        }
    }
}

impl PartialEq for HashType {
    fn eq(&self, other: &Self) -> (r: bool) {
        self.id() == other.id() && self.size() == other.size()
    }
}

impl PartialEqSpecImpl for HashType {
    open spec fn obeys_eq_spec() -> bool {
        true
    }

    open spec fn eq_spec(&self, other: &Self) -> bool {
        self.code() == other.code() && self.output_len() == other.output_len()
    }
}

impl Eq for HashType {

}

/// SignatureScheme according to IANA TLS parameters
#[allow(non_camel_case_types)]
#[derive(Copy, Clone, Debug)]
pub enum SignatureScheme {
    /// ECDSA_SECP256R1_SHA256
    ECDSA_SECP256R1_SHA256,
    /// ECDSA_SECP384R1_SHA384
    ECDSA_SECP384R1_SHA384,
    /// ECDSA_SECP521R1_SHA512
    ECDSA_SECP521R1_SHA512,
    /// ED25519
    ED25519,
    /// ED448
    ED448,
    /// A code point that this library has no name for.
    Custom(u16),
}

impl SignatureScheme {
    /// The code point of this value.
    pub open spec fn code(self) -> u16 {
        match self {
            SignatureScheme::ECDSA_SECP256R1_SHA256 => 0x0403,
            SignatureScheme::ECDSA_SECP384R1_SHA384 => 0x0503,
            SignatureScheme::ECDSA_SECP521R1_SHA512 => 0x0603,
            SignatureScheme::ED25519 => 0x0807,
            SignatureScheme::ED448 => 0x0808,
            SignatureScheme::Custom(v) => v,
        }
    }

    /// The value with code point `v`: the named one where there is one.
    pub open spec fn from_code(v: u16) -> Self {
        if v == 0x0403 {
            SignatureScheme::ECDSA_SECP256R1_SHA256
        } else if v == 0x0503 {
            SignatureScheme::ECDSA_SECP384R1_SHA384
        } else if v == 0x0603 {
            SignatureScheme::ECDSA_SECP521R1_SHA512
        } else if v == 0x0807 {
            SignatureScheme::ED25519
        } else if v == 0x0808 {
            SignatureScheme::ED448
        } else {
            SignatureScheme::Custom(v)
        }
    }

    /// The value with code point `v`.
    pub fn new(v: u16) -> (r: Self)
        ensures
            r == Self::from_code(v),
    {
        match v {
            0x0403 => SignatureScheme::ECDSA_SECP256R1_SHA256,
            0x0503 => SignatureScheme::ECDSA_SECP384R1_SHA384,
            0x0603 => SignatureScheme::ECDSA_SECP521R1_SHA512,
            0x0807 => SignatureScheme::ED25519,
            0x0808 => SignatureScheme::ED448,
            _ => SignatureScheme::Custom(v),
        }
    }

    /// The code point of this [`SignatureScheme`].
    pub fn id(&self) -> (r: u16)
        ensures
            r == self.code(),
    {
        match self {
            SignatureScheme::ECDSA_SECP256R1_SHA256 => 0x0403,
            SignatureScheme::ECDSA_SECP384R1_SHA384 => 0x0503,
            SignatureScheme::ECDSA_SECP521R1_SHA512 => 0x0603,
            SignatureScheme::ED25519 => 0x0807,
            SignatureScheme::ED448 => 0x0808,
            SignatureScheme::Custom(v) => *v,
        }
    }
}

impl PartialEq for SignatureScheme {
    fn eq(&self, other: &Self) -> (r: bool) {
        self.id() == other.id()
    }
}

impl PartialEqSpecImpl for SignatureScheme {
    open spec fn obeys_eq_spec() -> bool {
        true
    }

    open spec fn eq_spec(&self, other: &Self) -> bool {
        self.code() == other.code()
    }
}

impl Eq for SignatureScheme {

}

impl core::hash::Hash for SignatureScheme {
    fn hash<H: core::hash::Hasher>(&self, state: &mut H) {
        hash_u16(self.id(), state)
    }
}

impl SignatureScheme {
    /// The named scheme whose identifier is `value`, if there is one.
    pub open spec fn known(value: u16) -> Option<SignatureScheme> {
        match SignatureScheme::from_code(value) {
            SignatureScheme::Custom(_) => None,
            s => Some(s),
        }
    }
}

impl SignatureScheme {
    /// Length of the TLS encoding of a scheme, its code point.
    pub fn tls_serialized_len(&self) -> (r: usize)
        ensures
            r == 2,
    {
        u16_tls_serialized_len(self.id())
    }

    /// The TLS encoding of this scheme: its code point in network byte
    /// order.
    pub fn tls_serialize_detached(&self) -> (r: Result<Vec<u8>, tls_codec::Error>)
        ensures
            match r {
                Ok(bytes) => bytes@ == be_bytes(self.code()),
                Err(_) => false,
            },
    {
        u16_tls_serialize_detached(self.id())
    }

    /// The scheme that the TLS code point `v` stands for. Like the decoder
    /// that tls_codec derives for an enum, it refuses a code point that
    /// names none of the schemes this library knows.
    pub fn from_tls_code(v: u16) -> (r: Result<SignatureScheme, tls_codec::Error>)
        ensures
            match SignatureScheme::known(v) {
                Some(s) => r == Ok::<SignatureScheme, tls_codec::Error>(s),
                None => r == Err::<SignatureScheme, tls_codec::Error>(unknown_value_error(v)),
            },
    {
        match v {
            0x0403 => Ok(SignatureScheme::ECDSA_SECP256R1_SHA256),
            0x0503 => Ok(SignatureScheme::ECDSA_SECP384R1_SHA384),
            0x0603 => Ok(SignatureScheme::ECDSA_SECP521R1_SHA512),
            0x0807 => Ok(SignatureScheme::ED25519),
            0x0808 => Ok(SignatureScheme::ED448),
            _ => Err(tls_unknown_value(v)),
        }
    }

    /// Reads a scheme from the front of `bytes`: a code point in network
    /// byte order, which must name a scheme this library knows.
    pub fn tls_deserialize_bytes(bytes: &[u8]) -> (r: Result<(SignatureScheme, &[u8]), tls_codec::Error>)
        ensures
            match r {
                Ok((s, rest)) => bytes@.len() >= 2 && SignatureScheme::known(
                    be_u16(bytes@[0], bytes@[1]),
                ) == Some(s) && rest@ == bytes@.skip(2),
                Err(e) => if bytes@.len() < 2 {
                    e == u16_decode_error(bytes@)
                } else {
                    SignatureScheme::known(be_u16(bytes@[0], bytes@[1])) is None && e
                        == unknown_value_error(be_u16(bytes@[0], bytes@[1]))
                },
            },
    {
        match u16_tls_deserialize_bytes(bytes) {
            Ok((v, rest)) => match SignatureScheme::from_tls_code(v) {
                Ok(s) => Ok((s, rest)),
                Err(e) => Err(e),
            },
            Err(e) => Err(e),
        }
    }
}

/// The message with which a code point that names no known signature scheme
/// is refused.
pub open spec fn unsupported_scheme_message(value: u16) -> Seq<char> {
    "Unsupported SignatureScheme: "@ + decimal(value as nat)
}

/// Formats the refusal message with `format!`, which writes a `u16` in
/// decimal without leading zeros.
#[verifier::external_body]
fn format_unsupported_scheme(value: u16) -> (r: String)
    ensures
        r@ == unsupported_scheme_message(value),
{
    format!("Unsupported SignatureScheme: {value}")
}

impl TryFrom<u16> for SignatureScheme {
    type Error = String;

    /// Only the schemes this library names convert; [`SignatureScheme::new`]
    /// takes any code point.
    fn try_from(value: u16) -> (r: Result<Self, Self::Error>)
        ensures
            match r {
                Ok(s) => SignatureScheme::known(value) == Some(s),
                Err(msg) => SignatureScheme::known(value) is None
                    && msg@ == unsupported_scheme_message(value),
            },
    {
        match value {
            0x0403 => Ok(SignatureScheme::ECDSA_SECP256R1_SHA256),
            0x0503 => Ok(SignatureScheme::ECDSA_SECP384R1_SHA384),
            0x0603 => Ok(SignatureScheme::ECDSA_SECP521R1_SHA512),
            0x0807 => Ok(SignatureScheme::ED25519),
            0x0808 => Ok(SignatureScheme::ED448),
            _ => Err(format_unsupported_scheme(value)),
        }
    }
}

/// The refusal message is a `String`, which no spec value can name; the
/// contract of `try_from` itself states what it returns.
impl vstd::std_specs::convert::TryFromSpecImpl<u16> for SignatureScheme {
    open spec fn obeys_try_from_spec() -> bool {
        false
    }

    open spec fn try_from_spec(value: u16) -> Result<Self, String> {
        match SignatureScheme::known(value) {
            Some(s) => Ok(s),
            None => Err(arbitrary()),
        }
    }
}

/// Crypto errors.
#[derive(Debug, PartialEq, Eq, Clone, Copy, Structural)]
pub enum CryptoError {
    CryptoLibraryError,
    AeadDecryptionError,
    HpkeDecryptionError,
    HpkeEncryptionError,
    UnsupportedSignatureScheme,
    KdfLabelTooLarge,
    KdfSerializationError,
    HkdfOutputLengthInvalid,
    InsufficientRandomness,
    InvalidSignature,
    UnsupportedAeadAlgorithm,
    UnsupportedKdf,
    InvalidLength,
    UnsupportedHashAlgorithm,
    SignatureEncodingError,
    SignatureDecodingError,
    SenderSetupError,
    ReceiverSetupError,
    ExporterError,
    UnsupportedCiphersuite,
    TlsSerializationError,
    TooMuchData,
    SigningError,
    InvalidPublicKey,
}

/// Convenience tuple struct for an HPKE configuration.
#[derive(Debug)]
pub struct HpkeConfig(pub HpkeKemType, pub HpkeKdfType, pub HpkeAeadType);

/// KEM Types for HPKE
#[derive(Copy, Clone, Debug)]
pub enum HpkeKemType {
    /// DH KEM on P256
    DhKemP256,
    /// DH KEM on P384
    DhKemP384,
    /// DH KEM on P521
    DhKemP521,
    /// DH KEM on x25519
    DhKem25519,
    /// DH KEM on x448
    DhKem448,
    /// A code point that this library has no name for.
    Custom(u16),
}

impl HpkeKemType {
    /// The code point of this value.
    pub open spec fn code(self) -> u16 {
        match self {
            HpkeKemType::DhKemP256 => 0x0010,
            HpkeKemType::DhKemP384 => 0x0011,
            HpkeKemType::DhKemP521 => 0x0012,
            HpkeKemType::DhKem25519 => 0x0020,
            HpkeKemType::DhKem448 => 0x0021,
            HpkeKemType::Custom(v) => v,
        }
    }

    /// The value with code point `v`: the named one where there is one.
    pub open spec fn from_code(v: u16) -> Self {
        if v == 0x0010 {
            HpkeKemType::DhKemP256
        } else if v == 0x0011 {
            HpkeKemType::DhKemP384
        } else if v == 0x0012 {
            HpkeKemType::DhKemP521
        } else if v == 0x0020 {
            HpkeKemType::DhKem25519
        } else if v == 0x0021 {
            HpkeKemType::DhKem448
        } else {
            HpkeKemType::Custom(v)
        }
    }

    /// The value with code point `v`.
    pub fn new(v: u16) -> (r: Self)
        ensures
            r == Self::from_code(v),
    {
        match v {
            0x0010 => HpkeKemType::DhKemP256,
            0x0011 => HpkeKemType::DhKemP384,
            0x0012 => HpkeKemType::DhKemP521,
            0x0020 => HpkeKemType::DhKem25519,
            0x0021 => HpkeKemType::DhKem448,
            _ => HpkeKemType::Custom(v),
        }
    }

    /// The code point of this [`HpkeKemType`].
    pub fn id(&self) -> (r: u16)
        ensures
            r == self.code(),
    {
        match self {
            HpkeKemType::DhKemP256 => 0x0010,
            HpkeKemType::DhKemP384 => 0x0011,
            HpkeKemType::DhKemP521 => 0x0012,
            HpkeKemType::DhKem25519 => 0x0020,
            HpkeKemType::DhKem448 => 0x0021,
            HpkeKemType::Custom(v) => *v,
        }
    }
}

impl PartialEq for HpkeKemType {
    fn eq(&self, other: &Self) -> (r: bool) {
        self.id() == other.id()
    }
}

impl PartialEqSpecImpl for HpkeKemType {
    open spec fn obeys_eq_spec() -> bool {
        true
    }

    open spec fn eq_spec(&self, other: &Self) -> bool {
        self.code() == other.code()
    }
}

impl Eq for HpkeKemType {

}

/// KDF Types for HPKE
#[derive(Copy, Clone, Debug)]
pub enum HpkeKdfType {
    /// HKDF SHA 256
    HkdfSha256,
    /// HKDF SHA 384
    HkdfSha384,
    /// HKDF SHA 512
    HkdfSha512,
    /// A code point that this library has no name for.
    Custom(u16),
}

impl HpkeKdfType {
    /// The code point of this value.
    pub open spec fn code(self) -> u16 {
        match self {
            HpkeKdfType::HkdfSha256 => 0x0001,
            HpkeKdfType::HkdfSha384 => 0x0002,
            HpkeKdfType::HkdfSha512 => 0x0003,
            HpkeKdfType::Custom(v) => v,
        }
    }

    /// The value with code point `v`: the named one where there is one.
    pub open spec fn from_code(v: u16) -> Self {
        if v == 0x0001 {
            HpkeKdfType::HkdfSha256
        } else if v == 0x0002 {
            HpkeKdfType::HkdfSha384
        } else if v == 0x0003 {
            HpkeKdfType::HkdfSha512
        } else {
            HpkeKdfType::Custom(v)
        }
    }

    /// The value with code point `v`.
    pub fn new(v: u16) -> (r: Self)
        ensures
            r == Self::from_code(v),
    {
        match v {
            0x0001 => HpkeKdfType::HkdfSha256,
            0x0002 => HpkeKdfType::HkdfSha384,
            0x0003 => HpkeKdfType::HkdfSha512,
            _ => HpkeKdfType::Custom(v),
        }
    }

    /// The code point of this [`HpkeKdfType`].
    pub fn id(&self) -> (r: u16)
        ensures
            r == self.code(),
    {
        match self {
            HpkeKdfType::HkdfSha256 => 0x0001,
            HpkeKdfType::HkdfSha384 => 0x0002,
            HpkeKdfType::HkdfSha512 => 0x0003,
            HpkeKdfType::Custom(v) => *v,
        }
    }
}

impl HpkeKdfType {
    /// The output length Nh of the KDF's hash, in bytes, as RFC 9180 lists
    /// it (Section 7.2); `None` for a KDF this library has no name for.
    pub open spec fn hpke_hash_len(self) -> Option<usize> {
        match self {
            HpkeKdfType::HkdfSha256 => Some(32),
            HpkeKdfType::HkdfSha384 => Some(48),
            HpkeKdfType::HkdfSha512 => Some(64),
            HpkeKdfType::Custom(_) => None,
        }
    }
}

impl PartialEq for HpkeKdfType {
    fn eq(&self, other: &Self) -> (r: bool) {
        self.id() == other.id()
    }
}

impl PartialEqSpecImpl for HpkeKdfType {
    open spec fn obeys_eq_spec() -> bool {
        true
    }

    open spec fn eq_spec(&self, other: &Self) -> bool {
        self.code() == other.code()
    }
}

impl Eq for HpkeKdfType {

}

/// AEAD Types for HPKE.
#[derive(Copy, Clone, Debug)]
pub enum HpkeAeadType {
    /// AES GCM 128
    AesGcm128,
    /// AES GCM 256
    AesGcm256,
    /// ChaCha20 Poly1305
    ChaCha20Poly1305,
    /// Export-only
    Export,
    /// A code point that this library has no name for.
    Custom(u16),
}

impl HpkeAeadType {
    /// The code point of this value.
    pub open spec fn code(self) -> u16 {
        match self {
            HpkeAeadType::AesGcm128 => 0x0001,
            HpkeAeadType::AesGcm256 => 0x0002,
            HpkeAeadType::ChaCha20Poly1305 => 0x0003,
            HpkeAeadType::Export => 0xFFFF,
            HpkeAeadType::Custom(v) => v,
        }
    }

    /// The value with code point `v`: the named one where there is one.
    pub open spec fn from_code(v: u16) -> Self {
        if v == 0x0001 {
            HpkeAeadType::AesGcm128
        } else if v == 0x0002 {
            HpkeAeadType::AesGcm256
        } else if v == 0x0003 {
            HpkeAeadType::ChaCha20Poly1305
        } else if v == 0xFFFF {
            HpkeAeadType::Export
        } else {
            HpkeAeadType::Custom(v)
        }
    }

    /// The value with code point `v`.
    pub fn new(v: u16) -> (r: Self)
        ensures
            r == Self::from_code(v),
    {
        match v {
            0x0001 => HpkeAeadType::AesGcm128,
            0x0002 => HpkeAeadType::AesGcm256,
            0x0003 => HpkeAeadType::ChaCha20Poly1305,
            0xFFFF => HpkeAeadType::Export,
            _ => HpkeAeadType::Custom(v),
        }
    }

    /// The code point of this [`HpkeAeadType`].
    pub fn id(&self) -> (r: u16)
        ensures
            r == self.code(),
    {
        match self {
            HpkeAeadType::AesGcm128 => 0x0001,
            HpkeAeadType::AesGcm256 => 0x0002,
            HpkeAeadType::ChaCha20Poly1305 => 0x0003,
            HpkeAeadType::Export => 0xFFFF,
            HpkeAeadType::Custom(v) => *v,
        }
    }
}

impl HpkeAeadType {
    /// The key length Nk of the AEAD, in bytes, as RFC 9180 lists it
    /// (Section 7.3); `None` for export-only and for an AEAD this library has
    /// no name for.
    pub open spec fn hpke_key_len(self) -> Option<usize> {
        match self {
            HpkeAeadType::AesGcm128 => Some(16),
            HpkeAeadType::AesGcm256 => Some(32),
            HpkeAeadType::ChaCha20Poly1305 => Some(32),
            _ => None,
        }
    }

    /// The nonce length Nn of the AEAD, in bytes, as RFC 9180 lists it.
    pub open spec fn hpke_nonce_len(self) -> Option<usize> {
        match self {
            HpkeAeadType::AesGcm128 => Some(12),
            HpkeAeadType::AesGcm256 => Some(12),
            HpkeAeadType::ChaCha20Poly1305 => Some(12),
            _ => None,
        }
    }

    /// The tag length Nt of the AEAD, in bytes, as RFC 9180 lists it.
    pub open spec fn hpke_tag_len(self) -> Option<usize> {
        match self {
            HpkeAeadType::AesGcm128 => Some(16),
            HpkeAeadType::AesGcm256 => Some(16),
            HpkeAeadType::ChaCha20Poly1305 => Some(16),
            _ => None,
        }
    }
}

impl PartialEq for HpkeAeadType {
    fn eq(&self, other: &Self) -> (r: bool) {
        self.id() == other.id()
    }
}

impl PartialEqSpecImpl for HpkeAeadType {
    open spec fn obeys_eq_spec() -> bool {
        true
    }

    open spec fn eq_spec(&self, other: &Self) -> bool {
        self.code() == other.code()
    }
}

impl Eq for HpkeAeadType {

}

// The stored forms of the parameter types.

/// The names under which serde stores the named AEADs, in order, then
/// `Custom`.
pub const AEAD_VARIANT_NAMES: [&'static str; 4] = [
    "Aes128Gcm",
    "Aes256Gcm",
    "ChaCha20Poly1305",
    "Custom",
];

impl AeadType {
    /// The variant under which serde stores this AEAD: a named one at its
    /// position, any other as `Custom`. A value made of what a named one is
    /// made of is stored as that one.
    pub open spec fn stored_as(self) -> StoredVariant {
        match Self::from_parts(self.code(), self.key_len(), self.tag_len()) {
            AeadType::Aes128Gcm => StoredVariant::Builtin(0),
            AeadType::Aes256Gcm => StoredVariant::Builtin(1),
            AeadType::ChaCha20Poly1305 => StoredVariant::Builtin(2),
            AeadType::Custom { .. } => StoredVariant::Custom,
        }
    }

    /// The named AEAD that serde stores at position `i`.
    pub open spec fn stored_at(i: int) -> Option<Self> {
        if i == 0 {
            Some(AeadType::Aes128Gcm)
        } else if i == 1 {
            Some(AeadType::Aes256Gcm)
        } else if i == 2 {
            Some(AeadType::ChaCha20Poly1305)
        } else {
            None
        }
    }

    /// The variant under which serde stores this AEAD.
    pub fn stored_variant(&self) -> (r: StoredVariant)
        ensures
            r == self.stored_as(),
    {
        match AeadType::new(self.id(), self.key_size(), self.tag_size()) {
            AeadType::Aes128Gcm => StoredVariant::Builtin(0),
            AeadType::Aes256Gcm => StoredVariant::Builtin(1),
            AeadType::ChaCha20Poly1305 => StoredVariant::Builtin(2),
            AeadType::Custom { .. } => StoredVariant::Custom,
        }
    }

    /// The name under which serde stores this AEAD, taken from
    /// [`AEAD_VARIANT_NAMES`].
    pub fn stored_name(&self) -> (r: &'static str)
        ensures
            r@ == match self.stored_as() {
                StoredVariant::Builtin(i) => AEAD_VARIANT_NAMES@[i as int]@,
                StoredVariant::Custom => AEAD_VARIANT_NAMES@[3]@,
            },
            self.stored_as() is Custom ==> r@ == "Custom"@,
    {
        match self.stored_variant() {
            StoredVariant::Builtin(i) => AEAD_VARIANT_NAMES[i],
            StoredVariant::Custom => AEAD_VARIANT_NAMES[3],
        }
    }

    /// The named AEAD that serde stores at position `i`, if there is one.
    pub fn stored_named(i: usize) -> (r: Option<Self>)
        ensures
            r == Self::stored_at(i as int),
    {
        match i {
            0 => Some(AeadType::Aes128Gcm),
            1 => Some(AeadType::Aes256Gcm),
            2 => Some(AeadType::ChaCha20Poly1305),
            _ => None,
        }
    }

    /// The stored variant whose index, in the compact serde encoding, is
    /// `v`, if `v` is one.
    pub fn stored_variant_from_u64(v: u64) -> (r: Option<StoredVariant>)
        ensures
            r == variant_at_index(AEAD_VARIANT_NAMES@, v),
    {
        variant_from_index(&AEAD_VARIANT_NAMES, v)
    }

    /// The stored variant named `v`, if there is one.
    pub fn stored_variant_from_str(v: &str) -> (r: Option<StoredVariant>)
        ensures
            r == variant_named(AEAD_VARIANT_NAMES@, v@),
    {
        variant_from_name(&AEAD_VARIANT_NAMES, v)
    }

    /// The stored variant whose name the bytes `v` spell in UTF-8.
    pub fn stored_variant_from_bytes(v: &[u8]) -> (r: Result<StoredVariant, VariantNameError>)
        ensures
            !valid_utf8(v@) ==> r == Err::<StoredVariant, VariantNameError>(
                VariantNameError::InvalidUtf8,
            ),
            valid_utf8(v@) ==> r == match variant_named(AEAD_VARIANT_NAMES@, decode_utf8(v@)) {
                Some(s) => Ok::<StoredVariant, VariantNameError>(s),
                None => Err(VariantNameError::UnknownName),
            },
    {
        variant_from_bytes(&AEAD_VARIANT_NAMES, v)
    }
}

/// The names under which serde stores the named hashes, in order, then
/// `Custom`.
pub const HASH_VARIANT_NAMES: [&'static str; 4] = [
    "Sha2_256",
    "Sha2_384",
    "Sha2_512",
    "Custom",
];

impl HashType {
    /// The variant under which serde stores this hash: a named one at its
    /// position, any other as `Custom`. A value made of what a named one is
    /// made of is stored as that one.
    pub open spec fn stored_as(self) -> StoredVariant {
        match Self::from_parts(self.code(), self.output_len()) {
            HashType::Sha2_256 => StoredVariant::Builtin(0),
            HashType::Sha2_384 => StoredVariant::Builtin(1),
            HashType::Sha2_512 => StoredVariant::Builtin(2),
            HashType::Custom { .. } => StoredVariant::Custom,
        }
    }

    /// The named hash that serde stores at position `i`.
    pub open spec fn stored_at(i: int) -> Option<Self> {
        if i == 0 {
            Some(HashType::Sha2_256)
        } else if i == 1 {
            Some(HashType::Sha2_384)
        } else if i == 2 {
            Some(HashType::Sha2_512)
        } else {
            None
        }
    }

    /// The variant under which serde stores this hash.
    pub fn stored_variant(&self) -> (r: StoredVariant)
        ensures
            r == self.stored_as(),
    {
        match HashType::new(self.id(), self.size()) {
            HashType::Sha2_256 => StoredVariant::Builtin(0),
            HashType::Sha2_384 => StoredVariant::Builtin(1),
            HashType::Sha2_512 => StoredVariant::Builtin(2),
            HashType::Custom { .. } => StoredVariant::Custom,
        }
    }

    /// The name under which serde stores this hash, taken from
    /// [`HASH_VARIANT_NAMES`].
    pub fn stored_name(&self) -> (r: &'static str)
        ensures
            r@ == match self.stored_as() {
                StoredVariant::Builtin(i) => HASH_VARIANT_NAMES@[i as int]@,
                StoredVariant::Custom => HASH_VARIANT_NAMES@[3]@,
            },
            self.stored_as() is Custom ==> r@ == "Custom"@,
    {
        match self.stored_variant() {
            StoredVariant::Builtin(i) => HASH_VARIANT_NAMES[i],
            StoredVariant::Custom => HASH_VARIANT_NAMES[3],
        }
    }

    /// The named hash that serde stores at position `i`, if there is one.
    pub fn stored_named(i: usize) -> (r: Option<Self>)
        ensures
            r == Self::stored_at(i as int),
    {
        match i {
            0 => Some(HashType::Sha2_256),
            1 => Some(HashType::Sha2_384),
            2 => Some(HashType::Sha2_512),
            _ => None,
        }
    }

    /// The stored variant whose index, in the compact serde encoding, is
    /// `v`, if `v` is one.
    pub fn stored_variant_from_u64(v: u64) -> (r: Option<StoredVariant>)
        ensures
            r == variant_at_index(HASH_VARIANT_NAMES@, v),
    {
        variant_from_index(&HASH_VARIANT_NAMES, v)
    }

    /// The stored variant named `v`, if there is one.
    pub fn stored_variant_from_str(v: &str) -> (r: Option<StoredVariant>)
        ensures
            r == variant_named(HASH_VARIANT_NAMES@, v@),
    {
        variant_from_name(&HASH_VARIANT_NAMES, v)
    }

    /// The stored variant whose name the bytes `v` spell in UTF-8.
    pub fn stored_variant_from_bytes(v: &[u8]) -> (r: Result<StoredVariant, VariantNameError>)
        ensures
            !valid_utf8(v@) ==> r == Err::<StoredVariant, VariantNameError>(
                VariantNameError::InvalidUtf8,
            ),
            valid_utf8(v@) ==> r == match variant_named(HASH_VARIANT_NAMES@, decode_utf8(v@)) {
                Some(s) => Ok::<StoredVariant, VariantNameError>(s),
                None => Err(VariantNameError::UnknownName),
            },
    {
        variant_from_bytes(&HASH_VARIANT_NAMES, v)
    }
}

/// The names under which serde stores the named signature schemes, in order, then
/// `Custom`.
pub const SIGNATURE_SCHEME_VARIANT_NAMES: [&'static str; 6] = [
    "ECDSA_SECP256R1_SHA256",
    "ECDSA_SECP384R1_SHA384",
    "ECDSA_SECP521R1_SHA512",
    "ED25519",
    "ED448",
    "Custom",
];

impl SignatureScheme {
    /// The variant under which serde stores this scheme: a named one at its
    /// position, any other as `Custom`. A value made of what a named one is
    /// made of is stored as that one.
    pub open spec fn stored_as(self) -> StoredVariant {
        match Self::from_code(self.code()) {
            SignatureScheme::ECDSA_SECP256R1_SHA256 => StoredVariant::Builtin(0),
            SignatureScheme::ECDSA_SECP384R1_SHA384 => StoredVariant::Builtin(1),
            SignatureScheme::ECDSA_SECP521R1_SHA512 => StoredVariant::Builtin(2),
            SignatureScheme::ED25519 => StoredVariant::Builtin(3),
            SignatureScheme::ED448 => StoredVariant::Builtin(4),
            SignatureScheme::Custom(_) => StoredVariant::Custom,
        }
    }

    /// The named scheme that serde stores at position `i`.
    pub open spec fn stored_at(i: int) -> Option<Self> {
        if i == 0 {
            Some(SignatureScheme::ECDSA_SECP256R1_SHA256)
        } else if i == 1 {
            Some(SignatureScheme::ECDSA_SECP384R1_SHA384)
        } else if i == 2 {
            Some(SignatureScheme::ECDSA_SECP521R1_SHA512)
        } else if i == 3 {
            Some(SignatureScheme::ED25519)
        } else if i == 4 {
            Some(SignatureScheme::ED448)
        } else {
            None
        }
    }

    /// The variant under which serde stores this scheme.
    pub fn stored_variant(&self) -> (r: StoredVariant)
        ensures
            r == self.stored_as(),
    {
        match SignatureScheme::new(self.id()) {
            SignatureScheme::ECDSA_SECP256R1_SHA256 => StoredVariant::Builtin(0),
            SignatureScheme::ECDSA_SECP384R1_SHA384 => StoredVariant::Builtin(1),
            SignatureScheme::ECDSA_SECP521R1_SHA512 => StoredVariant::Builtin(2),
            SignatureScheme::ED25519 => StoredVariant::Builtin(3),
            SignatureScheme::ED448 => StoredVariant::Builtin(4),
            SignatureScheme::Custom(_) => StoredVariant::Custom,
        }
    }

    /// The name under which serde stores this scheme, taken from
    /// [`SIGNATURE_SCHEME_VARIANT_NAMES`].
    pub fn stored_name(&self) -> (r: &'static str)
        ensures
            r@ == match self.stored_as() {
                StoredVariant::Builtin(i) => SIGNATURE_SCHEME_VARIANT_NAMES@[i as int]@,
                StoredVariant::Custom => SIGNATURE_SCHEME_VARIANT_NAMES@[5]@,
            },
            self.stored_as() is Custom ==> r@ == "Custom"@,
    {
        match self.stored_variant() {
            StoredVariant::Builtin(i) => SIGNATURE_SCHEME_VARIANT_NAMES[i],
            StoredVariant::Custom => SIGNATURE_SCHEME_VARIANT_NAMES[5],
        }
    }

    /// The named scheme that serde stores at position `i`, if there is one.
    pub fn stored_named(i: usize) -> (r: Option<Self>)
        ensures
            r == Self::stored_at(i as int),
    {
        match i {
            0 => Some(SignatureScheme::ECDSA_SECP256R1_SHA256),
            1 => Some(SignatureScheme::ECDSA_SECP384R1_SHA384),
            2 => Some(SignatureScheme::ECDSA_SECP521R1_SHA512),
            3 => Some(SignatureScheme::ED25519),
            4 => Some(SignatureScheme::ED448),
            _ => None,
        }
    }

    /// The stored variant whose index, in the compact serde encoding, is
    /// `v`, if `v` is one.
    pub fn stored_variant_from_u64(v: u64) -> (r: Option<StoredVariant>)
        ensures
            r == variant_at_index(SIGNATURE_SCHEME_VARIANT_NAMES@, v),
    {
        variant_from_index(&SIGNATURE_SCHEME_VARIANT_NAMES, v)
    }

    /// The stored variant named `v`, if there is one.
    pub fn stored_variant_from_str(v: &str) -> (r: Option<StoredVariant>)
        ensures
            r == variant_named(SIGNATURE_SCHEME_VARIANT_NAMES@, v@),
    {
        variant_from_name(&SIGNATURE_SCHEME_VARIANT_NAMES, v)
    }

    /// The stored variant whose name the bytes `v` spell in UTF-8.
    pub fn stored_variant_from_bytes(v: &[u8]) -> (r: Result<StoredVariant, VariantNameError>)
        ensures
            !valid_utf8(v@) ==> r == Err::<StoredVariant, VariantNameError>(
                VariantNameError::InvalidUtf8,
            ),
            valid_utf8(v@) ==> r == match variant_named(SIGNATURE_SCHEME_VARIANT_NAMES@, decode_utf8(v@)) {
                Some(s) => Ok::<StoredVariant, VariantNameError>(s),
                None => Err(VariantNameError::UnknownName),
            },
    {
        variant_from_bytes(&SIGNATURE_SCHEME_VARIANT_NAMES, v)
    }
}

/// The names under which serde stores the named KEMs, in order, then
/// `Custom`.
pub const HPKE_KEM_VARIANT_NAMES: [&'static str; 6] = [
    "DhKemP256",
    "DhKemP384",
    "DhKemP521",
    "DhKem25519",
    "DhKem448",
    "Custom",
];

impl HpkeKemType {
    /// The variant under which serde stores this KEM: a named one at its
    /// position, any other as `Custom`. A value made of what a named one is
    /// made of is stored as that one.
    pub open spec fn stored_as(self) -> StoredVariant {
        match Self::from_code(self.code()) {
            HpkeKemType::DhKemP256 => StoredVariant::Builtin(0),
            HpkeKemType::DhKemP384 => StoredVariant::Builtin(1),
            HpkeKemType::DhKemP521 => StoredVariant::Builtin(2),
            HpkeKemType::DhKem25519 => StoredVariant::Builtin(3),
            HpkeKemType::DhKem448 => StoredVariant::Builtin(4),
            HpkeKemType::Custom(_) => StoredVariant::Custom,
        }
    }

    /// The named KEM that serde stores at position `i`.
    pub open spec fn stored_at(i: int) -> Option<Self> {
        if i == 0 {
            Some(HpkeKemType::DhKemP256)
        } else if i == 1 {
            Some(HpkeKemType::DhKemP384)
        } else if i == 2 {
            Some(HpkeKemType::DhKemP521)
        } else if i == 3 {
            Some(HpkeKemType::DhKem25519)
        } else if i == 4 {
            Some(HpkeKemType::DhKem448)
        } else {
            None
        }
    }

    /// The variant under which serde stores this KEM.
    pub fn stored_variant(&self) -> (r: StoredVariant)
        ensures
            r == self.stored_as(),
    {
        match HpkeKemType::new(self.id()) {
            HpkeKemType::DhKemP256 => StoredVariant::Builtin(0),
            HpkeKemType::DhKemP384 => StoredVariant::Builtin(1),
            HpkeKemType::DhKemP521 => StoredVariant::Builtin(2),
            HpkeKemType::DhKem25519 => StoredVariant::Builtin(3),
            HpkeKemType::DhKem448 => StoredVariant::Builtin(4),
            HpkeKemType::Custom(_) => StoredVariant::Custom,
        }
    }

    /// The name under which serde stores this KEM, taken from
    /// [`HPKE_KEM_VARIANT_NAMES`].
    pub fn stored_name(&self) -> (r: &'static str)
        ensures
            r@ == match self.stored_as() {
                StoredVariant::Builtin(i) => HPKE_KEM_VARIANT_NAMES@[i as int]@,
                StoredVariant::Custom => HPKE_KEM_VARIANT_NAMES@[5]@,
            },
            self.stored_as() is Custom ==> r@ == "Custom"@,
    {
        match self.stored_variant() {
            StoredVariant::Builtin(i) => HPKE_KEM_VARIANT_NAMES[i],
            StoredVariant::Custom => HPKE_KEM_VARIANT_NAMES[5],
        }
    }

    /// The named KEM that serde stores at position `i`, if there is one.
    pub fn stored_named(i: usize) -> (r: Option<Self>)
        ensures
            r == Self::stored_at(i as int),
    {
        match i {
            0 => Some(HpkeKemType::DhKemP256),
            1 => Some(HpkeKemType::DhKemP384),
            2 => Some(HpkeKemType::DhKemP521),
            3 => Some(HpkeKemType::DhKem25519),
            4 => Some(HpkeKemType::DhKem448),
            _ => None,
        }
    }

    /// The stored variant whose index, in the compact serde encoding, is
    /// `v`, if `v` is one.
    pub fn stored_variant_from_u64(v: u64) -> (r: Option<StoredVariant>)
        ensures
            r == variant_at_index(HPKE_KEM_VARIANT_NAMES@, v),
    {
        variant_from_index(&HPKE_KEM_VARIANT_NAMES, v)
    }

    /// The stored variant named `v`, if there is one.
    pub fn stored_variant_from_str(v: &str) -> (r: Option<StoredVariant>)
        ensures
            r == variant_named(HPKE_KEM_VARIANT_NAMES@, v@),
    {
        variant_from_name(&HPKE_KEM_VARIANT_NAMES, v)
    }

    /// The stored variant whose name the bytes `v` spell in UTF-8.
    pub fn stored_variant_from_bytes(v: &[u8]) -> (r: Result<StoredVariant, VariantNameError>)
        ensures
            !valid_utf8(v@) ==> r == Err::<StoredVariant, VariantNameError>(
                VariantNameError::InvalidUtf8,
            ),
            valid_utf8(v@) ==> r == match variant_named(HPKE_KEM_VARIANT_NAMES@, decode_utf8(v@)) {
                Some(s) => Ok::<StoredVariant, VariantNameError>(s),
                None => Err(VariantNameError::UnknownName),
            },
    {
        variant_from_bytes(&HPKE_KEM_VARIANT_NAMES, v)
    }
}

/// The names under which serde stores the named KDFs, in order, then
/// `Custom`.
pub const HPKE_KDF_VARIANT_NAMES: [&'static str; 4] = [
    "HkdfSha256",
    "HkdfSha384",
    "HkdfSha512",
    "Custom",
];

impl HpkeKdfType {
    /// The variant under which serde stores this KDF: a named one at its
    /// position, any other as `Custom`. A value made of what a named one is
    /// made of is stored as that one.
    pub open spec fn stored_as(self) -> StoredVariant {
        match Self::from_code(self.code()) {
            HpkeKdfType::HkdfSha256 => StoredVariant::Builtin(0),
            HpkeKdfType::HkdfSha384 => StoredVariant::Builtin(1),
            HpkeKdfType::HkdfSha512 => StoredVariant::Builtin(2),
            HpkeKdfType::Custom(_) => StoredVariant::Custom,
        }
    }

    /// The named KDF that serde stores at position `i`.
    pub open spec fn stored_at(i: int) -> Option<Self> {
        if i == 0 {
            Some(HpkeKdfType::HkdfSha256)
        } else if i == 1 {
            Some(HpkeKdfType::HkdfSha384)
        } else if i == 2 {
            Some(HpkeKdfType::HkdfSha512)
        } else {
            None
        }
    }

    /// The variant under which serde stores this KDF.
    pub fn stored_variant(&self) -> (r: StoredVariant)
        ensures
            r == self.stored_as(),
    {
        match HpkeKdfType::new(self.id()) {
            HpkeKdfType::HkdfSha256 => StoredVariant::Builtin(0),
            HpkeKdfType::HkdfSha384 => StoredVariant::Builtin(1),
            HpkeKdfType::HkdfSha512 => StoredVariant::Builtin(2),
            HpkeKdfType::Custom(_) => StoredVariant::Custom,
        }
    }

    /// The name under which serde stores this KDF, taken from
    /// [`HPKE_KDF_VARIANT_NAMES`].
    pub fn stored_name(&self) -> (r: &'static str)
        ensures
            r@ == match self.stored_as() {
                StoredVariant::Builtin(i) => HPKE_KDF_VARIANT_NAMES@[i as int]@,
                StoredVariant::Custom => HPKE_KDF_VARIANT_NAMES@[3]@,
            },
            self.stored_as() is Custom ==> r@ == "Custom"@,
    {
        match self.stored_variant() {
            StoredVariant::Builtin(i) => HPKE_KDF_VARIANT_NAMES[i],
            StoredVariant::Custom => HPKE_KDF_VARIANT_NAMES[3],
        }
    }

    /// The named KDF that serde stores at position `i`, if there is one.
    pub fn stored_named(i: usize) -> (r: Option<Self>)
        ensures
            r == Self::stored_at(i as int),
    {
        match i {
            0 => Some(HpkeKdfType::HkdfSha256),
            1 => Some(HpkeKdfType::HkdfSha384),
            2 => Some(HpkeKdfType::HkdfSha512),
            _ => None,
        }
    }

    /// The stored variant whose index, in the compact serde encoding, is
    /// `v`, if `v` is one.
    pub fn stored_variant_from_u64(v: u64) -> (r: Option<StoredVariant>)
        ensures
            r == variant_at_index(HPKE_KDF_VARIANT_NAMES@, v),
    {
        variant_from_index(&HPKE_KDF_VARIANT_NAMES, v)
    }

    /// The stored variant named `v`, if there is one.
    pub fn stored_variant_from_str(v: &str) -> (r: Option<StoredVariant>)
        ensures
            r == variant_named(HPKE_KDF_VARIANT_NAMES@, v@),
    {
        variant_from_name(&HPKE_KDF_VARIANT_NAMES, v)
    }

    /// The stored variant whose name the bytes `v` spell in UTF-8.
    pub fn stored_variant_from_bytes(v: &[u8]) -> (r: Result<StoredVariant, VariantNameError>)
        ensures
            !valid_utf8(v@) ==> r == Err::<StoredVariant, VariantNameError>(
                VariantNameError::InvalidUtf8,
            ),
            valid_utf8(v@) ==> r == match variant_named(HPKE_KDF_VARIANT_NAMES@, decode_utf8(v@)) {
                Some(s) => Ok::<StoredVariant, VariantNameError>(s),
                None => Err(VariantNameError::UnknownName),
            },
    {
        variant_from_bytes(&HPKE_KDF_VARIANT_NAMES, v)
    }
}

/// The names under which serde stores the named HPKE AEADs, in order, then
/// `Custom`.
pub const HPKE_AEAD_VARIANT_NAMES: [&'static str; 5] = [
    "AesGcm128",
    "AesGcm256",
    "ChaCha20Poly1305",
    "Export",
    "Custom",
];

impl HpkeAeadType {
    /// The variant under which serde stores this HPKE AEAD: a named one at its
    /// position, any other as `Custom`. A value made of what a named one is
    /// made of is stored as that one.
    pub open spec fn stored_as(self) -> StoredVariant {
        match Self::from_code(self.code()) {
            HpkeAeadType::AesGcm128 => StoredVariant::Builtin(0),
            HpkeAeadType::AesGcm256 => StoredVariant::Builtin(1),
            HpkeAeadType::ChaCha20Poly1305 => StoredVariant::Builtin(2),
            HpkeAeadType::Export => StoredVariant::Builtin(3),
            HpkeAeadType::Custom(_) => StoredVariant::Custom,
        }
    }

    /// The named HPKE AEAD that serde stores at position `i`.
    pub open spec fn stored_at(i: int) -> Option<Self> {
        if i == 0 {
            Some(HpkeAeadType::AesGcm128)
        } else if i == 1 {
            Some(HpkeAeadType::AesGcm256)
        } else if i == 2 {
            Some(HpkeAeadType::ChaCha20Poly1305)
        } else if i == 3 {
            Some(HpkeAeadType::Export)
        } else {
            None
        }
    }

    /// The variant under which serde stores this HPKE AEAD.
    pub fn stored_variant(&self) -> (r: StoredVariant)
        ensures
            r == self.stored_as(),
    {
        match HpkeAeadType::new(self.id()) {
            HpkeAeadType::AesGcm128 => StoredVariant::Builtin(0),
            HpkeAeadType::AesGcm256 => StoredVariant::Builtin(1),
            HpkeAeadType::ChaCha20Poly1305 => StoredVariant::Builtin(2),
            HpkeAeadType::Export => StoredVariant::Builtin(3),
            HpkeAeadType::Custom(_) => StoredVariant::Custom,
        }
    }

    /// The name under which serde stores this HPKE AEAD, taken from
    /// [`HPKE_AEAD_VARIANT_NAMES`].
    pub fn stored_name(&self) -> (r: &'static str)
        ensures
            r@ == match self.stored_as() {
                StoredVariant::Builtin(i) => HPKE_AEAD_VARIANT_NAMES@[i as int]@,
                StoredVariant::Custom => HPKE_AEAD_VARIANT_NAMES@[4]@,
            },
            self.stored_as() is Custom ==> r@ == "Custom"@,
    {
        match self.stored_variant() {
            StoredVariant::Builtin(i) => HPKE_AEAD_VARIANT_NAMES[i],
            StoredVariant::Custom => HPKE_AEAD_VARIANT_NAMES[4],
        }
    }

    /// The named HPKE AEAD that serde stores at position `i`, if there is one.
    pub fn stored_named(i: usize) -> (r: Option<Self>)
        ensures
            r == Self::stored_at(i as int),
    {
        match i {
            0 => Some(HpkeAeadType::AesGcm128),
            1 => Some(HpkeAeadType::AesGcm256),
            2 => Some(HpkeAeadType::ChaCha20Poly1305),
            3 => Some(HpkeAeadType::Export),
            _ => None,
        }
    }

    /// The stored variant whose index, in the compact serde encoding, is
    /// `v`, if `v` is one.
    pub fn stored_variant_from_u64(v: u64) -> (r: Option<StoredVariant>)
        ensures
            r == variant_at_index(HPKE_AEAD_VARIANT_NAMES@, v),
    {
        variant_from_index(&HPKE_AEAD_VARIANT_NAMES, v)
    }

    /// The stored variant named `v`, if there is one.
    pub fn stored_variant_from_str(v: &str) -> (r: Option<StoredVariant>)
        ensures
            r == variant_named(HPKE_AEAD_VARIANT_NAMES@, v@),
    {
        variant_from_name(&HPKE_AEAD_VARIANT_NAMES, v)
    }

    /// The stored variant whose name the bytes `v` spell in UTF-8.
    pub fn stored_variant_from_bytes(v: &[u8]) -> (r: Result<StoredVariant, VariantNameError>)
        ensures
            !valid_utf8(v@) ==> r == Err::<StoredVariant, VariantNameError>(
                VariantNameError::InvalidUtf8,
            ),
            valid_utf8(v@) ==> r == match variant_named(HPKE_AEAD_VARIANT_NAMES@, decode_utf8(v@)) {
                Some(s) => Ok::<StoredVariant, VariantNameError>(s),
                None => Err(VariantNameError::UnknownName),
            },
    {
        variant_from_bytes(&HPKE_AEAD_VARIANT_NAMES, v)
    }
}

} // verus!
