//! Parameter types of MLS ciphersuites: the AEAD, hash, signature and HPKE
//! algorithm identifiers, the built-in and custom ciphersuites with their
//! codecs, and the byte containers for HPKE keys and secrets.

pub mod ciphersuite;
pub mod grease;
pub mod keys;
pub mod laws;
pub mod params;
pub mod stored;
pub mod text;
pub mod wire;

pub use ciphersuite::{
    Ciphersuite, CiphersuiteModel, CiphersuiteParams, CustomCiphersuiteError,
    VerifiableCiphersuite, BUILTIN_COUNT, BUILTIN_NAMES, PRIVATE_USE_START, STORED_VARIANT_NAMES,
};
pub use keys::{ExporterSecret, HpkeCiphertext, HpkeKeyPair, HpkePrivateKey, KemOutput};
pub use stored::{StoredVariant, VariantNameError, CUSTOM_VARIANT_INDEX, CUSTOM_VARIANT_NAME};
pub use params::{
    AeadType, CryptoError, HashType, HpkeAeadType, HpkeConfig, HpkeKdfType, HpkeKemType,
    SignatureScheme, AEAD_VARIANT_NAMES, HASH_VARIANT_NAMES, HPKE_AEAD_VARIANT_NAMES,
    HPKE_KDF_VARIANT_NAMES, HPKE_KEM_VARIANT_NAMES, SIGNATURE_SCHEME_VARIANT_NAMES,
};
