//! HPKE ciphertexts, key pairs and secrets, held in `tls_codec`'s
//! variable-length byte vectors.

use vstd::prelude::*;
use tls_codec::{SecretVLBytes, VLBytes};

verus! {

#[verifier::external_type_specification]
#[verifier::external_body]
pub struct ExVLBytes(VLBytes);

#[verifier::external_type_specification]
#[verifier::external_body]
pub struct ExSecretVLBytes(SecretVLBytes);

/// The bytes that a `SecretVLBytes` holds.
pub uninterp spec fn secret_bytes(b: SecretVLBytes) -> Seq<u8>;

/// `<VLBytes as Clone>::clone`, which its crate derives. Nothing is stated of
/// the copy, as no spec function here names what a `VLBytes` holds.
pub assume_specification[ <VLBytes as Clone>::clone ](b: &VLBytes) -> VLBytes;

/// `<SecretVLBytes as Clone>::clone`, which its crate derives: the copy holds
/// the same bytes.
pub assume_specification[ <SecretVLBytes as Clone>::clone ](b: &SecretVLBytes) -> (r: SecretVLBytes)
    ensures
        secret_bytes(r) == secret_bytes(*b),
;

/// `<SecretVLBytes as From<Vec<u8>>>::from`: keeps the vector as it is.
#[verifier::external_body]
fn secret_from_vec(bytes: Vec<u8>) -> (r: SecretVLBytes)
    ensures
        secret_bytes(r) == bytes@,
{
    SecretVLBytes::from(bytes)
}

/// `<SecretVLBytes as From<&[u8]>>::from`: copies the slice.
#[verifier::external_body]
fn secret_from_slice(bytes: &[u8]) -> (r: SecretVLBytes)
    ensures
        secret_bytes(r) == bytes@,
{
    SecretVLBytes::from(bytes)
}

/// `SecretVLBytes::as_slice`: the bytes held.
#[verifier::external_body]
fn secret_as_slice(b: &SecretVLBytes) -> (r: &[u8])
    ensures
        r@ == secret_bytes(*b),
{
    b.as_slice()
}

/// 7.7. Update Paths
///
/// ```text
/// struct {
///     opaque kem_output<V>;
///     opaque ciphertext<V>;
/// } HPKECiphertext;
/// ```
#[derive(Debug, PartialEq, Eq, Clone)]
pub struct HpkeCiphertext {
    pub kem_output: VLBytes,
    pub ciphertext: VLBytes,
}

/// A simple type for HPKE private keys.
#[derive(Clone)]
pub struct HpkePrivateKey(SecretVLBytes);

impl View for HpkePrivateKey {
    type V = Seq<u8>;

    closed spec fn view(&self) -> Seq<u8> {
        secret_bytes(self.0)
    }
}

impl From<Vec<u8>> for HpkePrivateKey {
    fn from(bytes: Vec<u8>) -> (r: Self)
        ensures
            r@ == bytes@,
    {
        Self(secret_from_vec(bytes))
    }
}

/// A key's bytes are held in a `SecretVLBytes`, of which no spec value can
/// be written; the contract of `from` itself states what it holds.
impl vstd::std_specs::convert::FromSpecImpl<Vec<u8>> for HpkePrivateKey {
    open spec fn obeys_from_spec() -> bool {
        false
    }

    open spec fn from_spec(bytes: Vec<u8>) -> HpkePrivateKey {
        arbitrary()
    }
}

impl From<&[u8]> for HpkePrivateKey {
    fn from(bytes: &[u8]) -> (r: Self)
        ensures
            r@ == bytes@,
    {
        Self(secret_from_slice(bytes))
    }
}

/// As for keys made from a vector, the contract of `from` states what the
/// key holds.
impl vstd::std_specs::convert::FromSpecImpl<&[u8]> for HpkePrivateKey {
    open spec fn obeys_from_spec() -> bool {
        false
    }

    open spec fn from_spec(bytes: &[u8]) -> HpkePrivateKey {
        arbitrary()
    }
}

impl core::ops::Deref for HpkePrivateKey {
    type Target = [u8];

    fn deref(&self) -> (r: &[u8])
        ensures
            r@ == self@,
    {
        secret_as_slice(&self.0)
    }
}

/// Helper holding a (private, public) key pair as byte vectors.
#[derive(Clone)]
pub struct HpkeKeyPair {
    pub private: HpkePrivateKey,
    pub public: Vec<u8>,
}

/// The output of an HPKE encapsulation.
pub type KemOutput = Vec<u8>;

/// A secret exported from an HPKE context.
#[derive(Clone)]
pub struct ExporterSecret(SecretVLBytes);

impl View for ExporterSecret {
    type V = Seq<u8>;

    closed spec fn view(&self) -> Seq<u8> {
        secret_bytes(self.0)
    }
}

impl core::ops::Deref for ExporterSecret {
    type Target = [u8];

    fn deref(&self) -> (r: &[u8])
        ensures
            r@ == self@,
    {
        secret_as_slice(&self.0)
    }
}

impl From<Vec<u8>> for ExporterSecret {
    fn from(secret: Vec<u8>) -> (r: Self)
        ensures
            r@ == secret@,
    {
        Self(secret_from_vec(secret))
    }
}

/// As for private keys, the contract of `from` states what the secret
/// holds.
impl vstd::std_specs::convert::FromSpecImpl<Vec<u8>> for ExporterSecret {
    open spec fn obeys_from_spec() -> bool {
        false
    }

    open spec fn from_spec(secret: Vec<u8>) -> ExporterSecret {
        arbitrary()
    }
}

} // verus!
