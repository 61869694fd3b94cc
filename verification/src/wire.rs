//! The calls into `tls_codec` that the codec of a ciphersuite makes: the
//! big-endian `u16` codec and the construction of a decoding error.

use vstd::prelude::*;
use tls_codec::{DeserializeBytes, Serialize, Size};

use crate::text::decimal;

verus! {

#[verifier::external_type_specification]
#[verifier::external_body]
pub struct ExTlsCodecError(tls_codec::Error);

/// The integer that two bytes hold in network (big-endian) order.
pub open spec fn be_u16(hi: u8, lo: u8) -> u16 {
    (hi as int * 256 + lo as int) as u16
}

/// The two bytes of `v` in network (big-endian) order.
pub open spec fn be_bytes(v: u16) -> Seq<u8> {
    seq![(v as int / 256) as u8, (v as int % 256) as u8]
}

/// The error that `u16::tls_deserialize_bytes` returns for an input of fewer
/// than two bytes (`tls_codec::Error::EndOfStream` in the crate's source).
pub uninterp spec fn u16_decode_error(bytes: Seq<u8>) -> tls_codec::Error;

/// The error `tls_codec::Error::DecodingError` carrying `message`.
pub uninterp spec fn decoding_error(message: Seq<char>) -> tls_codec::Error;

/// The error `tls_codec::Error::UnknownValue` carrying `value` (widened to
/// `u64`): the one with which a decoder that tls_codec derives for an enum
/// refuses a discriminant that names none of its variants.
pub uninterp spec fn unknown_value_error(value: u16) -> tls_codec::Error;

/// Builds `tls_codec::Error::UnknownValue(value)`.
#[verifier::external_body]
pub(crate) fn tls_unknown_value(value: u16) -> (e: tls_codec::Error)
    ensures
        e == unknown_value_error(value),
{
    tls_codec::Error::UnknownValue(value.into())
}

/// `<u16 as tls_codec::DeserializeBytes>::tls_deserialize_bytes`: reads the
/// first two bytes as a big-endian integer and hands back the rest; with
/// fewer than two bytes it fails.
#[verifier::external_body]
pub(crate) fn u16_tls_deserialize_bytes(bytes: &[u8]) -> (r: Result<(u16, &[u8]), tls_codec::Error>)
    ensures
        match r {
            Ok((v, rest)) => bytes@.len() >= 2 && v == be_u16(bytes@[0], bytes@[1]) && rest@
                == bytes@.skip(2),
            Err(e) => bytes@.len() < 2 && e == u16_decode_error(bytes@),
        },
{
    <u16 as DeserializeBytes>::tls_deserialize_bytes(bytes)
}

/// `<u16 as tls_codec::Serialize>::tls_serialize_detached`: writes the two
/// big-endian bytes of `v` into a fresh vector, which cannot fail.
#[verifier::external_body]
pub(crate) fn u16_tls_serialize_detached(v: u16) -> (r: Result<Vec<u8>, tls_codec::Error>)
    ensures
        match r {
            Ok(bytes) => bytes@ == be_bytes(v),
            Err(_) => false,
        },
{
    <u16 as Serialize>::tls_serialize_detached(&v)
}

/// `<u16 as tls_codec::Size>::tls_serialized_len`, which is 2.
#[verifier::external_body]
pub(crate) fn u16_tls_serialized_len(v: u16) -> (r: usize)
    ensures
        r == 2,
{
    <u16 as Size>::tls_serialized_len(&v)
}

/// Builds `tls_codec::Error::DecodingError(message)`.
#[verifier::external_body]
pub(crate) fn tls_decoding_error(message: String) -> (e: tls_codec::Error)
    ensures
        e == decoding_error(message@),
{
    tls_codec::Error::DecodingError(message)
}

/// The message with which a code point that names no built-in ciphersuite
/// is refused.
pub open spec fn invalid_ciphersuite_message(v: u16) -> Seq<char> {
    decimal(v as nat) + " is not a valid ciphersuite value"@
}

/// Formats the refusal message with `format!`, which writes a `u16` in
/// decimal without leading zeros.
#[verifier::external_body]
pub(crate) fn format_invalid_ciphersuite(v: u16) -> (r: String)
    ensures
        r@ == invalid_ciphersuite_message(v),
{
    format!("{v} is not a valid ciphersuite value")
}

} // verus!
