//! How serde stores the enumerations of this library: a named value as a
//! unit variant at its position among the named values, any other value as
//! the `Custom` variant, whose index stays fixed when names are added. A
//! type's variant names are listed in order, with `Custom` last.

use vstd::prelude::*;

use vstd::string::StringSliceAdditionalSpecFns;
use vstd::utf8::{decode_utf8, valid_utf8};

use crate::text::{bytes_equal, lemma_decode_of_encoding, lemma_encoding_injective, str_from_utf8};

verus! {

/// The variant under which serde stores a value.
#[derive(Debug, PartialEq, Eq, Clone, Copy, Structural)]
pub enum StoredVariant {
    /// The named value at this position.
    Builtin(usize),
    /// Any other value, stored with what it is made of.
    Custom,
}

/// The index under which serde stores a `Custom` value.
pub const CUSTOM_VARIANT_INDEX: u32 = 0xFFFF;

/// The name under which serde stores a `Custom` value.
pub const CUSTOM_VARIANT_NAME: &'static str = "Custom";

/// Why the bytes of a stored variant's name do not name one.
#[derive(Debug, PartialEq, Eq, Clone, Copy, Structural)]
pub enum VariantNameError {
    /// The bytes are not UTF-8.
    InvalidUtf8,
    /// The bytes spell no stored variant's name.
    UnknownName,
}

/// The position of the first of `names`, at or after `start`, that is
/// `name`.
pub open spec fn first_position(names: Seq<&str>, name: Seq<char>, start: int) -> Option<int>
    decreases names.len() - start,
{
    if start < 0 || start >= names.len() {
        None
    } else if names[start]@ == name {
        Some(start)
    } else {
        first_position(names, name, start + 1)
    }
}

/// The stored variant that `name` names, where `names` lists the variant
/// names in order with `Custom` last.
pub open spec fn variant_named(names: Seq<&str>, name: Seq<char>) -> Option<StoredVariant> {
    match first_position(names, name, 0) {
        Some(i) => if i + 1 == names.len() {
            Some(StoredVariant::Custom)
        } else {
            Some(StoredVariant::Builtin(i as usize))
        },
        None => None,
    }
}

/// The stored variant whose index is `v`, where `names` lists the variant
/// names in order with `Custom` last.
pub open spec fn variant_at_index(names: Seq<&str>, v: u64) -> Option<StoredVariant> {
    if v + 1 < names.len() {
        Some(StoredVariant::Builtin(v as usize))
    } else if v == CUSTOM_VARIANT_INDEX {
        Some(StoredVariant::Custom)
    } else {
        None
    }
}

/// The stored variant whose index, in the compact serde encoding, is `v`.
pub fn variant_from_index(names: &[&str], v: u64) -> (r: Option<StoredVariant>)
    requires
        1 <= names@.len() <= CUSTOM_VARIANT_INDEX,
    ensures
        r == variant_at_index(names@, v),
{
    let count = names.len() - 1;
    if v < count as u64 {
        Some(StoredVariant::Builtin(v as usize))
    } else if v == CUSTOM_VARIANT_INDEX as u64 {
        Some(StoredVariant::Custom)
    } else {
        None
    }
}

/// The stored variant named `v`.
pub fn variant_from_name(names: &[&str], v: &str) -> (r: Option<StoredVariant>)
    ensures
        r == variant_named(names@, v@),
{
    let bytes = v.as_bytes();
    let mut i: usize = 0;
    while i < names.len()
        invariant
            i <= names@.len(),
            bytes@ == v.spec_bytes(),
            first_position(names@, v@, 0) == first_position(names@, v@, i as int),
        decreases names@.len() - i,
    {
        let name: &str = names[i];
        let same = bytes_equal(bytes, name.as_bytes());
        proof {
            lemma_encoding_injective(v@, name@);
        }
        if same {
            if i + 1 == names.len() {
                return Some(StoredVariant::Custom);
            } else {
                return Some(StoredVariant::Builtin(i));
            }
        }
        i = i + 1;
    }
    None
}

/// The stored variant whose name the bytes `v` spell in UTF-8.
pub fn variant_from_bytes(names: &[&str], v: &[u8]) -> (r: Result<StoredVariant, VariantNameError>)
    ensures
        !valid_utf8(v@) ==> r == Err::<StoredVariant, VariantNameError>(
            VariantNameError::InvalidUtf8,
        ),
        valid_utf8(v@) ==> r == match variant_named(names@, decode_utf8(v@)) {
            Some(s) => Ok::<StoredVariant, VariantNameError>(s),
            None => Err(VariantNameError::UnknownName),
        },
{
    match str_from_utf8(v) {
        Some(s) => {
            proof {
                lemma_decode_of_encoding(s@, v@);
            }
            match variant_from_name(names, s) {
                Some(x) => Ok(x),
                None => Err(VariantNameError::UnknownName),
            }
        },
        None => Err(VariantNameError::InvalidUtf8),
    }
}

} // verus!
