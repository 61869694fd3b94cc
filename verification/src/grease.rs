//! GREASE values (RFC 9420, Section 13.5): code points reserved so that
//! implementations learn to ignore values they do not know.

use vstd::prelude::*;

verus! {

/// The GREASE values that RFC 9420 reserves: both bytes equal, each of the
/// form `0x?A`, from `0x0A0A` to `0xEAEA`.
pub open spec fn is_grease(v: u16) -> bool {
    ||| v == 0x0A0A
    ||| v == 0x1A1A
    ||| v == 0x2A2A
    ||| v == 0x3A3A
    ||| v == 0x4A4A
    ||| v == 0x5A5A
    ||| v == 0x6A6A
    ||| v == 0x7A7A
    ||| v == 0x8A8A
    ||| v == 0x9A9A
    ||| v == 0xAAAA
    ||| v == 0xBABA
    ||| v == 0xCACA
    ||| v == 0xDADA
    ||| v == 0xEAEA
}

/// Returns true if `v` is a GREASE value.
pub fn is_grease_value(v: u16) -> (r: bool)
    ensures
        r == is_grease(v),
{
    assert(((v & 0x0F0F) == 0x0A0A && (v >> 8u16) == (v & 0x00FF) && v != 0xFAFA) == (v == 0x0A0A
        || v == 0x1A1A || v == 0x2A2A || v == 0x3A3A || v == 0x4A4A || v == 0x5A5A || v == 0x6A6A
        || v == 0x7A7A || v == 0x8A8A || v == 0x9A9A || v == 0xAAAA || v == 0xBABA || v == 0xCACA
        || v == 0xDADA || v == 0xEAEA)) by (bit_vector);
    (v & 0x0F0F) == 0x0A0A && (v >> 8u16) == (v & 0x00FF) && v != 0xFAFA
}

} // verus!
