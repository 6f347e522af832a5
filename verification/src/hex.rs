//! Hexadecimal digits: what counts as one, its numeric value, and the digit
//! chosen for a nibble in either case.

use vstd::prelude::*;

verus! {

/// True of the ASCII bytes `0`-`9`, `a`-`f` and `A`-`F`.
pub open spec fn is_hex_digit(c: u8) -> bool {
    (48 <= c <= 57) || (97 <= c <= 102) || (65 <= c <= 70)
}

/// The numeric value of a hex digit, between 0 and 15.
pub open spec fn hex_value(c: u8) -> u8 {
    if 48 <= c <= 57 {
        (c - 48) as u8
    } else if 97 <= c <= 102 {
        (c - 87) as u8
    } else {
        (c - 55) as u8
    }
}

/// The hex digit that encodes a nibble: `0`-`9` then `a`-`f`, or `A`-`F`
/// when `upper` is set.
pub open spec fn spec_hex_char(nibble: u8, upper: bool) -> u8 {
    if nibble < 10 {
        (48 + nibble) as u8
    } else if upper {
        (55 + nibble) as u8
    } else {
        (87 + nibble) as u8
    }
}

/// Uppercase hex letters `A`-`F` mapped to lowercase; every other byte
/// unchanged.
pub open spec fn lower_hex(c: u8) -> u8 {
    if 65 <= c <= 70 {
        (c + 32) as u8
    } else {
        c
    }
}

/// A byte string with each uppercase hex letter lowered.
pub open spec fn lower_hex_seq(s: Seq<u8>) -> Seq<u8> {
    Seq::new(s.len(), |i: int| lower_hex(s[i]))
}

/// Whether a byte is a hex digit, decided in executable code.
pub fn hex_digit_check(c: u8) -> (r: bool)
    ensures
        r == is_hex_digit(c),
{
    (48 <= c && c <= 57) || (97 <= c && c <= 102) || (65 <= c && c <= 70)
}

/// The numeric value of a hex digit, computed in executable code.
pub fn hex_digit_value(c: u8) -> (v: u8)
    requires
        is_hex_digit(c),
    ensures
        v == hex_value(c),
        v < 16,
{
    if 48 <= c && c <= 57 {
        c - 48
    } else if 97 <= c && c <= 102 {
        c - 87
    } else {
        c - 55
    }
}

/// The hex digit for a nibble, computed in executable code.
pub fn hex_char(nibble: u8, upper: bool) -> (c: u8)
    requires
        nibble < 16,
    ensures
        c == spec_hex_char(nibble, upper),
{
    if nibble < 10 {
        48 + nibble
    } else if upper {
        55 + nibble
    } else {
        87 + nibble
    }
}

/// Every digit the encoder emits is a hex digit, is not a hyphen, and
/// decodes back to the nibble it encodes.
pub proof fn lemma_hex_char_roundtrip(nibble: u8, upper: bool)
    requires
        nibble < 16,
    ensures
        is_hex_digit(spec_hex_char(nibble, upper)),
        hex_value(spec_hex_char(nibble, upper)) == nibble,
        spec_hex_char(nibble, upper) != 45,
{
}

/// Lowering the case of a byte keeps hyphens and non-digits what they are,
/// keeps hex digits hex digits, and preserves a digit's value.
pub proof fn lemma_lower_hex(c: u8)
    ensures
        is_hex_digit(lower_hex(c)) == is_hex_digit(c),
        is_hex_digit(c) ==> hex_value(lower_hex(c)) == hex_value(c),
        (lower_hex(c) == 45) == (c == 45),
{
}

/// Re-encoding a hex digit's value in lowercase gives the digit's own
/// lowercase form back.
pub proof fn lemma_hex_char_of_value(c: u8)
    requires
        is_hex_digit(c),
    ensures
        spec_hex_char(hex_value(c), false) == lower_hex(c),
{
}

} // verus!
