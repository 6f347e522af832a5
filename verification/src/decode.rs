//! The decoder: parses text claiming to be one of the three layouts back
//! into the 16 bytes it encodes. Validation runs in a fixed order — total
//! length, then hyphen placement (and the `urn:uuid:` prefix for the URN
//! layout), then the hex digits — and each fault is reported as its own
//! error. Hex digits are accepted in either case. A parse either fully
//! succeeds or yields no value.

use vstd::prelude::*;

use crate::hex::is_hex_digit;
use crate::hex::hex_value;
use crate::hex::hex_digit_check;
use crate::hex::hex_digit_value;
use crate::layout::Layout;
use crate::layout::URN_LENGTH;
use crate::layout::URN_PREFIX_LENGTH;
use crate::layout::is_hyphen_position;
use crate::layout::body_position;
use crate::layout::body_index;
use crate::layout::lemma_body_position;
use crate::layout::spec_urn_prefix;
use crate::layout::urn_prefix_byte;
use crate::value::Uuid;
use vstd::slice::slice_subrange;

verus! {

/// Why a parse was refused.
#[derive(Clone, Copy, Debug, PartialEq, Eq, Structural)]
pub enum DecodeError {
    /// The input's total length is not the expected one.
    InvalidLength,
    /// A hyphen is missing from a required position or stands elsewhere.
    InvalidHyphen,
    /// A byte that should be a hex digit is not one.
    InvalidCharacter,
    /// The input does not begin with the `urn:uuid:` prefix.
    InvalidPrefix,
}

/// The 16 bytes read from 32 hex digits: two digits per byte, high nibble
/// first.
pub open spec fn spec_bytes_of_hex(s: Seq<u8>) -> Seq<u8> {
    Seq::new(16, |i: int| (hex_value(s[2 * i]) * 16 + hex_value(s[2 * i + 1])) as u8)
}

/// The 32 digits of a hyphenated rendering, the four hyphens removed.
pub open spec fn spec_strip_hyphens(s: Seq<u8>) -> Seq<u8> {
    Seq::new(32, |i: int| s[body_position(i)])
}

/// Hyphens stand at exactly the four positions of the 8-4-4-4-12 grouping
/// and nowhere else.
pub open spec fn hyphens_placed(s: Seq<u8>) -> bool {
    forall|i: int| 0 <= i < s.len() ==> ((s[i] == 45) <==> is_hyphen_position(i))
}

/// What decoding a simple rendering yields: the 16 bytes of its 32 hex
/// digits, or the first fault in validation order — length, then hyphens
/// (a simple rendering has none), then the digits.
pub open spec fn spec_decode_simple(s: Seq<u8>) -> Result<Seq<u8>, DecodeError> {
    if s.len() != 32 {
        Err(DecodeError::InvalidLength)
    } else if exists|i: int| 0 <= i < 32 && s[i] == 45 {
        Err(DecodeError::InvalidHyphen)
    } else if exists|i: int| 0 <= i < 32 && !is_hex_digit(s[i]) {
        Err(DecodeError::InvalidCharacter)
    } else {
        Ok(spec_bytes_of_hex(s))
    }
}

/// What decoding a hyphenated rendering yields: the 16 bytes of its 32
/// digits with the hyphens stripped, or the first fault in validation
/// order — length, then hyphen placement, then the digits.
pub open spec fn spec_decode_hyphenated(s: Seq<u8>) -> Result<Seq<u8>, DecodeError> {
    if s.len() != 36 {
        Err(DecodeError::InvalidLength)
    } else if !hyphens_placed(s) {
        Err(DecodeError::InvalidHyphen)
    } else if exists|i: int| 0 <= i < 36 && !is_hyphen_position(i) && !is_hex_digit(s[i]) {
        Err(DecodeError::InvalidCharacter)
    } else {
        Ok(spec_bytes_of_hex(spec_strip_hyphens(s)))
    }
}

/// What decoding a URN rendering yields: the bytes of the hyphenated body
/// after the `urn:uuid:` prefix, or the first fault in validation order —
/// length, then the prefix, then the body's own checks.
pub open spec fn spec_decode_urn(s: Seq<u8>) -> Result<Seq<u8>, DecodeError> {
    if s.len() != 45 {
        Err(DecodeError::InvalidLength)
    } else if s.subrange(0, 9) != spec_urn_prefix() {
        Err(DecodeError::InvalidPrefix)
    } else {
        spec_decode_hyphenated(s.subrange(9, 45))
    }
}

/// What decoding yields when the layout is named by the caller.
pub open spec fn spec_decode_layout(s: Seq<u8>, layout: Layout) -> Result<Seq<u8>, DecodeError> {
    match layout {
        Layout::Simple => spec_decode_simple(s),
        Layout::Hyphenated => spec_decode_hyphenated(s),
        Layout::Urn => spec_decode_urn(s),
    }
}

/// What decoding yields when the layout is inferred. The three declared
/// lengths differ, so the input's length picks the layout on its own: 32
/// bytes parse as simple, 36 as hyphenated, 45 as URN, and every other
/// length is a wrong-length fault.
pub open spec fn spec_decode(s: Seq<u8>) -> Result<Seq<u8>, DecodeError> {
    if s.len() == 32 {
        spec_decode_simple(s)
    } else if s.len() == 36 {
        spec_decode_hyphenated(s)
    } else if s.len() == 45 {
        spec_decode_urn(s)
    } else {
        Err(DecodeError::InvalidLength)
    }
}

/// Reads the 16 bytes out of a validated run of 32 hex digits.
fn read_bytes_simple(s: &[u8]) -> (r: Vec<u8>)
    requires
        s@.len() == 32,
        forall|i: int| 0 <= i < 32 ==> is_hex_digit(s@[i]),
    ensures
        r@ == spec_bytes_of_hex(s@),
        r@.len() == 16,
{
    let mut bytes: Vec<u8> = Vec::new();
    let mut k: usize = 0;
    while k < 16
        invariant
            s@.len() == 32,
            forall|i: int| 0 <= i < 32 ==> is_hex_digit(s@[i]),
            k <= 16,
            bytes@.len() == k,
            forall|j: int| 0 <= j < k ==> bytes@[j] == spec_bytes_of_hex(s@)[j],
        decreases 16 - k,
    {
        let hi = hex_digit_value(s[2 * k]);
        let lo = hex_digit_value(s[2 * k + 1]);
        let b = hi * 16 + lo;
        assert(b == spec_bytes_of_hex(s@)[k as int]);
        bytes.push(b);
        k = k + 1;
    }
    assert(bytes@ =~= spec_bytes_of_hex(s@));
    bytes
}

/// Parses a simple rendering: 32 hex digits, no separators.
pub fn decode_simple(s: &[u8]) -> (r: Result<Uuid, DecodeError>)
    ensures
        (match r {
            Ok(u) => u.wf() && spec_decode_simple(s@) == Ok::<Seq<u8>, DecodeError>(u@),
            Err(e) => spec_decode_simple(s@) == Err::<Seq<u8>, DecodeError>(e),
        }),
{
    if s.len() != 32 {
        return Err(DecodeError::InvalidLength);
    }
    let mut i: usize = 0;
    while i < 32
        invariant
            s@.len() == 32,
            i <= 32,
            forall|j: int| 0 <= j < i ==> s@[j] != 45,
        decreases 32 - i,
    {
        if s[i] == 45 {
            return Err(DecodeError::InvalidHyphen);
        }
        i = i + 1;
    }
    let mut i: usize = 0;
    while i < 32
        invariant
            s@.len() == 32,
            i <= 32,
            forall|j: int| 0 <= j < 32 ==> s@[j] != 45,
            forall|j: int| 0 <= j < i ==> is_hex_digit(s@[j]),
        decreases 32 - i,
    {
        if !hex_digit_check(s[i]) {
            return Err(DecodeError::InvalidCharacter);
        }
        i = i + 1;
    }
    let bytes = read_bytes_simple(s);
    Ok(Uuid::from_bytes(bytes))
}

/// Parses a hyphenated rendering: the 8-4-4-4-12 grouping, hyphens at
/// exactly positions 8, 13, 18 and 23.
pub fn decode_hyphenated(s: &[u8]) -> (r: Result<Uuid, DecodeError>)
    ensures
        (match r {
            Ok(u) => u.wf() && spec_decode_hyphenated(s@) == Ok::<Seq<u8>, DecodeError>(u@),
            Err(e) => spec_decode_hyphenated(s@) == Err::<Seq<u8>, DecodeError>(e),
        }),
{
    if s.len() != 36 {
        return Err(DecodeError::InvalidLength);
    }
    let mut i: usize = 0;
    while i < 36
        invariant
            s@.len() == 36,
            i <= 36,
            forall|j: int| 0 <= j < i ==> ((s@[j] == 45) <==> is_hyphen_position(j)),
        decreases 36 - i,
    {
        let at_hyphen = i == 8 || i == 13 || i == 18 || i == 23;
        if (s[i] == 45) != at_hyphen {
            assert((s@[i as int] == 45) != is_hyphen_position(i as int));
            assert(!hyphens_placed(s@));
            return Err(DecodeError::InvalidHyphen);
        }
        i = i + 1;
    }
    assert(hyphens_placed(s@));
    let mut i: usize = 0;
    while i < 36
        invariant
            s@.len() == 36,
            i <= 36,
            hyphens_placed(s@),
            forall|j: int| 0 <= j < i && !is_hyphen_position(j) ==> is_hex_digit(s@[j]),
        decreases 36 - i,
    {
        let at_hyphen = i == 8 || i == 13 || i == 18 || i == 23;
        if !at_hyphen && !hex_digit_check(s[i]) {
            assert(!is_hyphen_position(i as int) && !is_hex_digit(s@[i as int]));
            return Err(DecodeError::InvalidCharacter);
        }
        i = i + 1;
    }
    let mut bytes: Vec<u8> = Vec::new();
    let mut k: usize = 0;
    while k < 16
        invariant
            s@.len() == 36,
            hyphens_placed(s@),
            forall|j: int| 0 <= j < 36 && !is_hyphen_position(j) ==> is_hex_digit(s@[j]),
            k <= 16,
            bytes@.len() == k,
            forall|j: int| 0 <= j < k ==> bytes@[j] == spec_bytes_of_hex(spec_strip_hyphens(s@))[j],
        decreases 16 - k,
    {
        proof {
            lemma_body_position(2 * (k as int));
            lemma_body_position(2 * (k as int) + 1);
        }
        let hi = hex_digit_value(s[body_index(2 * k)]);
        let lo = hex_digit_value(s[body_index(2 * k + 1)]);
        let b = hi * 16 + lo;
        assert(b == spec_bytes_of_hex(spec_strip_hyphens(s@))[k as int]);
        bytes.push(b);
        k = k + 1;
    }
    assert(bytes@ =~= spec_bytes_of_hex(spec_strip_hyphens(s@)));
    Ok(Uuid::from_bytes(bytes))
}

/// Parses a URN rendering: the `urn:uuid:` prefix, kept lowercase, and a
/// hyphenated body.
pub fn decode_urn(s: &[u8]) -> (r: Result<Uuid, DecodeError>)
    ensures
        (match r {
            Ok(u) => u.wf() && spec_decode_urn(s@) == Ok::<Seq<u8>, DecodeError>(u@),
            Err(e) => spec_decode_urn(s@) == Err::<Seq<u8>, DecodeError>(e),
        }),
{
    if s.len() != 45 {
        return Err(DecodeError::InvalidLength);
    }
    let mut i: usize = 0;
    while i < 9
        invariant
            s@.len() == 45,
            i <= 9,
            forall|j: int| 0 <= j < i ==> s@[j] == spec_urn_prefix()[j],
        decreases 9 - i,
    {
        if s[i] != urn_prefix_byte(i) {
            assert(s@.subrange(0, 9)[i as int] != spec_urn_prefix()[i as int]);
            return Err(DecodeError::InvalidPrefix);
        }
        i = i + 1;
    }
    assert(s@.subrange(0, 9) =~= spec_urn_prefix());
    let body = slice_subrange(s, URN_PREFIX_LENGTH, URN_LENGTH);
    decode_hyphenated(body)
}

/// Parses text in the layout the caller names.
pub fn decode_layout(s: &[u8], layout: Layout) -> (r: Result<Uuid, DecodeError>)
    ensures
        (match r {
            Ok(u) => u.wf() && spec_decode_layout(s@, layout) == Ok::<Seq<u8>, DecodeError>(u@),
            Err(e) => spec_decode_layout(s@, layout) == Err::<Seq<u8>, DecodeError>(e),
        }),
{
    match layout {
        Layout::Simple => decode_simple(s),
        Layout::Hyphenated => decode_hyphenated(s),
        Layout::Urn => decode_urn(s),
    }
}

/// Parses text with the layout inferred from its length: the three
/// declared lengths differ, so the length alone picks the layout, and any
/// other length is a wrong-length fault.
pub fn decode(s: &[u8]) -> (r: Result<Uuid, DecodeError>)
    ensures
        (match r {
            Ok(u) => u.wf() && spec_decode(s@) == Ok::<Seq<u8>, DecodeError>(u@),
            Err(e) => spec_decode(s@) == Err::<Seq<u8>, DecodeError>(e),
        }),
{
    if s.len() == 32 {
        decode_simple(s)
    } else if s.len() == 36 {
        decode_hyphenated(s)
    } else if s.len() == 45 {
        decode_urn(s)
    } else {
        Err(DecodeError::InvalidLength)
    }
}

} // verus!
