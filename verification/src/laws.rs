//! The codec's laws, proved once for every identifier and every layout:
//! every rendering decodes back to the bytes it came from, decoding is
//! blind to the case of hex digits, and re-encoding a decoded string
//! canonicalizes it to lowercase.

use vstd::prelude::*;

use crate::hex::is_hex_digit;
use crate::hex::hex_value;
use crate::hex::lower_hex;
use crate::hex::lower_hex_seq;
use crate::hex::lemma_hex_char_roundtrip;
use crate::hex::lemma_hex_char_of_value;
use crate::hex::lemma_lower_hex;
use crate::layout::Layout;
use crate::layout::is_hyphen_position;
use crate::layout::hyphens_before;
use crate::layout::lemma_body_position;
use crate::layout::lemma_position_body;
use crate::layout::spec_urn_prefix;
use crate::encode::nibble_at;
use crate::encode::spec_simple;
use crate::encode::spec_hyphenated;
use crate::encode::spec_urn;
use crate::encode::spec_encode;
use crate::decode::DecodeError;
use crate::decode::spec_bytes_of_hex;
use crate::decode::spec_strip_hyphens;
use crate::decode::hyphens_placed;
use crate::decode::spec_decode_simple;
use crate::decode::spec_decode_hyphenated;
use crate::decode::spec_decode_urn;
use crate::decode::spec_decode_layout;
use crate::decode::spec_decode;

verus! {

/// Round trip in the simple layout: the rendering of any 16 bytes is valid
/// and decodes back to exactly those bytes, in either case.
pub proof fn lemma_round_trip_simple(b: Seq<u8>, upper: bool)
    requires
        b.len() == 16,
    ensures
        spec_decode_simple(spec_simple(b, upper)) == Ok::<Seq<u8>, DecodeError>(b),
{
    let s = spec_simple(b, upper);
    assert forall|i: int| 0 <= i < 32 implies is_hex_digit(s[i]) && s[i] != 45 by {
        lemma_hex_char_roundtrip(nibble_at(b, i), upper);
    }
    assert(spec_bytes_of_hex(s) =~= b) by {
        assert forall|i: int| 0 <= i < 16 implies spec_bytes_of_hex(s)[i] == b[i] by {
            lemma_hex_char_roundtrip(nibble_at(b, 2 * i), upper);
            lemma_hex_char_roundtrip(nibble_at(b, 2 * i + 1), upper);
            assert(hex_value(s[2 * i]) == b[i] / 16);
            assert(hex_value(s[2 * i + 1]) == b[i] % 16);
        }
    }
}

/// Round trip in the hyphenated layout: the rendering of any 16 bytes has
/// its hyphens exactly at the grouping's positions, its digits are hex,
/// and it decodes back to exactly those bytes, in either case.
pub proof fn lemma_round_trip_hyphenated(b: Seq<u8>, upper: bool)
    requires
        b.len() == 16,
    ensures
        spec_decode_hyphenated(spec_hyphenated(b, upper)) == Ok::<Seq<u8>, DecodeError>(b),
{
    let s = spec_hyphenated(b, upper);
    assert forall|i: int| 0 <= i < 36 implies ((s[i] == 45) <==> is_hyphen_position(i)) by {
        if !is_hyphen_position(i) {
            lemma_position_body(i);
            lemma_hex_char_roundtrip(nibble_at(b, i - hyphens_before(i)), upper);
        }
    }
    assert(hyphens_placed(s));
    assert forall|i: int| 0 <= i < 36 && !is_hyphen_position(i) implies is_hex_digit(s[i]) by {
        lemma_position_body(i);
        lemma_hex_char_roundtrip(nibble_at(b, i - hyphens_before(i)), upper);
    }
    assert(spec_strip_hyphens(s) =~= spec_simple(b, upper)) by {
        assert forall|k: int| 0 <= k < 32 implies spec_strip_hyphens(s)[k] == spec_simple(b, upper)[k] by {
            lemma_body_position(k);
        }
    }
    lemma_round_trip_simple(b, upper);
    assert(spec_bytes_of_hex(spec_strip_hyphens(s)) == b);
}

/// Round trip in the URN layout: the rendering of any 16 bytes carries the
/// `urn:uuid:` prefix and a hyphenated body that decodes back to exactly
/// those bytes, in either case.
pub proof fn lemma_round_trip_urn(b: Seq<u8>, upper: bool)
    requires
        b.len() == 16,
    ensures
        spec_decode_urn(spec_urn(b, upper)) == Ok::<Seq<u8>, DecodeError>(b),
{
    let s = spec_urn(b, upper);
    assert(s.len() == 45);
    assert(s.subrange(0, 9) =~= spec_urn_prefix());
    assert(s.subrange(9, 45) =~= spec_hyphenated(b, upper));
    lemma_round_trip_hyphenated(b, upper);
}

/// Round trip: for every 16-byte value, every layout and either case,
/// decoding the rendering — in that layout, or with the layout inferred —
/// gives the value back unchanged.
pub proof fn lemma_round_trip(b: Seq<u8>, layout: Layout, upper: bool)
    requires
        b.len() == 16,
    ensures
        spec_decode_layout(spec_encode(b, layout, upper), layout) == Ok::<Seq<u8>, DecodeError>(b),
        spec_decode(spec_encode(b, layout, upper)) == Ok::<Seq<u8>, DecodeError>(b),
{
    match layout {
        Layout::Simple => lemma_round_trip_simple(b, upper),
        Layout::Hyphenated => lemma_round_trip_hyphenated(b, upper),
        Layout::Urn => lemma_round_trip_urn(b, upper),
    }
}

/// Decoding a simple rendering is blind to the case of hex digits: a
/// string and its lowercase form decode to the same outcome, value and
/// fault alike.
pub proof fn lemma_case_invariant_simple(s: Seq<u8>)
    ensures
        spec_decode_simple(lower_hex_seq(s)) == spec_decode_simple(s),
{
    let t = lower_hex_seq(s);
    assert forall|i: int| 0 <= i < s.len() implies ((t[i] == 45) == (s[i] == 45))
        && (is_hex_digit(t[i]) == is_hex_digit(s[i]))
        && (is_hex_digit(s[i]) ==> hex_value(t[i]) == hex_value(s[i])) by {
        lemma_lower_hex(s[i]);
    }
    if s.len() == 32 {
        if exists|i: int| 0 <= i < 32 && s[i] == 45 {
            let i = choose|i: int| 0 <= i < 32 && s[i] == 45;
            assert(t[i] == 45);
        } else if exists|i: int| 0 <= i < 32 && !is_hex_digit(s[i]) {
            let i = choose|i: int| 0 <= i < 32 && !is_hex_digit(s[i]);
            assert(!is_hex_digit(t[i]));
            assert forall|j: int| 0 <= j < 32 implies t[j] != 45 by {}
        } else {
            assert forall|j: int| 0 <= j < 32 implies t[j] != 45 && is_hex_digit(t[j]) by {}
            assert(spec_bytes_of_hex(t) =~= spec_bytes_of_hex(s)) by {
                assert forall|k: int| 0 <= k < 16 implies spec_bytes_of_hex(t)[k]
                    == spec_bytes_of_hex(s)[k] by {}
            }
        }
    }
}

/// Decoding a hyphenated rendering is blind to the case of hex digits: a
/// string and its lowercase form decode to the same outcome.
pub proof fn lemma_case_invariant_hyphenated(s: Seq<u8>)
    ensures
        spec_decode_hyphenated(lower_hex_seq(s)) == spec_decode_hyphenated(s),
{
    let t = lower_hex_seq(s);
    assert forall|i: int| 0 <= i < s.len() implies ((t[i] == 45) == (s[i] == 45))
        && (is_hex_digit(t[i]) == is_hex_digit(s[i]))
        && (is_hex_digit(s[i]) ==> hex_value(t[i]) == hex_value(s[i])) by {
        lemma_lower_hex(s[i]);
    }
    if s.len() == 36 {
        if !hyphens_placed(s) {
            let i = choose|i: int|
                0 <= i < 36 && !((s[i] == 45) <==> is_hyphen_position(i));
            assert(!((t[i] == 45) <==> is_hyphen_position(i)));
            assert(!hyphens_placed(t));
        } else {
            assert(hyphens_placed(t));
            if exists|i: int| 0 <= i < 36 && !is_hyphen_position(i) && !is_hex_digit(s[i]) {
                let i = choose|i: int|
                    0 <= i < 36 && !is_hyphen_position(i) && !is_hex_digit(s[i]);
                assert(!is_hex_digit(t[i]));
            } else {
                assert forall|j: int| 0 <= j < 36 && !is_hyphen_position(j) implies is_hex_digit(
                    t[j],
                ) by {}
                assert(spec_bytes_of_hex(spec_strip_hyphens(t)) =~= spec_bytes_of_hex(
                    spec_strip_hyphens(s),
                )) by {
                    assert forall|k: int| 0 <= k < 16 implies spec_bytes_of_hex(
                        spec_strip_hyphens(t),
                    )[k] == spec_bytes_of_hex(spec_strip_hyphens(s))[k] by {
                        lemma_body_position(2 * k);
                        lemma_body_position(2 * k + 1);
                    }
                }
            }
        }
    }
}

/// Decoding a URN rendering is blind to the case of hex digits in its
/// body. One family of inputs is left out: lowering can also repair an
/// uppercase letter inside the prefix itself (`urn:uuiD:` becomes
/// `urn:uuid:`), and there the two parses rightly differ — the unlowered
/// string is a prefix fault while its lowercase form parses.
pub proof fn lemma_case_invariant_urn(s: Seq<u8>)
    requires
        (s.len() == 45 && lower_hex_seq(s).subrange(0, 9) == spec_urn_prefix()) ==> s.subrange(
            0,
            9,
        ) == spec_urn_prefix(),
    ensures
        spec_decode_urn(lower_hex_seq(s)) == spec_decode_urn(s),
{
    let t = lower_hex_seq(s);
    if s.len() == 45 {
        if s.subrange(0, 9) == spec_urn_prefix() {
            assert(t.subrange(0, 9) =~= spec_urn_prefix()) by {
                assert forall|i: int| 0 <= i < 9 implies t[i] == spec_urn_prefix()[i] by {
                    assert(s[i] == s.subrange(0, 9)[i]);
                    lemma_lower_hex(s[i]);
                }
            }
            assert(t.subrange(9, 45) =~= lower_hex_seq(s.subrange(9, 45))) by {
                assert forall|i: int| 0 <= i < 36 implies t.subrange(9, 45)[i] == lower_hex_seq(
                    s.subrange(9, 45),
                )[i] by {}
            }
            lemma_case_invariant_hyphenated(s.subrange(9, 45));
        } else {
            assert(t.subrange(0, 9) != spec_urn_prefix());
        }
    } else {
        assert(t.len() != 45);
    }
}

/// Case invariance on decode, with the layout inferred from the length: a
/// string and its lowercase form decode to the same outcome. The one
/// family of inputs where lowering repairs the URN prefix itself is left
/// out, as in the URN law.
pub proof fn lemma_case_invariant(s: Seq<u8>)
    requires
        (s.len() == 45 && lower_hex_seq(s).subrange(0, 9) == spec_urn_prefix()) ==> s.subrange(
            0,
            9,
        ) == spec_urn_prefix(),
    ensures
        spec_decode(lower_hex_seq(s)) == spec_decode(s),
{
    let t = lower_hex_seq(s);
    assert(t.len() == s.len());
    if s.len() == 32 {
        lemma_case_invariant_simple(s);
    } else if s.len() == 36 {
        lemma_case_invariant_hyphenated(s);
    } else if s.len() == 45 {
        lemma_case_invariant_urn(s);
    }
}

/// Re-encoding a decoded simple rendering canonicalizes it: the lowercase
/// rendering of the decoded bytes is the input with its hex digits
/// lowered.
pub proof fn lemma_canonical_simple(s: Seq<u8>)
    requires
        s.len() == 32,
        forall|i: int| 0 <= i < 32 ==> is_hex_digit(s[i]),
    ensures
        spec_simple(spec_bytes_of_hex(s), false) == lower_hex_seq(s),
{
    let b = spec_bytes_of_hex(s);
    assert(spec_simple(b, false) =~= lower_hex_seq(s)) by {
        assert forall|i: int| 0 <= i < 32 implies spec_simple(b, false)[i] == lower_hex(s[i]) by {
            let k = i / 2;
            assert(hex_value(s[2 * k]) < 16 && hex_value(s[2 * k + 1]) < 16);
            assert(b[k] / 16 == hex_value(s[2 * k]));
            assert(b[k] % 16 == hex_value(s[2 * k + 1]));
            if i % 2 == 0 {
                assert(2 * k == i);
            } else {
                assert(2 * k + 1 == i);
            }
            lemma_hex_char_of_value(s[i]);
        }
    }
}

/// Re-encoding a decoded hyphenated rendering canonicalizes it: hyphens
/// stay where they were and every hex digit comes back lowercase.
pub proof fn lemma_canonical_hyphenated(s: Seq<u8>)
    requires
        s.len() == 36,
        hyphens_placed(s),
        forall|i: int| 0 <= i < 36 && !is_hyphen_position(i) ==> is_hex_digit(s[i]),
    ensures
        spec_hyphenated(spec_bytes_of_hex(spec_strip_hyphens(s)), false) == lower_hex_seq(s),
{
    let p = spec_strip_hyphens(s);
    assert forall|k: int| 0 <= k < 32 implies is_hex_digit(p[k]) by {
        lemma_body_position(k);
    }
    lemma_canonical_simple(p);
    let b = spec_bytes_of_hex(p);
    assert(spec_hyphenated(b, false) =~= lower_hex_seq(s)) by {
        assert forall|i: int| 0 <= i < 36 implies spec_hyphenated(b, false)[i] == lower_hex(
            s[i],
        ) by {
            if is_hyphen_position(i) {
                assert(s[i] == 45);
                lemma_lower_hex(s[i]);
            } else {
                lemma_position_body(i);
                assert(spec_simple(b, false)[i - hyphens_before(i)] == lower_hex_seq(p)[i
                    - hyphens_before(i)]);
            }
        }
    }
}

/// Re-encoding a decoded URN rendering canonicalizes it: the prefix stays
/// `urn:uuid:` and the body comes back lowercase.
pub proof fn lemma_canonical_urn(s: Seq<u8>)
    requires
        s.len() == 45,
        s.subrange(0, 9) == spec_urn_prefix(),
        hyphens_placed(s.subrange(9, 45)),
        forall|i: int|
            0 <= i < 36 && !is_hyphen_position(i) ==> is_hex_digit(s.subrange(9, 45)[i]),
    ensures
        spec_urn(spec_bytes_of_hex(spec_strip_hyphens(s.subrange(9, 45))), false)
            == lower_hex_seq(s),
{
    let body = s.subrange(9, 45);
    lemma_canonical_hyphenated(body);
    let b = spec_bytes_of_hex(spec_strip_hyphens(body));
    assert(spec_urn(b, false) =~= lower_hex_seq(s)) by {
        assert forall|i: int| 0 <= i < 45 implies spec_urn(b, false)[i] == lower_hex(s[i]) by {
            if i < 9 {
                assert(s[i] == s.subrange(0, 9)[i]);
                lemma_lower_hex(s[i]);
            } else {
                assert(spec_hyphenated(b, false)[i - 9] == lower_hex_seq(body)[i - 9]);
                assert(body[i - 9] == s[i]);
            }
        }
    }
}

} // verus!
