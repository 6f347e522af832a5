//! The encoder: renders the 16 bytes of an identifier as hex text in each
//! layout, either into a fresh vector or into a caller-supplied buffer of
//! at least the layout's declared length. Output length is exact, nothing
//! past it is touched, and the operation cannot fail on a buffer of the
//! declared length.

use vstd::prelude::*;

use crate::hex::spec_hex_char;
use crate::hex::hex_char;
use crate::layout::Layout;
use crate::layout::is_hyphen_position;
use crate::layout::hyphens_before;
use crate::layout::spec_urn_prefix;
use crate::layout::urn_prefix_byte;
use crate::value::Uuid;

verus! {

/// Digit `i` of the simple rendering names the high nibble of byte `i/2`
/// when `i` is even and the low nibble when it is odd.
pub open spec fn nibble_at(b: Seq<u8>, i: int) -> u8 {
    if i % 2 == 0 {
        (b[i / 2] / 16) as u8
    } else {
        (b[i / 2] % 16) as u8
    }
}

/// The simple rendering: 32 hex digits, two per byte, high nibble first.
pub open spec fn spec_simple(b: Seq<u8>, upper: bool) -> Seq<u8> {
    Seq::new(32, |i: int| spec_hex_char(nibble_at(b, i), upper))
}

/// The hyphenated rendering: the simple rendering with a `-` inserted at
/// positions 8, 13, 18 and 23, giving the 8-4-4-4-12 grouping.
pub open spec fn spec_hyphenated(b: Seq<u8>, upper: bool) -> Seq<u8> {
    Seq::new(
        36,
        |i: int|
            if is_hyphen_position(i) {
                45u8
            } else {
                spec_simple(b, upper)[i - hyphens_before(i)]
            },
    )
}

/// The URN rendering: `urn:uuid:` followed by the hyphenated rendering.
/// The prefix stays lowercase whatever the case flag says.
pub open spec fn spec_urn(b: Seq<u8>, upper: bool) -> Seq<u8> {
    spec_urn_prefix() + spec_hyphenated(b, upper)
}

/// The rendering of 16 bytes in a layout, lowercase by default and
/// uppercase hex digits when `upper` is set.
pub open spec fn spec_encode(b: Seq<u8>, layout: Layout, upper: bool) -> Seq<u8> {
    match layout {
        Layout::Simple => spec_simple(b, upper),
        Layout::Hyphenated => spec_hyphenated(b, upper),
        Layout::Urn => spec_urn(b, upper),
    }
}

/// Every layout's rendering has exactly the layout's declared length.
pub proof fn lemma_encode_length(b: Seq<u8>, layout: Layout, upper: bool)
    ensures
        spec_encode(b, layout, upper).len() == layout.spec_length(),
{
}

/// The byte at position `i` of the simple rendering.
fn simple_char(u: &Uuid, i: usize, upper: bool) -> (c: u8)
    requires
        u.wf(),
        i < 32,
    ensures
        c == spec_simple(u@, upper)[i as int],
{
    let bytes = u.as_bytes();
    let byte = bytes[i / 2];
    let nib: u8 = if i % 2 == 0 {
        byte / 16
    } else {
        byte % 16
    };
    assert(nib == nibble_at(u@, i as int));
    hex_char(nib, upper)
}

/// The byte at position `i` of the hyphenated rendering.
fn hyphenated_char(u: &Uuid, i: usize, upper: bool) -> (c: u8)
    requires
        u.wf(),
        i < 36,
    ensures
        c == spec_hyphenated(u@, upper)[i as int],
{
    if i == 8 || i == 13 || i == 18 || i == 23 {
        45
    } else {
        let before: usize = if i <= 8 {
            0
        } else if i <= 13 {
            1
        } else if i <= 18 {
            2
        } else if i <= 23 {
            3
        } else {
            4
        };
        assert(before == hyphens_before(i as int));
        simple_char(u, i - before, upper)
    }
}

/// Renders an identifier in the simple layout: exactly 32 hex digits.
pub fn encode_simple(u: &Uuid, upper: bool) -> (r: Vec<u8>)
    requires
        u.wf(),
    ensures
        r@ == spec_simple(u@, upper),
        r@.len() == 32,
{
    let mut out: Vec<u8> = Vec::new();
    let mut i: usize = 0;
    while i < 32
        invariant
            u.wf(),
            i <= 32,
            out@.len() == i,
            forall|j: int| 0 <= j < i ==> out@[j] == spec_simple(u@, upper)[j],
        decreases 32 - i,
    {
        let c = simple_char(u, i, upper);
        out.push(c);
        i = i + 1;
    }
    assert(out@ =~= spec_simple(u@, upper));
    out
}

/// Renders an identifier in the hyphenated layout: exactly 36 bytes.
pub fn encode_hyphenated(u: &Uuid, upper: bool) -> (r: Vec<u8>)
    requires
        u.wf(),
    ensures
        r@ == spec_hyphenated(u@, upper),
        r@.len() == 36,
{
    let mut out: Vec<u8> = Vec::new();
    let mut i: usize = 0;
    while i < 36
        invariant
            u.wf(),
            i <= 36,
            out@.len() == i,
            forall|j: int| 0 <= j < i ==> out@[j] == spec_hyphenated(u@, upper)[j],
        decreases 36 - i,
    {
        let c = hyphenated_char(u, i, upper);
        out.push(c);
        i = i + 1;
    }
    assert(out@ =~= spec_hyphenated(u@, upper));
    out
}

/// Renders an identifier in the URN layout: exactly 45 bytes.
pub fn encode_urn(u: &Uuid, upper: bool) -> (r: Vec<u8>)
    requires
        u.wf(),
    ensures
        r@ == spec_urn(u@, upper),
        r@.len() == 45,
{
    let mut out: Vec<u8> = Vec::new();
    let mut i: usize = 0;
    while i < 9
        invariant
            i <= 9,
            out@.len() == i,
            forall|j: int| 0 <= j < i ==> out@[j] == spec_urn_prefix()[j],
        decreases 9 - i,
    {
        let c = urn_prefix_byte(i);
        out.push(c);
        i = i + 1;
    }
    let mut k: usize = 0;
    while k < 36
        invariant
            u.wf(),
            k <= 36,
            out@.len() == 9 + k,
            forall|j: int| 0 <= j < 9 ==> out@[j] == spec_urn_prefix()[j],
            forall|j: int| 0 <= j < k ==> out@[9 + j] == spec_hyphenated(u@, upper)[j],
        decreases 36 - k,
    {
        let c = hyphenated_char(u, k, upper);
        out.push(c);
        k = k + 1;
    }
    assert(out@ =~= spec_urn(u@, upper));
    out
}

/// Renders an identifier in the chosen layout, lowercase unless `upper`
/// is set. The result always has exactly the layout's declared length.
pub fn encode(u: &Uuid, layout: Layout, upper: bool) -> (r: Vec<u8>)
    requires
        u.wf(),
    ensures
        r@ == spec_encode(u@, layout, upper),
        r@.len() == layout.spec_length(),
{
    match layout {
        Layout::Simple => encode_simple(u, upper),
        Layout::Hyphenated => encode_hyphenated(u, upper),
        Layout::Urn => encode_urn(u, upper),
    }
}

/// Renders an identifier in the chosen layout into the front of a
/// caller-supplied buffer of at least the layout's declared length. The
/// buffer keeps its length and everything past the rendering is left
/// untouched; a shorter buffer is a contract violation, not a truncation.
pub fn encode_into(u: &Uuid, layout: Layout, upper: bool, buf: &mut Vec<u8>)
    requires
        u.wf(),
        old(buf)@.len() >= layout.spec_length(),
    ensures
        final(buf)@.len() == old(buf)@.len(),
        final(buf)@.subrange(0, layout.spec_length()) == spec_encode(u@, layout, upper),
        final(buf)@.subrange(layout.spec_length(), final(buf)@.len() as int) == old(buf)@.subrange(
            layout.spec_length(),
            old(buf)@.len() as int,
        ),
{
    let text = encode(u, layout, upper);
    let n = text.len();
    let mut i: usize = 0;
    while i < n
        invariant
            n == text@.len(),
            n <= buf@.len(),
            i <= n,
            buf@.len() == old(buf)@.len(),
            forall|j: int| 0 <= j < i ==> buf@[j] == text@[j],
            forall|j: int| i <= j < buf@.len() ==> buf@[j] == old(buf)@[j],
        decreases n - i,
    {
        buf.set(i, text[i]);
        i = i + 1;
    }
    assert(buf@.subrange(0, layout.spec_length()) =~= spec_encode(u@, layout, upper));
    assert(buf@.subrange(layout.spec_length(), buf@.len() as int) =~= old(buf)@.subrange(
        layout.spec_length(),
        old(buf)@.len() as int,
    ));
}

} // verus!
