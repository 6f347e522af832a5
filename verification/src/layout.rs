//! Layout descriptors: the three textual layouts of a UUID, their fixed
//! output lengths, the hyphen positions of the canonical grouping, and the
//! URN prefix.

use vstd::prelude::*;

verus! {

/// The length in bytes of a simple rendering: 32 hex digits.
pub const SIMPLE_LENGTH: usize = 32;

/// The length in bytes of a hyphenated rendering: 32 hex digits in
/// 8-4-4-4-12 groups joined by four hyphens.
pub const HYPHENATED_LENGTH: usize = 36;

/// The length in bytes of a URN rendering: `urn:uuid:` and the hyphenated
/// form.
pub const URN_LENGTH: usize = 45;

/// The length in bytes of the `urn:uuid:` prefix.
pub const URN_PREFIX_LENGTH: usize = 9;

/// A textual layout of a UUID.
#[derive(Clone, Copy, Debug, PartialEq, Eq, Structural)]
pub enum Layout {
    /// 32 contiguous hex digits.
    Simple,
    /// 8-4-4-4-12 hex groups joined by `-`.
    Hyphenated,
    /// `urn:uuid:` followed by the hyphenated form.
    Urn,
}

impl Layout {
    /// The exact number of bytes an encoding in this layout occupies.
    pub open spec fn spec_length(self) -> int {
        match self {
            Layout::Simple => 32,
            Layout::Hyphenated => 36,
            Layout::Urn => 45,
        }
    }

    /// The exact number of bytes an encoding in this layout occupies,
    /// computed in executable code.
    pub fn length(self) -> (n: usize)
        ensures
            n == self.spec_length(),
    {
        match self {
            Layout::Simple => SIMPLE_LENGTH,
            Layout::Hyphenated => HYPHENATED_LENGTH,
            Layout::Urn => URN_LENGTH,
        }
    }
}

/// True of the four positions of a hyphenated rendering that hold a `-`:
/// the grouping 8-4-4-4-12 puts them at 8, 13, 18 and 23.
pub open spec fn is_hyphen_position(i: int) -> bool {
    i == 8 || i == 13 || i == 18 || i == 23
}

/// How many hyphens stand before position `i` of a hyphenated rendering.
pub open spec fn hyphens_before(i: int) -> int {
    if i <= 8 {
        0
    } else if i <= 13 {
        1
    } else if i <= 18 {
        2
    } else if i <= 23 {
        3
    } else {
        4
    }
}

/// The position within a hyphenated rendering of digit `i` of the simple
/// rendering.
pub open spec fn body_position(i: int) -> int {
    if i < 8 {
        i
    } else if i < 12 {
        i + 1
    } else if i < 16 {
        i + 2
    } else if i < 20 {
        i + 3
    } else {
        i + 4
    }
}

/// The position of digit `i` of the simple rendering within a hyphenated
/// rendering, computed in executable code.
pub fn body_index(i: usize) -> (r: usize)
    requires
        i < 32,
    ensures
        r == body_position(i as int),
        r < 36,
{
    if i < 8 {
        i
    } else if i < 12 {
        i + 1
    } else if i < 16 {
        i + 2
    } else if i < 20 {
        i + 3
    } else {
        i + 4
    }
}

/// The ASCII bytes of `urn:uuid:`.
pub open spec fn spec_urn_prefix() -> Seq<u8> {
    seq![117u8, 114u8, 110u8, 58u8, 117u8, 117u8, 105u8, 100u8, 58u8]
}

/// The byte at position `i` of the `urn:uuid:` prefix, computed in
/// executable code.
pub fn urn_prefix_byte(i: usize) -> (c: u8)
    requires
        i < 9,
    ensures
        c == spec_urn_prefix()[i as int],
{
    let c: u8 = if i == 0 {
        117
    } else if i == 1 {
        114
    } else if i == 2 {
        110
    } else if i == 3 {
        58
    } else if i == 4 {
        117
    } else if i == 5 {
        117
    } else if i == 6 {
        105
    } else if i == 7 {
        100
    } else {
        58
    };
    assert(c == spec_urn_prefix()[i as int]);
    c
}

/// Digit positions map into the body of a hyphenated rendering: never onto
/// a hyphen, and stripping the hyphens before the landing position gives
/// the digit position back.
pub proof fn lemma_body_position(i: int)
    requires
        0 <= i < 32,
    ensures
        0 <= body_position(i) < 36,
        !is_hyphen_position(body_position(i)),
        body_position(i) - hyphens_before(body_position(i)) == i,
{
}

/// Every non-hyphen position of a hyphenated rendering is reached from
/// exactly the digit position that stripping the hyphens gives.
pub proof fn lemma_position_body(j: int)
    requires
        0 <= j < 36,
        !is_hyphen_position(j),
    ensures
        0 <= j - hyphens_before(j) < 32,
        body_position(j - hyphens_before(j)) == j,
{
}

} // verus!
