//! Adapter wrappers: each binds an identifier — owned or borrowed — to one
//! layout, so that producing text dispatches statically to that layout's
//! encoder. No wrapper touches bytes itself; all of them route through the
//! encoder. Equality on a wrapper is equality of the underlying identifier;
//! the layout takes no part in it.

use vstd::prelude::*;
use vstd::std_specs::cmp::PartialEqSpec;

use crate::encode::encode_hyphenated;
use crate::encode::encode_simple;
use crate::encode::encode_urn;
use crate::encode::spec_hyphenated;
use crate::encode::spec_simple;
use crate::encode::spec_urn;
use crate::value::Uuid;

verus! {

/// An adapter that renders an owned identifier in the hyphenated layout.
#[derive(Hash)]
pub struct Hyphenated(Uuid);

/// An adapter that renders a borrowed identifier in the hyphenated layout.
#[derive(Hash)]
pub struct HyphenatedRef<'a>(&'a Uuid);

/// An adapter that renders an owned identifier in the simple layout.
#[derive(Hash)]
pub struct Simple(Uuid);

/// An adapter that renders a borrowed identifier in the simple layout.
#[derive(Hash)]
pub struct SimpleRef<'a>(&'a Uuid);

/// An adapter that renders an owned identifier in the URN layout.
#[derive(Hash)]
pub struct Urn(Uuid);

/// An adapter that renders a borrowed identifier in the URN layout.
#[derive(Hash)]
pub struct UrnRef<'a>(&'a Uuid);

impl View for Hyphenated {
    type V = Seq<u8>;

    closed spec fn view(&self) -> Seq<u8> {
        self.0@
    }
}

impl<'a> View for HyphenatedRef<'a> {
    type V = Seq<u8>;

    closed spec fn view(&self) -> Seq<u8> {
        self.0@
    }
}

impl View for Simple {
    type V = Seq<u8>;

    closed spec fn view(&self) -> Seq<u8> {
        self.0@
    }
}

impl<'a> View for SimpleRef<'a> {
    type V = Seq<u8>;

    closed spec fn view(&self) -> Seq<u8> {
        self.0@
    }
}

impl View for Urn {
    type V = Seq<u8>;

    closed spec fn view(&self) -> Seq<u8> {
        self.0@
    }
}

impl<'a> View for UrnRef<'a> {
    type V = Seq<u8>;

    closed spec fn view(&self) -> Seq<u8> {
        self.0@
    }
}

impl Uuid {
    /// Binds this identifier to the hyphenated layout.
    pub fn to_hyphenated(self) -> (r: Hyphenated)
        ensures
            r@ == self@,
    {
        Hyphenated::from_uuid(self)
    }

    /// Binds a borrowed identifier to the hyphenated layout.
    pub fn to_hyphenated_ref(&self) -> (r: HyphenatedRef)
        ensures
            r@ == self@,
    {
        HyphenatedRef::from_uuid_ref(self)
    }

    /// Binds this identifier to the simple layout.
    pub fn to_simple(self) -> (r: Simple)
        ensures
            r@ == self@,
    {
        Simple::from_uuid(self)
    }

    /// Binds a borrowed identifier to the simple layout.
    pub fn to_simple_ref(&self) -> (r: SimpleRef)
        ensures
            r@ == self@,
    {
        SimpleRef::from_uuid_ref(self)
    }

    /// Binds this identifier to the URN layout.
    pub fn to_urn(self) -> (r: Urn)
        ensures
            r@ == self@,
    {
        Urn::from_uuid(self)
    }

    /// Binds a borrowed identifier to the URN layout.
    pub fn to_urn_ref(&self) -> (r: UrnRef)
        ensures
            r@ == self@,
    {
        UrnRef::from_uuid_ref(self)
    }
}

impl Hyphenated {
    /// The length of a hyphenated rendering.
    pub const LENGTH: usize = 36;

    /// Wraps an owned identifier.
    pub fn from_uuid(uuid: Uuid) -> (r: Self)
        ensures
            r@ == uuid@,
    {
        Hyphenated(uuid)
    }

    /// The lowercase hyphenated rendering of the wrapped identifier.
    pub fn encode_lower(&self) -> (r: Vec<u8>)
        requires
            self@.len() == 16,
        ensures
            r@ == spec_hyphenated(self@, false),
            r@.len() == 36,
    {
        encode_hyphenated(&self.0, false)
    }

    /// The uppercase hyphenated rendering of the wrapped identifier.
    pub fn encode_upper(&self) -> (r: Vec<u8>)
        requires
            self@.len() == 16,
        ensures
            r@ == spec_hyphenated(self@, true),
            r@.len() == 36,
    {
        encode_hyphenated(&self.0, true)
    }
}

impl<'a> HyphenatedRef<'a> {
    /// The length of a hyphenated rendering.
    pub const LENGTH: usize = 36;

    /// Wraps a borrowed identifier.
    pub fn from_uuid_ref(uuid: &'a Uuid) -> (r: Self)
        ensures
            r@ == uuid@,
    {
        HyphenatedRef(uuid)
    }

    /// The lowercase hyphenated rendering of the borrowed identifier.
    pub fn encode_lower(&self) -> (r: Vec<u8>)
        requires
            self@.len() == 16,
        ensures
            r@ == spec_hyphenated(self@, false),
            r@.len() == 36,
    {
        encode_hyphenated(self.0, false)
    }

    /// The uppercase hyphenated rendering of the borrowed identifier.
    pub fn encode_upper(&self) -> (r: Vec<u8>)
        requires
            self@.len() == 16,
        ensures
            r@ == spec_hyphenated(self@, true),
            r@.len() == 36,
    {
        encode_hyphenated(self.0, true)
    }
}

impl Simple {
    /// The length of a simple rendering.
    pub const LENGTH: usize = 32;

    /// Wraps an owned identifier.
    pub fn from_uuid(uuid: Uuid) -> (r: Self)
        ensures
            r@ == uuid@,
    {
        Simple(uuid)
    }

    /// The lowercase simple rendering of the wrapped identifier.
    pub fn encode_lower(&self) -> (r: Vec<u8>)
        requires
            self@.len() == 16,
        ensures
            r@ == spec_simple(self@, false),
            r@.len() == 32,
    {
        encode_simple(&self.0, false)
    }

    /// The uppercase simple rendering of the wrapped identifier.
    pub fn encode_upper(&self) -> (r: Vec<u8>)
        requires
            self@.len() == 16,
        ensures
            r@ == spec_simple(self@, true),
            r@.len() == 32,
    {
        encode_simple(&self.0, true)
    }
}

impl<'a> SimpleRef<'a> {
    /// The length of a simple rendering.
    pub const LENGTH: usize = 32;

    /// Wraps a borrowed identifier.
    pub fn from_uuid_ref(uuid: &'a Uuid) -> (r: Self)
        ensures
            r@ == uuid@,
    {
        SimpleRef(uuid)
    }

    /// The lowercase simple rendering of the borrowed identifier.
    pub fn encode_lower(&self) -> (r: Vec<u8>)
        requires
            self@.len() == 16,
        ensures
            r@ == spec_simple(self@, false),
            r@.len() == 32,
    {
        encode_simple(self.0, false)
    }

    /// The uppercase simple rendering of the borrowed identifier.
    pub fn encode_upper(&self) -> (r: Vec<u8>)
        requires
            self@.len() == 16,
        ensures
            r@ == spec_simple(self@, true),
            r@.len() == 32,
    {
        encode_simple(self.0, true)
    }
}

impl Urn {
    /// The length of a URN rendering.
    pub const LENGTH: usize = 45;

    /// Wraps an owned identifier.
    pub fn from_uuid(uuid: Uuid) -> (r: Self)
        ensures
            r@ == uuid@,
    {
        Urn(uuid)
    }

    /// The lowercase URN rendering of the wrapped identifier.
    pub fn encode_lower(&self) -> (r: Vec<u8>)
        requires
            self@.len() == 16,
        ensures
            r@ == spec_urn(self@, false),
            r@.len() == 45,
    {
        encode_urn(&self.0, false)
    }

    /// The uppercase URN rendering of the wrapped identifier.
    pub fn encode_upper(&self) -> (r: Vec<u8>)
        requires
            self@.len() == 16,
        ensures
            r@ == spec_urn(self@, true),
            r@.len() == 45,
    {
        encode_urn(&self.0, true)
    }
}

impl<'a> UrnRef<'a> {
    /// The length of a URN rendering.
    pub const LENGTH: usize = 45;

    /// Wraps a borrowed identifier.
    pub fn from_uuid_ref(uuid: &'a Uuid) -> (r: Self)
        ensures
            r@ == uuid@,
    {
        UrnRef(uuid)
    }

    /// The lowercase URN rendering of the borrowed identifier.
    pub fn encode_lower(&self) -> (r: Vec<u8>)
        requires
            self@.len() == 16,
        ensures
            r@ == spec_urn(self@, false),
            r@.len() == 45,
    {
        encode_urn(self.0, false)
    }

    /// The uppercase URN rendering of the borrowed identifier.
    pub fn encode_upper(&self) -> (r: Vec<u8>)
        requires
            self@.len() == 16,
        ensures
            r@ == spec_urn(self@, true),
            r@.len() == 45,
    {
        encode_urn(self.0, true)
    }
}

impl PartialEq for Hyphenated {
    /// Two hyphenated adapters are equal exactly when the identifiers are.
    fn eq(&self, other: &Self) -> (r: bool) {
        self.0.eq(&other.0)
    }
}

impl vstd::std_specs::cmp::PartialEqSpecImpl for Hyphenated {
    open spec fn obeys_eq_spec() -> bool {
        true
    }

    open spec fn eq_spec(&self, other: &Self) -> bool {
        self@ == other@
    }
}

impl<'a> PartialEq for HyphenatedRef<'a> {
    /// Two hyphenated adapters are equal exactly when the identifiers are.
    fn eq(&self, other: &Self) -> (r: bool) {
        self.0.eq(other.0)
    }
}

impl<'a> vstd::std_specs::cmp::PartialEqSpecImpl for HyphenatedRef<'a> {
    open spec fn obeys_eq_spec() -> bool {
        true
    }

    open spec fn eq_spec(&self, other: &Self) -> bool {
        self@ == other@
    }
}

impl PartialEq for Simple {
    /// Two simple adapters are equal exactly when the identifiers are.
    fn eq(&self, other: &Self) -> (r: bool) {
        self.0.eq(&other.0)
    }
}

impl vstd::std_specs::cmp::PartialEqSpecImpl for Simple {
    open spec fn obeys_eq_spec() -> bool {
        true
    }

    open spec fn eq_spec(&self, other: &Self) -> bool {
        self@ == other@
    }
}

impl<'a> PartialEq for SimpleRef<'a> {
    /// Two simple adapters are equal exactly when the identifiers are.
    fn eq(&self, other: &Self) -> (r: bool) {
        self.0.eq(other.0)
    }
}

impl<'a> vstd::std_specs::cmp::PartialEqSpecImpl for SimpleRef<'a> {
    open spec fn obeys_eq_spec() -> bool {
        true
    }

    open spec fn eq_spec(&self, other: &Self) -> bool {
        self@ == other@
    }
}

impl PartialEq for Urn {
    /// Two URN adapters are equal exactly when the identifiers are.
    fn eq(&self, other: &Self) -> (r: bool) {
        self.0.eq(&other.0)
    }
}

impl vstd::std_specs::cmp::PartialEqSpecImpl for Urn {
    open spec fn obeys_eq_spec() -> bool {
        true
    }

    open spec fn eq_spec(&self, other: &Self) -> bool {
        self@ == other@
    }
}

impl<'a> PartialEq for UrnRef<'a> {
    /// Two URN adapters are equal exactly when the identifiers are.
    fn eq(&self, other: &Self) -> (r: bool) {
        self.0.eq(other.0)
    }
}

impl<'a> vstd::std_specs::cmp::PartialEqSpecImpl for UrnRef<'a> {
    open spec fn obeys_eq_spec() -> bool {
        true
    }

    open spec fn eq_spec(&self, other: &Self) -> bool {
        self@ == other@
    }
}

/// Equality between hyphenated adapters, owned or borrowed, is equality of
/// the identifiers they carry: the layout tag takes no part in it.
/// Comparing adapters of different layouts is not defined at all — they
/// are distinct types.
pub proof fn lemma_hyphenated_equality(a: Hyphenated, b: Hyphenated, ar: HyphenatedRef, br: HyphenatedRef)
    ensures
        a.eq_spec(&b) <==> a@ == b@,
        ar.eq_spec(&br) <==> ar@ == br@,
{
}

/// Equality between simple adapters, owned or borrowed, is equality of
/// the identifiers they carry: the layout tag takes no part in it.
pub proof fn lemma_simple_equality(a: Simple, b: Simple, ar: SimpleRef, br: SimpleRef)
    ensures
        a.eq_spec(&b) <==> a@ == b@,
        ar.eq_spec(&br) <==> ar@ == br@,
{
}

/// Equality between URN adapters, owned or borrowed, is equality of the
/// identifiers they carry: the layout tag takes no part in it.
pub proof fn lemma_urn_equality(a: Urn, b: Urn, ar: UrnRef, br: UrnRef)
    ensures
        a.eq_spec(&b) <==> a@ == b@,
        ar.eq_spec(&br) <==> ar@ == br@,
{
}

} // verus!
