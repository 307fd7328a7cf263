//! A `u16` whose addition stops at `u16::MAX` instead of overflowing.

use vstd::prelude::*;
use vstd::std_specs::cmp::PartialEqSpecImpl;
use vstd::std_specs::convert::FromSpecImpl;
use vstd::std_specs::ops::AddSpecImpl;

verus! {

/// The sum of two `u16` values, held at `u16::MAX` where it would pass it.
pub open spec fn saturating_sum(a: u16, b: u16) -> u16 {
    if a + b > u16::MAX {
        u16::MAX
    } else {
        (a + b) as u16
    }
}

/// A number between 0 and `u16::MAX` that saturates when added to.
#[derive(Debug, Clone, Copy, PartialEq, Eq, Structural)]
pub struct SaturatingU16 {
    value: u16,
}

impl View for SaturatingU16 {
    type V = u16;

    closed spec fn view(&self) -> u16 {
        self.value
    }
}

impl SaturatingU16 {
    /// The value that holds `value`.
    pub closed spec fn holding(value: u16) -> SaturatingU16 {
        SaturatingU16 { value }
    }

    /// `holding(value)` holds `value`.
    pub broadcast proof fn lemma_holding(value: u16)
        ensures
            (#[trigger] SaturatingU16::holding(value))@ == value,
    {
    }

    /// The number that `self` holds.
    pub fn value(&self) -> (value: u16)
        ensures
            value == self@,
    {
        self.value
    }

    /// Two values that hold the same number are the same value.
    pub broadcast proof fn lemma_view_is_injective(a: SaturatingU16, b: SaturatingU16)
        requires
            #[trigger] a@ == #[trigger] b@,
        ensures
            a == b,
    {
    }
}

impl FromSpecImpl<u16> for SaturatingU16 {
    open spec fn obeys_from_spec() -> bool {
        true
    }

    open spec fn from_spec(value: u16) -> SaturatingU16 {
        SaturatingU16::holding(value)
    }
}

impl From<u16> for SaturatingU16 {
    fn from(value: u16) -> (wrapped: SaturatingU16)
        ensures
            wrapped@ == value,
    {
        SaturatingU16 { value }
    }
}

impl FromSpecImpl<u8> for SaturatingU16 {
    open spec fn obeys_from_spec() -> bool {
        true
    }

    open spec fn from_spec(value: u8) -> SaturatingU16 {
        SaturatingU16::holding(value as u16)
    }
}

impl From<u8> for SaturatingU16 {
    fn from(value: u8) -> (wrapped: SaturatingU16)
        ensures
            wrapped@ == value,
    {
        SaturatingU16 { value: value.into() }
    }
}

impl<'a> FromSpecImpl<&'a u16> for SaturatingU16 {
    open spec fn obeys_from_spec() -> bool {
        true
    }

    open spec fn from_spec(value: &'a u16) -> SaturatingU16 {
        SaturatingU16::holding(*value)
    }
}

impl<'a> From<&'a u16> for SaturatingU16 {
    fn from(value: &'a u16) -> (wrapped: SaturatingU16)
        ensures
            wrapped@ == *value,
    {
        SaturatingU16 { value: *value }
    }
}

impl<'a> FromSpecImpl<&'a u8> for SaturatingU16 {
    open spec fn obeys_from_spec() -> bool {
        true
    }

    open spec fn from_spec(value: &'a u8) -> SaturatingU16 {
        SaturatingU16::holding(*value as u16)
    }
}

impl<'a> From<&'a u8> for SaturatingU16 {
    fn from(value: &'a u8) -> (wrapped: SaturatingU16)
        ensures
            wrapped@ == *value,
    {
        SaturatingU16 { value: (*value).into() }
    }
}

impl AddSpecImpl<u16> for SaturatingU16 {
    open spec fn obeys_add_spec() -> bool {
        true
    }

    open spec fn add_req(self, rhs: u16) -> bool {
        true
    }

    open spec fn add_spec(self, rhs: u16) -> SaturatingU16 {
        SaturatingU16::holding(saturating_sum(self@, rhs))
    }
}

impl std::ops::Add<u16> for SaturatingU16 {
    type Output = SaturatingU16;

    fn add(self, rhs: u16) -> (sum: SaturatingU16)
        ensures
            sum@ == saturating_sum(self@, rhs),
    {
        SaturatingU16 { value: self.value.saturating_add(rhs) }
    }
}

impl AddSpecImpl<SaturatingU16> for SaturatingU16 {
    open spec fn obeys_add_spec() -> bool {
        true
    }

    open spec fn add_req(self, rhs: SaturatingU16) -> bool {
        true
    }

    open spec fn add_spec(self, rhs: SaturatingU16) -> SaturatingU16 {
        SaturatingU16::holding(saturating_sum(self@, rhs@))
    }
}

impl std::ops::Add<SaturatingU16> for SaturatingU16 {
    type Output = SaturatingU16;

    fn add(self, rhs: SaturatingU16) -> (sum: SaturatingU16)
        ensures
            sum@ == saturating_sum(self@, rhs@),
    {
        self + rhs.value
    }
}

impl<'a> AddSpecImpl<&'a u16> for SaturatingU16 {
    open spec fn obeys_add_spec() -> bool {
        true
    }

    open spec fn add_req(self, rhs: &'a u16) -> bool {
        true
    }

    open spec fn add_spec(self, rhs: &'a u16) -> SaturatingU16 {
        SaturatingU16::holding(saturating_sum(self@, *rhs))
    }
}

impl<'a> std::ops::Add<&'a u16> for SaturatingU16 {
    type Output = SaturatingU16;

    fn add(self, rhs: &'a u16) -> (sum: SaturatingU16)
        ensures
            sum@ == saturating_sum(self@, *rhs),
    {
        self + *rhs
    }
}

impl<'a> AddSpecImpl<&'a SaturatingU16> for SaturatingU16 {
    open spec fn obeys_add_spec() -> bool {
        true
    }

    open spec fn add_req(self, rhs: &'a SaturatingU16) -> bool {
        true
    }

    open spec fn add_spec(self, rhs: &'a SaturatingU16) -> SaturatingU16 {
        SaturatingU16::holding(saturating_sum(self@, rhs@))
    }
}

impl<'a> std::ops::Add<&'a SaturatingU16> for SaturatingU16 {
    type Output = SaturatingU16;

    fn add(self, rhs: &'a SaturatingU16) -> (sum: SaturatingU16)
        ensures
            sum@ == saturating_sum(self@, rhs@),
    {
        self + *rhs
    }
}

impl PartialEqSpecImpl<u16> for SaturatingU16 {
    open spec fn obeys_eq_spec() -> bool {
        true
    }

    open spec fn eq_spec(&self, other: &u16) -> bool {
        self@ == *other
    }
}

impl PartialEq<u16> for SaturatingU16 {
    fn eq(&self, other: &u16) -> (equal: bool) {
        self.value == *other
    }
}

} // verus!
