//! Strongly typed frequency values.
//!
//! A frequency is a whole number of cycles per second. Wrapping the number in a
//! type of its own keeps it from being mixed up with other quantities; the
//! usual arithmetic and comparisons carry over from the wrapped integer.

use core::cmp::Ordering;
use vstd::prelude::*;
use vstd::std_specs::cmp::PartialOrdSpecImpl;
use vstd::std_specs::convert::FromSpecImpl;
use vstd::std_specs::ops::AddSpecImpl;
use vstd::std_specs::ops::DivSpecImpl;
use vstd::std_specs::ops::MulSpecImpl;
use vstd::std_specs::ops::SubSpecImpl;

verus! {

/// A frequency in whole cycles per second.
#[derive(Debug, Clone, Copy, PartialEq, Eq, Ord, Hash, Structural)]
pub struct FrequencyHz(pub u32);

impl Default for FrequencyHz {
    /// The default frequency is zero.
    fn default() -> (r: Self)
        ensures
            r == FrequencyHz(0),
    {
        FrequencyHz(0)
    }
}

impl From<u32> for FrequencyHz {
    fn from(hz: u32) -> (r: Self) {
        FrequencyHz(hz)
    }
}

impl FromSpecImpl<u32> for FrequencyHz {
    open spec fn obeys_from_spec() -> bool {
        true
    }

    open spec fn from_spec(hz: u32) -> Self {
        FrequencyHz(hz)
    }
}

impl From<FrequencyHz> for u32 {
    fn from(freq: FrequencyHz) -> (r: Self) {
        freq.0
    }
}

impl FromSpecImpl<FrequencyHz> for u32 {
    open spec fn obeys_from_spec() -> bool {
        true
    }

    open spec fn from_spec(freq: FrequencyHz) -> Self {
        freq.0
    }
}

impl PartialOrd for FrequencyHz {
    /// Frequencies are ordered as their cycle counts are.
    fn partial_cmp(&self, other: &Self) -> (r: Option<Ordering>) {
        if self.0 < other.0 {
            Some(Ordering::Less)
        } else if self.0 > other.0 {
            Some(Ordering::Greater)
        } else {
            Some(Ordering::Equal)
        }
    }
}

impl PartialOrdSpecImpl for FrequencyHz {
    open spec fn obeys_partial_cmp_spec() -> bool {
        true
    }

    open spec fn partial_cmp_spec(&self, other: &Self) -> Option<Ordering> {
        if self.0 < other.0 {
            Some(Ordering::Less)
        } else if self.0 > other.0 {
            Some(Ordering::Greater)
        } else {
            Some(Ordering::Equal)
        }
    }
}

impl core::ops::Add for FrequencyHz {
    type Output = FrequencyHz;

    /// The sum of two frequencies; it has to fit in 32 bits.
    fn add(self, rhs: FrequencyHz) -> (r: FrequencyHz) {
        FrequencyHz(self.0 + rhs.0)
    }
}

impl AddSpecImpl for FrequencyHz {
    open spec fn obeys_add_spec() -> bool {
        true
    }

    open spec fn add_req(self, rhs: FrequencyHz) -> bool {
        self.0 + rhs.0 <= u32::MAX
    }

    open spec fn add_spec(self, rhs: FrequencyHz) -> FrequencyHz {
        FrequencyHz((self.0 + rhs.0) as u32)
    }
}

impl core::ops::Sub for FrequencyHz {
    type Output = FrequencyHz;

    /// The difference of two frequencies; the right one may not be the larger.
    fn sub(self, rhs: FrequencyHz) -> (r: FrequencyHz) {
        FrequencyHz(self.0 - rhs.0)
    }
}

impl SubSpecImpl for FrequencyHz {
    open spec fn obeys_sub_spec() -> bool {
        true
    }

    open spec fn sub_req(self, rhs: FrequencyHz) -> bool {
        rhs.0 <= self.0
    }

    open spec fn sub_spec(self, rhs: FrequencyHz) -> FrequencyHz {
        FrequencyHz((self.0 - rhs.0) as u32)
    }
}

impl core::ops::Mul for FrequencyHz {
    type Output = FrequencyHz;

    /// The product of two frequencies; it has to fit in 32 bits.
    fn mul(self, rhs: FrequencyHz) -> (r: FrequencyHz) {
        FrequencyHz(self.0 * rhs.0)
    }
}

impl MulSpecImpl for FrequencyHz {
    open spec fn obeys_mul_spec() -> bool {
        true
    }

    open spec fn mul_req(self, rhs: FrequencyHz) -> bool {
        self.0 * rhs.0 <= u32::MAX
    }

    open spec fn mul_spec(self, rhs: FrequencyHz) -> FrequencyHz {
        FrequencyHz((self.0 * rhs.0) as u32)
    }
}

impl core::ops::Div for FrequencyHz {
    type Output = FrequencyHz;

    /// The quotient of two frequencies, rounded down; the divisor may not be zero.
    fn div(self, rhs: FrequencyHz) -> (r: FrequencyHz) {
        FrequencyHz(self.0 / rhs.0)
    }
}

impl DivSpecImpl for FrequencyHz {
    open spec fn obeys_div_spec() -> bool {
        true
    }

    open spec fn div_req(self, rhs: FrequencyHz) -> bool {
        rhs.0 != 0
    }

    open spec fn div_spec(self, rhs: FrequencyHz) -> FrequencyHz {
        FrequencyHz(self.0 / rhs.0)
    }
}

} // verus!
