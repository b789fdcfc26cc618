//! Tuning numbers (temperature, speed) as the library carries them.

use vstd::prelude::*;
use vstd::string::StringExecFns;

verus! {

/// A single-precision tuning number held as plain data.
///
/// `bits` is the IEEE-754 binary32 pattern of the number; the library
/// compares numbers through it. `text` is the decimal rendering that is
/// written to the wire as it stands.
#[derive(Debug)]
pub struct Scalar {
    pub bits: u32,
    pub text: String,
}

/// Model of a [`Scalar`].
pub struct ScalarView {
    pub bits: u32,
    pub text: Seq<char>,
}

impl View for Scalar {
    type V = ScalarView;

    open spec fn view(&self) -> ScalarView {
        ScalarView { bits: self.bits, text: self.text@ }
    }
}

/// The pattern of positive infinity. The patterns of the finite numbers
/// that are not negative are those below it.
pub const INFINITY_BITS: u32 = 0x7F80_0000;

/// Whether the number with pattern `bits` lies in the closed interval
/// `[low, high]` of two non-negative numbers given by their patterns.
///
/// Patterns of non-negative numbers are ordered as the numbers are, and
/// every negative number and every NaN has a pattern above that of any
/// finite non-negative number, so the interval is a range of patterns.
pub open spec fn within_patterns(bits: u32, low: u32, high: u32) -> bool
    recommends
        low <= high < INFINITY_BITS,
{
    low <= bits <= high
}

impl Clone for Scalar {
    /// A copy with the same pattern and rendering.
    fn clone(&self) -> (r: Self)
        ensures
            r@ == self@,
    {
        Scalar { bits: self.bits, text: self.text.clone() }
    }
}

impl Scalar {
    /// A number from its pattern and its rendering.
    pub fn new(bits: u32, text: &str) -> (r: Self)
        ensures
            r@ == (ScalarView { bits, text: text@ }),
    {
        Scalar { bits, text: String::from_str(text) }
    }

    /// Whether the number lies in `[low, high]`, both given by pattern.
    pub fn is_within(&self, low: u32, high: u32) -> (r: bool)
        ensures
            r == within_patterns(self.bits, low, high),
    {
        low <= self.bits && self.bits <= high
    }
}

} // verus!
