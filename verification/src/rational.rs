//! The shared numeric type of both converters: an exact rational number.
//!
//! Every conversion factor in this crate is a ratio of two integers, so a
//! value carried as a fraction of two machine integers can be converted with
//! no rounding at all.  The numerator and denominator are kept as written;
//! fractions are compared by cross-multiplication, not reduced.

use vstd::prelude::*;

verus! {

/// Largest magnitude accepted for the numerator and denominator of a value
/// handed to a conversion.  Conversions multiply a value by fixed factors
/// whose numerator and denominator stay below `2^21`; with inputs bounded by
/// `10^24 < 2^80` every intermediate product fits comfortably in an `i128`.
pub const VAL_BOUND: i128 = 1_000_000_000_000_000_000_000_000;

/// An exact fraction `num / den` with a positive denominator.
#[derive(Clone, Copy, Debug, PartialEq, Eq, Structural)]
pub struct Rational {
    pub num: i128,
    pub den: i128,
}

/// Two fractions denote the same number exactly when they agree under
/// cross-multiplication.
pub open spec fn rat_eq(an: int, ad: int, bn: int, bd: int) -> bool {
    an * bd == bn * ad
}

impl Rational {
    /// A fraction makes sense only with a positive denominator.
    pub open spec fn wf(self) -> bool {
        self.den >= 1
    }

    /// Small enough to be fed to a conversion without risk of overflow.
    pub open spec fn in_range(self) -> bool {
        &&& self.wf()
        &&& -VAL_BOUND <= self.num <= VAL_BOUND
        &&& self.den <= VAL_BOUND
    }

    pub fn new(num: i128, den: i128) -> (r: Rational)
        requires
            den >= 1,
        ensures
            r.num == num,
            r.den == den,
            r.wf(),
    {
        Rational { num, den }
    }

    /// Runtime check for the bound that the conversions require of their
    /// input, for callers that receive a value from outside.
    pub fn is_in_range(&self) -> (b: bool)
        ensures
            b == self.in_range(),
    {
        -VAL_BOUND <= self.num && self.num <= VAL_BOUND && self.den >= 1 && self.den <= VAL_BOUND
    }
}

} // verus!
