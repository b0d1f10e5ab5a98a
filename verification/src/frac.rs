//! Exact rational values.
//!
//! Glyph metrics and image aspect ratios are ratios of pixel counts, so the
//! library reports them as exact fractions instead of rounding to a machine
//! format. Callers that want an approximate value divide the two fields
//! themselves.

use vstd::prelude::*;

verus! {

/// An exact fraction `num / den`. Valid values have a positive denominator.
#[derive(Clone, Copy, PartialEq, Eq, Structural, Debug)]
pub struct Frac {
    pub num: i64,
    pub den: u64,
}

impl Frac {
    /// A fraction is valid when its denominator is positive.
    pub open spec fn valid(self) -> bool {
        self.den > 0
    }

    /// The mathematical value, as the pair (num, den) it stands for:
    /// two valid fractions denote the same value exactly when the
    /// cross-products agree.
    pub open spec fn same_value(self, other: Frac) -> bool {
        self.num * other.den == other.num * self.den
    }

    pub fn new(num: i64, den: u64) -> (r: Frac)
        requires
            den > 0,
        ensures
            r.num == num,
            r.den == den,
            r.valid(),
    {
        Frac { num, den }
    }

    pub fn zero() -> (r: Frac)
        ensures
            r.num == 0,
            r.den == 1,
            r.valid(),
    {
        Frac { num: 0, den: 1 }
    }

    pub fn one() -> (r: Frac)
        ensures
            r.num == 1,
            r.den == 1,
            r.valid(),
    {
        Frac { num: 1, den: 1 }
    }

    /// Whether the fraction denotes a non-negative value.
    pub open spec fn is_non_negative(self) -> bool {
        self.num >= 0
    }

    /// Whether the fraction denotes exactly one.
    pub open spec fn is_one(self) -> bool {
        self.num == self.den
    }
}

} // verus!
