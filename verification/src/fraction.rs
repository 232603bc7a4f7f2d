//! Exact rational sizes and ratios.
//!
//! The size model multiplies a fixed baseline by per-format and per-quality
//! coefficients; the results are rationals with small denominators, so they
//! are carried exactly as numerator/denominator pairs instead of being
//! rounded into any fixed unit.

use vstd::prelude::*;

verus! {

/// A non-negative rational number `num / den` with `den > 0`.
#[derive(Clone, Copy, Debug, PartialEq, Eq, Structural)]
pub struct Fraction {
    pub num: u64,
    pub den: u64,
}

impl Fraction {
    /// Well-formed: the denominator is positive.
    pub open spec fn wf(self) -> bool {
        self.den > 0
    }

    /// The two fractions denote the same rational (cross multiplication).
    pub open spec fn same_value(self, other: Fraction) -> bool {
        self.num * other.den == other.num * self.den
    }

    /// The fraction denotes a rational strictly greater than `n`.
    pub open spec fn gt_nat(self, n: u64) -> bool {
        self.num > n * self.den
    }

    /// The fraction denotes a rational no greater than `n`.
    pub open spec fn le_nat(self, n: u64) -> bool {
        self.num <= n * self.den
    }

    pub fn new(num: u64, den: u64) -> (r: Fraction)
        requires
            den > 0,
        ensures
            r.num == num,
            r.den == den,
            r.wf(),
    {
        Fraction { num, den }
    }
}

} // verus!
