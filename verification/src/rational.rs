//! Exact rational scalars.
//!
//! Field strengths, times and expectation values are rational numbers
//! `num / den` with a positive denominator.  Nothing is ever rounded:
//! each kernel function states in its contract exactly which numerator
//! and denominator it returns.

use vstd::prelude::*;

verus! {

/// Largest magnitude accepted for a numerator or denominator at the
/// kernel boundary.  Inputs this size leave every intermediate product
/// of the kernel far inside `i128`.
pub const COORD_BOUND: i128 = 1048576;

/// An exact rational scalar, the value `num / den`.
#[derive(Clone, Copy, PartialEq, Eq, Structural, Debug)]
pub struct Rat {
    pub num: i128,
    pub den: i128,
}

/// The rationals `an / ad` and `bn / bd` are the same number
/// (cross-multiplication; meaningful for nonzero denominators).
pub open spec fn rat_eq(an: int, ad: int, bn: int, bd: int) -> bool {
    an * bd == bn * ad
}

impl Rat {
    /// A denominator is always kept positive.
    pub open spec fn wf(self) -> bool {
        self.den > 0
    }

    /// Within the magnitude the kernel accepts at its boundary.
    pub open spec fn bounded(self) -> bool {
        &&& -COORD_BOUND <= self.num <= COORD_BOUND
        &&& 0 < self.den <= COORD_BOUND
    }

    pub fn new(num: i128, den: i128) -> (r: Rat)
        requires
            den > 0,
        ensures
            r.num == num,
            r.den == den,
            r.wf(),
    {
        Rat { num, den }
    }

    /// The rational zero.
    pub fn zero() -> (r: Rat)
        ensures
            r.num == 0,
            r.den == 1,
            r.wf(),
            r.bounded(),
    {
        Rat { num: 0, den: 1 }
    }

    /// The rational one.
    pub fn one() -> (r: Rat)
        ensures
            r.num == 1,
            r.den == 1,
            r.wf(),
            r.bounded(),
    {
        Rat { num: 1, den: 1 }
    }
}

/// A product of numbers bounded in magnitude is bounded by the product
/// of the bounds.
pub proof fn lemma_mul_bound(x: int, y: int, bx: int, by: int)
    by (nonlinear_arith)
    requires
        -bx <= x <= bx,
        -by <= y <= by,
    ensures
        -(bx * by) <= x * y <= bx * by,
{
}

/// A square is never negative.
pub proof fn lemma_square_nonneg(x: int)
    by (nonlinear_arith)
    ensures
        0 <= x * x,
{
}

/// A product of positive numbers is positive.
pub proof fn lemma_mul_pos(x: int, y: int)
    by (nonlinear_arith)
    requires
        0 < x,
        0 < y,
    ensures
        0 < x * y,
{
}

} // verus!
