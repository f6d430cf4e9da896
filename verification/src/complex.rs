//! Exact complex amplitudes.
//!
//! An amplitude is a pair of integer numerators `(re, im)`; the state
//! vector that owns it carries the common positive denominator, so the
//! value is `(re + i im) / den`.  Addition, subtraction, multiplication
//! and conjugation of numerators are exact integer arithmetic; the spec
//! functions `c_*` mirror them on unbounded integers, so every contract
//! can name the result of a chain of operations without overflow talk.

use vstd::prelude::*;

verus! {

/// The mathematical integer `x` fits the machine numerators.
pub open spec fn in_i128(x: int) -> bool {
    i128::MIN <= x <= i128::MAX
}

/// Real part of a complex product, on unbounded integers.
pub open spec fn c_mul_re(ar: int, ai: int, br: int, bi: int) -> int {
    ar * br - ai * bi
}

/// Imaginary part of a complex product, on unbounded integers.
pub open spec fn c_mul_im(ar: int, ai: int, br: int, bi: int) -> int {
    ar * bi + ai * br
}

/// Amplitudes bounded by `ba` and `bb` multiply without leaving the
/// machine, and the parts of the product are bounded by `2 * ba * bb`.
pub proof fn lemma_mul_parts_bounded(a: Complex, b: Complex, ba: int, bb: int)
    requires
        -ba <= a.re <= ba,
        -ba <= a.im <= ba,
        -bb <= b.re <= bb,
        -bb <= b.im <= bb,
        2 * (ba * bb) <= i128::MAX,
    ensures
        Complex::mul_fits(a, b),
        -(2 * (ba * bb)) <= c_mul_re(a.re as int, a.im as int, b.re as int, b.im as int) <= 2 * (
        ba * bb),
        -(2 * (ba * bb)) <= c_mul_im(a.re as int, a.im as int, b.re as int, b.im as int) <= 2 * (
        ba * bb),
{
    crate::rational::lemma_mul_bound(a.re as int, b.re as int, ba, bb);
    crate::rational::lemma_mul_bound(a.im as int, b.im as int, ba, bb);
    crate::rational::lemma_mul_bound(a.re as int, b.im as int, ba, bb);
    crate::rational::lemma_mul_bound(a.im as int, b.re as int, ba, bb);
}

/// One complex amplitude numerator: together with a denominator `den`
/// kept by its owner, the value `(re + i im) / den`.
#[derive(Clone, Copy, PartialEq, Eq, Structural, Debug)]
pub struct Complex {
    pub re: i128,
    pub im: i128,
}

impl Complex {
    /// Both parts of the product of `a` and `b` fit the machine.
    pub open spec fn mul_fits(a: Complex, b: Complex) -> bool {
        &&& in_i128(a.re * b.re)
        &&& in_i128(a.im * b.im)
        &&& in_i128(a.re * b.im)
        &&& in_i128(a.im * b.re)
        &&& in_i128(c_mul_re(a.re as int, a.im as int, b.re as int, b.im as int))
        &&& in_i128(c_mul_im(a.re as int, a.im as int, b.re as int, b.im as int))
    }

    pub fn new(re: i128, im: i128) -> (r: Complex)
        ensures
            r.re == re,
            r.im == im,
    {
        Complex { re, im }
    }

    /// The zero amplitude.
    pub fn zero() -> (r: Complex)
        ensures
            r.re == 0,
            r.im == 0,
    {
        Complex { re: 0, im: 0 }
    }

    /// Exact sum.
    pub fn add(self, other: Complex) -> (r: Complex)
        requires
            in_i128(self.re + other.re),
            in_i128(self.im + other.im),
        ensures
            r.re == self.re + other.re,
            r.im == self.im + other.im,
    {
        Complex { re: self.re + other.re, im: self.im + other.im }
    }

    /// Exact difference.
    pub fn sub(self, other: Complex) -> (r: Complex)
        requires
            in_i128(self.re - other.re),
            in_i128(self.im - other.im),
        ensures
            r.re == self.re - other.re,
            r.im == self.im - other.im,
    {
        Complex { re: self.re - other.re, im: self.im - other.im }
    }

    /// Exact product.
    pub fn mul(self, other: Complex) -> (r: Complex)
        requires
            Complex::mul_fits(self, other),
        ensures
            r.re == c_mul_re(self.re as int, self.im as int, other.re as int, other.im as int),
            r.im == c_mul_im(self.re as int, self.im as int, other.re as int, other.im as int),
    {
        Complex {
            re: self.re * other.re - self.im * other.im,
            im: self.re * other.im + self.im * other.re,
        }
    }

    /// Complex conjugate.
    pub fn conj(self) -> (r: Complex)
        requires
            in_i128(-self.im),
        ensures
            r.re == self.re,
            r.im == -self.im,
    {
        Complex { re: self.re, im: -self.im }
    }

    /// Squared modulus of the numerator pair, `re^2 + im^2`.  The
    /// modulus itself is irrational in general; the exact kernel exposes
    /// its square.
    pub fn norm_sqr(self) -> (r: i128)
        requires
            in_i128(self.re * self.re),
            in_i128(self.im * self.im),
            in_i128(self.re * self.re + self.im * self.im),
        ensures
            r == self.re * self.re + self.im * self.im,
    {
        self.re * self.re + self.im * self.im
    }
}

} // verus!
