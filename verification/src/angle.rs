//! Angles as exact points on a circle.
//!
//! The kernel never evaluates a trigonometric function.  An angle enters
//! it as the integer point `(cos_num, sin_num)` on the circle of radius
//! `den`: the angle whose cosine is `cos_num / den` and whose sine is
//! `sin_num / den`.  A caller that starts from a radian measure computes
//! the two quotients once, at its own precision, and hands the point
//! over; exact points (Pythagorean triples, the axes) can be written
//! down directly.  Because the point already carries the full period,
//! angles that differ by a whole turn are literally the same input.

use crate::rational::COORD_BOUND;
use vstd::prelude::*;

verus! {

/// An angle, represented exactly by a point on a circle of radius `den`:
/// its cosine is `cos_num / den`, its sine is `sin_num / den`.
#[derive(Clone, Copy, PartialEq, Eq, Structural, Debug)]
pub struct Angle {
    pub cos_num: i128,
    pub sin_num: i128,
    pub den: i128,
}

impl Angle {
    /// The radius is always kept positive.
    pub open spec fn wf(self) -> bool {
        self.den > 0
    }

    /// Within the magnitude the kernel accepts at its boundary.
    pub open spec fn bounded(self) -> bool {
        &&& -COORD_BOUND <= self.cos_num <= COORD_BOUND
        &&& -COORD_BOUND <= self.sin_num <= COORD_BOUND
        &&& 0 < self.den <= COORD_BOUND
    }

    /// The point lies exactly on its circle: `cos^2 + sin^2 == 1`.
    /// Kernel functions do not demand this (a caller's rounded point
    /// misses the circle by a little, and the kernel still evaluates the
    /// same closed form); the geometric laws assume it.
    pub open spec fn on_circle(self) -> bool {
        self.cos_num * self.cos_num + self.sin_num * self.sin_num == self.den * self.den
    }

    /// Two angles stand for the same direction: equal cosines and equal
    /// sines as rational numbers.
    pub open spec fn same_point(self, other: Angle) -> bool {
        &&& self.cos_num * other.den == other.cos_num * self.den
        &&& self.sin_num * other.den == other.sin_num * self.den
    }

    pub fn new(cos_num: i128, sin_num: i128, den: i128) -> (r: Angle)
        requires
            -COORD_BOUND <= cos_num <= COORD_BOUND,
            -COORD_BOUND <= sin_num <= COORD_BOUND,
            0 < den <= COORD_BOUND,
        ensures
            r.cos_num == cos_num,
            r.sin_num == sin_num,
            r.den == den,
            r.bounded(),
    {
        Angle { cos_num, sin_num, den }
    }

    /// The angle 0: the point (1, 0).
    pub fn zero() -> (r: Angle)
        ensures
            r.cos_num == 1,
            r.sin_num == 0,
            r.den == 1,
            r.bounded(),
            r.on_circle(),
    {
        Angle { cos_num: 1, sin_num: 0, den: 1 }
    }

    /// A right angle: the point (0, 1).
    pub fn quarter_turn() -> (r: Angle)
        ensures
            r.cos_num == 0,
            r.sin_num == 1,
            r.den == 1,
            r.bounded(),
            r.on_circle(),
    {
        Angle { cos_num: 0, sin_num: 1, den: 1 }
    }
}

} // verus!
