//! Exact kernel for the precession of a spin-1/2 particle in a static
//! magnetic field.
//!
//! The kernel is pure arithmetic: given a field orientation, a field
//! strength and an elapsed time it produces the particle's two-component
//! quantum state and the observable spin-expectation (Bloch) vector.
//! Every quantity is held exactly: an angle as an integer point on a
//! circle (its cosine and sine over a common denominator), a scalar as a
//! rational number, a complex amplitude as a pair of integer numerators
//! over a denominator shared by the whole state vector.  The closed-form
//! two-level solution is then a polynomial map on these integers, and the
//! physical facts about it (the Bloch vector stays on the unit sphere,
//! the evolution depends on time only through the precession phase, a
//! vanishing field freezes the state) are proved, not sampled.
//!
//! Evaluating the trigonometric functions that turn a radian measure into
//! a circle point is the one transcendental step; it is left to the
//! caller, which hands the kernel the resulting point.

pub mod angle;
pub mod complex;
pub mod laws;
pub mod quantum;
pub mod rational;
