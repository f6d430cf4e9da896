//! The physics kernel: field model, time evolution, spin expectation.
//!
//! A two-level system precesses in a static field that lies in the x-z
//! plane at polar angle theta from the z-axis.  With the model constant
//! `H_BAR = 2` the energy splitting is `E = strength * H_BAR / 2` and
//! the precession frequency `omega = E / H_BAR = strength / 2`, so the
//! phase accumulated by time `t` is `tau = strength * t / 2`.
//!
//! The evolution is hard-wired to the energy eigenbasis derived from the
//! field angle (the unnormalized eigenstates `psi_1 = (cos theta + 1,
//! sin theta)` and `psi_2 = (cos theta - 1, sin theta)`); it takes no
//! initial-state parameter.  `tau` enters as the exact circle point of
//! the phase angle, so everything downstream of the one transcendental
//! step is a polynomial map, stated exactly in the contracts below.

use crate::angle::Angle;
use crate::complex::c_mul_im;
use crate::complex::c_mul_re;
use crate::complex::lemma_mul_parts_bounded;
use crate::complex::Complex;
use crate::rational::lemma_mul_bound;
use crate::rational::lemma_mul_pos;
use crate::rational::lemma_square_nonneg;
use crate::rational::rat_eq;
use crate::rational::Rat;
use crate::rational::COORD_BOUND;
use vstd::prelude::*;

verus! {

/// The model's Planck constant.  It scales the precession frequency and
/// is not the physical value.
pub const H_BAR: i128 = 2;

/// Numerator magnitude up to which a spin state is accepted by the
/// expectation calculator; states produced by `psi` from bounded inputs
/// stay well inside it.
pub const STATE_BOUND: i128 = 4398046511104;

/// A two-component spin state: amplitudes `a` (spin up along z) and `b`
/// (spin down along z) as complex numerators over the common positive
/// denominator `den`.  The kernel neither checks nor restores
/// normalization; the laws assume it where they need it.
#[derive(Clone, Copy, PartialEq, Eq, Structural, Debug)]
pub struct SpinState {
    pub a: Complex,
    pub b: Complex,
    pub den: i128,
}

impl SpinState {
    /// The denominator is always kept positive.
    pub open spec fn wf(self) -> bool {
        self.den > 0
    }

    /// Within the magnitude the expectation calculator accepts.
    pub open spec fn bounded(self) -> bool {
        &&& -STATE_BOUND <= self.a.re <= STATE_BOUND
        &&& -STATE_BOUND <= self.a.im <= STATE_BOUND
        &&& -STATE_BOUND <= self.b.re <= STATE_BOUND
        &&& -STATE_BOUND <= self.b.im <= STATE_BOUND
        &&& 0 < self.den <= STATE_BOUND
    }

    pub fn new(a: Complex, b: Complex, den: i128) -> (r: SpinState)
        requires
            den > 0,
        ensures
            r.a == a,
            r.b == b,
            r.den == den,
            r.wf(),
    {
        SpinState { a, b, den }
    }
}

/// The spin-up basis state along z, `(1, 0)`.
pub fn sz_positive_state() -> (r: SpinState)
    ensures
        r.a.re == 1,
        r.a.im == 0,
        r.b.re == 0,
        r.b.im == 0,
        r.den == 1,
        r.wf(),
        r.bounded(),
{
    SpinState { a: Complex { re: 1, im: 0 }, b: Complex { re: 0, im: 0 }, den: 1 }
}

/// A 2x2 complex matrix of observable numerators; the three Pauli
/// operators below are the only values the kernel itself builds.  Row
/// `i`, column `j` is `e_i_j`; entries are whole complex numbers.
#[derive(Clone, Copy, PartialEq, Eq, Structural, Debug)]
pub struct Operator {
    pub e00: Complex,
    pub e01: Complex,
    pub e10: Complex,
    pub e11: Complex,
}

impl Operator {
    /// Entry magnitude up to which the expectation calculator accepts an
    /// operator; the Pauli entries are all of magnitude at most one.
    pub open spec fn bounded(self) -> bool {
        &&& -COORD_BOUND <= self.e00.re <= COORD_BOUND
        &&& -COORD_BOUND <= self.e00.im <= COORD_BOUND
        &&& -COORD_BOUND <= self.e01.re <= COORD_BOUND
        &&& -COORD_BOUND <= self.e01.im <= COORD_BOUND
        &&& -COORD_BOUND <= self.e10.re <= COORD_BOUND
        &&& -COORD_BOUND <= self.e10.im <= COORD_BOUND
        &&& -COORD_BOUND <= self.e11.re <= COORD_BOUND
        &&& -COORD_BOUND <= self.e11.im <= COORD_BOUND
    }

    /// The matrix equals its own conjugate transpose.
    pub open spec fn hermitian(self) -> bool {
        &&& self.e00.im == 0
        &&& self.e11.im == 0
        &&& self.e01.re == self.e10.re
        &&& self.e01.im == -self.e10.im
    }

    /// The Pauli x operator, `[[0, 1], [1, 0]]`.
    pub fn sx() -> (r: Operator)
        ensures
            r.e00 == (Complex { re: 0, im: 0 }),
            r.e01 == (Complex { re: 1, im: 0 }),
            r.e10 == (Complex { re: 1, im: 0 }),
            r.e11 == (Complex { re: 0, im: 0 }),
            r.bounded(),
            r.hermitian(),
    {
        Operator {
            e00: Complex { re: 0, im: 0 },
            e01: Complex { re: 1, im: 0 },
            e10: Complex { re: 1, im: 0 },
            e11: Complex { re: 0, im: 0 },
        }
    }

    /// The Pauli y operator, `[[0, -i], [i, 0]]`.
    pub fn sy() -> (r: Operator)
        ensures
            r.e00 == (Complex { re: 0, im: 0 }),
            r.e01 == (Complex { re: 0, im: -1i128 }),
            r.e10 == (Complex { re: 0, im: 1 }),
            r.e11 == (Complex { re: 0, im: 0 }),
            r.bounded(),
            r.hermitian(),
    {
        Operator {
            e00: Complex { re: 0, im: 0 },
            e01: Complex { re: 0, im: -1 },
            e10: Complex { re: 0, im: 1 },
            e11: Complex { re: 0, im: 0 },
        }
    }

    /// The Pauli z operator, `[[1, 0], [0, -1]]`.
    pub fn sz() -> (r: Operator)
        ensures
            r.e00 == (Complex { re: 1, im: 0 }),
            r.e01 == (Complex { re: 0, im: 0 }),
            r.e10 == (Complex { re: 0, im: 0 }),
            r.e11 == (Complex { re: -1i128, im: 0 }),
            r.bounded(),
            r.hermitian(),
    {
        Operator {
            e00: Complex { re: 1, im: 0 },
            e01: Complex { re: 0, im: 0 },
            e10: Complex { re: 0, im: 0 },
            e11: Complex { re: -1, im: 0 },
        }
    }
}

/// A 3-vector of exact rational components; field vectors and Bloch
/// vectors.
#[derive(Clone, Copy, PartialEq, Eq, Structural, Debug)]
pub struct Vector3 {
    pub x: Rat,
    pub y: Rat,
    pub z: Rat,
}

/// The applied magnetic field: direction `(sin theta, 0, cos theta)` in
/// the x-z plane, scaled by `strength`.  A negative strength is a field
/// reversal and is accepted like any other value.
pub fn b_field(theta: &Angle, strength: &Rat) -> (r: Vector3)
    requires
        theta.bounded(),
        strength.bounded(),
    ensures
        r.x.num == strength.num * theta.sin_num,
        r.x.den == strength.den * theta.den,
        r.y.num == 0,
        r.y.den == 1,
        r.z.num == strength.num * theta.cos_num,
        r.z.den == strength.den * theta.den,
        r.x.wf(),
        r.y.wf(),
        r.z.wf(),
{
    proof {
        lemma_mul_bound(strength.num as int, theta.sin_num as int, COORD_BOUND as int, COORD_BOUND as int);
        lemma_mul_bound(strength.num as int, theta.cos_num as int, COORD_BOUND as int, COORD_BOUND as int);
        lemma_mul_bound(strength.den as int, theta.den as int, COORD_BOUND as int, COORD_BOUND as int);
        lemma_mul_pos(strength.den as int, theta.den as int);
    }
    Vector3 {
        x: Rat { num: strength.num * theta.sin_num, den: strength.den * theta.den },
        y: Rat { num: 0, den: 1 },
        z: Rat { num: strength.num * theta.cos_num, den: strength.den * theta.den },
    }
}

/// The phase angle `tau = omega * t` accumulated by time `time` in a
/// field of the given strength: energy `E = strength * H_BAR / 2`,
/// frequency `omega = E / H_BAR`, so `tau = strength * time / 2`,
/// returned exactly.  A vanishing strength gives the zero phase for
/// every time.
pub fn precession_phase(strength: &Rat, time: &Rat) -> (r: Rat)
    requires
        strength.bounded(),
        time.bounded(),
    ensures
        r.num == 2 * strength.num * time.num,
        r.den == 4 * strength.den * time.den,
        r.wf(),
        rat_eq(r.num as int, r.den as int, strength.num * time.num, 2 * strength.den * time.den),
        strength.num == 0 ==> r.num == 0,
{
    // E = strength * H_BAR / 2 (division by two folded into the denominator)
    let energy = Rat { num: strength.num * H_BAR, den: strength.den * 2 };
    // omega = E / H_BAR
    let omega = Rat { num: energy.num, den: energy.den * H_BAR };
    proof {
        lemma_mul_bound(omega.num as int, time.num as int, 2 * COORD_BOUND as int, COORD_BOUND as int);
        lemma_mul_bound(omega.den as int, time.den as int, 4 * COORD_BOUND as int, COORD_BOUND as int);
        lemma_mul_pos(omega.den as int, time.den as int);
    }
    // tau = omega * time
    let r = Rat { num: omega.num * time.num, den: omega.den * time.den };
    proof {
        assert(r.num * (2 * strength.den * time.den) == (strength.num * time.num) * r.den)
            by (nonlinear_arith)
            requires
                r.num == 2 * strength.num * time.num,
                r.den == 4 * strength.den * time.den,
        ;
        assert(strength.num == 0 ==> r.num == 0) by (nonlinear_arith)
            requires
                r.num == 2 * strength.num * time.num,
        ;
    }
    r
}

/// The unit phase factor `e^(i tau)` for the phase angle `tau` given as
/// its circle point: the complex numerator `(cos, sin)` over the point's
/// own denominator.
pub fn expi(phase: &Angle) -> (r: Complex)
    ensures
        r.re == phase.cos_num,
        r.im == phase.sin_num,
{
    Complex { re: phase.cos_num, im: phase.sin_num }
}

/// Real part of the upper amplitude of `psi`, over `psi_den`.
pub open spec fn psi_a_re(theta: Angle, phase: Angle) -> int {
    2 * theta.den * phase.cos_num
}

/// Imaginary part of the upper amplitude of `psi`, over `psi_den`.
pub open spec fn psi_a_im(theta: Angle, phase: Angle) -> int {
    2 * theta.cos_num * phase.sin_num
}

/// Imaginary part of the lower amplitude of `psi`, over `psi_den`; its
/// real part is zero.
pub open spec fn psi_b_im(theta: Angle, phase: Angle) -> int {
    2 * theta.sin_num * phase.sin_num
}

/// Common denominator of the state `psi` returns.
pub open spec fn psi_den(theta: Angle, phase: Angle) -> int {
    2 * theta.den * phase.den
}

/// The state reached by the time evolution: the field angle's two
/// unnormalized energy eigenstates, given opposite phase factors and
/// combined as `(psi_1 e^(i tau) - psi_2 e^(-i tau)) / 2`.
///
/// `phase` is the circle point of the precession phase `tau` returned
/// by `precession_phase` (so of `strength * time / 2`).  The division
/// by two is exact: it doubles the common denominator.  Combining the
/// terms collapses to the closed form stated in the contract,
///
/// ```text
/// a = cos tau + i cos theta sin tau,    b = i sin theta sin tau,
/// ```
///
/// over the product of the two input denominators.  The evolution takes
/// no initial-state parameter: the kernel is hard-wired to the
/// field-derived eigenbasis, whose combination at `tau = 0` is the
/// spin-up state `(1, 0)` for every field angle.
pub fn psi(theta: &Angle, phase: &Angle) -> (r: SpinState)
    requires
        theta.bounded(),
        phase.bounded(),
    ensures
        r.a.re == psi_a_re(*theta, *phase),
        r.a.im == psi_a_im(*theta, *phase),
        r.b.re == 0,
        r.b.im == psi_b_im(*theta, *phase),
        r.den == psi_den(*theta, *phase),
        r.wf(),
        r.bounded(),
{
    // e^{+i tau} and e^{-i tau}, numerators over the phase denominator
    let e_plus = expi(phase);
    let e_minus = e_plus.conj();
    // unnormalized energy eigenstates over the angle denominator:
    // psi_1 = (cos theta + 1, sin theta), psi_2 = (cos theta - 1, sin theta)
    let psi1_a = Complex { re: theta.cos_num + theta.den, im: 0 };
    let psi1_b = Complex { re: theta.sin_num, im: 0 };
    let psi2_a = Complex { re: theta.cos_num - theta.den, im: 0 };
    let psi2_b = Complex { re: theta.sin_num, im: 0 };
    proof {
        lemma_mul_parts_bounded(psi1_a, e_plus, 2 * COORD_BOUND as int, COORD_BOUND as int);
        lemma_mul_parts_bounded(psi1_b, e_plus, 2 * COORD_BOUND as int, COORD_BOUND as int);
        lemma_mul_parts_bounded(psi2_a, e_minus, 2 * COORD_BOUND as int, COORD_BOUND as int);
        lemma_mul_parts_bounded(psi2_b, e_minus, 2 * COORD_BOUND as int, COORD_BOUND as int);
    }
    let t1a = psi1_a.mul(e_plus);
    let t1b = psi1_b.mul(e_plus);
    let t2a = psi2_a.mul(e_minus);
    let t2b = psi2_b.mul(e_minus);
    let da = t1a.sub(t2a);
    let db = t1b.sub(t2b);
    proof {
        lemma_mul_bound(2 * theta.den as int, phase.den as int, 2 * COORD_BOUND as int, COORD_BOUND as int);
        lemma_mul_pos(2 * theta.den as int, phase.den as int);
    }
    // dividing the combination by two doubles the common denominator
    let den: i128 = 2 * theta.den * phase.den;
    proof {
        let tc = theta.cos_num as int;
        let ts = theta.sin_num as int;
        let td = theta.den as int;
        let pc = phase.cos_num as int;
        let ps = phase.sin_num as int;
        let pd = phase.den as int;
        assert(da.re == 2 * td * pc && da.im == 2 * tc * ps && db.re == 0 && db.im == 2 * ts * ps
            && -4398046511104 <= da.re <= 4398046511104
            && -4398046511104 <= da.im <= 4398046511104
            && -4398046511104 <= db.im <= 4398046511104
            && 0 < 2 * td * pd <= 4398046511104)
            by (nonlinear_arith)
            requires
                da.re == ((tc + td) * pc - 0 * ps) - ((tc - td) * pc - 0 * (-ps)),
                da.im == ((tc + td) * ps + 0 * pc) - ((tc - td) * (-ps) + 0 * pc),
                db.re == (ts * pc - 0 * ps) - (ts * pc - 0 * (-ps)),
                db.im == (ts * ps + 0 * pc) - (ts * (-ps) + 0 * pc),
                -1048576 <= tc <= 1048576,
                -1048576 <= ts <= 1048576,
                0 < td <= 1048576,
                -1048576 <= pc <= 1048576,
                -1048576 <= ps <= 1048576,
                0 < pd <= 1048576,
        ;
    }
    SpinState { a: da, b: db, den }
}

/// Numerator of `Re(state^dagger op state)` over `state.den^2`, on
/// unbounded integers: apply the matrix, then pair with the conjugated
/// amplitudes.
pub open spec fn expectation_num(s: SpinState, op: Operator) -> int {
    let v0r = c_mul_re(op.e00.re as int, op.e00.im as int, s.a.re as int, s.a.im as int)
        + c_mul_re(op.e01.re as int, op.e01.im as int, s.b.re as int, s.b.im as int);
    let v0i = c_mul_im(op.e00.re as int, op.e00.im as int, s.a.re as int, s.a.im as int)
        + c_mul_im(op.e01.re as int, op.e01.im as int, s.b.re as int, s.b.im as int);
    let v1r = c_mul_re(op.e10.re as int, op.e10.im as int, s.a.re as int, s.a.im as int)
        + c_mul_re(op.e11.re as int, op.e11.im as int, s.b.re as int, s.b.im as int);
    let v1i = c_mul_im(op.e10.re as int, op.e10.im as int, s.a.re as int, s.a.im as int)
        + c_mul_im(op.e11.re as int, op.e11.im as int, s.b.re as int, s.b.im as int);
    c_mul_re(s.a.re as int, -(s.a.im as int), v0r, v0i)
        + c_mul_re(s.b.re as int, -(s.b.im as int), v1r, v1i)
}

/// Numerator of the imaginary part of `state^dagger op state`, over
/// `state.den^2`, on unbounded integers; the laws show it vanishes for
/// a Hermitian operator.
pub open spec fn expectation_imag_num(s: SpinState, op: Operator) -> int {
    let v0r = c_mul_re(op.e00.re as int, op.e00.im as int, s.a.re as int, s.a.im as int)
        + c_mul_re(op.e01.re as int, op.e01.im as int, s.b.re as int, s.b.im as int);
    let v0i = c_mul_im(op.e00.re as int, op.e00.im as int, s.a.re as int, s.a.im as int)
        + c_mul_im(op.e01.re as int, op.e01.im as int, s.b.re as int, s.b.im as int);
    let v1r = c_mul_re(op.e10.re as int, op.e10.im as int, s.a.re as int, s.a.im as int)
        + c_mul_re(op.e11.re as int, op.e11.im as int, s.b.re as int, s.b.im as int);
    let v1i = c_mul_im(op.e10.re as int, op.e10.im as int, s.a.re as int, s.a.im as int)
        + c_mul_im(op.e11.re as int, op.e11.im as int, s.b.re as int, s.b.im as int);
    c_mul_im(s.a.re as int, -(s.a.im as int), v0r, v0i)
        + c_mul_im(s.b.re as int, -(s.b.im as int), v1r, v1i)
}

/// The real Hermitian quadratic form `Re(state^dagger op state)`,
/// returned exactly over the denominator `state.den^2`.  The state need
/// not be normalized; the value is then the unnormalized form, exactly
/// as computed.
pub fn expectation(state: &SpinState, op: &Operator) -> (r: Rat)
    requires
        state.bounded(),
        op.bounded(),
    ensures
        r.num == expectation_num(*state, *op),
        r.den == state.den * state.den,
        r.wf(),
{
    proof {
        lemma_mul_parts_bounded(op.e00, state.a, COORD_BOUND as int, STATE_BOUND as int);
        lemma_mul_parts_bounded(op.e01, state.b, COORD_BOUND as int, STATE_BOUND as int);
        lemma_mul_parts_bounded(op.e10, state.a, COORD_BOUND as int, STATE_BOUND as int);
        lemma_mul_parts_bounded(op.e11, state.b, COORD_BOUND as int, STATE_BOUND as int);
    }
    // apply the matrix: v = op * state
    let v0 = op.e00.mul(state.a).add(op.e01.mul(state.b));
    let v1 = op.e10.mul(state.a).add(op.e11.mul(state.b));
    let ca = state.a.conj();
    let cb = state.b.conj();
    proof {
        lemma_mul_parts_bounded(ca, v0, STATE_BOUND as int, 4 * (COORD_BOUND as int) * (STATE_BOUND as int));
        lemma_mul_parts_bounded(cb, v1, STATE_BOUND as int, 4 * (COORD_BOUND as int) * (STATE_BOUND as int));
        lemma_mul_bound(state.den as int, state.den as int, STATE_BOUND as int, STATE_BOUND as int);
        lemma_mul_pos(state.den as int, state.den as int);
    }
    // pair with the conjugated amplitudes: state^dagger * v
    let t = ca.mul(v0).add(cb.mul(v1));
    Rat { num: t.re, den: state.den * state.den }
}

/// Numerator of the x component of the Bloch vector, over `bloch_den`.
pub open spec fn bloch_x_num(theta: Angle, phase: Angle) -> int {
    8 * theta.cos_num * theta.sin_num * phase.sin_num * phase.sin_num
}

/// Numerator of the y component of the Bloch vector, over `bloch_den`.
pub open spec fn bloch_y_num(theta: Angle, phase: Angle) -> int {
    8 * theta.den * theta.sin_num * phase.cos_num * phase.sin_num
}

/// Numerator of the z component of the Bloch vector, over `bloch_den`.
pub open spec fn bloch_z_num(theta: Angle, phase: Angle) -> int {
    4 * (theta.den * theta.den * (phase.cos_num * phase.cos_num)
        + theta.cos_num * theta.cos_num * (phase.sin_num * phase.sin_num)
        - theta.sin_num * theta.sin_num * (phase.sin_num * phase.sin_num))
}

/// Common denominator of the three Bloch components: the square of the
/// state's denominator.
pub open spec fn bloch_den(theta: Angle, phase: Angle) -> int {
    psi_den(theta, phase) * psi_den(theta, phase)
}

/// The Bloch vector: the expectation values of the three Pauli
/// operators in the evolved state, `(<Sx>, <Sy>, <Sz>)`, each an exact
/// rational over the common denominator `bloch_den`.  The closed forms
/// in the contract, over cosines and sines `c, s` of the field angle
/// and `p, q` of the precession phase, are
///
/// ```text
/// <Sx> = 2 c s q^2,    <Sy> = 2 s p q,    <Sz> = p^2 + (c^2 - s^2) q^2.
/// ```
pub fn spin_expectation(theta: &Angle, phase: &Angle) -> (r: Vector3)
    requires
        theta.bounded(),
        phase.bounded(),
    ensures
        r.x.num == bloch_x_num(*theta, *phase),
        r.y.num == bloch_y_num(*theta, *phase),
        r.z.num == bloch_z_num(*theta, *phase),
        r.x.den == bloch_den(*theta, *phase),
        r.y.den == bloch_den(*theta, *phase),
        r.z.den == bloch_den(*theta, *phase),
        r.x.wf(),
        r.y.wf(),
        r.z.wf(),
{
    let wave = psi(theta, phase);
    let x = expectation(&wave, &Operator::sx());
    let y = expectation(&wave, &Operator::sy());
    let z = expectation(&wave, &Operator::sz());
    proof {
        let ar = wave.a.re as int;
        let ai = wave.a.im as int;
        let br = wave.b.re as int;
        let bi = wave.b.im as int;
        let tc = theta.cos_num as int;
        let ts = theta.sin_num as int;
        let td = theta.den as int;
        let pc = phase.cos_num as int;
        let ps = phase.sin_num as int;
        // unfold the quadratic form for each Pauli operator
        assert(x.num == (ar * br - (-ai) * bi) + (br * ar - (-bi) * ai));
        assert(y.num == (ar * bi - (-ai) * (-br)) + (br * (-ai) - (-bi) * ar));
        assert(z.num == (ar * ar - (-ai) * ai) + (br * (-br) - (-bi) * (-bi)));
        // substitute the evolved state and simplify
        assert((ar * br - (-ai) * bi) + (br * ar - (-bi) * ai) == 8 * tc * ts * ps * ps)
            by (nonlinear_arith)
            requires
                ar == 2 * td * pc,
                ai == 2 * tc * ps,
                br == 0,
                bi == 2 * ts * ps,
        ;
        assert((ar * bi - (-ai) * (-br)) + (br * (-ai) - (-bi) * ar) == 8 * td * ts * pc * ps)
            by (nonlinear_arith)
            requires
                ar == 2 * td * pc,
                ai == 2 * tc * ps,
                br == 0,
                bi == 2 * ts * ps,
        ;
        assert((ar * ar - (-ai) * ai) + (br * (-br) - (-bi) * (-bi)) == ar * ar + ai * ai - br
            * br - bi * bi) by (nonlinear_arith);
        assert(ar * ar == 4 * (td * td * (pc * pc))) by (nonlinear_arith)
            requires
                ar == 2 * td * pc,
        ;
        assert(ai * ai == 4 * (tc * tc * (ps * ps))) by (nonlinear_arith)
            requires
                ai == 2 * tc * ps,
        ;
        assert(bi * bi == 4 * (ts * ts * (ps * ps))) by (nonlinear_arith)
            requires
                bi == 2 * ts * ps,
        ;
        assert(br * br == 0) by (nonlinear_arith)
            requires
                br == 0,
        ;
    }
    Vector3 { x, y, z }
}

/// Numerator of the analytical x component, over `analytical_x_den`.
pub open spec fn analytical_x_num(theta: Angle, phase: Angle) -> int {
    (2 * theta.cos_num * theta.sin_num) * (phase.den * phase.den - 2 * (phase.cos_num
        * phase.cos_num - phase.sin_num * phase.sin_num))
}

/// Denominator of the analytical x component.
pub open spec fn analytical_x_den(theta: Angle, phase: Angle) -> int {
    2 * (theta.den * theta.den) * (phase.den * phase.den)
}

/// Independently derived closed form for the x component of the
/// precessing Bloch vector, kept as a validation oracle and not wired
/// into the evolution path.  It evaluates
///
/// ```text
/// x = (H_BAR / 2) * sin(2 theta) * (1 - 2 cos(omega t)) / 2
/// ```
///
/// with the doubled-frequency convention `E = strength * H_BAR`,
/// `omega = E / H_BAR = strength`, so that `omega t` is twice the
/// precession phase `tau`.  Both doublings are taken exactly by the
/// double-angle identities: `sin(2 theta) = 2 cos sin / den^2` on the
/// field angle and `cos(omega t) = (cos^2 - sin^2) / den^2` on the same
/// phase point that `psi` consumes.  The y and z components are zero.
pub fn spin_expectation_analytical(theta: &Angle, phase: &Angle) -> (r: Vector3)
    requires
        theta.bounded(),
        phase.bounded(),
    ensures
        r.x.num == analytical_x_num(*theta, *phase),
        r.x.den == analytical_x_den(*theta, *phase),
        r.y.num == 0,
        r.y.den == 1,
        r.z.num == 0,
        r.z.den == 1,
        r.x.wf(),
        r.y.wf(),
        r.z.wf(),
{
    proof {
        lemma_mul_bound(2 * theta.cos_num as int, theta.sin_num as int, 2097152, 1048576);
        lemma_mul_bound(phase.cos_num as int, phase.cos_num as int, 1048576, 1048576);
        lemma_mul_bound(phase.sin_num as int, phase.sin_num as int, 1048576, 1048576);
        lemma_mul_bound(phase.den as int, phase.den as int, 1048576, 1048576);
        lemma_mul_bound(theta.den as int, theta.den as int, 1048576, 1048576);
        lemma_mul_pos(phase.den as int, phase.den as int);
        lemma_mul_pos(theta.den as int, theta.den as int);
        lemma_square_nonneg(phase.cos_num as int);
        lemma_square_nonneg(phase.sin_num as int);
    }
    // sin(2 theta) by the double-angle identity, over theta.den^2
    let sin2_num: i128 = 2 * theta.cos_num * theta.sin_num;
    // cos(omega t) = cos(2 tau) by the double-angle identity, over phase.den^2
    let cos2_num: i128 = phase.cos_num * phase.cos_num - phase.sin_num * phase.sin_num;
    let pden2: i128 = phase.den * phase.den;
    // 1 - 2 cos(omega t), over phase.den^2
    let factor: i128 = pden2 - 2 * cos2_num;
    proof {
        lemma_mul_bound(sin2_num as int, factor as int, 2199023255552, 3298534883328);
        lemma_mul_bound(2 * (theta.den as int * theta.den as int), pden2 as int, 2199023255552, 1099511627776);
        lemma_mul_pos(2 * (theta.den as int * theta.den as int), pden2 as int);
    }
    let num: i128 = sin2_num * factor;
    // (H_BAR / 2) and the trailing / 2 cancel against H_BAR = 2 up to one
    // factor of two, which the denominator keeps
    let den: i128 = 2 * (theta.den * theta.den) * pden2;
    Vector3 {
        x: Rat { num, den },
        y: Rat { num: 0, den: 1 },
        z: Rat { num: 0, den: 1 },
    }
}

} // verus!
