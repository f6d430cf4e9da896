//! The physical laws of the kernel, proved.
//!
//! Each public proof function here states one property of the kernel
//! over the same spec functions that the executable contracts use, so
//! what `b_field`, `psi`, `spin_expectation` and
//! `spin_expectation_analytical` return is known to satisfy it.

use crate::angle::Angle;
use crate::quantum::analytical_x_den;
use crate::quantum::analytical_x_num;
use crate::quantum::bloch_den;
use crate::quantum::bloch_x_num;
use crate::quantum::bloch_y_num;
use crate::quantum::bloch_z_num;
use crate::quantum::expectation_imag_num;
use crate::quantum::psi_a_im;
use crate::quantum::psi_a_re;
use crate::quantum::psi_b_im;
use crate::quantum::psi_den;
use crate::quantum::Operator;
use crate::quantum::SpinState;
use crate::rational::rat_eq;
use crate::rational::Rat;
use vstd::prelude::*;

verus! {

/// The field vector has squared magnitude `strength^2`: its components
/// `(strength sin theta, 0, strength cos theta)` (the ensures of
/// `b_field`) satisfy `x^2 + y^2 + z^2 == strength^2` whenever the angle
/// lies on its circle, so the field's magnitude is `|strength|` and its
/// direction `(sin theta, 0, cos theta)`.
pub proof fn lemma_field_magnitude(theta: Angle, strength: Rat)
    requires
        theta.wf(),
        strength.wf(),
        theta.on_circle(),
    ensures
        rat_eq(
            (strength.num * theta.sin_num) * (strength.num * theta.sin_num)
                + (strength.num * theta.cos_num) * (strength.num * theta.cos_num),
            (strength.den * theta.den) * (strength.den * theta.den),
            strength.num * strength.num,
            strength.den * strength.den,
        ),
{
    let k = strength.num as int;
    let m = strength.den as int;
    let c = theta.cos_num as int;
    let s = theta.sin_num as int;
    let d = theta.den as int;
    assert((k * s) * (k * s) + (k * c) * (k * c) == (k * k) * (s * s + c * c))
        by (nonlinear_arith);
    assert((k * k) * (s * s + c * c) == (k * k) * (d * d)) by {
        assert(s * s + c * c == d * d);
    }
    assert(((k * k) * (d * d)) * (m * m) == (k * k) * ((m * d) * (m * d)))
        by (nonlinear_arith);
}

/// The Bloch vector lies exactly on the unit sphere: the three
/// component numerators returned by `spin_expectation` satisfy
/// `x^2 + y^2 + z^2 == den^2` whenever both input points lie on their
/// circles.  Precession tilts the vector but never stretches it.
pub proof fn lemma_bloch_on_unit_sphere(theta: Angle, phase: Angle)
    requires
        theta.wf(),
        phase.wf(),
        theta.on_circle(),
        phase.on_circle(),
    ensures
        bloch_x_num(theta, phase) * bloch_x_num(theta, phase)
            + bloch_y_num(theta, phase) * bloch_y_num(theta, phase)
            + bloch_z_num(theta, phase) * bloch_z_num(theta, phase)
            == bloch_den(theta, phase) * bloch_den(theta, phase),
{
    let a = theta.cos_num as int;
    let b = theta.sin_num as int;
    let d = theta.den as int;
    let p = phase.cos_num as int;
    let q = phase.sin_num as int;
    let e = phase.den as int;
    // squared magnitudes of the circle coordinates
    let ca = a * a;
    let cb = b * b;
    let cd = d * d;
    let cp = p * p;
    let cq = q * q;
    let ce = e * e;
    let x = bloch_x_num(theta, phase);
    let y = bloch_y_num(theta, phase);
    let z = bloch_z_num(theta, phase);
    let den = bloch_den(theta, phase);
    assert(x * x == 64 * (ca * (cb * (cq * cq)))) by (nonlinear_arith)
        requires
            x == 8 * a * b * q * q,
            ca == a * a,
            cb == b * b,
            cq == q * q,
    ;
    assert(y * y == 64 * (cd * (cb * (cp * cq)))) by (nonlinear_arith)
        requires
            y == 8 * d * b * p * q,
            cd == d * d,
            cb == b * b,
            cp == p * p,
            cq == q * q,
    ;
    assert(z == 4 * (cd * cp + ca * cq - cb * cq));
    assert(den == 4 * (cd * ce)) by (nonlinear_arith)
        requires
            den == (2 * d * e) * (2 * d * e),
            cd == d * d,
            ce == e * e,
    ;
    // the algebraic heart: with cos^2 + sin^2 == radius^2 on both
    // circles, the three squares add up to the squared denominator.
    // Split z/4 into the field-aligned and transverse parts t1 and t2
    // and expand step by step.
    let s = cd * cp + ca * cq - cb * cq;
    let t1 = cd * cp;
    let t2 = (ca - cb) * cq;
    assert(s == t1 + t2) by (nonlinear_arith)
        requires
            s == cd * cp + ca * cq - cb * cq,
            t1 == cd * cp,
            t2 == (ca - cb) * cq,
    ;
    assert(s * s == t1 * t1 + 2 * (t1 * t2) + t2 * t2) by (nonlinear_arith)
        requires
            s == t1 + t2,
    ;
    assert(t2 * t2 + 4 * (ca * (cb * (cq * cq))) == (cd * cd) * (cq * cq)) by (nonlinear_arith)
        requires
            t2 == (ca - cb) * cq,
            ca + cb == cd,
    ;
    assert(2 * (t1 * t2) + 4 * (cd * (cb * (cp * cq))) == 2 * ((cd * cd) * (cp * cq)))
        by (nonlinear_arith)
        requires
            t1 == cd * cp,
            t2 == (ca - cb) * cq,
            ca + cb == cd,
    ;
    assert(t1 * t1 == (cd * cd) * (cp * cp)) by (nonlinear_arith)
        requires
            t1 == cd * cp,
    ;
    assert((cd * cd) * (cp * cp) + 2 * ((cd * cd) * (cp * cq)) + (cd * cd) * (cq * cq) == (cd
        * cd) * (ce * ce)) by (nonlinear_arith)
        requires
            cp + cq == ce,
    ;
    assert(z * z == 16 * (s * s)) by (nonlinear_arith)
        requires
            z == 4 * s,
    ;
    assert(den * den == 16 * ((cd * ce) * (cd * ce))) by (nonlinear_arith)
        requires
            den == 4 * (cd * ce),
    ;
    assert((cd * ce) * (cd * ce) == (cd * cd) * (ce * ce)) by (nonlinear_arith);
}

/// The Bloch vector's squared magnitude does not change as time runs:
/// for one field angle and any two on-circle phase points, the squared
/// magnitudes of the two Bloch vectors are equal as rational numbers
/// (both are one, by `lemma_bloch_on_unit_sphere`).
pub proof fn lemma_bloch_magnitude_constant(theta: Angle, phase1: Angle, phase2: Angle)
    requires
        theta.wf(),
        phase1.wf(),
        phase2.wf(),
        theta.on_circle(),
        phase1.on_circle(),
        phase2.on_circle(),
    ensures
        rat_eq(
            bloch_x_num(theta, phase1) * bloch_x_num(theta, phase1)
                + bloch_y_num(theta, phase1) * bloch_y_num(theta, phase1)
                + bloch_z_num(theta, phase1) * bloch_z_num(theta, phase1),
            bloch_den(theta, phase1) * bloch_den(theta, phase1),
            bloch_x_num(theta, phase2) * bloch_x_num(theta, phase2)
                + bloch_y_num(theta, phase2) * bloch_y_num(theta, phase2)
                + bloch_z_num(theta, phase2) * bloch_z_num(theta, phase2),
            bloch_den(theta, phase2) * bloch_den(theta, phase2),
        ),
{
    lemma_bloch_on_unit_sphere(theta, phase1);
    lemma_bloch_on_unit_sphere(theta, phase2);
    let m1 = bloch_den(theta, phase1) * bloch_den(theta, phase1);
    let m2 = bloch_den(theta, phase2) * bloch_den(theta, phase2);
    assert(m1 * m2 == m2 * m1) by (nonlinear_arith);
}

/// The evolved state depends on time only through the phase's circle
/// point: two phase points that stand for the same direction give the
/// same state, amplitude by amplitude, as complex rationals.  Since the
/// points of `tau` and `tau + 2 pi` coincide, the evolution is periodic
/// with period `2 pi / omega`.
pub proof fn lemma_psi_depends_only_on_phase_point(theta: Angle, phase1: Angle, phase2: Angle)
    requires
        theta.wf(),
        phase1.wf(),
        phase2.wf(),
        phase1.same_point(phase2),
    ensures
        rat_eq(
            psi_a_re(theta, phase1),
            psi_den(theta, phase1),
            psi_a_re(theta, phase2),
            psi_den(theta, phase2),
        ),
        rat_eq(
            psi_a_im(theta, phase1),
            psi_den(theta, phase1),
            psi_a_im(theta, phase2),
            psi_den(theta, phase2),
        ),
        rat_eq(
            psi_b_im(theta, phase1),
            psi_den(theta, phase1),
            psi_b_im(theta, phase2),
            psi_den(theta, phase2),
        ),
{
    let tc = theta.cos_num as int;
    let ts = theta.sin_num as int;
    let td = theta.den as int;
    let p1 = phase1.cos_num as int;
    let q1 = phase1.sin_num as int;
    let e1 = phase1.den as int;
    let p2 = phase2.cos_num as int;
    let q2 = phase2.sin_num as int;
    let e2 = phase2.den as int;
    assert((2 * td * p1) * (2 * td * e2) == (2 * td * p2) * (2 * td * e1)) by (nonlinear_arith)
        requires
            p1 * e2 == p2 * e1,
    ;
    assert((2 * tc * q1) * (2 * td * e2) == (2 * tc * q2) * (2 * td * e1)) by (nonlinear_arith)
        requires
            q1 * e2 == q2 * e1,
    ;
    assert((2 * ts * q1) * (2 * td * e2) == (2 * ts * q2) * (2 * td * e1)) by (nonlinear_arith)
        requires
            q1 * e2 == q2 * e1,
    ;
}

/// The Bloch vector depends on time only through the phase's circle
/// point: two phase points that stand for the same direction give the
/// same vector, component by component, as rational numbers.  With
/// `lemma_psi_depends_only_on_phase_point` this is the periodicity of
/// the whole observable output in `tau` with period `2 pi`.
pub proof fn lemma_bloch_depends_only_on_phase_point(theta: Angle, phase1: Angle, phase2: Angle)
    requires
        theta.wf(),
        phase1.wf(),
        phase2.wf(),
        phase1.same_point(phase2),
    ensures
        rat_eq(
            bloch_x_num(theta, phase1),
            bloch_den(theta, phase1),
            bloch_x_num(theta, phase2),
            bloch_den(theta, phase2),
        ),
        rat_eq(
            bloch_y_num(theta, phase1),
            bloch_den(theta, phase1),
            bloch_y_num(theta, phase2),
            bloch_den(theta, phase2),
        ),
        rat_eq(
            bloch_z_num(theta, phase1),
            bloch_den(theta, phase1),
            bloch_z_num(theta, phase2),
            bloch_den(theta, phase2),
        ),
{
    let tc = theta.cos_num as int;
    let ts = theta.sin_num as int;
    let td = theta.den as int;
    let p1 = phase1.cos_num as int;
    let q1 = phase1.sin_num as int;
    let e1 = phase1.den as int;
    let p2 = phase2.cos_num as int;
    let q2 = phase2.sin_num as int;
    let e2 = phase2.den as int;
    // squared and mixed phase coordinates, cross-multiplied, agree
    let cq1 = q1 * q1;
    let cq2 = q2 * q2;
    let cp1 = p1 * p1;
    let cp2 = p2 * p2;
    let r1 = p1 * q1;
    let r2 = p2 * q2;
    let ce1 = e1 * e1;
    let ce2 = e2 * e2;
    assert(cq1 * ce2 == cq2 * ce1) by (nonlinear_arith)
        requires
            cq1 == q1 * q1,
            cq2 == q2 * q2,
            ce1 == e1 * e1,
            ce2 == e2 * e2,
            q1 * e2 == q2 * e1,
    ;
    assert(cp1 * ce2 == cp2 * ce1) by (nonlinear_arith)
        requires
            cp1 == p1 * p1,
            cp2 == p2 * p2,
            ce1 == e1 * e1,
            ce2 == e2 * e2,
            p1 * e2 == p2 * e1,
    ;
    assert(r1 * ce2 == r2 * ce1) by (nonlinear_arith)
        requires
            r1 == p1 * q1,
            r2 == p2 * q2,
            ce1 == e1 * e1,
            ce2 == e2 * e2,
            p1 * e2 == p2 * e1,
            q1 * e2 == q2 * e1,
    ;
    // shared shorthands for the angle factors
    let kx = tc * ts;
    let ky = td * ts;
    let ct = td * td;
    let cc = tc * tc;
    let cs = ts * ts;
    // denominators in factored form
    assert(bloch_den(theta, phase1) == 4 * (ct * ce1) && bloch_den(theta, phase2) == 4 * (ct
        * ce2)) by (nonlinear_arith)
        requires
            bloch_den(theta, phase1) == (2 * td * e1) * (2 * td * e1),
            bloch_den(theta, phase2) == (2 * td * e2) * (2 * td * e2),
            ct == td * td,
            ce1 == e1 * e1,
            ce2 == e2 * e2,
    ;
    // x component
    assert(bloch_x_num(theta, phase1) == 8 * (kx * cq1) && bloch_x_num(theta, phase2) == 8 * (kx
        * cq2)) by (nonlinear_arith)
        requires
            bloch_x_num(theta, phase1) == 8 * tc * ts * q1 * q1,
            bloch_x_num(theta, phase2) == 8 * tc * ts * q2 * q2,
            kx == tc * ts,
            cq1 == q1 * q1,
            cq2 == q2 * q2,
    ;
    assert((8 * (kx * cq1)) * (4 * (ct * ce2)) == 32 * ((kx * ct) * (cq1 * ce2)))
        by (nonlinear_arith);
    assert((8 * (kx * cq2)) * (4 * (ct * ce1)) == 32 * ((kx * ct) * (cq2 * ce1)))
        by (nonlinear_arith);
    // y component
    assert(bloch_y_num(theta, phase1) == 8 * (ky * r1) && bloch_y_num(theta, phase2) == 8 * (ky
        * r2)) by (nonlinear_arith)
        requires
            bloch_y_num(theta, phase1) == 8 * td * ts * p1 * q1,
            bloch_y_num(theta, phase2) == 8 * td * ts * p2 * q2,
            ky == td * ts,
            r1 == p1 * q1,
            r2 == p2 * q2,
    ;
    assert((8 * (ky * r1)) * (4 * (ct * ce2)) == 32 * ((ky * ct) * (r1 * ce2)))
        by (nonlinear_arith);
    assert((8 * (ky * r2)) * (4 * (ct * ce1)) == 32 * ((ky * ct) * (r2 * ce1)))
        by (nonlinear_arith);
    // z component
    let m1 = ct * cp1 + cc * cq1 - cs * cq1;
    let m2 = ct * cp2 + cc * cq2 - cs * cq2;
    assert(bloch_z_num(theta, phase1) == 4 * m1 && bloch_z_num(theta, phase2) == 4 * m2);
    assert(m1 * ce2 == ct * (cp1 * ce2) + cc * (cq1 * ce2) - cs * (cq1 * ce2))
        by (nonlinear_arith)
        requires
            m1 == ct * cp1 + cc * cq1 - cs * cq1,
    ;
    assert(m2 * ce1 == ct * (cp2 * ce1) + cc * (cq2 * ce1) - cs * (cq2 * ce1))
        by (nonlinear_arith)
        requires
            m2 == ct * cp2 + cc * cq2 - cs * cq2,
    ;
    assert((4 * m1) * (4 * (ct * ce2)) == 16 * (ct * (m1 * ce2))) by (nonlinear_arith);
    assert((4 * m2) * (4 * (ct * ce1)) == 16 * (ct * (m2 * ce1))) by (nonlinear_arith);
}

/// A vanishing field strength freezes the evolution: the precession
/// phase returned by `precession_phase` is the rational zero for every
/// time, so any two times give the same phase; by
/// `lemma_psi_depends_only_on_phase_point` the state is then
/// independent of time.
pub proof fn lemma_zero_strength_phase_constant(strength: Rat, time1: Rat, time2: Rat)
    requires
        strength.wf(),
        time1.wf(),
        time2.wf(),
        strength.num == 0,
    ensures
        2 * strength.num * time1.num == 0,
        2 * strength.num * time2.num == 0,
        rat_eq(
            2 * strength.num * time1.num,
            4 * strength.den * time1.den,
            2 * strength.num * time2.num,
            4 * strength.den * time2.den,
        ),
{
    let t1 = time1.num as int;
    let t2 = time2.num as int;
    assert(2 * 0 * t1 == 0 && 2 * 0 * t2 == 0) by (nonlinear_arith);
    assert(0 * (4 * strength.den * time2.den) == 0 * (4 * strength.den * time1.den))
        by (nonlinear_arith);
}

/// With the field along the x axis (a right-angle field angle, cosine
/// zero) the analytical reference and the Bloch vector agree on the x
/// component for every phase: both closed forms vanish identically, so
/// the oracle tracks the kernel exactly there.
pub proof fn lemma_analytical_matches_bloch_at_right_angle(theta: Angle, phase: Angle)
    requires
        theta.wf(),
        phase.wf(),
        theta.cos_num == 0,
    ensures
        bloch_x_num(theta, phase) == 0,
        analytical_x_num(theta, phase) == 0,
        rat_eq(
            bloch_x_num(theta, phase),
            bloch_den(theta, phase),
            analytical_x_num(theta, phase),
            analytical_x_den(theta, phase),
        ),
{
    let ts = theta.sin_num as int;
    let ps = phase.sin_num as int;
    let f = (phase.den * phase.den - 2 * (phase.cos_num * phase.cos_num - phase.sin_num
        * phase.sin_num)) as int;
    assert(8 * 0 * ts * ps * ps == 0) by (nonlinear_arith);
    assert((2 * 0 * ts) * f == 0) by (nonlinear_arith);
    assert(0 * analytical_x_den(theta, phase) == 0 * bloch_den(theta, phase))
        by (nonlinear_arith);
}


/// One factor slides across a product: `a (k b) == k (a b)`.
proof fn lemma_antisym_pair(k: int, a: int, b: int)
    by (nonlinear_arith)
    ensures
        a * (k * b) + (-b) * (k * a) == 0,
{
}

/// Flipping the shared factor's sign flips one side: the pair cancels.
proof fn lemma_sym_pair(k: int, a: int, b: int)
    by (nonlinear_arith)
    ensures
        a * (k * b) + b * ((-k) * a) == 0,
{
}

/// As `lemma_sym_pair`, with both outer factors negated.
proof fn lemma_sym_pair_neg(k: int, a: int, b: int)
    by (nonlinear_arith)
    ensures
        (-a) * (k * b) + (-b) * ((-k) * a) == 0,
{
}

/// The quadratic form of a Hermitian operator is real: for every state,
/// normalized or not, the imaginary part of `state^dagger op state`
/// vanishes, so `expectation` loses nothing by keeping only the real
/// part.
pub proof fn lemma_expectation_real_for_hermitian(s: SpinState, op: Operator)
    requires
        op.hermitian(),
    ensures
        expectation_imag_num(s, op) == 0,
{
    let ar = s.a.re as int;
    let ai = s.a.im as int;
    let br = s.b.re as int;
    let bi = s.b.im as int;
    let x = op.e00.re as int;
    let w = op.e11.re as int;
    let u = op.e01.re as int;
    let v = op.e01.im as int;
    let t1 = ar * ((x * ai + 0 * ar) + (u * bi + v * br)) + (-ai) * ((x * ar - 0 * ai) + (u * br
        - v * bi));
    let t2 = br * ((u * ai + (-v) * ar) + (w * bi + 0 * br)) + (-bi) * ((u * ar - (-v) * ai) + (w
        * br - 0 * bi));
    assert(expectation_imag_num(s, op) == t1 + t2);
    // spread both terms over the individual matrix entries
    vstd::arithmetic::mul::lemma_mul_is_distributive_add(ar, x * ai + 0 * ar, u * bi + v * br);
    vstd::arithmetic::mul::lemma_mul_is_distributive_add(ar, x * ai, 0 * ar);
    vstd::arithmetic::mul::lemma_mul_is_distributive_add(ar, u * bi, v * br);
    vstd::arithmetic::mul::lemma_mul_is_distributive_add(-ai, x * ar - 0 * ai, u * br - v * bi);
    vstd::arithmetic::mul::lemma_mul_is_distributive_sub(-ai, x * ar, 0 * ai);
    vstd::arithmetic::mul::lemma_mul_is_distributive_sub(-ai, u * br, v * bi);
    vstd::arithmetic::mul::lemma_mul_is_distributive_add(br, u * ai + (-v) * ar, w * bi + 0 * br);
    vstd::arithmetic::mul::lemma_mul_is_distributive_add(br, u * ai, (-v) * ar);
    vstd::arithmetic::mul::lemma_mul_is_distributive_add(br, w * bi, 0 * br);
    vstd::arithmetic::mul::lemma_mul_is_distributive_add(-bi, u * ar - (-v) * ai, w * br - 0 * bi);
    vstd::arithmetic::mul::lemma_mul_is_distributive_sub(-bi, u * ar, (-v) * ai);
    vstd::arithmetic::mul::lemma_mul_is_distributive_sub(-bi, w * br, 0 * bi);
    // the diagonal entries meet their own conjugates
    vstd::arithmetic::mul::lemma_mul_by_zero_is_zero(ar);
    vstd::arithmetic::mul::lemma_mul_by_zero_is_zero(ai);
    vstd::arithmetic::mul::lemma_mul_by_zero_is_zero(br);
    vstd::arithmetic::mul::lemma_mul_by_zero_is_zero(bi);
    vstd::arithmetic::mul::lemma_mul_by_zero_is_zero(-ai);
    vstd::arithmetic::mul::lemma_mul_by_zero_is_zero(-bi);
    lemma_antisym_pair(x, ar, ai);
    lemma_antisym_pair(w, br, bi);
    // the off-diagonal entries cancel pairwise against the conjugates
    lemma_antisym_pair(u, ar, bi);
    lemma_antisym_pair(u, br, ai);
    lemma_sym_pair(v, ar, br);
    lemma_sym_pair_neg(v, ai, bi);
}

} // verus!
