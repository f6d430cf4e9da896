//! Exact scenarios for the kernel: inputs written as Pythagorean points
//! so every expected numerator and denominator is known in advance.

use spin_precession::angle::Angle;
use spin_precession::complex::Complex;
use spin_precession::quantum::b_field;
use spin_precession::quantum::expectation;
use spin_precession::quantum::expi;
use spin_precession::quantum::precession_phase;
use spin_precession::quantum::psi;
use spin_precession::quantum::spin_expectation;
use spin_precession::quantum::spin_expectation_analytical;
use spin_precession::quantum::sz_positive_state;
use spin_precession::quantum::Operator;
use spin_precession::quantum::SpinState;
use spin_precession::rational::Rat;

#[test]
fn field_components_on_triple() {
    // cos = 3/5, sin = 4/5, strength 2
    let theta = Angle::new(3, 4, 5);
    let strength = Rat::new(2, 1);
    let f = b_field(&theta, &strength);
    assert_eq!(f.x.num, 8);
    assert_eq!(f.x.den, 5);
    assert_eq!(f.y.num, 0);
    assert_eq!(f.z.num, 6);
    assert_eq!(f.z.den, 5);
    // squared magnitude is exactly strength^2 = 4
    let mag2_num: i128 = f.x.num * f.x.num + f.z.num * f.z.num;
    assert_eq!(mag2_num, 4 * (f.x.den * f.x.den));
}

#[test]
fn field_reverses_with_negative_strength() {
    let theta = Angle::new(3, 4, 5);
    let plus = b_field(&theta, &Rat::new(1, 1));
    let minus = b_field(&theta, &Rat::new(-1, 1));
    assert_eq!(plus.x.num, -minus.x.num);
    assert_eq!(plus.z.num, -minus.z.num);
    assert_eq!(plus.x.den, minus.x.den);
}

#[test]
fn field_along_z_at_zero_angle() {
    // theta = 0, strength = 1: field (0, 0, 1)
    let f = b_field(&Angle::zero(), &Rat::one());
    assert_eq!(f.x.num, 0);
    assert_eq!(f.y.num, 0);
    assert_eq!(f.z.num, f.z.den);
}

#[test]
fn precession_phase_formula() {
    // tau = strength * time / 2 = (9/10)(7/2)/2 = 63/40
    let tau = precession_phase(&Rat::new(9, 10), &Rat::new(7, 2));
    assert_eq!(tau.num, 126);
    assert_eq!(tau.den, 80);
    assert_eq!(tau.num * 40, 63 * tau.den);
}

#[test]
fn precession_phase_negative_strength() {
    let tau = precession_phase(&Rat::new(-3, 2), &Rat::new(5, 7));
    assert_eq!(tau.num, -30);
    assert_eq!(tau.den, 56);
}

#[test]
fn zero_strength_gives_zero_phase_for_every_time() {
    let zero = Rat::zero();
    for t in [-7i128, 0, 3, 1000] {
        let tau = precession_phase(&zero, &Rat::new(t, 2));
        assert_eq!(tau.num, 0);
    }
}

#[test]
fn evolved_state_at_zero_angle_and_time() {
    // theta = 0: psi_1 = (2, 0), psi_2 = (0, 0); at tau = 0 the state is (1, 0)
    let s = psi(&Angle::zero(), &Angle::zero());
    assert_eq!(s.a.re, s.den);
    assert_eq!(s.a.im, 0);
    assert_eq!(s.b.re, 0);
    assert_eq!(s.b.im, 0);
}

#[test]
fn evolved_state_starts_spin_up_for_any_angle() {
    // at tau = 0 the eigenbasis combination is (1, 0) whatever the field angle
    let s = psi(&Angle::new(3, 4, 5), &Angle::zero());
    assert_eq!(s.a.re, s.den);
    assert_eq!(s.a.im, 0);
    assert_eq!(s.b.re, 0);
    assert_eq!(s.b.im, 0);
}

#[test]
fn evolved_state_on_triples() {
    // cos theta = 3/5, sin theta = 4/5; cos tau = 5/13, sin tau = 12/13:
    // a = cos tau + i cos theta sin tau, b = i sin theta sin tau
    let theta = Angle::new(3, 4, 5);
    let phase = Angle::new(5, 12, 13);
    let s = psi(&theta, &phase);
    assert_eq!(s.a.re, 50);
    assert_eq!(s.a.im, 72);
    assert_eq!(s.b.re, 0);
    assert_eq!(s.b.im, 96);
    assert_eq!(s.den, 130);
    // the state is normalized: |a|^2 + |b|^2 == den^2
    assert_eq!(50 * 50 + 72 * 72 + 96 * 96, 130 * 130);
}

#[test]
fn expectations_in_initial_scenario() {
    // theta = 0, strength 1, t = 0: <Sx> = <Sy> = 0, <Sz> = +1
    let v = spin_expectation(&Angle::zero(), &Angle::zero());
    assert_eq!(v.x.num, 0);
    assert_eq!(v.y.num, 0);
    assert_eq!(v.z.num, v.z.den);
}

#[test]
fn expectation_of_sz_in_up_state() {
    let up = sz_positive_state();
    let z = expectation(&up, &Operator::sz());
    assert_eq!(z.num, 1);
    assert_eq!(z.den, 1);
    let x = expectation(&up, &Operator::sx());
    let y = expectation(&up, &Operator::sy());
    assert_eq!(x.num, 0);
    assert_eq!(y.num, 0);
}

#[test]
fn expectation_of_general_state() {
    // state (1 + 2i, 3 + 5i) / 1: <Sx> = 2 Re(conj(a) b) = 26,
    // <Sy> = 2 Im(conj(a) b) = 2(re a im b - im a re b) = 2(5 - 6) = -2,
    // <Sz> = |a|^2 - |b|^2 = 5 - 34 = -29
    let s = SpinState::new(Complex::new(1, 2), Complex::new(3, 5), 1);
    assert_eq!(expectation(&s, &Operator::sx()).num, 26);
    assert_eq!(expectation(&s, &Operator::sy()).num, -2);
    assert_eq!(expectation(&s, &Operator::sz()).num, -29);
}

#[test]
fn bloch_vector_on_unit_sphere_exactly() {
    let theta = Angle::new(3, 4, 5);
    let phase = Angle::new(5, 12, 13);
    let v = spin_expectation(&theta, &phase);
    assert_eq!(v.x.den, v.y.den);
    assert_eq!(v.x.den, v.z.den);
    let mag2: i128 = v.x.num * v.x.num + v.y.num * v.y.num + v.z.num * v.z.num;
    assert_eq!(mag2, v.x.den * v.x.den);
}

#[test]
fn bloch_components_on_triples() {
    // x = 2 c s q^2, y = 2 s p q, z = p^2 + (c^2 - s^2) q^2 over the
    // unit circle values c = 3/5, s = 4/5, p = 5/13, q = 12/13
    let v = spin_expectation(&Angle::new(3, 4, 5), &Angle::new(5, 12, 13));
    // common denominator 4 * 25 * 169
    assert_eq!(v.x.den, 16900);
    assert_eq!(v.x.num, 8 * 3 * 4 * 144);
    assert_eq!(v.y.num, 8 * 5 * 4 * 5 * 12);
    assert_eq!(v.z.num, 4 * (25 * 25 + 9 * 144 - 16 * 144));
}

#[test]
fn analytical_x_formula_on_triples() {
    // x = sin(2 theta) (1 - 2 cos(2 tau)) / 2 with sin(2 theta) = 24/25
    // and cos(2 tau) = (25 - 144)/169
    let v = spin_expectation_analytical(&Angle::new(3, 4, 5), &Angle::new(5, 12, 13));
    assert_eq!(v.x.num, 24 * (169 - 2 * (25 - 144)));
    assert_eq!(v.x.den, 2 * 25 * 169);
    assert_eq!(v.y.num, 0);
    assert_eq!(v.z.num, 0);
}

#[test]
fn analytical_x_vanishes_with_field_along_x() {
    // theta = pi / 2: both the kernel's x component and the oracle are zero
    let theta = Angle::quarter_turn();
    let phase = Angle::new(5, 12, 13);
    let v = spin_expectation(&theta, &phase);
    let w = spin_expectation_analytical(&theta, &phase);
    assert_eq!(v.x.num, 0);
    assert_eq!(w.x.num, 0);
}

#[test]
fn complex_arithmetic_exact() {
    let a = Complex::new(1, 2);
    let b = Complex::new(3, 4);
    assert_eq!(a.add(b), Complex::new(4, 6));
    assert_eq!(a.sub(b), Complex::new(-2, -2));
    assert_eq!(a.mul(b), Complex::new(-5, 10));
    assert_eq!(a.conj(), Complex::new(1, -2));
    assert_eq!(a.norm_sqr(), 5);
    assert_eq!(Complex::zero(), Complex::new(0, 0));
}

#[test]
fn phase_factor_carries_the_circle_point() {
    let e = expi(&Angle::quarter_turn());
    assert_eq!(e.re, 0);
    assert_eq!(e.im, 1);
    let e0 = expi(&Angle::zero());
    assert_eq!(e0.re, 1);
    assert_eq!(e0.im, 0);
}

#[test]
fn pauli_operator_entries() {
    let sx = Operator::sx();
    assert_eq!(sx.e01, Complex::new(1, 0));
    assert_eq!(sx.e10, Complex::new(1, 0));
    assert_eq!(sx.e00, Complex::new(0, 0));
    let sy = Operator::sy();
    assert_eq!(sy.e01, Complex::new(0, -1));
    assert_eq!(sy.e10, Complex::new(0, 1));
    let sz = Operator::sz();
    assert_eq!(sz.e00, Complex::new(1, 0));
    assert_eq!(sz.e11, Complex::new(-1, 0));
}

#[test]
fn scalar_constructors() {
    let r = Rat::new(-7, 3);
    assert_eq!(r.num, -7);
    assert_eq!(r.den, 3);
    assert_eq!(Rat::zero().num, 0);
    assert_eq!(Rat::one().num, 1);
    let a = Angle::new(-3, 4, 5);
    assert_eq!(a.cos_num, -3);
    assert_eq!(a.sin_num, 4);
    assert_eq!(a.den, 5);
}
