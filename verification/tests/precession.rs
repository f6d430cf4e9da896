//! Numeric sweeps over rounded circle points: a caller that starts from
//! radians lands near the circle, and the kernel's outputs then satisfy
//! the geometric laws within floating tolerance.

use spin_precession::angle::Angle;
use spin_precession::quantum::b_field;
use spin_precession::quantum::precession_phase;
use spin_precession::quantum::psi;
use spin_precession::quantum::spin_expectation;
use spin_precession::quantum::spin_expectation_analytical;
use spin_precession::rational::Rat;

const SCALE: i128 = 1048576;

/// The circle point of `radians`, rounded to the kernel's scale.
fn angle_from_radians(radians: f64) -> Angle {
    let c = (radians.cos() * SCALE as f64).round() as i128;
    let s = (radians.sin() * SCALE as f64).round() as i128;
    Angle::new(c, s, SCALE)
}

fn value(r: &Rat) -> f64 {
    r.num as f64 / r.den as f64
}

#[test]
fn bloch_magnitude_constant_over_time() {
    // fixed field, swept time: the Bloch vector's length stays 1
    let theta = angle_from_radians(0.17);
    let strength: f64 = 0.9;
    for k in 0..60 {
        let t = 0.25 * k as f64;
        let tau = strength * t / 2.0;
        let v = spin_expectation(&theta, &angle_from_radians(tau));
        let mag = (value(&v.x).powi(2) + value(&v.y).powi(2) + value(&v.z).powi(2)).sqrt();
        assert!((mag - 1.0).abs() < 1e-4);
    }
}

#[test]
fn bloch_vector_periodic_in_time() {
    // omega = strength / 2, so the period is 2 pi / omega = 4 pi / strength
    let theta = angle_from_radians(1.1);
    let strength: f64 = 0.9;
    let period = 4.0 * std::f64::consts::PI / strength;
    for k in 0..10 {
        let t = 0.7 * k as f64;
        let v1 = spin_expectation(&theta, &angle_from_radians(strength * t / 2.0));
        let v2 = spin_expectation(&theta, &angle_from_radians(strength * (t + period) / 2.0));
        assert!((value(&v1.x) - value(&v2.x)).abs() < 1e-4);
        assert!((value(&v1.y) - value(&v2.y)).abs() < 1e-4);
        assert!((value(&v1.z) - value(&v2.z)).abs() < 1e-4);
    }
}

#[test]
fn zero_strength_freezes_the_state() {
    // strength 0 gives phase 0 for every time, hence one fixed state
    let theta = angle_from_radians(0.6);
    let zero = Rat::zero();
    let mut states = Vec::new();
    for t in [0i128, 1, 5, 1000] {
        let tau = precession_phase(&zero, &Rat::new(t, 1));
        assert_eq!(tau.num, 0);
        // the circle point of the zero phase
        let point = Angle::zero();
        states.push(psi(&theta, &point));
    }
    for s in &states {
        assert_eq!(*s, states[0]);
    }
}

#[test]
fn analytical_x_tracks_bloch_x_with_field_along_x() {
    // theta = pi / 2: the kernel's x component and the oracle agree
    // across swept time
    let theta = angle_from_radians(std::f64::consts::FRAC_PI_2);
    let strength: f64 = 1.3;
    for k in 0..40 {
        let t = 0.3 * k as f64;
        let phase = angle_from_radians(strength * t / 2.0);
        let v = spin_expectation(&theta, &phase);
        let w = spin_expectation_analytical(&theta, &phase);
        assert!((value(&v.x) - value(&w.x)).abs() < 1e-4);
    }
}

#[test]
fn kernel_calls_are_pure() {
    // the same inputs give bit-identical outputs
    let theta = angle_from_radians(0.37);
    let phase = angle_from_radians(2.2);
    let strength = Rat::new(9, 10);
    let time = Rat::new(22, 7);
    assert_eq!(b_field(&theta, &strength), b_field(&theta, &strength));
    assert_eq!(precession_phase(&strength, &time), precession_phase(&strength, &time));
    assert_eq!(psi(&theta, &phase), psi(&theta, &phase));
    assert_eq!(spin_expectation(&theta, &phase), spin_expectation(&theta, &phase));
    assert_eq!(
        spin_expectation_analytical(&theta, &phase),
        spin_expectation_analytical(&theta, &phase)
    );
}
