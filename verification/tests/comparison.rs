//! The tolerant scalar comparison, held against real 32-bit float bit
//! patterns and against the `approx` crate's ULPs comparison on same-sign
//! values.

use rollback::common::{MAX_ULPS, Scalar, Vec3};

fn s(v: f32) -> Scalar {
    Scalar(v.to_bits())
}

/// Steps a float `n` values upward through the representable numbers.
fn nudge(v: f32, n: u32) -> f32 {
    f32::from_bits(v.to_bits() + n)
}

#[test]
fn equal_bits_are_equal() {
    assert!(s(1.5).approx_eq(s(1.5)));
    assert!(s(-3.25).approx_eq(s(-3.25)));
    assert!(s(0.0).approx_eq(s(0.0)));
}

#[test]
fn drift_within_the_tolerance_is_equal() {
    assert_eq!(MAX_ULPS, 1000);
    assert!(s(1.0).approx_eq(Scalar(nudge(1.0, 1).to_bits())));
    assert!(s(1.0).approx_eq(Scalar(nudge(1.0, 1000).to_bits())));
    assert!(!s(1.0).approx_eq(Scalar(nudge(1.0, 1001).to_bits())));
    assert!(s(-2.0).approx_eq(Scalar(nudge(-2.0, 1000).to_bits())));
}

#[test]
fn true_divergence_is_unequal() {
    assert!(!s(1.0).approx_eq(s(1.1)));
    assert!(!s(0.0).approx_eq(s(1.0)));
    assert!(!s(5.0).approx_eq(s(-5.0)));
}

#[test]
fn signed_zeros_agree() {
    assert!(s(0.0).approx_eq(s(-0.0)));
    assert!(s(-0.0).approx_eq(s(0.0)));
}

#[test]
fn agreement_matches_approx_on_same_sign_values() {
    let pairs = [
        (1.0f32, nudge(1.0, 999)),
        (1.0, nudge(1.0, 1000)),
        (1.0, nudge(1.0, 1001)),
        (1.0, 1.1),
        (123.456, 123.456),
        (-8.5, nudge(-8.5, 500)),
        (-8.5, nudge(-8.5, 2000)),
        (1e-20, 2e-20),
    ];
    for (a, b) in pairs {
        let ours = s(a).approx_eq(s(b));
        let theirs = approx::UlpsEq::ulps_eq(&a, &b, 0.0, 1000);
        assert_eq!(ours, theirs, "disagreement on {a} vs {b}");
    }
}

#[test]
fn vectors_compare_component_by_component() {
    let a = Vec3 { x: s(1.0), y: s(2.0), z: s(3.0) };
    let near = Vec3 { x: Scalar(nudge(1.0, 50).to_bits()), y: s(2.0), z: s(3.0) };
    let far = Vec3 { x: s(1.0), y: s(2.5), z: s(3.0) };
    assert!(a.approx_eq(&near));
    assert!(!a.approx_eq(&far));
}
