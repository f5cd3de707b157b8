//! The scalar layer against hardware IEEE-754 arithmetic: every
//! operation must agree bit for bit with what `f32` computes.

use gltf_flatten::fp::{
    add_bits, sub_bits, mul_bits, div_bits, sqrt_bits, min_bits, max_bits, lt_bits, neg_bits,
    gt_zero_bits, is_nan_bits, is_finite_bits, F32_ONE, F32_POS_ZERO, F32_NEG_ZERO, F32_POS_INF,
    F32_NEG_INF,
};

fn b(x: f32) -> u32 {
    x.to_bits()
}

const SAMPLES: [f32; 14] = [
    0.0,
    -0.0,
    1.0,
    -1.0,
    0.5,
    2.25,
    0.1,
    -7.25,
    3.5e-3,
    1.0e30,
    -1.0e30,
    1.1754944e-38,
    1.0e-40,
    3.4028235e38,
];

#[test]
fn addition_matches_hardware() {
    for &x in &SAMPLES {
        for &y in &SAMPLES {
            assert_eq!(add_bits(b(x), b(y)), (x + y).to_bits(), "{} + {}", x, y);
        }
    }
}

#[test]
fn subtraction_matches_hardware() {
    for &x in &SAMPLES {
        for &y in &SAMPLES {
            assert_eq!(sub_bits(b(x), b(y)), (x - y).to_bits(), "{} - {}", x, y);
        }
    }
}

#[test]
fn multiplication_matches_hardware() {
    for &x in &SAMPLES {
        for &y in &SAMPLES {
            assert_eq!(mul_bits(b(x), b(y)), (x * y).to_bits(), "{} * {}", x, y);
        }
    }
}

#[test]
fn division_matches_hardware() {
    for &x in &SAMPLES {
        for &y in &SAMPLES {
            if y != 0.0 {
                assert_eq!(div_bits(b(x), b(y)), (x / y).to_bits(), "{} / {}", x, y);
            }
        }
    }
}

#[test]
fn division_by_zero_is_infinite() {
    assert_eq!(div_bits(b(1.0), F32_POS_ZERO), F32_POS_INF);
    assert_eq!(div_bits(b(-1.0), F32_POS_ZERO), F32_NEG_INF);
}

#[test]
fn square_root_matches_hardware() {
    let values: [f32; 12] = [
        0.25, 1.0, 2.0, 4.0, 9.0, 2.25, 0.1, 3.5e-3, 1.0e30, 1.1754944e-38, 1.0e-40,
        3.4028235e38,
    ];
    for &x in &values {
        assert_eq!(sqrt_bits(b(x)), x.sqrt().to_bits(), "sqrt({})", x);
    }
    // A denser sweep across magnitudes.
    let mut x = 1.0e-42f32;
    while x < 1.0e38 {
        assert_eq!(sqrt_bits(b(x)), x.sqrt().to_bits(), "sqrt({})", x);
        x *= 1.73;
    }
}

#[test]
fn square_root_edge_cases() {
    assert_eq!(sqrt_bits(F32_POS_ZERO), F32_POS_ZERO);
    assert_eq!(sqrt_bits(F32_NEG_ZERO), F32_NEG_ZERO);
    assert_eq!(sqrt_bits(F32_POS_INF), F32_POS_INF);
    assert!(f32::from_bits(sqrt_bits(b(-1.0))).is_nan());
    assert!(f32::from_bits(sqrt_bits(b(f32::NAN))).is_nan());
}

#[test]
fn minimum_and_maximum_match_hardware() {
    for &x in &SAMPLES {
        for &y in &SAMPLES {
            assert_eq!(min_bits(b(x), b(y)), x.min(y).to_bits(), "min({}, {})", x, y);
            assert_eq!(max_bits(b(x), b(y)), x.max(y).to_bits(), "max({}, {})", x, y);
        }
    }
    // A NaN on either side yields the other argument.
    assert_eq!(min_bits(b(f32::NAN), b(3.0)), b(3.0));
    assert_eq!(max_bits(b(2.0), b(f32::NAN)), b(2.0));
}

#[test]
fn ordering_matches_hardware() {
    for &x in &SAMPLES {
        for &y in &SAMPLES {
            assert_eq!(lt_bits(b(x), b(y)), x < y, "{} < {}", x, y);
        }
    }
    assert!(!lt_bits(b(f32::NAN), b(1.0)));
    assert!(!lt_bits(b(1.0), b(f32::NAN)));
    assert!(!lt_bits(F32_NEG_ZERO, F32_POS_ZERO));
}

#[test]
fn negation_and_classification() {
    for &x in &SAMPLES {
        assert_eq!(neg_bits(b(x)), (-x).to_bits());
        assert_eq!(is_nan_bits(b(x)), x.is_nan());
        assert_eq!(is_finite_bits(b(x)), x.is_finite());
        assert_eq!(gt_zero_bits(b(x)), x > 0.0);
    }
    assert!(is_nan_bits(b(f32::NAN)));
    assert!(!gt_zero_bits(b(f32::NAN)));
    assert!(gt_zero_bits(F32_POS_INF));
    assert!(!gt_zero_bits(F32_NEG_ZERO));
}

#[test]
fn one_is_one() {
    assert_eq!(F32_ONE, 1.0f32.to_bits());
    assert_eq!(mul_bits(F32_ONE, b(7.5)), b(7.5));
    assert_eq!(div_bits(b(7.5), F32_ONE), b(7.5));
}
