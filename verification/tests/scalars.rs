use poline::scalar::{
    FIVE, FOUR, FULL_TURN, HALF, HALF_TURN, HUNDRED, ONE, ONE_FIFTH, PI, SIXTY, THREE,
    THREE_QUARTERS, THREE_TENTHS, TWO, ZERO,
};
use poline::{number_as_enum, PolineErrors, PositionScale, Scalar};

fn s(x: f32) -> Scalar {
    Scalar::from_bits(x.to_bits())
}

fn samples() -> Vec<f32> {
    vec![
        0.0,
        -0.0,
        f32::MIN_POSITIVE,
        -f32::MIN_POSITIVE,
        1.0e-45,
        -1.0e-45,
        1.1754942e-38,
        0.1,
        0.5,
        -0.5,
        1.0,
        -1.0,
        1.0000001,
        1.7320508,
        360.0,
        -360.0,
        f32::MAX,
        f32::MIN,
        f32::INFINITY,
        f32::NEG_INFINITY,
        f32::NAN,
        -f32::NAN,
    ]
}

#[test]
fn constants_are_the_encodings_of_their_numbers() {
    assert_eq!(ZERO, 0.0f32.to_bits());
    assert_eq!(ONE_FIFTH, 0.2f32.to_bits());
    assert_eq!(THREE_TENTHS, 0.3f32.to_bits());
    assert_eq!(HALF, 0.5f32.to_bits());
    assert_eq!(THREE_QUARTERS, 0.75f32.to_bits());
    assert_eq!(ONE, 1.0f32.to_bits());
    assert_eq!(TWO, 2.0f32.to_bits());
    assert_eq!(THREE, 3.0f32.to_bits());
    assert_eq!(FOUR, 4.0f32.to_bits());
    assert_eq!(FIVE, 5.0f32.to_bits());
    assert_eq!(SIXTY, 60.0f32.to_bits());
    assert_eq!(HUNDRED, 100.0f32.to_bits());
    assert_eq!(HALF_TURN, 180.0f32.to_bits());
    assert_eq!(FULL_TURN, 360.0f32.to_bits());
    assert_eq!(PI, std::f32::consts::PI.to_bits());
}

#[test]
fn bits_go_in_and_come_out() {
    assert_eq!(Scalar::from_bits(0x3f80_0000).to_bits(), 0x3f80_0000);
    assert_eq!(Scalar::from_bits(0xffff_ffff).to_bits(), 0xffff_ffff);
    assert_eq!(Scalar(7).0, 7);
}

#[test]
fn equality_is_that_of_the_numbers() {
    for a in samples() {
        for b in samples() {
            assert_eq!(s(a).equals(s(b)), a == b, "{a} == {b}");
            assert_eq!(s(a) == s(b), a == b, "{a} == {b}");
        }
    }
}

#[test]
fn zero_equals_negative_zero() {
    assert!(s(0.0).equals(s(-0.0)));
    assert_ne!(s(0.0).to_bits(), s(-0.0).to_bits());
}

#[test]
fn a_nan_equals_nothing() {
    assert!(!s(f32::NAN).equals(s(f32::NAN)));
    assert!(!s(f32::NAN).equals(s(1.0)));
    assert!(!s(1.0).equals(s(f32::NAN)));
}

#[test]
fn order_is_that_of_the_numbers() {
    for a in samples() {
        for b in samples() {
            assert_eq!(s(a).less_than(s(b)), a < b, "{a} < {b}");
        }
    }
}

#[test]
fn neither_zero_is_below_the_other() {
    assert!(!s(-0.0).less_than(s(0.0)));
    assert!(!s(0.0).less_than(s(-0.0)));
    assert!(s(-1.0e-45).less_than(s(0.0)));
    assert!(s(-0.0).less_than(s(1.0e-45)));
}

#[test]
fn nan_and_real_are_told_apart() {
    for a in samples() {
        assert_eq!(s(a).is_nan(), a.is_nan(), "{a}");
        assert_eq!(s(a).is_real(), a.is_finite(), "{a}");
    }
    assert!(Scalar::from_bits(0x7f80_0001).is_nan());
    assert!(Scalar::from_bits(0xffc0_0000).is_nan());
    assert!(!Scalar::from_bits(0x7f80_0000).is_nan());
    assert!(!Scalar::from_bits(0x7f80_0000).is_real());
    assert!(Scalar::from_bits(0x7f7f_ffff).is_real());
}

#[test]
fn each_ordinal_selects_its_scale() {
    assert_eq!(number_as_enum(0), PositionScale::Linear);
    assert_eq!(number_as_enum(1), PositionScale::Exponential);
    assert_eq!(number_as_enum(2), PositionScale::Cubic);
    assert_eq!(number_as_enum(3), PositionScale::Quadratic);
    assert_eq!(number_as_enum(4), PositionScale::Quartic);
    assert_eq!(number_as_enum(5), PositionScale::Sinusoidal);
    assert_eq!(number_as_enum(6), PositionScale::Asinusoidal);
    assert_eq!(number_as_enum(7), PositionScale::Arc);
    assert_eq!(number_as_enum(8), PositionScale::SmoothStep);
}

#[test]
fn errors_have_their_texts() {
    assert_eq!(PolineErrors::MissingArgument.message(), "At least one is required");
    assert_eq!(PolineErrors::PointNotFound.message(), "Point not found");
}
