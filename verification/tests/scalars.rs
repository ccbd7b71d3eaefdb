use vector_algebra::scalar::{Scalar, INFINITY_BITS, SIGN_BIT};

fn samples() -> Vec<f32> {
    vec![
        0.0,
        -0.0,
        1.0,
        -1.5,
        5.0,
        f32::MIN_POSITIVE,
        f32::from_bits(1),
        f32::from_bits(0x8000_0001),
        f32::MAX,
        f32::MIN,
        f32::INFINITY,
        f32::NEG_INFINITY,
        f32::NAN,
        -f32::NAN,
        f32::from_bits(0x7f80_0001),
        f32::from_bits(0xffff_ffff),
    ]
}

#[test]
fn bits_round_trip() {
    for bits in [0u32, 1, 0x3f80_0000, 0x4120_0000, 0x7f80_0000, 0x8000_0000, 0xffff_ffff] {
        assert_eq!(Scalar::from_bits(bits).to_bits(), bits);
        assert_eq!(Scalar::from_bits(bits).bits, bits);
    }
}

#[test]
fn zero_is_positive_zero() {
    assert_eq!(Scalar::zero().to_bits(), 0.0f32.to_bits());
    assert_ne!(Scalar::zero().to_bits(), (-0.0f32).to_bits());
    assert!(Scalar::zero().is_zero());
    assert!(!Scalar::zero().is_sign_negative());
}

#[test]
fn named_patterns() {
    assert_eq!(SIGN_BIT, (-0.0f32).to_bits());
    assert_eq!(INFINITY_BITS, f32::INFINITY.to_bits());
}

#[test]
fn classes_are_those_of_single_precision() {
    for x in samples() {
        let s = Scalar::from_bits(x.to_bits());
        assert_eq!(s.is_nan(), x.is_nan(), "is_nan of {:?}", x);
        assert_eq!(s.is_infinite(), x.is_infinite(), "is_infinite of {:?}", x);
        assert_eq!(s.is_finite(), x.is_finite(), "is_finite of {:?}", x);
        assert_eq!(s.is_sign_negative(), x.is_sign_negative(), "is_sign_negative of {:?}", x);
        assert_eq!(s.is_zero(), x == 0.0, "is_zero of {:?}", x);
    }
}

#[test]
fn each_pattern_is_in_one_class() {
    for x in samples() {
        let s = Scalar::from_bits(x.to_bits());
        let classes = [s.is_nan(), s.is_infinite(), s.is_finite()];
        assert_eq!(classes.iter().filter(|c| **c).count(), 1);
    }
}

#[test]
fn equality_is_that_of_single_precision() {
    for x in samples() {
        for y in samples() {
            let a = Scalar::from_bits(x.to_bits());
            let b = Scalar::from_bits(y.to_bits());
            assert_eq!(a == b, x == y, "{:?} == {:?}", x, y);
            assert_eq!(a != b, x != y, "{:?} != {:?}", x, y);
        }
    }
}

#[test]
fn nan_equals_nothing() {
    let nan = Scalar::from_bits(f32::NAN.to_bits());
    assert!(nan != nan);
    assert!(nan != Scalar::from_bits(1.0f32.to_bits()));
    assert!(Scalar::from_bits(1.0f32.to_bits()) != nan);
}

#[test]
fn the_two_zeros_are_equal() {
    let plus = Scalar::from_bits(0.0f32.to_bits());
    let minus = Scalar::from_bits((-0.0f32).to_bits());
    assert_ne!(plus.to_bits(), minus.to_bits());
    assert!(plus == minus);
    assert!(minus == plus);
}

#[test]
fn different_numbers_are_not_equal() {
    let one = Scalar::from_bits(1.0f32.to_bits());
    let next = Scalar::from_bits(1.0f32.to_bits() + 1);
    assert!(one != next);
    assert!(one == one);
    assert!(Scalar::from_bits(f32::INFINITY.to_bits()) != Scalar::from_bits(f32::NEG_INFINITY.to_bits()));
    assert!(Scalar::from_bits(f32::INFINITY.to_bits()) == Scalar::from_bits(f32::INFINITY.to_bits()));
}
