use lineq::scalar::{dot2, dot3, minor, Op, Scalar, INFINITY_BITS, SIGN_BIT};

fn s(v: f32) -> Scalar {
    Scalar { bits: v.to_bits() }
}

fn f(v: Scalar) -> f32 {
    f32::from_bits(v.bits)
}

fn fpu(op: Op, a: Scalar, b: Scalar) -> Scalar {
    let (x, y) = (f(a), f(b));
    s(match op {
        Op::Add => x + y,
        Op::Sub => x - y,
        Op::Mul => x * y,
        Op::Div => x / y,
    })
}

fn samples() -> Vec<f32> {
    vec![
        0.0,
        -0.0,
        1.0,
        -1.0,
        3.5,
        -2.25e-40,
        1.0e-45,
        f32::INFINITY,
        f32::NEG_INFINITY,
        f32::MAX,
        f32::MIN,
        f32::MIN_POSITIVE,
        f32::NAN,
        -f32::NAN,
        f32::from_bits(0x7f80_0001),
        f32::from_bits(0xffff_ffff),
    ]
}

#[test]
fn named_scalars_are_the_bit_patterns_of_their_numbers() {
    assert_eq!(Scalar::zero().bits, 0.0f32.to_bits());
    assert_eq!(Scalar::one().bits, 1.0f32.to_bits());
    assert_eq!(Scalar::minus_one().bits, (-1.0f32).to_bits());
    assert_eq!(SIGN_BIT, (-0.0f32).to_bits());
    assert_eq!(INFINITY_BITS, f32::INFINITY.to_bits());
}

#[test]
fn negation_flips_the_sign_as_the_hardware_does() {
    for v in samples() {
        assert_eq!(s(v).neg().bits, (-v).to_bits());
        assert_eq!(s(v).neg().neg().bits, v.to_bits());
    }
}

#[test]
fn magnitude_bits_are_those_of_the_absolute_value() {
    for v in samples() {
        assert_eq!(s(v).magnitude_bits(), v.abs().to_bits());
    }
}

#[test]
fn nan_and_zero_are_told_as_the_hardware_tells_them() {
    for v in samples() {
        assert_eq!(s(v).is_nan(), v.is_nan());
        assert_eq!(s(v).is_zero(), v == 0.0);
    }
}

#[test]
fn equality_is_that_of_the_numbers() {
    for a in samples() {
        for b in samples() {
            assert_eq!(s(a) == s(b), a == b, "{:?} == {:?}", a, b);
        }
    }
}

#[test]
fn the_two_zeros_are_equal_and_a_nan_equals_nothing() {
    assert!(s(0.0) == s(-0.0));
    assert!(s(f32::NAN) != s(f32::NAN));
    assert!(s(1.0) != s(-1.0));
}

#[test]
fn minor_is_the_difference_of_two_products() {
    assert_eq!(f(minor(s(2.0), s(3.0), s(4.0), s(5.0), &fpu)), -14.0);
    assert_eq!(f(minor(s(1.5), s(2.0), s(0.5), s(4.0), &fpu)), 1.0);
}

#[test]
fn dot2_is_the_sum_of_two_products() {
    assert_eq!(f(dot2(s(2.0), s(3.0), s(4.0), s(5.0), &fpu)), 26.0);
}

#[test]
fn dot3_adds_the_third_product_last() {
    assert_eq!(f(dot3(s(1.0), s(2.0), s(3.0), s(4.0), s(5.0), s(6.0), &fpu)), 44.0);
    // (1e30 * 1 + -1e30 * 1) + 1 * 1 is 1; any other order of the sums loses the 1.
    let r = dot3(s(1.0e30), s(1.0), s(-1.0e30), s(1.0), s(1.0), s(1.0), &fpu);
    assert_eq!(f(r), 1.0);
}
