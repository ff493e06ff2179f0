use lineq::scalar::{Additive, Commutative, Op, Scalar};
use lineq::vec2::Vec2;
use lineq::vec3::Vec3;

fn s(v: f32) -> Scalar {
    Scalar { bits: v.to_bits() }
}

fn f(v: Scalar) -> f32 {
    f32::from_bits(v.bits)
}

fn fpu(op: Op, a: Scalar, b: Scalar) -> Scalar {
    let (x, y) = (f(a), f(b));
    s(match op {
        Op::Add => x + y,
        Op::Sub => x - y,
        Op::Mul => x * y,
        Op::Div => x / y,
    })
}

fn root(a: Scalar) -> Scalar {
    s(f(a).sqrt())
}

fn v2(x: f32, y: f32) -> Vec2 {
    Vec2 { x: s(x), y: s(y) }
}

fn v3(x: f32, y: f32, z: f32) -> Vec3 {
    Vec3 { x: s(x), y: s(y), z: s(z) }
}

#[test]
fn cross_of_up_and_left_points_inward() {
    let a = Vec3::up();
    let b = v3(-1.0, 0.0, 0.0);
    assert_eq!(a.cross(b, &fpu), Vec3::inward());
    assert_eq!(v3(0.0, 1.0, 0.0).cross(v3(-1.0, 0.0, 0.0), &fpu), v3(0.0, 0.0, 1.0));
}

#[test]
fn cross_follows_its_formula() {
    let r = v3(1.0, 2.0, 3.0).cross(v3(4.0, 5.0, 6.0), &fpu);
    assert_eq!((f(r.x), f(r.y), f(r.z)), (-3.0, 6.0, -3.0));
}

#[test]
fn cross_changes_sign_when_its_operands_are_exchanged() {
    let pairs = [
        (v3(1.0, 2.0, 3.0), v3(4.0, 5.0, 6.0)),
        (v3(0.5, -7.25, 1.0e10), v3(-3.0, 0.0, 2.5e-3)),
        (Vec3::up(), Vec3::left()),
        (Vec3::one(), Vec3::one()),
    ];
    for (a, b) in pairs {
        assert_eq!(a.cross(b, &fpu), b.cross(a, &fpu).neg());
    }
}

#[test]
fn a_vector_is_orthogonal_to_its_cross_products() {
    let a = v3(1.0, 2.0, 3.0);
    let b = v3(-4.0, 0.5, 6.0);
    let d = f(a.dot(a.cross(b, &fpu), &fpu));
    assert!(d.abs() < 1.0e-4, "{}", d);
}

#[test]
fn named_vectors_have_their_components() {
    assert_eq!(Vec2::zero(), v2(0.0, 0.0));
    assert_eq!(Vec2::one(), v2(1.0, 1.0));
    assert_eq!(Vec2::left(), v2(-1.0, 0.0));
    assert_eq!(Vec2::right(), v2(1.0, 0.0));
    assert_eq!(Vec2::up(), v2(0.0, 1.0));
    assert_eq!(Vec2::down(), v2(0.0, -1.0));
    assert_eq!(Vec3::zero(), v3(0.0, 0.0, 0.0));
    assert_eq!(Vec3::one(), v3(1.0, 1.0, 1.0));
    assert_eq!(Vec3::left(), v3(-1.0, 0.0, 0.0));
    assert_eq!(Vec3::right(), v3(1.0, 0.0, 0.0));
    assert_eq!(Vec3::up(), v3(0.0, 1.0, 0.0));
    assert_eq!(Vec3::down(), v3(0.0, -1.0, 0.0));
    assert_eq!(Vec3::inward(), v3(0.0, 0.0, 1.0));
    assert_eq!(Vec3::outward(), v3(0.0, 0.0, -1.0));
}

#[test]
fn vectors_combine_component_by_component() {
    assert_eq!(v2(1.0, 2.0).pairwise(Additive::Add, v2(10.0, 20.0), &fpu), v2(11.0, 22.0));
    assert_eq!(v2(1.0, 2.0).pairwise(Additive::Sub, v2(10.0, 20.0), &fpu), v2(-9.0, -18.0));
    assert_eq!(
        v3(1.0, 2.0, 3.0).pairwise(Additive::Add, v3(10.0, 20.0, 30.0), &fpu),
        v3(11.0, 22.0, 33.0)
    );
    assert_eq!(
        v3(1.0, 2.0, 3.0).pairwise(Additive::Sub, v3(10.0, 20.0, 30.0), &fpu),
        v3(-9.0, -18.0, -27.0)
    );
}

#[test]
fn a_scalar_is_applied_to_every_component() {
    assert_eq!(v2(1.0, 2.0).broadcast(Op::Add, s(0.5), &fpu), v2(1.5, 2.5));
    assert_eq!(v2(1.0, 2.0).broadcast(Op::Sub, s(0.5), &fpu), v2(0.5, 1.5));
    assert_eq!(v2(1.0, 2.0).broadcast(Op::Mul, s(4.0), &fpu), v2(4.0, 8.0));
    assert_eq!(v2(1.0, 2.0).broadcast(Op::Div, s(4.0), &fpu), v2(0.25, 0.5));
    assert_eq!(v3(1.0, 2.0, 3.0).broadcast(Op::Mul, s(2.0), &fpu), v3(2.0, 4.0, 6.0));
    assert_eq!(v3(1.0, 2.0, 3.0).broadcast(Op::Div, s(2.0), &fpu), v3(0.5, 1.0, 1.5));
}

/// A unit that hands back its left operand, whatever the operation.
fn left_operand(_: Op, a: Scalar, _: Scalar) -> Scalar {
    a
}

#[test]
fn a_scalar_on_the_left_is_the_left_operand() {
    assert_eq!(v2(1.0, 2.0).broadcast_left(Commutative::Add, s(10.0), &fpu), v2(11.0, 12.0));
    assert_eq!(v2(1.0, 2.0).broadcast_left(Commutative::Mul, s(8.0), &fpu), v2(8.0, 16.0));
    assert_eq!(
        v3(1.0, 2.0, 4.0).broadcast_left(Commutative::Mul, s(8.0), &fpu),
        v3(8.0, 16.0, 32.0)
    );
    assert_eq!(
        v3(1.0, 2.0, 4.0).broadcast_left(Commutative::Add, s(8.0), &fpu),
        v3(9.0, 10.0, 12.0)
    );
    assert_eq!(
        v2(1.0, 2.0).broadcast_left(Commutative::Add, s(8.0), &left_operand),
        v2(8.0, 8.0)
    );
    assert_eq!(
        v3(1.0, 2.0, 4.0).broadcast_left(Commutative::Mul, s(8.0), &left_operand),
        v3(8.0, 8.0, 8.0)
    );
    assert_eq!(v2(1.0, 2.0).broadcast(Op::Mul, s(8.0), &left_operand), v2(1.0, 2.0));
    assert_eq!(v3(1.0, 2.0, 4.0).broadcast(Op::Add, s(8.0), &left_operand), v3(1.0, 2.0, 4.0));
}

#[test]
fn every_operator_class_names_its_operations() {
    assert_eq!(Additive::Add.op(), Op::Add);
    assert_eq!(Additive::Sub.op(), Op::Sub);
    assert_eq!(Commutative::Add.op(), Op::Add);
    assert_eq!(Commutative::Mul.op(), Op::Mul);
}

#[test]
fn division_by_zero_is_no_error() {
    let r = v2(1.0, -1.0).broadcast(Op::Div, s(0.0), &fpu);
    assert_eq!((f(r.x), f(r.y)), (f32::INFINITY, f32::NEG_INFINITY));
    let n = v3(0.0, 1.0, 2.0).broadcast(Op::Div, s(0.0), &fpu);
    assert!(f(n.x).is_nan());
}

#[test]
fn assignment_forms_replace_the_vector() {
    let mut a = v2(1.0, 2.0);
    a.pairwise_assign(Additive::Add, v2(3.0, 4.0), &fpu);
    assert_eq!(a, v2(4.0, 6.0));
    a.broadcast_assign(Op::Mul, s(0.5), &fpu);
    assert_eq!(a, v2(2.0, 3.0));
    let mut b = v3(1.0, 2.0, 3.0);
    b.pairwise_assign(Additive::Sub, v3(3.0, 2.0, 1.0), &fpu);
    assert_eq!(b, v3(-2.0, 0.0, 2.0));
    b.broadcast_assign(Op::Div, s(2.0), &fpu);
    assert_eq!(b, v3(-1.0, 0.0, 1.0));
}

#[test]
fn multiplying_two_vectors_is_the_dot_product() {
    assert_eq!(f(v2(1.0, 2.0).dot(v2(3.0, 4.0), &fpu)), 11.0);
    assert_eq!(f(v3(1.0, 2.0, 3.0).dot(v3(4.0, 5.0, 6.0), &fpu)), 32.0);
}

#[test]
fn negation_reverses_every_sign() {
    assert_eq!(v2(1.0, -2.0).neg(), v2(-1.0, 2.0));
    assert_eq!(v3(1.0, -2.0, 0.0).neg(), v3(-1.0, 2.0, -0.0));
    assert_eq!(Vec3::zero().neg().x.bits, (-0.0f32).to_bits());
}

#[test]
fn det_of_two_vectors() {
    assert_eq!(f(v2(1.0, 2.0).det(v2(3.0, 4.0), &fpu)), -2.0);
    assert_eq!(f(Vec2::right().det(Vec2::up(), &fpu)), 1.0);
}

#[test]
fn lengths_and_squared_lengths() {
    assert_eq!(f(v2(3.0, 4.0).mag2(&fpu)), 25.0);
    assert_eq!(f(v2(3.0, 4.0).mag(&fpu, &root)), 5.0);
    assert_eq!(f(v3(2.0, 3.0, 6.0).mag2(&fpu)), 49.0);
    assert_eq!(f(v3(2.0, 3.0, 6.0).mag(&fpu, &root)), 7.0);
}

#[test]
fn norm_divides_by_the_length() {
    assert_eq!(v2(3.0, 4.0).norm(&fpu, &root), v2(3.0 / 5.0, 4.0 / 5.0));
    assert_eq!(v3(2.0, 3.0, 6.0).norm(&fpu, &root), v3(2.0 / 7.0, 3.0 / 7.0, 6.0 / 7.0));
}

#[test]
fn a_normalized_vector_has_length_one() {
    for v in [v3(1.0, 2.0, 3.0), v3(-0.25, 1.0e5, 7.0), v3(1.0e-3, 0.0, 0.0)] {
        let m = f(v.norm(&fpu, &root).mag(&fpu, &root));
        assert!((m - 1.0).abs() < 1.0e-6, "{}", m);
    }
    for v in [v2(1.0, 2.0), v2(-0.25, 1.0e5)] {
        let m = f(v.norm(&fpu, &root).mag(&fpu, &root));
        assert!((m - 1.0).abs() < 1.0e-6, "{}", m);
    }
}

#[test]
fn the_norm_of_a_zero_vector_is_not_a_number() {
    let n = Vec3::zero().norm(&fpu, &root);
    assert!(f(n.x).is_nan() && f(n.y).is_nan() && f(n.z).is_nan());
    assert!(f(n.mag(&fpu, &root)).is_nan());
    let m = Vec2::zero().norm(&fpu, &root);
    assert!(f(m.x).is_nan() && f(m.y).is_nan());
}

#[test]
fn vectors_are_equal_as_numbers() {
    assert!(v2(0.0, 1.0) == v2(-0.0, 1.0));
    assert!(v2(0.0, 1.0) != v2(0.0, 2.0));
    assert!(v2(f32::NAN, 1.0) != v2(f32::NAN, 1.0));
    assert!(v3(0.0, 1.0, 2.0) == v3(0.0, 1.0, 2.0));
    assert!(v3(0.0, 1.0, 2.0) != v3(0.0, 1.0, 3.0));
    assert!(v3(0.0, 1.0, f32::NAN) != v3(0.0, 1.0, f32::NAN));
}
