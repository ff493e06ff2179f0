use lineq::dispatch::{rule, Assoc, Kind, Mode, Rule};
use lineq::scalar::{Op, Scalar};
use lineq::vec2::Vec2;
use lineq::vec2arr::{Vec2arr, Vec2box, Vec2raw, Vec2win};
use lineq::vec3::Vec3;
use lineq::vec3arr::{Vec3arr, Vec3box, Vec3raw, Vec3win};

const CONTAINERS: [Kind; 4] = [Kind::Raw, Kind::Window, Kind::Boxed, Kind::Fixed];
const OPS: [Op; 4] = [Op::Add, Op::Sub, Op::Mul, Op::Div];

#[test]
fn kinds_are_ranked_from_scalar_up_to_fixed() {
    assert!(Kind::Fixed.rank() > Kind::Boxed.rank());
    assert!(Kind::Boxed.rank() > Kind::Window.rank());
    assert!(Kind::Window.rank() > Kind::Raw.rank());
    assert!(Kind::Raw.rank() > Kind::Scalar.rank());
    assert!(!Kind::Scalar.is_container());
    for k in CONTAINERS {
        assert!(k.is_container());
    }
}

#[test]
fn only_fixed_and_boxed_containers_hold_results() {
    assert!(Kind::Fixed.owns_results());
    assert!(Kind::Boxed.owns_results());
    assert!(!Kind::Window.owns_results());
    assert!(!Kind::Raw.owns_results());
    assert!(!Kind::Scalar.owns_results());
}

#[test]
fn containers_are_never_divided_by_containers() {
    for l in CONTAINERS {
        for r in CONTAINERS {
            assert_eq!(rule(Op::Div, false, l, r), None);
            assert_eq!(rule(Op::Div, true, l, r), None);
        }
    }
}

#[test]
fn containers_are_divided_by_scalars() {
    assert_eq!(
        rule(Op::Div, false, Kind::Fixed, Kind::Scalar),
        Some(Rule { mode: Mode::Broadcast, result: Kind::Fixed, allocates: false })
    );
    assert_eq!(
        rule(Op::Div, false, Kind::Boxed, Kind::Scalar),
        Some(Rule { mode: Mode::Broadcast, result: Kind::Boxed, allocates: true })
    );
    assert_eq!(
        rule(Op::Div, true, Kind::Raw, Kind::Scalar),
        Some(Rule { mode: Mode::Broadcast, result: Kind::Raw, allocates: false })
    );
    assert_eq!(rule(Op::Div, false, Kind::Scalar, Kind::Boxed), None);
}

#[test]
fn sums_of_containers_go_index_by_index() {
    for op in [Op::Add, Op::Sub] {
        for l in CONTAINERS {
            for r in CONTAINERS {
                let fixed = l == Kind::Fixed || r == Kind::Fixed;
                let expect = Rule {
                    mode: Mode::Elementwise,
                    result: if fixed { Kind::Fixed } else { Kind::Boxed },
                    allocates: !fixed,
                };
                assert_eq!(rule(op, false, l, r), Some(expect));
                let in_place = Rule { mode: Mode::Elementwise, result: l, allocates: false };
                assert_eq!(rule(op, true, l, r), Some(in_place));
            }
        }
    }
}

#[test]
fn the_product_of_containers_is_a_reduction() {
    assert_eq!(
        rule(Op::Mul, false, Kind::Window, Kind::Raw),
        Some(Rule { mode: Mode::Reduction, result: Kind::Boxed, allocates: true })
    );
    assert_eq!(
        rule(Op::Mul, false, Kind::Raw, Kind::Fixed),
        Some(Rule { mode: Mode::Reduction, result: Kind::Fixed, allocates: false })
    );
    for l in CONTAINERS {
        for r in CONTAINERS {
            assert_eq!(rule(Op::Mul, true, l, r), None);
        }
    }
}

#[test]
fn windows_and_raw_containers_are_promoted_to_boxed_results() {
    for op in OPS {
        for k in [Kind::Window, Kind::Raw] {
            let r = rule(op, false, k, Kind::Scalar).unwrap();
            assert_eq!(r.result, Kind::Boxed);
            assert!(r.allocates);
        }
    }
}

#[test]
fn a_scalar_on_the_left_needs_an_operator_that_commutes() {
    for k in CONTAINERS {
        assert!(rule(Op::Add, false, Kind::Scalar, k).is_some());
        assert!(rule(Op::Mul, false, Kind::Scalar, k).is_some());
        assert!(rule(Op::Sub, false, Kind::Scalar, k).is_none());
        assert!(rule(Op::Div, false, Kind::Scalar, k).is_none());
        for op in OPS {
            assert!(rule(op, true, Kind::Scalar, k).is_none());
        }
    }
    for op in OPS {
        assert!(rule(op, false, Kind::Scalar, Kind::Scalar).is_none());
        assert!(rule(op, true, Kind::Scalar, Kind::Scalar).is_none());
    }
}

#[test]
fn operations_in_place_never_allocate() {
    for op in OPS {
        for l in CONTAINERS {
            for r in [Kind::Scalar, Kind::Raw, Kind::Window, Kind::Boxed, Kind::Fixed] {
                if let Some(x) = rule(op, true, l, r) {
                    assert!(!x.allocates);
                    assert_eq!(x.result, l);
                }
            }
        }
    }
}

#[test]
fn every_operand_type_knows_its_kind() {
    assert_eq!(<Vec2arr<3> as Assoc>::kind(), Kind::Fixed);
    assert_eq!(<Vec2box as Assoc>::kind(), Kind::Boxed);
    assert_eq!(<Vec2win<'static> as Assoc>::kind(), Kind::Window);
    assert_eq!(<Vec2raw as Assoc>::kind(), Kind::Raw);
    assert_eq!(<Vec3arr<0> as Assoc>::kind(), Kind::Fixed);
    assert_eq!(<Vec3box as Assoc>::kind(), Kind::Boxed);
    assert_eq!(<Vec3win<'static> as Assoc>::kind(), Kind::Window);
    assert_eq!(<Vec3raw as Assoc>::kind(), Kind::Raw);
    assert_eq!(<Scalar as Assoc>::kind(), Kind::Scalar);
    assert_eq!(<Vec2 as Assoc>::kind(), Kind::Scalar);
    assert_eq!(<Vec3 as Assoc>::kind(), Kind::Scalar);
}
