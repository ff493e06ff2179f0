use lineq::lockstep::{
    copied, copy_into, map_assign, map_into, mapped, tabulate_into, tabulated, zip_assign,
    zip_into, zipped, LengthMismatch, Uninit,
};
use lineq::scalar::{Additive, Commutative, Op, Scalar};
use lineq::vec2::Vec2;
use lineq::vec2arr::{Vec2arr, Vec2box, Vec2raw, Vec2win};
use lineq::vec3::Vec3;
use lineq::vec3arr::{Vec3arr, Vec3box, Vec3raw, Vec3win};

fn s(v: f32) -> Scalar {
    Scalar { bits: v.to_bits() }
}

fn f(v: Scalar) -> f32 {
    f32::from_bits(v.bits)
}

fn fpu(op: Op, a: Scalar, b: Scalar) -> Scalar {
    let (x, y) = (f(a), f(b));
    s(match op {
        Op::Add => x + y,
        Op::Sub => x - y,
        Op::Mul => x * y,
        Op::Div => x / y,
    })
}

fn root(a: Scalar) -> Scalar {
    s(f(a).sqrt())
}

fn v2(x: f32, y: f32) -> Vec2 {
    Vec2 { x: s(x), y: s(y) }
}

fn v3(x: f32, y: f32, z: f32) -> Vec3 {
    Vec3 { x: s(x), y: s(y), z: s(z) }
}

fn floats(v: &[Scalar]) -> Vec<f32> {
    v.iter().map(|x| f(*x)).collect()
}

fn box2(v: &[Vec2]) -> Vec2box {
    Vec2box(v.to_vec().into_boxed_slice())
}

fn box3(v: &[Vec3]) -> Vec3box {
    Vec3box(v.to_vec().into_boxed_slice())
}

fn mismatch(left: usize, right: usize) -> LengthMismatch {
    LengthMismatch { left, right }
}

#[test]
fn adding_opposite_unit_vectors_gives_zeros() {
    let ab: Vec3arr<2> = Vec3arr([Vec3::up(), Vec3::left()]);
    let cd: Vec3arr<2> = Vec3arr([Vec3::down(), Vec3::right()]);
    assert_eq!(
        ab.pairwise(Additive::Add, cd.as_slice(), &fpu),
        Ok(Vec3arr([Vec3::zero(), Vec3::zero()]))
    );
    let pq: Vec2arr<2> = Vec2arr([Vec2::up(), Vec2::left()]);
    let rs: Vec2arr<2> = Vec2arr([Vec2::down(), Vec2::right()]);
    assert_eq!(
        pq.pairwise(Additive::Add, rs.as_slice(), &fpu),
        Ok(Vec2arr([Vec2::zero(), Vec2::zero()]))
    );
}

#[test]
fn every_element_of_a_sum_is_the_sum_of_the_elements() {
    let a = [v3(1.0, 2.0, 3.0), v3(4.0, 5.0, 6.0), v3(-1.0, 0.5, 1.0e10)];
    let b = [v3(0.5, 0.25, 0.125), v3(-4.0, 5.0, 1.0), v3(7.0, 7.0, 7.0)];
    for op in [Additive::Add, Additive::Sub] {
        let fixed = Vec3arr(a).pairwise(op, &b, &fpu).unwrap();
        let boxed = box3(&a).pairwise(op, &b, &fpu).unwrap();
        let mut under = a;
        let win = Vec3win(&mut under).pairwise(op, &b, &fpu).unwrap();
        let raw = Vec3raw::new_from_arr(Vec3arr(a)).pairwise(op, &b, &fpu).unwrap();
        for i in 0..3 {
            let e = a[i].pairwise(op, b[i], &fpu);
            assert_eq!(fixed.get(i), e);
            assert_eq!(boxed.get(i), e);
            assert_eq!(win.get(i), e);
            assert_eq!(raw.get(i), e);
        }
    }
}

#[test]
fn every_element_of_a_scaled_container_is_the_scaled_element() {
    let a = [v2(1.0, 2.0), v2(-4.0, 0.5)];
    for op in [Op::Mul, Op::Div, Op::Add, Op::Sub] {
        let fixed = Vec2arr(a).broadcast(op, s(4.0), &fpu);
        let boxed = box2(&a).broadcast(op, s(4.0), &fpu);
        let mut under = a;
        let win = Vec2win(&mut under).broadcast(op, s(4.0), &fpu);
        let raw = Vec2raw::new_from_arr(Vec2arr(a)).broadcast(op, s(4.0), &fpu);
        for i in 0..2 {
            let e = a[i].broadcast(op, s(4.0), &fpu);
            assert_eq!(fixed.get(i), e);
            assert_eq!(boxed.get(i), e);
            assert_eq!(win.get(i), e);
            assert_eq!(raw.get(i), e);
        }
    }
    assert_eq!(
        Vec2arr(a).broadcast(Op::Div, s(4.0), &fpu),
        Vec2arr([v2(0.25, 0.5), v2(-1.0, 0.125)])
    );
    assert_eq!(
        Vec2arr(a).broadcast(Op::Mul, s(4.0), &fpu),
        Vec2arr([v2(4.0, 8.0), v2(-16.0, 2.0)])
    );
}

/// A unit that hands back its left operand, whatever the operation.
fn left_operand(_: Op, a: Scalar, _: Scalar) -> Scalar {
    a
}

#[test]
fn a_scalar_on_the_left_of_a_container() {
    let a = [v3(1.0, 2.0, 4.0), v3(8.0, 16.0, 32.0)];
    let want = [v3(3.0, 6.0, 12.0), v3(24.0, 48.0, 96.0)];
    assert_eq!(Vec3arr(a).broadcast_left(Commutative::Mul, s(3.0), &fpu), Vec3arr(want));
    assert_eq!(box3(&a).broadcast_left(Commutative::Mul, s(3.0), &fpu), box3(&want));
    let mut under = a;
    assert_eq!(Vec3win(&mut under).broadcast_left(Commutative::Mul, s(3.0), &fpu), box3(&want));
    assert_eq!(
        Vec3raw::new_from_arr(Vec3arr(a)).broadcast_left(Commutative::Mul, s(3.0), &fpu),
        box3(&want)
    );
    let b = [v2(1.0, 2.0)];
    assert_eq!(Vec2arr(b).broadcast_left(Commutative::Add, s(3.0), &fpu), Vec2arr([v2(4.0, 5.0)]));
    assert_eq!(box2(&b).broadcast_left(Commutative::Add, s(3.0), &fpu), box2(&[v2(4.0, 5.0)]));
    let threes = [v3(3.0, 3.0, 3.0), v3(3.0, 3.0, 3.0)];
    assert_eq!(Vec3arr(a).broadcast_left(Commutative::Add, s(3.0), &left_operand), Vec3arr(threes));
    assert_eq!(box3(&a).broadcast_left(Commutative::Add, s(3.0), &left_operand), box3(&threes));
    assert_eq!(Vec3arr(a).broadcast(Op::Add, s(3.0), &left_operand), Vec3arr(a));
    assert_eq!(box3(&a).broadcast(Op::Add, s(3.0), &left_operand), box3(&a));
}

#[test]
fn the_container_on_the_left_holds_the_left_operands() {
    let a = [v2(1.0, 2.0), v2(3.0, 4.0)];
    let b = [v2(10.0, 20.0), v2(30.0, 40.0)];
    assert_eq!(Vec2arr(a).pairwise(Additive::Add, &b, &left_operand), Ok(Vec2arr(a)));
    assert_eq!(Vec2arr(a).pairwise_left(Additive::Add, &b, &left_operand), Ok(Vec2arr(b)));
    assert_eq!(box2(&a).pairwise(Additive::Sub, &b, &left_operand), Ok(box2(&a)));
    let mut c = Vec2arr(a);
    assert_eq!(c.pairwise_assign(Additive::Sub, &b, &left_operand), Ok(()));
    assert_eq!(c, Vec2arr(a));
}

#[test]
fn operands_of_different_lengths_are_refused() {
    let two = [Vec3::up(), Vec3::left()];
    let three = [Vec3::up(), Vec3::left(), Vec3::one()];
    assert_eq!(Vec3arr(two).pairwise(Additive::Add, &three, &fpu), Err(mismatch(2, 3)));
    assert_eq!(Vec3arr(three).pairwise(Additive::Add, &two, &fpu), Err(mismatch(3, 2)));
    assert_eq!(Vec3arr(two).pairwise_left(Additive::Sub, &three, &fpu), Err(mismatch(3, 2)));
    assert_eq!(box3(&two).pairwise(Additive::Add, &three, &fpu), Err(mismatch(2, 3)));
    assert_eq!(box3(&three).pairwise(Additive::Sub, &two, &fpu), Err(mismatch(3, 2)));
    assert_eq!(box3(&two).pairwise(Additive::Add, &[], &fpu), Err(mismatch(2, 0)));
    let mut under = two;
    assert_eq!(Vec3win(&mut under).pairwise(Additive::Add, &three, &fpu), Err(mismatch(2, 3)));
    assert_eq!(
        Vec3raw::new_from_arr(Vec3arr(two)).pairwise(Additive::Add, &three, &fpu),
        Err(mismatch(2, 3))
    );
    assert_eq!(Vec3arr(two).dot(&three, &fpu), Err(mismatch(2, 3)));
    assert_eq!(Vec3arr(two).dot_left(&three, &fpu), Err(mismatch(3, 2)));
    assert_eq!(box3(&two).dot(&three, &fpu), Err(mismatch(2, 3)));
    assert_eq!(box3(&two).crossarr(box3(&three), &fpu), Err(mismatch(2, 3)));
    assert_eq!(box3(&three).crossarr(box3(&two), &fpu), Err(mismatch(3, 2)));
    let p = [Vec2::up()];
    let q = [Vec2::up(), Vec2::down()];
    assert_eq!(Vec2arr(p).pairwise(Additive::Add, &q, &fpu), Err(mismatch(1, 2)));
    assert_eq!(box2(&q).pairwise(Additive::Add, &p, &fpu), Err(mismatch(2, 1)));
    assert_eq!(box2(&q).dot(&p, &fpu), Err(mismatch(2, 1)));
}

#[test]
fn a_refused_operation_in_place_writes_nothing() {
    let two = [Vec3::up(), Vec3::left()];
    let three = [Vec3::up(), Vec3::left(), Vec3::one()];
    let mut a = Vec3arr(two);
    assert_eq!(a.pairwise_assign(Additive::Add, &three, &fpu), Err(mismatch(2, 3)));
    assert_eq!(a, Vec3arr(two));
    let mut b = box3(&three);
    assert_eq!(b.pairwise_assign(Additive::Sub, &two, &fpu), Err(mismatch(3, 2)));
    assert_eq!(b, box3(&three));
    let mut under = two;
    let mut w = Vec3win(&mut under);
    assert_eq!(w.pairwise_assign(Additive::Add, &three, &fpu), Err(mismatch(2, 3)));
    assert_eq!(under, two);
    let mut r = Vec3raw::new_from_arr(Vec3arr(two));
    assert_eq!(r.pairwise_assign(Additive::Add, &three, &fpu), Err(mismatch(2, 3)));
    assert_eq!(r.as_slice(), &two);
    assert_eq!(r.from_arr(Vec3arr(three)), Err(mismatch(2, 3)));
    assert_eq!(r.from_box(box3(&three)), Err(mismatch(2, 3)));
    let mut other = three;
    assert_eq!(r.from_win(Vec3win(&mut other)), Err(mismatch(2, 3)));
    assert_eq!(r.as_slice(), &two);
}

#[test]
fn a_raw_container_goes_to_fixed_and_back_to_boxed_unchanged() {
    let items = [v3(1.0, 2.0, 3.0), v3(-0.0, f32::INFINITY, 1.0e-40), v3(4.0, 5.0, 6.0)];
    let raw = Vec3raw::new_from_arr(Vec3arr(items));
    let arr: Vec3arr<3> = raw.to_arr().unwrap();
    let back = Vec3box::new_from_arr(arr);
    assert_eq!(back.as_slice(), raw.as_slice());
    assert_eq!(back, raw.to_box());
    for i in 0..3 {
        assert_eq!(back.get(i).x.bits, items[i].x.bits);
        assert_eq!(back.get(i).y.bits, items[i].y.bits);
        assert_eq!(back.get(i).z.bits, items[i].z.bits);
    }
    let from_box = Vec3raw::new_from_box(box3(&items));
    assert_eq!(Vec3box::new_from_arr(from_box.to_arr::<3>().unwrap()), box3(&items));
    let mut under = items;
    let from_win = Vec3raw::new_from_win(Vec3win(&mut under));
    assert_eq!(Vec3box::new_from_arr(from_win.to_arr::<3>().unwrap()), box3(&items));
    let flat = [v2(1.0, 2.0), v2(3.0, 4.0)];
    let raw2 = Vec2raw::new_from_box(box2(&flat));
    assert_eq!(Vec2box::new_from_arr(raw2.to_arr::<2>().unwrap()), box2(&flat));
}

#[test]
fn a_round_trip_keeps_the_bits_of_a_nan() {
    let odd = f32::from_bits(0x7fc1_2345);
    let raw = Vec2raw::new_from_arr(Vec2arr([v2(odd, 1.0)]));
    let back = Vec2box::new_from_arr(raw.to_arr::<1>().unwrap());
    assert_eq!(back.get(0).x.bits, 0x7fc1_2345);
    assert!(back != raw.to_box());
}

#[test]
fn to_arr_needs_the_exact_length() {
    let raw = Vec3raw::new_from_arr(Vec3arr([Vec3::up(), Vec3::left()]));
    assert_eq!(raw.to_arr::<3>(), Err(mismatch(2, 3)));
    assert_eq!(raw.to_arr::<1>(), Err(mismatch(2, 1)));
    assert_eq!(raw.to_arr::<0>(), Err(mismatch(2, 0)));
    assert_eq!(raw.to_arr::<2>(), Ok(Vec3arr([Vec3::up(), Vec3::left()])));
    let empty = Vec2raw::new_zeroed(0);
    assert_eq!(empty.to_arr::<0>(), Ok(Vec2arr([])));
    assert_eq!(empty.to_arr::<1>(), Err(mismatch(0, 1)));
}

#[test]
fn zeroed_containers_hold_zeros() {
    let b = Vec3box::new_zeroed(4);
    assert_eq!(b.len(), 4);
    for i in 0..4 {
        assert_eq!(b.get(i).x.bits, 0);
        assert_eq!(b.get(i).y.bits, 0);
        assert_eq!(b.get(i).z.bits, 0);
    }
    let r = Vec2raw::new_zeroed(3);
    assert_eq!(r.len(), 3);
    assert_eq!(r.as_slice(), &[Vec2::zero(); 3]);
    assert_eq!(Vec2box::new_zeroed(0).len(), 0);
    assert_eq!(Vec3raw::new_zeroed(2).to_box(), Vec3box::new_zeroed(2));
}

#[test]
fn conversions_copy_every_element_in_order() {
    let items = [v2(1.0, 2.0), v2(3.0, 4.0), v2(5.0, 6.0)];
    let from_arr = Vec2box::new_from_arr(Vec2arr(items));
    assert_eq!(from_arr.as_slice(), &items);
    assert_eq!(Vec2box::new_from_box(box2(&items)).as_slice(), &items);
    let mut under = items;
    assert_eq!(Vec2box::new_from_win(Vec2win(&mut under)).as_slice(), &items);
    assert_eq!(Vec2box::new_from_raw(Vec2raw::new_from_arr(Vec2arr(items))).as_slice(), &items);
    assert_eq!(Vec2raw::new_from_arr(Vec2arr(items)).as_slice(), &items);
    assert_eq!(Vec2raw::new_from_box(box2(&items)).as_slice(), &items);
    let mut again = items;
    assert_eq!(Vec2raw::new_from_win(Vec2win(&mut again)).as_slice(), &items);
    assert_eq!(Vec2raw::new_from_raw(Vec2raw::new_from_box(box2(&items))).as_slice(), &items);
    assert_eq!(Vec2raw::new_from_box(box2(&items)).to_box().as_slice(), &items);
    assert_eq!(from_arr.clone(), from_arr);
}

#[test]
fn a_copy_has_storage_of_its_own() {
    let items = [v3(1.0, 2.0, 3.0)];
    let source = box3(&items);
    let mut copy = source.clone();
    copy.set(0, Vec3::zero());
    assert_eq!(source.get(0), v3(1.0, 2.0, 3.0));
    let mut raw = Vec3raw::new_from_arr(Vec3arr(items));
    let boxed = raw.to_box();
    raw.set(0, Vec3::one());
    assert_eq!(boxed.get(0), v3(1.0, 2.0, 3.0));
    assert_eq!(raw.get(0), Vec3::one());
}

#[test]
fn a_raw_container_is_overwritten_from_other_kinds() {
    let mut raw = Vec2raw::new_zeroed(2);
    assert_eq!(raw.from_arr(Vec2arr([v2(1.0, 2.0), v2(3.0, 4.0)])), Ok(()));
    assert_eq!(raw.as_slice(), &[v2(1.0, 2.0), v2(3.0, 4.0)]);
    assert_eq!(raw.from_box(box2(&[v2(5.0, 6.0), v2(7.0, 8.0)])), Ok(()));
    assert_eq!(raw.as_slice(), &[v2(5.0, 6.0), v2(7.0, 8.0)]);
    let mut under = [v2(9.0, 10.0), v2(11.0, 12.0)];
    assert_eq!(raw.from_win(Vec2win(&mut under)), Ok(()));
    assert_eq!(raw.as_slice(), &[v2(9.0, 10.0), v2(11.0, 12.0)]);
}

#[test]
fn a_window_writes_through_to_its_owner() {
    let mut owner = Vec3arr([v3(1.0, 2.0, 3.0), v3(4.0, 5.0, 6.0)]);
    {
        let mut w = Vec3win(&mut owner.0);
        assert_eq!(w.len(), 2);
        w.set(0, Vec3::up());
        w.broadcast_assign(Op::Mul, s(2.0), &fpu);
    }
    assert_eq!(owner, Vec3arr([v3(0.0, 2.0, 0.0), v3(8.0, 10.0, 12.0)]));
    let mut heap = box3(&[v3(1.0, 1.0, 1.0), v3(2.0, 2.0, 2.0), v3(3.0, 3.0, 3.0)]);
    {
        let mut w = Vec3win(&mut heap.0[1..]);
        assert_eq!(w.pairwise_assign(Additive::Sub, &[Vec3::one(), Vec3::one()], &fpu), Ok(()));
        w.transform(|v| v.neg());
    }
    assert_eq!(heap, box3(&[v3(1.0, 1.0, 1.0), v3(-1.0, -1.0, -1.0), v3(-2.0, -2.0, -2.0)]));
}

#[test]
fn every_owner_lends_a_window_onto_its_vectors() {
    let mut fixed = Vec2arr([v2(1.0, 2.0), v2(3.0, 4.0)]);
    {
        let mut w = fixed.window();
        assert_eq!(w.as_slice(), &[v2(1.0, 2.0), v2(3.0, 4.0)]);
        w.set(1, Vec2::zero());
    }
    assert_eq!(fixed, Vec2arr([v2(1.0, 2.0), Vec2::zero()]));
    let mut boxed = box3(&[Vec3::up(), Vec3::left()]);
    boxed.window().broadcast_assign(Op::Mul, s(3.0), &fpu);
    assert_eq!(boxed, box3(&[v3(0.0, 3.0, 0.0), v3(-3.0, 0.0, 0.0)]));
    let mut raw = Vec3raw::new_zeroed(2);
    let rhs = [Vec3::one(), Vec3::up()];
    assert_eq!(raw.window().pairwise_assign(Additive::Add, &rhs, &fpu), Ok(()));
    assert_eq!(raw.as_slice(), &[Vec3::one(), Vec3::up()]);
}

#[test]
fn operations_in_place_replace_every_element() {
    let start = [v2(1.0, 2.0), v2(3.0, 4.0)];
    let rhs = [v2(10.0, 20.0), v2(30.0, 40.0)];
    let sum = [v2(11.0, 22.0), v2(33.0, 44.0)];
    let halved = [v2(5.5, 11.0), v2(16.5, 22.0)];
    let mut a = Vec2arr(start);
    assert_eq!(a.pairwise_assign(Additive::Add, &rhs, &fpu), Ok(()));
    assert_eq!(a, Vec2arr(sum));
    a.broadcast_assign(Op::Div, s(2.0), &fpu);
    assert_eq!(a, Vec2arr(halved));
    let mut b = box2(&start);
    assert_eq!(b.pairwise_assign(Additive::Add, &rhs, &fpu), Ok(()));
    assert_eq!(b, box2(&sum));
    b.broadcast_assign(Op::Div, s(2.0), &fpu);
    assert_eq!(b, box2(&halved));
    let mut r = Vec2raw::new_from_arr(Vec2arr(start));
    assert_eq!(r.pairwise_assign(Additive::Add, &rhs, &fpu), Ok(()));
    assert_eq!(r.as_slice(), &sum);
    r.broadcast_assign(Op::Div, s(2.0), &fpu);
    assert_eq!(r.as_slice(), &halved);
    let mut c = Vec2arr(sum);
    assert_eq!(c.pairwise_assign(Additive::Sub, &rhs, &fpu), Ok(()));
    assert_eq!(c, Vec2arr(start));
}

#[test]
fn a_fixed_container_on_the_right_gives_a_fixed_result() {
    let left = box3(&[v3(10.0, 20.0, 30.0), v3(1.0, 1.0, 1.0)]);
    let right = Vec3arr([v3(1.0, 2.0, 3.0), v3(4.0, 5.0, 6.0)]);
    let r: Vec3arr<2> = right.pairwise_left(Additive::Sub, left.as_slice(), &fpu).unwrap();
    assert_eq!(r, Vec3arr([v3(9.0, 18.0, 27.0), v3(-3.0, -4.0, -5.0)]));
    let d: [Scalar; 2] = right.dot_left(left.as_slice(), &fpu).unwrap();
    assert_eq!(floats(&d), vec![140.0, 15.0]);
}

#[test]
fn the_product_of_two_containers_is_one_dot_product_for_each_index() {
    let a = [v3(1.0, 2.0, 3.0), v3(4.0, 5.0, 6.0)];
    let b = [v3(1.0, 0.0, -1.0), v3(2.0, 2.0, 2.0)];
    assert_eq!(floats(&Vec3arr(a).dot(&b, &fpu).unwrap()), vec![-2.0, 30.0]);
    assert_eq!(floats(&box3(&a).dot(&b, &fpu).unwrap()), vec![-2.0, 30.0]);
    let mut under = a;
    assert_eq!(floats(&Vec3win(&mut under).dot(&b, &fpu).unwrap()), vec![-2.0, 30.0]);
    assert_eq!(
        floats(&Vec3raw::new_from_arr(Vec3arr(a)).dot(&b, &fpu).unwrap()),
        vec![-2.0, 30.0]
    );
    let p = [v2(1.0, 2.0), v2(3.0, 4.0), v2(5.0, 6.0)];
    let q = [v2(1.0, 1.0), v2(0.0, -1.0), v2(2.0, 0.5)];
    assert_eq!(floats(&Vec2arr(p).dot(&q, &fpu).unwrap()), vec![3.0, -4.0, 13.0]);
    assert_eq!(floats(&box2(&p).dot(&q, &fpu).unwrap()), vec![3.0, -4.0, 13.0]);
}

#[test]
fn containers_are_negated_element_by_element() {
    let a = [v2(1.0, -2.0), v2(0.0, 4.0)];
    let want = [v2(-1.0, 2.0), v2(-0.0, -4.0)];
    assert_eq!(Vec2arr(a).neg(), Vec2arr(want));
    assert_eq!(box2(&a).neg(), box2(&want));
    let mut under = a;
    assert_eq!(Vec2win(&mut under).neg(), box2(&want));
    assert_eq!(Vec2raw::new_from_arr(Vec2arr(a)).neg(), box2(&want));
    assert_eq!(Vec2arr(a).neg().get(1).x.bits, (-0.0f32).to_bits());
    let b = [v3(1.0, -2.0, 3.0)];
    assert_eq!(Vec3arr(b).neg(), Vec3arr([v3(-1.0, 2.0, -3.0)]));
    assert_eq!(box3(&b).neg(), box3(&[v3(-1.0, 2.0, -3.0)]));
}

#[test]
fn lengths_of_every_element() {
    let a = [v2(3.0, 4.0), v2(6.0, 8.0)];
    assert_eq!(floats(&Vec2arr(a).mag2(&fpu)), vec![25.0, 100.0]);
    assert_eq!(floats(&Vec2arr(a).mag(&fpu, &root)), vec![5.0, 10.0]);
    assert_eq!(floats(&box2(&a).mag2(&fpu)), vec![25.0, 100.0]);
    assert_eq!(floats(&box2(&a).mag(&fpu, &root)), vec![5.0, 10.0]);
    let b = [v3(2.0, 3.0, 6.0), v3(0.0, 0.0, 0.0)];
    assert_eq!(floats(&Vec3arr(b).mag2(&fpu)), vec![49.0, 0.0]);
    assert_eq!(floats(&Vec3arr(b).mag(&fpu, &root)), vec![7.0, 0.0]);
    assert_eq!(floats(&box3(&b).mag2(&fpu)), vec![49.0, 0.0]);
    assert_eq!(floats(&box3(&b).mag(&fpu, &root)), vec![7.0, 0.0]);
}

#[test]
fn every_element_is_normalized() {
    let a = [v2(3.0, 4.0), v2(0.0, -2.0)];
    let want = [v2(3.0 / 5.0, 4.0 / 5.0), v2(0.0, -1.0)];
    assert_eq!(Vec2arr(a).norm(&fpu, &root), Vec2arr(want));
    assert_eq!(box2(&a).norm(&fpu, &root), box2(&want));
    let b = [v3(2.0, 3.0, 6.0)];
    let unit = [v3(2.0 / 7.0, 3.0 / 7.0, 6.0 / 7.0)];
    assert_eq!(Vec3arr(b).norm(&fpu, &root), Vec3arr(unit));
    assert_eq!(box3(&b).norm(&fpu, &root), box3(&unit));
    let z = Vec3arr([Vec3::zero()]).norm(&fpu, &root);
    assert!(f(z.get(0).x).is_nan());
}

#[test]
fn cross_products_of_every_element() {
    let a = [Vec3::up(), v3(1.0, 2.0, 3.0)];
    let b = [Vec3::left(), v3(4.0, 5.0, 6.0)];
    let want = [Vec3::inward(), v3(-3.0, 6.0, -3.0)];
    assert_eq!(Vec3arr(a).crossarr(Vec3arr(b), &fpu), Vec3arr(want));
    assert_eq!(box3(&a).crossarr(box3(&b), &fpu), Ok(box3(&want)));
    let with_left = [Vec3::inward(), v3(0.0, -3.0, 2.0)];
    assert_eq!(Vec3arr(a).cross(Vec3::left(), &fpu), Vec3arr(with_left));
    assert_eq!(box3(&a).cross(Vec3::left(), &fpu), box3(&with_left));
}

#[test]
fn transform_maps_every_element_in_place() {
    let start = [v2(1.0, 2.0), v2(3.0, 4.0)];
    let swapped = [v2(2.0, 1.0), v2(4.0, 3.0)];
    let swap = |v: Vec2| Vec2 { x: v.y, y: v.x };
    let mut a = Vec2arr(start);
    a.transform(swap);
    assert_eq!(a, Vec2arr(swapped));
    let mut b = box2(&start);
    b.transform(swap);
    assert_eq!(b, box2(&swapped));
    let mut under = start;
    Vec2win(&mut under).transform(swap);
    assert_eq!(under, swapped);
    let mut r = Vec2raw::new_from_arr(Vec2arr(start));
    r.transform(swap);
    assert_eq!(r.as_slice(), &swapped);
    let mut c = Vec3arr([v3(1.0, 2.0, 3.0)]);
    c.transform(|v| v.broadcast(Op::Add, s(1.0), &fpu));
    assert_eq!(c, Vec3arr([v3(2.0, 3.0, 4.0)]));
}

#[test]
fn ftoarr_calls_the_function_on_every_index() {
    let a: Vec2arr<3> = Vec2arr::ftoarr(|i| v2(i as f32, 2.0 * i as f32));
    assert_eq!(a, Vec2arr([v2(0.0, 0.0), v2(1.0, 2.0), v2(2.0, 4.0)]));
    let b = Vec3box::ftoarr(|i| v3(i as f32, 1.0, -(i as f32)), 2);
    assert_eq!(b, box3(&[v3(0.0, 1.0, 0.0), v3(1.0, 1.0, -1.0)]));
    assert_eq!(Vec2box::ftoarr(|_| Vec2::one(), 0).len(), 0);
    let c: Vec3arr<0> = Vec3arr::ftoarr(|_| Vec3::one());
    assert_eq!(c.len(), 0);
}

#[test]
fn elements_are_read_and_written_by_index() {
    let mut a = Vec2arr([Vec2::zero(); 3]);
    a.set(1, Vec2::up());
    assert_eq!(a.len(), 3);
    assert_eq!(a.get(1), Vec2::up());
    assert_eq!(a.as_slice(), &[Vec2::zero(), Vec2::up(), Vec2::zero()]);
    let mut b = Vec2box::new_zeroed(2);
    b.set(0, Vec2::left());
    assert_eq!(b.get(0), Vec2::left());
    assert_eq!(b.get(1), Vec2::zero());
    let mut r = Vec3raw::new_zeroed(2);
    r.set(1, Vec3::outward());
    assert_eq!(r.as_slice(), &[Vec3::zero(), Vec3::outward()]);
}

#[test]
fn containers_are_equal_when_their_elements_are() {
    assert!(Vec2arr([v2(0.0, 1.0)]) == Vec2arr([v2(-0.0, 1.0)]));
    assert!(Vec2arr([v2(0.0, 1.0)]) != Vec2arr([v2(0.0, 2.0)]));
    assert!(Vec2arr([v2(f32::NAN, 1.0)]) != Vec2arr([v2(f32::NAN, 1.0)]));
    assert!(box3(&[Vec3::up()]) == box3(&[Vec3::up()]));
    assert!(box3(&[Vec3::up()]) != box3(&[Vec3::up(), Vec3::up()]));
    assert!(box3(&[]) == box3(&[]));
    let mut p = [Vec3::up()];
    let mut q = [Vec3::up()];
    assert!(Vec3win(&mut p) == Vec3win(&mut q));
    assert!(Vec3raw::new_zeroed(1) == Vec3raw::new_zeroed(1));
    assert!(Vec3raw::new_zeroed(1) != Vec3raw::new_zeroed(2));
}

#[test]
fn storage_is_written_slot_by_slot_before_it_is_a_container() {
    let mut slots = Vec2box::new_uninit_box(3);
    assert_eq!(slots.capacity(), 3);
    assert_eq!(slots.filled(), 0);
    slots.write(v2(1.0, 2.0));
    slots.write(v2(3.0, 4.0));
    assert_eq!(slots.filled(), 2);
    slots.write(v2(5.0, 6.0));
    let done = Vec2box(slots.finish());
    assert_eq!(done.as_slice(), &[v2(1.0, 2.0), v2(3.0, 4.0), v2(5.0, 6.0)]);
    let none: Uninit<Vec3> = Vec3box::new_uninit_box(0);
    assert_eq!(Vec3box(none.finish()).len(), 0);
}

#[test]
fn the_loops_visit_every_index_in_order() {
    let a = [1u32, 2, 3];
    let b = [10u32, 20, 30];
    assert_eq!(&*copied(&a), &a);
    assert_eq!(&*mapped(&a, &|x: u32| x * 2), &[2, 4, 6]);
    assert_eq!(&*zipped(&a, &b, &|x: u32, y: u32| y - x), &[9, 18, 27]);
    assert_eq!(&*tabulated(4, &|i: usize| i * i), &[0, 1, 4, 9]);
    let mut d = [0u32; 3];
    copy_into(&mut d, &b);
    assert_eq!(d, b);
    map_assign(&mut d, &|x: u32| x + 1);
    assert_eq!(d, [11, 21, 31]);
    zip_assign(&mut d, &a, &|x: u32, y: u32| x - y);
    assert_eq!(d, [10, 19, 28]);
    let mut e = [0u64; 3];
    map_into(&mut e, &a, &|x: u32| x as u64 + 100);
    assert_eq!(e, [101, 102, 103]);
    zip_into(&mut e, &a, &b, &|x: u32, y: u32| (x + y) as u64);
    assert_eq!(e, [11, 22, 33]);
    let mut g = [0usize; 3];
    tabulate_into(&mut g, &|i: usize| 2 * i + 1);
    assert_eq!(g, [1, 3, 5]);
    let order = std::cell::RefCell::new(Vec::new());
    let _ = tabulated(3, &|i: usize| order.borrow_mut().push(i));
    assert_eq!(*order.borrow(), vec![0, 1, 2]);
}
