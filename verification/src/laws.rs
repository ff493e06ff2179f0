//! Laws that relate the operations to each other.
use vstd::prelude::*;
use crate::lockstep::LengthMismatch;
use crate::scalar::{computes, Op, Scalar};
use crate::vec2::Vec2;
use crate::vec2arr::{Vec2arr, Vec2box, Vec2raw, Vec2win};
use crate::vec3::Vec3;
use crate::vec3arr::{Vec3arr, Vec3box, Vec3raw, Vec3win};

verus! {

/// No component of any vector of `a` is a NaN.
pub open spec fn all_numbers2(a: Seq<Vec2>) -> bool {
    forall|i: int| 0 <= i < a.len() ==> !(#[trigger] a[i]).x.is_nan() && !a[i].y.is_nan()
}

/// With a unit that computes the function `val`, the element at every index
/// of `a op b` is `a[i] op b[i]`.
pub proof fn pairwise_at_index2<F: Fn(Op, Scalar, Scalar) -> Scalar>(
    fpu: &F,
    val: spec_fn(Op, Scalar, Scalar) -> Scalar,
    op: Op,
    a: Seq<Vec2>,
    b: Seq<Vec2>,
    r: Seq<Vec2>,
    i: int,
)
    requires
        computes(fpu, val),
        crate::vec2arr::all_pairwise(fpu, op, a, b, r),
        0 <= i < a.len(),
    ensures
        r[i] == Vec2::pairwise_by(val, op, a[i], b[i]),
{
    assert(Vec2::is_pairwise(fpu, op, a[i], b[i], r[i]));
}

/// With a unit that computes the function `val`, the element at every index
/// of `a op s` is `a[i] op s`.
pub proof fn broadcast_at_index2<F: Fn(Op, Scalar, Scalar) -> Scalar>(
    fpu: &F,
    val: spec_fn(Op, Scalar, Scalar) -> Scalar,
    op: Op,
    a: Seq<Vec2>,
    s: Scalar,
    r: Seq<Vec2>,
    i: int,
)
    requires
        computes(fpu, val),
        crate::vec2arr::all_broadcast(fpu, op, a, s, r),
        0 <= i < a.len(),
    ensures
        r[i] == Vec2::broadcast_by(val, op, a[i], s),
{
    assert(Vec2::is_broadcast(fpu, op, a[i], s, r[i]));
}

/// A raw container of `N` vectors that is converted to a fixed-size container
/// and from there to a boxed one comes back with the bit patterns it had. The
/// result therefore equals the container it set out from, element by
/// element, unless a component is a NaN, which equals nothing.
pub proof fn round_trip2<const N: usize>(
    x: &Vec2raw,
    arr: Result<Vec2arr<N>, LengthMismatch>,
    back: Vec2box,
)
    requires
        x@.len() == N,
        call_ensures(Vec2raw::to_arr::<N>, (x,), arr),
        arr matches Ok(a) ==> call_ensures(Vec2box::new_from_arr::<N>, (a,), back),
    ensures
        arr is Ok,
        back@ == x@,
        all_numbers2(x@) ==> crate::vec2arr::all_same(back@, x@),
{
}

/// The same round trip for a boxed container of `N` vectors, which reaches
/// the fixed-size container through a raw one.
pub proof fn round_trip_of_box2<const N: usize>(
    x: Vec2box,
    raw: Vec2raw,
    arr: Result<Vec2arr<N>, LengthMismatch>,
    back: Vec2box,
)
    requires
        x@.len() == N,
        call_ensures(Vec2raw::new_from_box, (x,), raw),
        call_ensures(Vec2raw::to_arr::<N>, (&raw,), arr),
        arr matches Ok(a) ==> call_ensures(Vec2box::new_from_arr::<N>, (a,), back),
    ensures
        arr is Ok,
        back@ == x@,
        all_numbers2(x@) ==> crate::vec2arr::all_same(back@, x@),
{
}

/// The same round trip for the `N` vectors under a window.
pub proof fn round_trip_of_win2<'a, const N: usize>(
    x: Vec2win<'a>,
    raw: Vec2raw,
    arr: Result<Vec2arr<N>, LengthMismatch>,
    back: Vec2box,
)
    requires
        x@.len() == N,
        call_ensures(Vec2raw::new_from_win, (x,), raw),
        call_ensures(Vec2raw::to_arr::<N>, (&raw,), arr),
        arr matches Ok(a) ==> call_ensures(Vec2box::new_from_arr::<N>, (a,), back),
    ensures
        arr is Ok,
        back@ == x@,
        all_numbers2(x@) ==> crate::vec2arr::all_same(back@, x@),
{
}

/// No component of any vector of `a` is a NaN.
pub open spec fn all_numbers3(a: Seq<Vec3>) -> bool {
    forall|i: int|
        0 <= i < a.len() ==> !(#[trigger] a[i]).x.is_nan() && !a[i].y.is_nan() && !a[i].z.is_nan()
}

/// With a unit that computes the function `val`, the element at every index
/// of `a op b` is `a[i] op b[i]`.
pub proof fn pairwise_at_index3<F: Fn(Op, Scalar, Scalar) -> Scalar>(
    fpu: &F,
    val: spec_fn(Op, Scalar, Scalar) -> Scalar,
    op: Op,
    a: Seq<Vec3>,
    b: Seq<Vec3>,
    r: Seq<Vec3>,
    i: int,
)
    requires
        computes(fpu, val),
        crate::vec3arr::all_pairwise(fpu, op, a, b, r),
        0 <= i < a.len(),
    ensures
        r[i] == Vec3::pairwise_by(val, op, a[i], b[i]),
{
    assert(Vec3::is_pairwise(fpu, op, a[i], b[i], r[i]));
}

/// With a unit that computes the function `val`, the element at every index
/// of `a op s` is `a[i] op s`.
pub proof fn broadcast_at_index3<F: Fn(Op, Scalar, Scalar) -> Scalar>(
    fpu: &F,
    val: spec_fn(Op, Scalar, Scalar) -> Scalar,
    op: Op,
    a: Seq<Vec3>,
    s: Scalar,
    r: Seq<Vec3>,
    i: int,
)
    requires
        computes(fpu, val),
        crate::vec3arr::all_broadcast(fpu, op, a, s, r),
        0 <= i < a.len(),
    ensures
        r[i] == Vec3::broadcast_by(val, op, a[i], s),
{
    assert(Vec3::is_broadcast(fpu, op, a[i], s, r[i]));
}

/// A raw container of `N` vectors that is converted to a fixed-size container
/// and from there to a boxed one comes back with the bit patterns it had. The
/// result therefore equals the container it set out from, element by
/// element, unless a component is a NaN, which equals nothing.
pub proof fn round_trip3<const N: usize>(
    x: &Vec3raw,
    arr: Result<Vec3arr<N>, LengthMismatch>,
    back: Vec3box,
)
    requires
        x@.len() == N,
        call_ensures(Vec3raw::to_arr::<N>, (x,), arr),
        arr matches Ok(a) ==> call_ensures(Vec3box::new_from_arr::<N>, (a,), back),
    ensures
        arr is Ok,
        back@ == x@,
        all_numbers3(x@) ==> crate::vec3arr::all_same(back@, x@),
{
}

/// The same round trip for a boxed container of `N` vectors, which reaches
/// the fixed-size container through a raw one.
pub proof fn round_trip_of_box3<const N: usize>(
    x: Vec3box,
    raw: Vec3raw,
    arr: Result<Vec3arr<N>, LengthMismatch>,
    back: Vec3box,
)
    requires
        x@.len() == N,
        call_ensures(Vec3raw::new_from_box, (x,), raw),
        call_ensures(Vec3raw::to_arr::<N>, (&raw,), arr),
        arr matches Ok(a) ==> call_ensures(Vec3box::new_from_arr::<N>, (a,), back),
    ensures
        arr is Ok,
        back@ == x@,
        all_numbers3(x@) ==> crate::vec3arr::all_same(back@, x@),
{
}

/// The same round trip for the `N` vectors under a window.
pub proof fn round_trip_of_win3<'a, const N: usize>(
    x: Vec3win<'a>,
    raw: Vec3raw,
    arr: Result<Vec3arr<N>, LengthMismatch>,
    back: Vec3box,
)
    requires
        x@.len() == N,
        call_ensures(Vec3raw::new_from_win, (x,), raw),
        call_ensures(Vec3raw::to_arr::<N>, (&raw,), arr),
        arr matches Ok(a) ==> call_ensures(Vec3box::new_from_arr::<N>, (a,), back),
    ensures
        arr is Ok,
        back@ == x@,
        all_numbers3(x@) ==> crate::vec3arr::all_same(back@, x@),
{
}

/// The unit multiplies the same way in either order of the operands: the two
/// products are one bit pattern, or both are NaNs.
pub open spec fn multiplies_commutatively<F: Fn(Op, Scalar, Scalar) -> Scalar>(fpu: &F) -> bool {
    forall|a: Scalar, b: Scalar, p: Scalar, q: Scalar|
        #![trigger fpu.ensures((Op::Mul, a, b), p), fpu.ensures((Op::Mul, b, a), q)]
        fpu.ensures((Op::Mul, a, b), p) && fpu.ensures((Op::Mul, b, a), q) ==> p == q || (
        p.is_nan() && q.is_nan())
}

/// Exchanging the operands of a subtraction reverses the sign of the
/// difference, as numbers; and a NaN operand gives a NaN difference.
pub open spec fn subtracts_antisymmetrically<F: Fn(Op, Scalar, Scalar) -> Scalar>(
    fpu: &F,
) -> bool {
    &&& forall|a: Scalar, b: Scalar, p: Scalar, q: Scalar|
        #![trigger fpu.ensures((Op::Sub, a, b), p), fpu.ensures((Op::Sub, b, a), q)]
        fpu.ensures((Op::Sub, a, b), p) && fpu.ensures((Op::Sub, b, a), q) ==> p.same(q.neg())
            || (p.is_nan() && q.is_nan())
    &&& forall|a: Scalar, b: Scalar, p: Scalar| #[trigger]
        fpu.ensures((Op::Sub, a, b), p) && (a.is_nan() || b.is_nan()) ==> p.is_nan()
}

/// With a unit that multiplies commutatively and subtracts antisymmetrically,
/// as IEEE 754 arithmetic does, the cross product changes sign when its
/// operands are exchanged: `a x b` equals `-(b x a)`, unless a component of
/// `a x b` is a NaN, which equals nothing.
pub proof fn cross_antisymmetric<F: Fn(Op, Scalar, Scalar) -> Scalar>(
    fpu: &F,
    a: Vec3,
    b: Vec3,
    r: Vec3,
    s: Vec3,
)
    requires
        multiplies_commutatively(fpu),
        subtracts_antisymmetrically(fpu),
        Vec3::is_cross(fpu, a, b, r),
        Vec3::is_cross(fpu, b, a, s),
        !r.x.is_nan() && !r.y.is_nan() && !r.z.is_nan(),
    ensures
        r.same(s.neg()),
{
    minor_antisymmetric(fpu, a.y, b.z, a.z, b.y, r.x, s.x);
    minor_antisymmetric(fpu, a.z, b.x, a.x, b.z, r.y, s.y);
    minor_antisymmetric(fpu, a.x, b.y, a.y, b.x, r.z, s.z);
}

/// `a * b - c * d` and `d * c - b * a` are each other's negation, as numbers,
/// under the same conditions.
pub proof fn minor_antisymmetric<F: Fn(Op, Scalar, Scalar) -> Scalar>(
    fpu: &F,
    a: Scalar,
    b: Scalar,
    c: Scalar,
    d: Scalar,
    r: Scalar,
    s: Scalar,
)
    requires
        multiplies_commutatively(fpu),
        subtracts_antisymmetrically(fpu),
        crate::scalar::is_minor(fpu, a, b, c, d, r),
        crate::scalar::is_minor(fpu, d, c, b, a, s),
        !r.is_nan(),
    ensures
        r.same(s.neg()),
{
    let (p, q) = choose|p: Scalar, q: Scalar|
        fpu.ensures((Op::Mul, a, b), p) && fpu.ensures((Op::Mul, c, d), q) && fpu.ensures(
            (Op::Sub, p, q),
            r,
        );
    let (u, v) = choose|u: Scalar, v: Scalar|
        fpu.ensures((Op::Mul, d, c), u) && fpu.ensures((Op::Mul, b, a), v) && fpu.ensures(
            (Op::Sub, u, v),
            s,
        );
    assert(p == v || (p.is_nan() && v.is_nan()));
    assert(q == u || (q.is_nan() && u.is_nan()));
}

} // verus!
