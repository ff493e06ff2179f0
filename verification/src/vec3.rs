//! Three-component vectors.
use vstd::prelude::*;
use crate::scalar::{
    dot3, is_dot3, is_minor, minor, total, total_root, Additive, Commutative, Op, Scalar,
};

verus! {

/// A vector of three scalars. Two vectors are equal when their components are
/// equal as numbers, so a vector with a NaN component equals nothing.
#[derive(Clone, Copy, Debug)]
pub struct Vec3 {
    pub x: Scalar,
    pub y: Scalar,
    pub z: Scalar,
}

impl Vec3 {
    pub open spec fn spec_zero() -> Vec3 {
        Vec3 { x: Scalar::zero(), y: Scalar::zero(), z: Scalar::zero() }
    }

    pub open spec fn spec_one() -> Vec3 {
        Vec3 { x: Scalar::one(), y: Scalar::one(), z: Scalar::one() }
    }

    pub open spec fn spec_left() -> Vec3 {
        Vec3 { x: Scalar::minus_one(), y: Scalar::zero(), z: Scalar::zero() }
    }

    pub open spec fn spec_right() -> Vec3 {
        Vec3 { x: Scalar::one(), y: Scalar::zero(), z: Scalar::zero() }
    }

    pub open spec fn spec_up() -> Vec3 {
        Vec3 { x: Scalar::zero(), y: Scalar::one(), z: Scalar::zero() }
    }

    pub open spec fn spec_down() -> Vec3 {
        Vec3 { x: Scalar::zero(), y: Scalar::minus_one(), z: Scalar::zero() }
    }

    pub open spec fn spec_inward() -> Vec3 {
        Vec3 { x: Scalar::zero(), y: Scalar::zero(), z: Scalar::one() }
    }

    pub open spec fn spec_outward() -> Vec3 {
        Vec3 { x: Scalar::zero(), y: Scalar::zero(), z: Scalar::minus_one() }
    }

    /// The vector `<0, 0, 0>`.
    #[verifier::when_used_as_spec(spec_zero)]
    pub fn zero() -> (r: Vec3)
        ensures
            r == Vec3::spec_zero(),
    {
        Vec3 { x: Scalar::zero(), y: Scalar::zero(), z: Scalar::zero() }
    }

    /// The vector `<1, 1, 1>`.
    #[verifier::when_used_as_spec(spec_one)]
    pub fn one() -> (r: Vec3)
        ensures
            r == Vec3::spec_one(),
    {
        Vec3 { x: Scalar::one(), y: Scalar::one(), z: Scalar::one() }
    }

    /// The unit vector `<-1, 0, 0>`.
    #[verifier::when_used_as_spec(spec_left)]
    pub fn left() -> (r: Vec3)
        ensures
            r == Vec3::spec_left(),
    {
        Vec3 { x: Scalar::minus_one(), y: Scalar::zero(), z: Scalar::zero() }
    }

    /// The unit vector `<1, 0, 0>`.
    #[verifier::when_used_as_spec(spec_right)]
    pub fn right() -> (r: Vec3)
        ensures
            r == Vec3::spec_right(),
    {
        Vec3 { x: Scalar::one(), y: Scalar::zero(), z: Scalar::zero() }
    }

    /// The unit vector `<0, 1, 0>`.
    #[verifier::when_used_as_spec(spec_up)]
    pub fn up() -> (r: Vec3)
        ensures
            r == Vec3::spec_up(),
    {
        Vec3 { x: Scalar::zero(), y: Scalar::one(), z: Scalar::zero() }
    }

    /// The unit vector `<0, -1, 0>`.
    #[verifier::when_used_as_spec(spec_down)]
    pub fn down() -> (r: Vec3)
        ensures
            r == Vec3::spec_down(),
    {
        Vec3 { x: Scalar::zero(), y: Scalar::minus_one(), z: Scalar::zero() }
    }

    /// The unit vector `<0, 0, 1>`.
    #[verifier::when_used_as_spec(spec_inward)]
    pub fn inward() -> (r: Vec3)
        ensures
            r == Vec3::spec_inward(),
    {
        Vec3 { x: Scalar::zero(), y: Scalar::zero(), z: Scalar::one() }
    }

    /// The unit vector `<0, 0, -1>`.
    #[verifier::when_used_as_spec(spec_outward)]
    pub fn outward() -> (r: Vec3)
        ensures
            r == Vec3::spec_outward(),
    {
        Vec3 { x: Scalar::zero(), y: Scalar::zero(), z: Scalar::minus_one() }
    }

    /// Equality of two vectors: component by component, as numbers.
    pub open spec fn same(self, rhs: Vec3) -> bool {
        self.x.same(rhs.x) && self.y.same(rhs.y) && self.z.same(rhs.z)
    }

    pub open spec fn spec_neg(self) -> Vec3 {
        Vec3 { x: self.x.neg(), y: self.y.neg(), z: self.z.neg() }
    }

    /// `a op b`, taken component by component, when `val` is the operation
    /// on scalars.
    pub open spec fn pairwise_by(
        val: spec_fn(Op, Scalar, Scalar) -> Scalar,
        op: Op,
        a: Vec3,
        b: Vec3,
    ) -> Vec3 {
        Vec3 { x: val(op, a.x, b.x), y: val(op, a.y, b.y), z: val(op, a.z, b.z) }
    }

    /// `a op s`, the scalar applied to every component, when `val` is the
    /// operation on scalars.
    pub open spec fn broadcast_by(
        val: spec_fn(Op, Scalar, Scalar) -> Scalar,
        op: Op,
        a: Vec3,
        s: Scalar,
    ) -> Vec3 {
        Vec3 { x: val(op, a.x, s), y: val(op, a.y, s), z: val(op, a.z, s) }
    }

    /// `r` is a value of `a op b`, taken component by component.
    pub open spec fn is_pairwise<F: Fn(Op, Scalar, Scalar) -> Scalar>(
        fpu: &F,
        op: Op,
        a: Vec3,
        b: Vec3,
        r: Vec3,
    ) -> bool {
        &&& fpu.ensures((op, a.x, b.x), r.x)
        &&& fpu.ensures((op, a.y, b.y), r.y)
        &&& fpu.ensures((op, a.z, b.z), r.z)
    }

    /// `r` is a value of `a op s`, the scalar applied to every component.
    pub open spec fn is_broadcast<F: Fn(Op, Scalar, Scalar) -> Scalar>(
        fpu: &F,
        op: Op,
        a: Vec3,
        s: Scalar,
        r: Vec3,
    ) -> bool {
        &&& fpu.ensures((op, a.x, s), r.x)
        &&& fpu.ensures((op, a.y, s), r.y)
        &&& fpu.ensures((op, a.z, s), r.z)
    }

    /// `r` is a value of `s op a`, the scalar on the left of every component.
    pub open spec fn is_broadcast_left<F: Fn(Op, Scalar, Scalar) -> Scalar>(
        fpu: &F,
        op: Op,
        s: Scalar,
        a: Vec3,
        r: Vec3,
    ) -> bool {
        &&& fpu.ensures((op, s, a.x), r.x)
        &&& fpu.ensures((op, s, a.y), r.y)
        &&& fpu.ensures((op, s, a.z), r.z)
    }

    /// `r` is a value of the dot product `(a.x * b.x + a.y * b.y) + a.z * b.z`.
    pub open spec fn is_dot<F: Fn(Op, Scalar, Scalar) -> Scalar>(
        fpu: &F,
        a: Vec3,
        b: Vec3,
        r: Scalar,
    ) -> bool {
        is_dot3(fpu, a.x, b.x, a.y, b.y, a.z, b.z, r)
    }

    /// `r` is a value of the cross product of `a` and `b`:
    /// `<a.y * b.z - a.z * b.y, a.z * b.x - a.x * b.z, a.x * b.y - a.y * b.x>`.
    pub open spec fn is_cross<F: Fn(Op, Scalar, Scalar) -> Scalar>(
        fpu: &F,
        a: Vec3,
        b: Vec3,
        r: Vec3,
    ) -> bool {
        &&& is_minor(fpu, a.y, b.z, a.z, b.y, r.x)
        &&& is_minor(fpu, a.z, b.x, a.x, b.z, r.y)
        &&& is_minor(fpu, a.x, b.y, a.y, b.x, r.z)
    }

    /// `r` is a value of the squared length of `a`.
    pub open spec fn is_mag2<F: Fn(Op, Scalar, Scalar) -> Scalar>(
        fpu: &F,
        a: Vec3,
        r: Scalar,
    ) -> bool {
        Vec3::is_dot(fpu, a, a, r)
    }

    /// `r` is a value of the length of `a`: a root of a squared length.
    pub open spec fn is_mag<F: Fn(Op, Scalar, Scalar) -> Scalar, R: Fn(Scalar) -> Scalar>(
        fpu: &F,
        root: &R,
        a: Vec3,
        r: Scalar,
    ) -> bool {
        exists|m: Scalar| #[trigger] Vec3::is_mag2(fpu, a, m) && root.ensures((m,), r)
    }

    /// `r` is a value of `a` divided by its length.
    pub open spec fn is_norm<F: Fn(Op, Scalar, Scalar) -> Scalar, R: Fn(Scalar) -> Scalar>(
        fpu: &F,
        root: &R,
        a: Vec3,
        r: Vec3,
    ) -> bool {
        exists|m: Scalar|
            #[trigger] Vec3::is_mag(fpu, root, a, m) && Vec3::is_broadcast(fpu, Op::Div, a, m, r)
    }

    /// Combines two vectors component by component: `self op rhs`.
    pub fn pairwise<F: Fn(Op, Scalar, Scalar) -> Scalar>(
        self,
        op: Additive,
        rhs: Vec3,
        fpu: &F,
    ) -> (r: Vec3)
        requires
            total(fpu),
        ensures
            Vec3::is_pairwise(fpu, op.op(), self, rhs, r),
    {
        let o: Op = op.op();
        Vec3 { x: fpu(o, self.x, rhs.x), y: fpu(o, self.y, rhs.y), z: fpu(o, self.z, rhs.z) }
    }

    /// Applies a scalar to every component: `self op rhs`.
    pub fn broadcast<F: Fn(Op, Scalar, Scalar) -> Scalar>(self, op: Op, rhs: Scalar, fpu: &F) -> (r:
        Vec3)
        requires
            total(fpu),
        ensures
            Vec3::is_broadcast(fpu, op, self, rhs, r),
    {
        Vec3 { x: fpu(op, self.x, rhs), y: fpu(op, self.y, rhs), z: fpu(op, self.z, rhs) }
    }

    /// Applies a scalar on the left of every component: `lhs op self`.
    pub fn broadcast_left<F: Fn(Op, Scalar, Scalar) -> Scalar>(
        self,
        op: Commutative,
        lhs: Scalar,
        fpu: &F,
    ) -> (r: Vec3)
        requires
            total(fpu),
        ensures
            Vec3::is_broadcast_left(fpu, op.op(), lhs, self, r),
    {
        let o: Op = op.op();
        Vec3 { x: fpu(o, lhs, self.x), y: fpu(o, lhs, self.y), z: fpu(o, lhs, self.z) }
    }

    /// Replaces the vector by `self op rhs`, component by component.
    pub fn pairwise_assign<F: Fn(Op, Scalar, Scalar) -> Scalar>(
        &mut self,
        op: Additive,
        rhs: Vec3,
        fpu: &F,
    )
        requires
            total(fpu),
        ensures
            Vec3::is_pairwise(fpu, op.op(), *old(self), rhs, *final(self)),
    {
        let v = self.pairwise(op, rhs, fpu);
        *self = v;
    }

    /// Replaces the vector by `self op rhs`, the scalar applied to every
    /// component.
    pub fn broadcast_assign<F: Fn(Op, Scalar, Scalar) -> Scalar>(
        &mut self,
        op: Op,
        rhs: Scalar,
        fpu: &F,
    )
        requires
            total(fpu),
        ensures
            Vec3::is_broadcast(fpu, op, *old(self), rhs, *final(self)),
    {
        let v = self.broadcast(op, rhs, fpu);
        *self = v;
    }

    /// The dot product. This is what multiplying a vector by a vector means;
    /// there is no component-wise product operator.
    pub fn dot<F: Fn(Op, Scalar, Scalar) -> Scalar>(self, rhs: Vec3, fpu: &F) -> (r: Scalar)
        requires
            total(fpu),
        ensures
            Vec3::is_dot(fpu, self, rhs, r),
    {
        dot3(self.x, rhs.x, self.y, rhs.y, self.z, rhs.z, fpu)
    }

    /// The vector with the sign of every component reversed.
    #[verifier::when_used_as_spec(spec_neg)]
    pub fn neg(self) -> (r: Vec3)
        ensures
            r == self.spec_neg(),
    {
        Vec3 { x: self.x.neg(), y: self.y.neg(), z: self.z.neg() }
    }

    /// The cross product `self x rhs`, by the one formula for every input.
    pub fn cross<F: Fn(Op, Scalar, Scalar) -> Scalar>(&self, rhs: Vec3, fpu: &F) -> (r: Vec3)
        requires
            total(fpu),
        ensures
            Vec3::is_cross(fpu, *self, rhs, r),
    {
        Vec3 {
            x: minor(self.y, rhs.z, self.z, rhs.y, fpu),
            y: minor(self.z, rhs.x, self.x, rhs.z, fpu),
            z: minor(self.x, rhs.y, self.y, rhs.x, fpu),
        }
    }

    /// The squared length.
    pub fn mag2<F: Fn(Op, Scalar, Scalar) -> Scalar>(&self, fpu: &F) -> (r: Scalar)
        requires
            total(fpu),
        ensures
            Vec3::is_mag2(fpu, *self, r),
    {
        self.dot(*self, fpu)
    }

    /// The length.
    pub fn mag<F: Fn(Op, Scalar, Scalar) -> Scalar, R: Fn(Scalar) -> Scalar>(
        &self,
        fpu: &F,
        root: &R,
    ) -> (r: Scalar)
        requires
            total(fpu),
            total_root(root),
        ensures
            Vec3::is_mag(fpu, root, *self, r),
    {
        let m = self.mag2(fpu);
        root(m)
    }

    /// The vector divided by its length. A vector of length zero is divided
    /// by zero like any other: the result is whatever the unit returns.
    pub fn norm<F: Fn(Op, Scalar, Scalar) -> Scalar, R: Fn(Scalar) -> Scalar>(
        &self,
        fpu: &F,
        root: &R,
    ) -> (r: Vec3)
        requires
            total(fpu),
            total_root(root),
        ensures
            Vec3::is_norm(fpu, root, *self, r),
    {
        let m = self.mag(fpu, root);
        self.broadcast(Op::Div, m, fpu)
    }
}

impl PartialEq for Vec3 {
    fn eq(&self, rhs: &Vec3) -> (r: bool) {
        self.x == rhs.x && self.y == rhs.y && self.z == rhs.z
    }
}

impl vstd::std_specs::cmp::PartialEqSpecImpl for Vec3 {
    open spec fn obeys_eq_spec() -> bool {
        true
    }

    open spec fn eq_spec(&self, rhs: &Vec3) -> bool {
        self.same(*rhs)
    }
}

} // verus!
