//! Two by two matrices.
//!
//! A field is named by its row, a letter, and its column, a number: `y1` is
//! the entry in row `y` and column `1`.
use vstd::prelude::*;
use crate::scalar::{is_minor, minor, total, Additive, Commutative, Op, Scalar};
use crate::vec2::Vec2;

verus! {

/// A matrix that has no inverse was asked for one: its determinant is zero.
#[derive(Clone, Copy, Debug, PartialEq, Eq, Structural)]
pub struct Singular;

/// A two by two matrix. Two matrices are equal when their entries are equal
/// as numbers.
#[derive(Clone, Copy, Debug)]
pub struct Mat22 {
    pub x1: Scalar,
    pub y1: Scalar,
    pub x2: Scalar,
    pub y2: Scalar,
}

impl Mat22 {
    pub open spec fn spec_identity() -> Mat22 {
        Mat22 { x1: Scalar::one(), y1: Scalar::zero(), x2: Scalar::zero(), y2: Scalar::one() }
    }

    pub open spec fn spec_zero() -> Mat22 {
        Mat22 { x1: Scalar::zero(), y1: Scalar::zero(), x2: Scalar::zero(), y2: Scalar::zero() }
    }

    pub open spec fn spec_augment(v1: Vec2, v2: Vec2) -> Mat22 {
        Mat22 { x1: v1.x, y1: v1.y, x2: v2.x, y2: v2.y }
    }

    pub open spec fn spec_t(&self) -> Mat22 {
        Mat22 { x1: self.x1, y1: self.x2, x2: self.y1, y2: self.y2 }
    }

    pub open spec fn spec_neg(self) -> Mat22 {
        Mat22 { x1: self.x1.neg(), y1: self.y1.neg(), x2: self.x2.neg(), y2: self.y2.neg() }
    }

    /// Row `x`, from column 1 to column 2.
    pub open spec fn row_x(self) -> Vec2 {
        Vec2 { x: self.x1, y: self.x2 }
    }

    /// Row `y`, from column 1 to column 2.
    pub open spec fn row_y(self) -> Vec2 {
        Vec2 { x: self.y1, y: self.y2 }
    }

    /// Column 1, from row `x` to row `y`.
    pub open spec fn col_1(self) -> Vec2 {
        Vec2 { x: self.x1, y: self.y1 }
    }

    /// Column 2, from row `x` to row `y`.
    pub open spec fn col_2(self) -> Vec2 {
        Vec2 { x: self.x2, y: self.y2 }
    }

    /// Equality of two matrices: entry by entry, as numbers.
    pub open spec fn same(self, rhs: Mat22) -> bool {
        &&& self.x1.same(rhs.x1)
        &&& self.y1.same(rhs.y1)
        &&& self.x2.same(rhs.x2)
        &&& self.y2.same(rhs.y2)
    }

    /// `r` is a value of `a op b`, taken entry by entry.
    pub open spec fn is_pairwise<F: Fn(Op, Scalar, Scalar) -> Scalar>(
        fpu: &F,
        op: Op,
        a: Mat22,
        b: Mat22,
        r: Mat22,
    ) -> bool {
        &&& fpu.ensures((op, a.x1, b.x1), r.x1)
        &&& fpu.ensures((op, a.y1, b.y1), r.y1)
        &&& fpu.ensures((op, a.x2, b.x2), r.x2)
        &&& fpu.ensures((op, a.y2, b.y2), r.y2)
    }

    /// `r` is a value of `a op s`, the scalar applied to every entry.
    pub open spec fn is_broadcast<F: Fn(Op, Scalar, Scalar) -> Scalar>(
        fpu: &F,
        op: Op,
        a: Mat22,
        s: Scalar,
        r: Mat22,
    ) -> bool {
        &&& fpu.ensures((op, a.x1, s), r.x1)
        &&& fpu.ensures((op, a.y1, s), r.y1)
        &&& fpu.ensures((op, a.x2, s), r.x2)
        &&& fpu.ensures((op, a.y2, s), r.y2)
    }

    /// `r` is a value of `s op a`, the scalar on the left of every entry.
    pub open spec fn is_broadcast_left<F: Fn(Op, Scalar, Scalar) -> Scalar>(
        fpu: &F,
        op: Op,
        s: Scalar,
        a: Mat22,
        r: Mat22,
    ) -> bool {
        &&& fpu.ensures((op, s, a.x1), r.x1)
        &&& fpu.ensures((op, s, a.y1), r.y1)
        &&& fpu.ensures((op, s, a.x2), r.x2)
        &&& fpu.ensures((op, s, a.y2), r.y2)
    }

    /// `r` is a value of the matrix product `a b`: each entry is the dot
    /// product of its row of `a` and its column of `b`.
    pub open spec fn is_product<F: Fn(Op, Scalar, Scalar) -> Scalar>(
        fpu: &F,
        a: Mat22,
        b: Mat22,
        r: Mat22,
    ) -> bool {
        &&& Vec2::is_dot(fpu, a.row_x(), b.col_1(), r.x1)
        &&& Vec2::is_dot(fpu, a.row_y(), b.col_1(), r.y1)
        &&& Vec2::is_dot(fpu, a.row_x(), b.col_2(), r.x2)
        &&& Vec2::is_dot(fpu, a.row_y(), b.col_2(), r.y2)
    }

    /// `r` is a value of the matrix `a` applied to the vector `v`: each
    /// component is the dot product of its row of `a` and `v`.
    pub open spec fn is_applied<F: Fn(Op, Scalar, Scalar) -> Scalar>(
        fpu: &F,
        a: Mat22,
        v: Vec2,
        r: Vec2,
    ) -> bool {
        &&& Vec2::is_dot(fpu, a.row_x(), v, r.x)
        &&& Vec2::is_dot(fpu, a.row_y(), v, r.y)
    }

    /// `r` is a value of the determinant `a.x1 * a.y2 - a.y1 * a.x2`.
    pub open spec fn is_det<F: Fn(Op, Scalar, Scalar) -> Scalar>(
        fpu: &F,
        a: Mat22,
        r: Scalar,
    ) -> bool {
        is_minor(fpu, a.x1, a.y2, a.y1, a.x2, r)
    }

    /// `r` is a value of the inverse of `a`, given the value `d` of its
    /// determinant: the entries of `a` on the diagonal exchanged, those off
    /// it negated, and each divided by `d`.
    pub open spec fn is_inverse_by<F: Fn(Op, Scalar, Scalar) -> Scalar>(
        fpu: &F,
        a: Mat22,
        d: Scalar,
        r: Mat22,
    ) -> bool {
        &&& fpu.ensures((Op::Div, a.y2, d), r.x1)
        &&& fpu.ensures((Op::Div, a.y1.neg(), d), r.y1)
        &&& fpu.ensures((Op::Div, a.x2.neg(), d), r.x2)
        &&& fpu.ensures((Op::Div, a.x1, d), r.y2)
    }

    /// What [`Mat22::inverse`] may return for `a`: with some value `d` of the
    /// determinant, the failure when `d` is zero and an inverse by `d`
    /// otherwise.
    pub open spec fn is_inverse<F: Fn(Op, Scalar, Scalar) -> Scalar>(
        fpu: &F,
        a: Mat22,
        r: Result<Mat22, Singular>,
    ) -> bool {
        exists|d: Scalar| #[trigger]
            Mat22::is_det(fpu, a, d) && match r {
                Ok(m) => !d.is_zero() && Mat22::is_inverse_by(fpu, a, d, m),
                Err(_) => d.is_zero(),
            }
    }

    /// The matrix with ones on the diagonal and zeros elsewhere.
    #[verifier::when_used_as_spec(spec_identity)]
    pub fn identity() -> (r: Mat22)
        ensures
            r == Mat22::spec_identity(),
    {
        Mat22 { x1: Scalar::one(), y1: Scalar::zero(), x2: Scalar::zero(), y2: Scalar::one() }
    }

    /// The matrix of zeros.
    #[verifier::when_used_as_spec(spec_zero)]
    pub fn zero() -> (r: Mat22)
        ensures
            r == Mat22::spec_zero(),
    {
        Mat22 { x1: Scalar::zero(), y1: Scalar::zero(), x2: Scalar::zero(), y2: Scalar::zero() }
    }

    /// The matrix whose columns are `v1` and `v2`.
    #[verifier::when_used_as_spec(spec_augment)]
    pub fn augment(v1: Vec2, v2: Vec2) -> (r: Mat22)
        ensures
            r == Mat22::spec_augment(v1, v2),
            r.col_1() == v1,
            r.col_2() == v2,
    {
        Mat22 { x1: v1.x, y1: v1.y, x2: v2.x, y2: v2.y }
    }

    /// Combines two matrices entry by entry: `self op rhs`.
    pub fn pairwise<F: Fn(Op, Scalar, Scalar) -> Scalar>(
        self,
        op: Additive,
        rhs: Mat22,
        fpu: &F,
    ) -> (r: Mat22)
        requires
            total(fpu),
        ensures
            Mat22::is_pairwise(fpu, op.op(), self, rhs, r),
    {
        let o: Op = op.op();
        Mat22 {
            x1: fpu(o, self.x1, rhs.x1),
            y1: fpu(o, self.y1, rhs.y1),
            x2: fpu(o, self.x2, rhs.x2),
            y2: fpu(o, self.y2, rhs.y2),
        }
    }

    /// Applies a scalar to every entry: `self op rhs`.
    pub fn broadcast<F: Fn(Op, Scalar, Scalar) -> Scalar>(self, op: Op, rhs: Scalar, fpu: &F) -> (r:
        Mat22)
        requires
            total(fpu),
        ensures
            Mat22::is_broadcast(fpu, op, self, rhs, r),
    {
        Mat22 {
            x1: fpu(op, self.x1, rhs),
            y1: fpu(op, self.y1, rhs),
            x2: fpu(op, self.x2, rhs),
            y2: fpu(op, self.y2, rhs),
        }
    }

    /// Applies a scalar on the left of every entry: `lhs op self`.
    pub fn broadcast_left<F: Fn(Op, Scalar, Scalar) -> Scalar>(
        self,
        op: Commutative,
        lhs: Scalar,
        fpu: &F,
    ) -> (r: Mat22)
        requires
            total(fpu),
        ensures
            Mat22::is_broadcast_left(fpu, op.op(), lhs, self, r),
    {
        let o: Op = op.op();
        Mat22 {
            x1: fpu(o, lhs, self.x1),
            y1: fpu(o, lhs, self.y1),
            x2: fpu(o, lhs, self.x2),
            y2: fpu(o, lhs, self.y2),
        }
    }

    /// Replaces the matrix by `self op rhs`, entry by entry.
    pub fn pairwise_assign<F: Fn(Op, Scalar, Scalar) -> Scalar>(
        &mut self,
        op: Additive,
        rhs: Mat22,
        fpu: &F,
    )
        requires
            total(fpu),
        ensures
            Mat22::is_pairwise(fpu, op.op(), *old(self), rhs, *final(self)),
    {
        let m = self.pairwise(op, rhs, fpu);
        *self = m;
    }

    /// Replaces the matrix by `self op rhs`, the scalar applied to every
    /// entry.
    pub fn broadcast_assign<F: Fn(Op, Scalar, Scalar) -> Scalar>(
        &mut self,
        op: Op,
        rhs: Scalar,
        fpu: &F,
    )
        requires
            total(fpu),
        ensures
            Mat22::is_broadcast(fpu, op, *old(self), rhs, *final(self)),
    {
        let m = self.broadcast(op, rhs, fpu);
        *self = m;
    }

    /// The matrix product `self rhs`, rows by columns.
    pub fn times<F: Fn(Op, Scalar, Scalar) -> Scalar>(self, rhs: Mat22, fpu: &F) -> (r: Mat22)
        requires
            total(fpu),
        ensures
            Mat22::is_product(fpu, self, rhs, r),
    {
        let row_x = Vec2 { x: self.x1, y: self.x2 };
        let row_y = Vec2 { x: self.y1, y: self.y2 };
        let col_1 = Vec2 { x: rhs.x1, y: rhs.y1 };
        let col_2 = Vec2 { x: rhs.x2, y: rhs.y2 };
        Mat22 {
            x1: row_x.dot(col_1, fpu),
            y1: row_y.dot(col_1, fpu),
            x2: row_x.dot(col_2, fpu),
            y2: row_y.dot(col_2, fpu),
        }
    }

    /// Replaces the matrix by the product `self rhs`. Every entry of the
    /// product is computed from the matrix as it was before the call.
    pub fn times_assign<F: Fn(Op, Scalar, Scalar) -> Scalar>(&mut self, rhs: Mat22, fpu: &F)
        requires
            total(fpu),
        ensures
            Mat22::is_product(fpu, *old(self), rhs, *final(self)),
    {
        let m = self.times(rhs, fpu);
        *self = m;
    }

    /// The matrix applied to a vector.
    pub fn apply<F: Fn(Op, Scalar, Scalar) -> Scalar>(self, rhs: Vec2, fpu: &F) -> (r: Vec2)
        requires
            total(fpu),
        ensures
            Mat22::is_applied(fpu, self, rhs, r),
    {
        let row_x = Vec2 { x: self.x1, y: self.x2 };
        let row_y = Vec2 { x: self.y1, y: self.y2 };
        Vec2 { x: row_x.dot(rhs, fpu), y: row_y.dot(rhs, fpu) }
    }

    /// The matrix with the sign of every entry reversed.
    #[verifier::when_used_as_spec(spec_neg)]
    pub fn neg(self) -> (r: Mat22)
        ensures
            r == self.spec_neg(),
    {
        Mat22 { x1: self.x1.neg(), y1: self.y1.neg(), x2: self.x2.neg(), y2: self.y2.neg() }
    }

    /// The determinant.
    pub fn det<F: Fn(Op, Scalar, Scalar) -> Scalar>(&self, fpu: &F) -> (r: Scalar)
        requires
            total(fpu),
        ensures
            Mat22::is_det(fpu, *self, r),
    {
        minor(self.x1, self.y2, self.y1, self.x2, fpu)
    }

    /// The inverse, by the closed formula, of a matrix whose determinant `det`
    /// is already known.
    pub fn inverse_by<F: Fn(Op, Scalar, Scalar) -> Scalar>(&self, det: Scalar, fpu: &F) -> (r:
        Mat22)
        requires
            total(fpu),
        ensures
            Mat22::is_inverse_by(fpu, *self, det, r),
    {
        Mat22 {
            x1: fpu(Op::Div, self.y2, det),
            y1: fpu(Op::Div, self.y1.neg(), det),
            x2: fpu(Op::Div, self.x2.neg(), det),
            y2: fpu(Op::Div, self.x1, det),
        }
    }

    /// The inverse, or the failure when the determinant is zero of either
    /// sign. A determinant that is a NaN is not zero: the division goes ahead.
    pub fn inverse<F: Fn(Op, Scalar, Scalar) -> Scalar>(&self, fpu: &F) -> (r: Result<
        Mat22,
        Singular,
    >)
        requires
            total(fpu),
        ensures
            Mat22::is_inverse(fpu, *self, r),
    {
        let det = self.det(fpu);
        if det.is_zero() {
            Err(Singular)
        } else {
            Ok(self.inverse_by(det, fpu))
        }
    }

    /// The transpose: rows become columns.
    #[verifier::when_used_as_spec(spec_t)]
    pub fn t(&self) -> (r: Mat22)
        ensures
            r == self.spec_t(),
            r.row_x() == self.col_1(),
            r.row_y() == self.col_2(),
    {
        Mat22 { x1: self.x1, y1: self.x2, x2: self.y1, y2: self.y2 }
    }
}

impl PartialEq for Mat22 {
    fn eq(&self, rhs: &Mat22) -> (r: bool) {
        self.x1 == rhs.x1 && self.y1 == rhs.y1 && self.x2 == rhs.x2 && self.y2 == rhs.y2
    }
}

impl vstd::std_specs::cmp::PartialEqSpecImpl for Mat22 {
    open spec fn obeys_eq_spec() -> bool {
        true
    }

    open spec fn eq_spec(&self, rhs: &Mat22) -> bool {
        self.same(*rhs)
    }
}

} // verus!
