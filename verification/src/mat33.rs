//! Three by three matrices.
//!
//! A field is named by its row, a letter, and its column, a number: `y3` is
//! the entry in row `y` and column `3`.
use vstd::prelude::*;
use crate::mat22::Singular;
use crate::scalar::{is_minor, minor, total, Additive, Commutative, Op, Scalar};
use crate::vec3::Vec3;

verus! {

/// A three by three matrix. Two matrices are equal when their entries are
/// equal as numbers.
#[derive(Clone, Copy, Debug)]
pub struct Mat33 {
    pub x1: Scalar,
    pub y1: Scalar,
    pub z1: Scalar,
    pub x2: Scalar,
    pub y2: Scalar,
    pub z2: Scalar,
    pub x3: Scalar,
    pub y3: Scalar,
    pub z3: Scalar,
}

impl Mat33 {
    pub open spec fn spec_identity() -> Mat33 {
        Mat33 {
            x1: Scalar::one(),
            y1: Scalar::zero(),
            z1: Scalar::zero(),
            x2: Scalar::zero(),
            y2: Scalar::one(),
            z2: Scalar::zero(),
            x3: Scalar::zero(),
            y3: Scalar::zero(),
            z3: Scalar::one(),
        }
    }

    pub open spec fn spec_zero() -> Mat33 {
        Mat33 {
            x1: Scalar::zero(),
            y1: Scalar::zero(),
            z1: Scalar::zero(),
            x2: Scalar::zero(),
            y2: Scalar::zero(),
            z2: Scalar::zero(),
            x3: Scalar::zero(),
            y3: Scalar::zero(),
            z3: Scalar::zero(),
        }
    }

    pub open spec fn spec_augment(v1: Vec3, v2: Vec3, v3: Vec3) -> Mat33 {
        Mat33 {
            x1: v1.x,
            y1: v1.y,
            z1: v1.z,
            x2: v2.x,
            y2: v2.y,
            z2: v2.z,
            x3: v3.x,
            y3: v3.y,
            z3: v3.z,
        }
    }

    pub open spec fn spec_t(&self) -> Mat33 {
        Mat33 {
            x1: self.x1,
            y1: self.x2,
            z1: self.x3,
            x2: self.y1,
            y2: self.y2,
            z2: self.y3,
            x3: self.z1,
            y3: self.z2,
            z3: self.z3,
        }
    }

    pub open spec fn spec_neg(self) -> Mat33 {
        Mat33 {
            x1: self.x1.neg(),
            y1: self.y1.neg(),
            z1: self.z1.neg(),
            x2: self.x2.neg(),
            y2: self.y2.neg(),
            z2: self.z2.neg(),
            x3: self.x3.neg(),
            y3: self.y3.neg(),
            z3: self.z3.neg(),
        }
    }

    /// Row `x`, from column 1 to column 3.
    pub open spec fn row_x(self) -> Vec3 {
        Vec3 { x: self.x1, y: self.x2, z: self.x3 }
    }

    /// Row `y`, from column 1 to column 3.
    pub open spec fn row_y(self) -> Vec3 {
        Vec3 { x: self.y1, y: self.y2, z: self.y3 }
    }

    /// Row `z`, from column 1 to column 3.
    pub open spec fn row_z(self) -> Vec3 {
        Vec3 { x: self.z1, y: self.z2, z: self.z3 }
    }

    /// Column 1, from row `x` to row `z`.
    pub open spec fn col_1(self) -> Vec3 {
        Vec3 { x: self.x1, y: self.y1, z: self.z1 }
    }

    /// Column 2, from row `x` to row `z`.
    pub open spec fn col_2(self) -> Vec3 {
        Vec3 { x: self.x2, y: self.y2, z: self.z2 }
    }

    /// Column 3, from row `x` to row `z`.
    pub open spec fn col_3(self) -> Vec3 {
        Vec3 { x: self.x3, y: self.y3, z: self.z3 }
    }

    /// Equality of two matrices: entry by entry, as numbers.
    pub open spec fn same(self, rhs: Mat33) -> bool {
        &&& self.x1.same(rhs.x1)
        &&& self.y1.same(rhs.y1)
        &&& self.z1.same(rhs.z1)
        &&& self.x2.same(rhs.x2)
        &&& self.y2.same(rhs.y2)
        &&& self.z2.same(rhs.z2)
        &&& self.x3.same(rhs.x3)
        &&& self.y3.same(rhs.y3)
        &&& self.z3.same(rhs.z3)
    }

    /// `r` is a value of `a op b`, taken entry by entry.
    pub open spec fn is_pairwise<F: Fn(Op, Scalar, Scalar) -> Scalar>(
        fpu: &F,
        op: Op,
        a: Mat33,
        b: Mat33,
        r: Mat33,
    ) -> bool {
        &&& fpu.ensures((op, a.x1, b.x1), r.x1)
        &&& fpu.ensures((op, a.y1, b.y1), r.y1)
        &&& fpu.ensures((op, a.z1, b.z1), r.z1)
        &&& fpu.ensures((op, a.x2, b.x2), r.x2)
        &&& fpu.ensures((op, a.y2, b.y2), r.y2)
        &&& fpu.ensures((op, a.z2, b.z2), r.z2)
        &&& fpu.ensures((op, a.x3, b.x3), r.x3)
        &&& fpu.ensures((op, a.y3, b.y3), r.y3)
        &&& fpu.ensures((op, a.z3, b.z3), r.z3)
    }

    /// `r` is a value of `a op s`, the scalar applied to every entry.
    pub open spec fn is_broadcast<F: Fn(Op, Scalar, Scalar) -> Scalar>(
        fpu: &F,
        op: Op,
        a: Mat33,
        s: Scalar,
        r: Mat33,
    ) -> bool {
        &&& fpu.ensures((op, a.x1, s), r.x1)
        &&& fpu.ensures((op, a.y1, s), r.y1)
        &&& fpu.ensures((op, a.z1, s), r.z1)
        &&& fpu.ensures((op, a.x2, s), r.x2)
        &&& fpu.ensures((op, a.y2, s), r.y2)
        &&& fpu.ensures((op, a.z2, s), r.z2)
        &&& fpu.ensures((op, a.x3, s), r.x3)
        &&& fpu.ensures((op, a.y3, s), r.y3)
        &&& fpu.ensures((op, a.z3, s), r.z3)
    }

    /// `r` is a value of `s op a`, the scalar on the left of every entry.
    pub open spec fn is_broadcast_left<F: Fn(Op, Scalar, Scalar) -> Scalar>(
        fpu: &F,
        op: Op,
        s: Scalar,
        a: Mat33,
        r: Mat33,
    ) -> bool {
        &&& fpu.ensures((op, s, a.x1), r.x1)
        &&& fpu.ensures((op, s, a.y1), r.y1)
        &&& fpu.ensures((op, s, a.z1), r.z1)
        &&& fpu.ensures((op, s, a.x2), r.x2)
        &&& fpu.ensures((op, s, a.y2), r.y2)
        &&& fpu.ensures((op, s, a.z2), r.z2)
        &&& fpu.ensures((op, s, a.x3), r.x3)
        &&& fpu.ensures((op, s, a.y3), r.y3)
        &&& fpu.ensures((op, s, a.z3), r.z3)
    }

    /// `r` is a value of the matrix product `a b`: each entry is the dot
    /// product of its row of `a` and its column of `b`.
    pub open spec fn is_product<F: Fn(Op, Scalar, Scalar) -> Scalar>(
        fpu: &F,
        a: Mat33,
        b: Mat33,
        r: Mat33,
    ) -> bool {
        &&& Vec3::is_dot(fpu, a.row_x(), b.col_1(), r.x1)
        &&& Vec3::is_dot(fpu, a.row_y(), b.col_1(), r.y1)
        &&& Vec3::is_dot(fpu, a.row_z(), b.col_1(), r.z1)
        &&& Vec3::is_dot(fpu, a.row_x(), b.col_2(), r.x2)
        &&& Vec3::is_dot(fpu, a.row_y(), b.col_2(), r.y2)
        &&& Vec3::is_dot(fpu, a.row_z(), b.col_2(), r.z2)
        &&& Vec3::is_dot(fpu, a.row_x(), b.col_3(), r.x3)
        &&& Vec3::is_dot(fpu, a.row_y(), b.col_3(), r.y3)
        &&& Vec3::is_dot(fpu, a.row_z(), b.col_3(), r.z3)
    }

    /// `r` is a value of the matrix `a` applied to the vector `v`: each
    /// component is the dot product of its row of `a` and `v`.
    pub open spec fn is_applied<F: Fn(Op, Scalar, Scalar) -> Scalar>(
        fpu: &F,
        a: Mat33,
        v: Vec3,
        r: Vec3,
    ) -> bool {
        &&& Vec3::is_dot(fpu, a.row_x(), v, r.x)
        &&& Vec3::is_dot(fpu, a.row_y(), v, r.y)
        &&& Vec3::is_dot(fpu, a.row_z(), v, r.z)
    }

    /// `r` is a value of the matrix of cofactors of `a`: each entry is the
    /// determinant of what is left of `a` without the entry's row and column,
    /// with the sign of its place.
    pub open spec fn is_cofactor<F: Fn(Op, Scalar, Scalar) -> Scalar>(
        fpu: &F,
        a: Mat33,
        r: Mat33,
    ) -> bool {
        &&& is_minor(fpu, a.y2, a.z3, a.y3, a.z2, r.x1)
        &&& is_minor(fpu, a.x3, a.z2, a.x2, a.z3, r.y1)
        &&& is_minor(fpu, a.x2, a.y3, a.x3, a.y2, r.z1)
        &&& is_minor(fpu, a.y3, a.z1, a.y1, a.z3, r.x2)
        &&& is_minor(fpu, a.x1, a.z3, a.x3, a.z1, r.y2)
        &&& is_minor(fpu, a.x3, a.y1, a.x1, a.y3, r.z2)
        &&& is_minor(fpu, a.y1, a.z2, a.y2, a.z1, r.x3)
        &&& is_minor(fpu, a.x2, a.z1, a.x1, a.z2, r.y3)
        &&& is_minor(fpu, a.x1, a.y2, a.x2, a.y1, r.z3)
    }

    /// `r` is a value of the adjugate of `a`, the transpose of its matrix of
    /// cofactors.
    pub open spec fn is_adj<F: Fn(Op, Scalar, Scalar) -> Scalar>(
        fpu: &F,
        a: Mat33,
        r: Mat33,
    ) -> bool {
        Mat33::is_cofactor(fpu, a, r.t())
    }

    /// `r` is a value of the determinant of `a`, expanded along row `x`:
    /// `(x1 * (y2 * z3 - y3 * z2) - x2 * (y1 * z3 - y3 * z1)) + x3 * (y1 * z2 - y2 * z1)`.
    pub open spec fn is_det<F: Fn(Op, Scalar, Scalar) -> Scalar>(
        fpu: &F,
        a: Mat33,
        r: Scalar,
    ) -> bool {
        exists|m1: Scalar, m2: Scalar, m3: Scalar, t1: Scalar, t2: Scalar, t3: Scalar, d: Scalar|
            #![trigger
                is_minor(fpu, a.y2, a.z3, a.y3, a.z2, m1),
                is_minor(fpu, a.y1, a.z3, a.y3, a.z1, m2),
                is_minor(fpu, a.y1, a.z2, a.y2, a.z1, m3),
                fpu.ensures((Op::Mul, a.x1, m1), t1),
                fpu.ensures((Op::Mul, a.x2, m2), t2),
                fpu.ensures((Op::Mul, a.x3, m3), t3),
                fpu.ensures((Op::Sub, t1, t2), d)
            ]
            {
                &&& is_minor(fpu, a.y2, a.z3, a.y3, a.z2, m1)
                &&& is_minor(fpu, a.y1, a.z3, a.y3, a.z1, m2)
                &&& is_minor(fpu, a.y1, a.z2, a.y2, a.z1, m3)
                &&& fpu.ensures((Op::Mul, a.x1, m1), t1)
                &&& fpu.ensures((Op::Mul, a.x2, m2), t2)
                &&& fpu.ensures((Op::Mul, a.x3, m3), t3)
                &&& fpu.ensures((Op::Sub, t1, t2), d)
                &&& fpu.ensures((Op::Add, d, t3), r)
            }
    }

    /// What [`Mat33::inverse`] may return for `a`: with some value `d` of the
    /// determinant, the failure when `d` is zero, and otherwise a value of
    /// the adjugate divided by `d`.
    pub open spec fn is_inverse<F: Fn(Op, Scalar, Scalar) -> Scalar>(
        fpu: &F,
        a: Mat33,
        r: Result<Mat33, Singular>,
    ) -> bool {
        exists|d: Scalar| #[trigger]
            Mat33::is_det(fpu, a, d) && match r {
                Ok(m) => !d.is_zero() && exists|j: Mat33| #[trigger]
                    Mat33::is_adj(fpu, a, j) && Mat33::is_broadcast(fpu, Op::Div, j, d, m),
                Err(_) => d.is_zero(),
            }
    }

    /// The matrix with ones on the diagonal and zeros elsewhere.
    #[verifier::when_used_as_spec(spec_identity)]
    pub fn identity() -> (r: Mat33)
        ensures
            r == Mat33::spec_identity(),
    {
        Mat33 {
            x1: Scalar::one(),
            y1: Scalar::zero(),
            z1: Scalar::zero(),
            x2: Scalar::zero(),
            y2: Scalar::one(),
            z2: Scalar::zero(),
            x3: Scalar::zero(),
            y3: Scalar::zero(),
            z3: Scalar::one(),
        }
    }

    /// The matrix of zeros.
    #[verifier::when_used_as_spec(spec_zero)]
    pub fn zero() -> (r: Mat33)
        ensures
            r == Mat33::spec_zero(),
    {
        Mat33 {
            x1: Scalar::zero(),
            y1: Scalar::zero(),
            z1: Scalar::zero(),
            x2: Scalar::zero(),
            y2: Scalar::zero(),
            z2: Scalar::zero(),
            x3: Scalar::zero(),
            y3: Scalar::zero(),
            z3: Scalar::zero(),
        }
    }

    /// The matrix whose columns are `v1`, `v2` and `v3`.
    #[verifier::when_used_as_spec(spec_augment)]
    pub fn augment(v1: Vec3, v2: Vec3, v3: Vec3) -> (r: Mat33)
        ensures
            r == Mat33::spec_augment(v1, v2, v3),
            r.col_1() == v1,
            r.col_2() == v2,
            r.col_3() == v3,
    {
        Mat33 {
            x1: v1.x,
            y1: v1.y,
            z1: v1.z,
            x2: v2.x,
            y2: v2.y,
            z2: v2.z,
            x3: v3.x,
            y3: v3.y,
            z3: v3.z,
        }
    }

    /// Combines two matrices entry by entry: `self op rhs`.
    pub fn pairwise<F: Fn(Op, Scalar, Scalar) -> Scalar>(
        self,
        op: Additive,
        rhs: Mat33,
        fpu: &F,
    ) -> (r: Mat33)
        requires
            total(fpu),
        ensures
            Mat33::is_pairwise(fpu, op.op(), self, rhs, r),
    {
        let o: Op = op.op();
        Mat33 {
            x1: fpu(o, self.x1, rhs.x1),
            y1: fpu(o, self.y1, rhs.y1),
            z1: fpu(o, self.z1, rhs.z1),
            x2: fpu(o, self.x2, rhs.x2),
            y2: fpu(o, self.y2, rhs.y2),
            z2: fpu(o, self.z2, rhs.z2),
            x3: fpu(o, self.x3, rhs.x3),
            y3: fpu(o, self.y3, rhs.y3),
            z3: fpu(o, self.z3, rhs.z3),
        }
    }

    /// Applies a scalar to every entry: `self op rhs`.
    pub fn broadcast<F: Fn(Op, Scalar, Scalar) -> Scalar>(self, op: Op, rhs: Scalar, fpu: &F) -> (r:
        Mat33)
        requires
            total(fpu),
        ensures
            Mat33::is_broadcast(fpu, op, self, rhs, r),
    {
        Mat33 {
            x1: fpu(op, self.x1, rhs),
            y1: fpu(op, self.y1, rhs),
            z1: fpu(op, self.z1, rhs),
            x2: fpu(op, self.x2, rhs),
            y2: fpu(op, self.y2, rhs),
            z2: fpu(op, self.z2, rhs),
            x3: fpu(op, self.x3, rhs),
            y3: fpu(op, self.y3, rhs),
            z3: fpu(op, self.z3, rhs),
        }
    }

    /// Applies a scalar on the left of every entry: `lhs op self`.
    pub fn broadcast_left<F: Fn(Op, Scalar, Scalar) -> Scalar>(
        self,
        op: Commutative,
        lhs: Scalar,
        fpu: &F,
    ) -> (r: Mat33)
        requires
            total(fpu),
        ensures
            Mat33::is_broadcast_left(fpu, op.op(), lhs, self, r),
    {
        let o: Op = op.op();
        Mat33 {
            x1: fpu(o, lhs, self.x1),
            y1: fpu(o, lhs, self.y1),
            z1: fpu(o, lhs, self.z1),
            x2: fpu(o, lhs, self.x2),
            y2: fpu(o, lhs, self.y2),
            z2: fpu(o, lhs, self.z2),
            x3: fpu(o, lhs, self.x3),
            y3: fpu(o, lhs, self.y3),
            z3: fpu(o, lhs, self.z3),
        }
    }

    /// Replaces the matrix by `self op rhs`, entry by entry.
    pub fn pairwise_assign<F: Fn(Op, Scalar, Scalar) -> Scalar>(
        &mut self,
        op: Additive,
        rhs: Mat33,
        fpu: &F,
    )
        requires
            total(fpu),
        ensures
            Mat33::is_pairwise(fpu, op.op(), *old(self), rhs, *final(self)),
    {
        let m = self.pairwise(op, rhs, fpu);
        *self = m;
    }

    /// Replaces the matrix by `self op rhs`, the scalar applied to every
    /// entry.
    pub fn broadcast_assign<F: Fn(Op, Scalar, Scalar) -> Scalar>(
        &mut self,
        op: Op,
        rhs: Scalar,
        fpu: &F,
    )
        requires
            total(fpu),
        ensures
            Mat33::is_broadcast(fpu, op, *old(self), rhs, *final(self)),
    {
        let m = self.broadcast(op, rhs, fpu);
        *self = m;
    }

    /// The matrix product `self rhs`, rows by columns.
    pub fn times<F: Fn(Op, Scalar, Scalar) -> Scalar>(self, rhs: Mat33, fpu: &F) -> (r: Mat33)
        requires
            total(fpu),
        ensures
            Mat33::is_product(fpu, self, rhs, r),
    {
        let row_x = Vec3 { x: self.x1, y: self.x2, z: self.x3 };
        let row_y = Vec3 { x: self.y1, y: self.y2, z: self.y3 };
        let row_z = Vec3 { x: self.z1, y: self.z2, z: self.z3 };
        let col_1 = Vec3 { x: rhs.x1, y: rhs.y1, z: rhs.z1 };
        let col_2 = Vec3 { x: rhs.x2, y: rhs.y2, z: rhs.z2 };
        let col_3 = Vec3 { x: rhs.x3, y: rhs.y3, z: rhs.z3 };
        Mat33 {
            x1: row_x.dot(col_1, fpu),
            y1: row_y.dot(col_1, fpu),
            z1: row_z.dot(col_1, fpu),
            x2: row_x.dot(col_2, fpu),
            y2: row_y.dot(col_2, fpu),
            z2: row_z.dot(col_2, fpu),
            x3: row_x.dot(col_3, fpu),
            y3: row_y.dot(col_3, fpu),
            z3: row_z.dot(col_3, fpu),
        }
    }

    /// Replaces the matrix by the product `self rhs`. Every entry of the
    /// product is computed from the matrix as it was before the call.
    pub fn times_assign<F: Fn(Op, Scalar, Scalar) -> Scalar>(&mut self, rhs: Mat33, fpu: &F)
        requires
            total(fpu),
        ensures
            Mat33::is_product(fpu, *old(self), rhs, *final(self)),
    {
        let m = self.times(rhs, fpu);
        *self = m;
    }

    /// The matrix applied to a vector.
    pub fn apply<F: Fn(Op, Scalar, Scalar) -> Scalar>(self, rhs: Vec3, fpu: &F) -> (r: Vec3)
        requires
            total(fpu),
        ensures
            Mat33::is_applied(fpu, self, rhs, r),
    {
        let row_x = Vec3 { x: self.x1, y: self.x2, z: self.x3 };
        let row_y = Vec3 { x: self.y1, y: self.y2, z: self.y3 };
        let row_z = Vec3 { x: self.z1, y: self.z2, z: self.z3 };
        Vec3 { x: row_x.dot(rhs, fpu), y: row_y.dot(rhs, fpu), z: row_z.dot(rhs, fpu) }
    }

    /// The matrix with the sign of every entry reversed.
    #[verifier::when_used_as_spec(spec_neg)]
    pub fn neg(self) -> (r: Mat33)
        ensures
            r == self.spec_neg(),
    {
        Mat33 {
            x1: self.x1.neg(),
            y1: self.y1.neg(),
            z1: self.z1.neg(),
            x2: self.x2.neg(),
            y2: self.y2.neg(),
            z2: self.z2.neg(),
            x3: self.x3.neg(),
            y3: self.y3.neg(),
            z3: self.z3.neg(),
        }
    }

    /// The adjugate.
    pub fn adj<F: Fn(Op, Scalar, Scalar) -> Scalar>(&self, fpu: &F) -> (r: Mat33)
        requires
            total(fpu),
        ensures
            Mat33::is_adj(fpu, *self, r),
    {
        Mat33 {
            x1: minor(self.y2, self.z3, self.y3, self.z2, fpu),
            y1: minor(self.y3, self.z1, self.y1, self.z3, fpu),
            z1: minor(self.y1, self.z2, self.y2, self.z1, fpu),
            x2: minor(self.x3, self.z2, self.x2, self.z3, fpu),
            y2: minor(self.x1, self.z3, self.x3, self.z1, fpu),
            z2: minor(self.x2, self.z1, self.x1, self.z2, fpu),
            x3: minor(self.x2, self.y3, self.x3, self.y2, fpu),
            y3: minor(self.x3, self.y1, self.x1, self.y3, fpu),
            z3: minor(self.x1, self.y2, self.x2, self.y1, fpu),
        }
    }

    /// The matrix of cofactors.
    pub fn cofactor<F: Fn(Op, Scalar, Scalar) -> Scalar>(&self, fpu: &F) -> (r: Mat33)
        requires
            total(fpu),
        ensures
            Mat33::is_cofactor(fpu, *self, r),
    {
        Mat33 {
            x1: minor(self.y2, self.z3, self.y3, self.z2, fpu),
            y1: minor(self.x3, self.z2, self.x2, self.z3, fpu),
            z1: minor(self.x2, self.y3, self.x3, self.y2, fpu),
            x2: minor(self.y3, self.z1, self.y1, self.z3, fpu),
            y2: minor(self.x1, self.z3, self.x3, self.z1, fpu),
            z2: minor(self.x3, self.y1, self.x1, self.y3, fpu),
            x3: minor(self.y1, self.z2, self.y2, self.z1, fpu),
            y3: minor(self.x2, self.z1, self.x1, self.z2, fpu),
            z3: minor(self.x1, self.y2, self.x2, self.y1, fpu),
        }
    }

    /// The determinant.
    pub fn det<F: Fn(Op, Scalar, Scalar) -> Scalar>(&self, fpu: &F) -> (r: Scalar)
        requires
            total(fpu),
        ensures
            Mat33::is_det(fpu, *self, r),
    {
        let m1 = minor(self.y2, self.z3, self.y3, self.z2, fpu);
        let m2 = minor(self.y1, self.z3, self.y3, self.z1, fpu);
        let m3 = minor(self.y1, self.z2, self.y2, self.z1, fpu);
        let t1 = fpu(Op::Mul, self.x1, m1);
        let t2 = fpu(Op::Mul, self.x2, m2);
        let t3 = fpu(Op::Mul, self.x3, m3);
        let d = fpu(Op::Sub, t1, t2);
        fpu(Op::Add, d, t3)
    }

    /// The inverse, the adjugate divided by the determinant, or the failure
    /// when the determinant is zero of either sign. A determinant that is a
    /// NaN is not zero: the division goes ahead.
    pub fn inverse<F: Fn(Op, Scalar, Scalar) -> Scalar>(&self, fpu: &F) -> (r: Result<
        Mat33,
        Singular,
    >)
        requires
            total(fpu),
        ensures
            Mat33::is_inverse(fpu, *self, r),
    {
        let det = self.det(fpu);
        if det.is_zero() {
            Err(Singular)
        } else {
            let j = self.adj(fpu);
            Ok(j.broadcast(Op::Div, det, fpu))
        }
    }

    /// The transpose: rows become columns.
    #[verifier::when_used_as_spec(spec_t)]
    pub fn t(&self) -> (r: Mat33)
        ensures
            r == self.spec_t(),
            r.row_x() == self.col_1(),
            r.row_y() == self.col_2(),
            r.row_z() == self.col_3(),
    {
        Mat33 {
            x1: self.x1,
            y1: self.x2,
            z1: self.x3,
            x2: self.y1,
            y2: self.y2,
            z2: self.y3,
            x3: self.z1,
            y3: self.z2,
            z3: self.z3,
        }
    }
}

impl PartialEq for Mat33 {
    fn eq(&self, rhs: &Mat33) -> (r: bool) {
        self.x1 == rhs.x1 && self.y1 == rhs.y1 && self.z1 == rhs.z1 && self.x2 == rhs.x2
            && self.y2 == rhs.y2 && self.z2 == rhs.z2 && self.x3 == rhs.x3 && self.y3 == rhs.y3
            && self.z3 == rhs.z3
    }
}

impl vstd::std_specs::cmp::PartialEqSpecImpl for Mat33 {
    open spec fn obeys_eq_spec() -> bool {
        true
    }

    open spec fn eq_spec(&self, rhs: &Mat33) -> bool {
        self.same(*rhs)
    }
}

} // verus!
