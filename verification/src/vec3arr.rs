//! Parallel arrays of three-component vectors.
//!
//! The four containers hold an ordered sequence of vectors and differ in how
//! they hold it. All of them offer the same arithmetic. An operation between
//! two sequences works index by index and asks that the lengths agree; one
//! with a scalar applies the scalar to every element. An operation that
//! produces a new sequence returns a [`Vec3arr`] when one of its operands is
//! one, and a [`Vec3box`] otherwise; an operation in place writes through
//! the storage that is there and allocates nothing.
use vstd::prelude::*;
use crate::dispatch::{Assoc, BoxValue, Kind, VArr, VBox, VInd};
use crate::lockstep::{
    copied, copy_into, leak, map_assign, map_into, mapped, tabulate_into, tabulated,
    zip_assign, zip_into, zipped, LengthMismatch, Uninit,
};
use crate::scalar::{total, total_root, Additive, Commutative, Op, Scalar};
use crate::vec3::Vec3;

verus! {

/// A sequence of `N` vectors held inline.
#[derive(Clone, Copy, Debug)]
pub struct Vec3arr<const N: usize>(pub [Vec3; N]);

/// A sequence of vectors in heap storage that the container owns and releases
/// when it goes out of scope.
#[derive(Debug)]
pub struct Vec3box(pub Box<[Vec3]>);

/// A window onto vectors that another owner holds. Writing through the window
/// changes the owner's storage.
#[derive(Debug)]
pub struct Vec3win<'a>(pub &'a mut [Vec3]);

/// A sequence of vectors in heap storage that is never released by this
/// library: the storage outlives the container, and whoever holds the
/// container decides whether and when to reclaim it.
#[derive(Debug)]
pub struct Vec3raw(pub &'static mut [Vec3]);

impl<const N: usize> View for Vec3arr<N> {
    type V = Seq<Vec3>;

    open spec fn view(&self) -> Seq<Vec3> {
        self.0@
    }
}

impl View for Vec3box {
    type V = Seq<Vec3>;

    open spec fn view(&self) -> Seq<Vec3> {
        self.0@
    }
}

impl<'a> View for Vec3win<'a> {
    type V = Seq<Vec3>;

    open spec fn view(&self) -> Seq<Vec3> {
        (*self.0)@
    }
}

impl View for Vec3raw {
    type V = Seq<Vec3>;

    open spec fn view(&self) -> Seq<Vec3> {
        (*self.0)@
    }
}

/// `r[i]` is a value of `a[i] op b[i]` at every index.
pub open spec fn all_pairwise<F: Fn(Op, Scalar, Scalar) -> Scalar>(
    fpu: &F,
    op: Op,
    a: Seq<Vec3>,
    b: Seq<Vec3>,
    r: Seq<Vec3>,
) -> bool {
    &&& r.len() == a.len()
    &&& forall|i: int|
        0 <= i < a.len() ==> Vec3::is_pairwise(fpu, op, a[i], b[i], #[trigger] r[i])
}

/// `r[i]` is a value of `a[i] op s` at every index.
pub open spec fn all_broadcast<F: Fn(Op, Scalar, Scalar) -> Scalar>(
    fpu: &F,
    op: Op,
    a: Seq<Vec3>,
    s: Scalar,
    r: Seq<Vec3>,
) -> bool {
    &&& r.len() == a.len()
    &&& forall|i: int| 0 <= i < a.len() ==> Vec3::is_broadcast(fpu, op, a[i], s, #[trigger] r[i])
}

/// `r[i]` is a value of `s op a[i]` at every index.
pub open spec fn all_broadcast_left<F: Fn(Op, Scalar, Scalar) -> Scalar>(
    fpu: &F,
    op: Op,
    s: Scalar,
    a: Seq<Vec3>,
    r: Seq<Vec3>,
) -> bool {
    &&& r.len() == a.len()
    &&& forall|i: int|
        0 <= i < a.len() ==> Vec3::is_broadcast_left(fpu, op, s, a[i], #[trigger] r[i])
}

/// `r[i]` is a value of the dot product of `a[i]` and `b[i]` at every index:
/// one scalar for each pair, not one for the whole sequences.
pub open spec fn all_dot<F: Fn(Op, Scalar, Scalar) -> Scalar>(
    fpu: &F,
    a: Seq<Vec3>,
    b: Seq<Vec3>,
    r: Seq<Scalar>,
) -> bool {
    &&& r.len() == a.len()
    &&& forall|i: int| 0 <= i < a.len() ==> Vec3::is_dot(fpu, a[i], b[i], #[trigger] r[i])
}

/// `r[i]` is a value of the cross product of `a[i]` and `b[i]` at every index.
pub open spec fn all_cross<F: Fn(Op, Scalar, Scalar) -> Scalar>(
    fpu: &F,
    a: Seq<Vec3>,
    b: Seq<Vec3>,
    r: Seq<Vec3>,
) -> bool {
    &&& r.len() == a.len()
    &&& forall|i: int| 0 <= i < a.len() ==> Vec3::is_cross(fpu, a[i], b[i], #[trigger] r[i])
}

/// `r[i]` is a value of the cross product of `a[i]` and `b` at every index.
pub open spec fn all_cross_with<F: Fn(Op, Scalar, Scalar) -> Scalar>(
    fpu: &F,
    a: Seq<Vec3>,
    b: Vec3,
    r: Seq<Vec3>,
) -> bool {
    &&& r.len() == a.len()
    &&& forall|i: int| 0 <= i < a.len() ==> Vec3::is_cross(fpu, a[i], b, #[trigger] r[i])
}

/// `r[i]` is `a[i]` with every sign reversed, at every index.
pub open spec fn all_neg(a: Seq<Vec3>, r: Seq<Vec3>) -> bool {
    &&& r.len() == a.len()
    &&& forall|i: int| 0 <= i < a.len() ==> #[trigger] r[i] == a[i].neg()
}

/// `r[i]` is a value of the squared length of `a[i]` at every index.
pub open spec fn all_mag2<F: Fn(Op, Scalar, Scalar) -> Scalar>(
    fpu: &F,
    a: Seq<Vec3>,
    r: Seq<Scalar>,
) -> bool {
    &&& r.len() == a.len()
    &&& forall|i: int| 0 <= i < a.len() ==> Vec3::is_mag2(fpu, a[i], #[trigger] r[i])
}

/// `r[i]` is a value of the length of `a[i]` at every index.
pub open spec fn all_mag<F: Fn(Op, Scalar, Scalar) -> Scalar, R: Fn(Scalar) -> Scalar>(
    fpu: &F,
    root: &R,
    a: Seq<Vec3>,
    r: Seq<Scalar>,
) -> bool {
    &&& r.len() == a.len()
    &&& forall|i: int| 0 <= i < a.len() ==> Vec3::is_mag(fpu, root, a[i], #[trigger] r[i])
}

/// `r[i]` is a value of `a[i]` divided by its length at every index.
pub open spec fn all_norm<F: Fn(Op, Scalar, Scalar) -> Scalar, R: Fn(Scalar) -> Scalar>(
    fpu: &F,
    root: &R,
    a: Seq<Vec3>,
    r: Seq<Vec3>,
) -> bool {
    &&& r.len() == a.len()
    &&& forall|i: int| 0 <= i < a.len() ==> Vec3::is_norm(fpu, root, a[i], #[trigger] r[i])
}

/// `f` accepts every element of `a`.
pub open spec fn accepts_all<G: Fn(Vec3) -> Vec3>(f: &G, a: Seq<Vec3>) -> bool {
    forall|i: int| 0 <= i < a.len() ==> f.requires((#[trigger] a[i],))
}

/// `r[i]` is a value of `f(a[i])` at every index.
pub open spec fn all_mapped<G: Fn(Vec3) -> Vec3>(f: &G, a: Seq<Vec3>, r: Seq<Vec3>) -> bool {
    &&& r.len() == a.len()
    &&& forall|i: int| 0 <= i < a.len() ==> f.ensures((a[i],), #[trigger] r[i])
}

/// `f` accepts every index below `n`.
pub open spec fn accepts_indices<G: Fn(usize) -> Vec3>(f: &G, n: usize) -> bool {
    forall|i: usize| i < n ==> #[trigger] f.requires((i,))
}

/// `r` has length `n`, and `r[i]` is a value of `f(i)` at every index.
pub open spec fn all_tabulated<G: Fn(usize) -> Vec3>(f: &G, n: usize, r: Seq<Vec3>) -> bool {
    &&& r.len() == n
    &&& forall|i: usize| i < n ==> f.ensures((i,), #[trigger] r[i as int])
}

/// Two sequences are equal: of one length, with equal vectors at every index.
pub open spec fn all_same(a: Seq<Vec3>, b: Seq<Vec3>) -> bool {
    &&& a.len() == b.len()
    &&& forall|i: int| 0 <= i < a.len() ==> (#[trigger] a[i]).same(b[i])
}

/// Whether two slices hold equal sequences of vectors.
pub fn same_slices(a: &[Vec3], b: &[Vec3]) -> (r: bool)
    ensures
        r == all_same(a@, b@),
{
    if a.len() != b.len() {
        return false;
    }
    let n: usize = a.len();
    let mut i: usize = 0;
    while i < n
        invariant
            n == a@.len(),
            n == b@.len(),
            0 <= i <= n,
            forall|j: int| 0 <= j < i ==> (#[trigger] a@[j]).same(b@[j]),
        decreases n - i,
    {
        if !(a[i] == b[i]) {
            return false;
        }
        i += 1;
    }
    true
}

impl<const N: usize> Vec3arr<N> {
    /// The number of vectors, which is `N`.
    pub fn len(&self) -> (n: usize)
        ensures
            n == N,
            n == self@.len(),
    {
        N
    }

    /// The vector at index `i`.
    pub fn get(&self, i: usize) -> (v: Vec3)
        requires
            i < self@.len(),
        ensures
            v == self@[i as int],
    {
        self.0[i]
    }

    /// Overwrites the vector at index `i`.
    pub fn set(&mut self, i: usize, v: Vec3)
        requires
            i < old(self)@.len(),
        ensures
            final(self)@ == old(self)@.update(i as int, v),
    {
        self.0[i] = v;
    }

    /// The vectors in index order.
    pub fn as_slice(&self) -> (s: &[Vec3])
        ensures
            s@ == self@,
    {
        &self.0
    }

    /// A window onto the vectors of this container. What is written through
    /// the window is written to the container.
    pub fn window(&mut self) -> (w: Vec3win<'_>)
        ensures
            w@ == old(self)@,
            final(self)@ == final(w.0)@,
    {
        Vec3win(&mut self.0)
    }

    /// `self op rhs`, index by index.
    pub fn pairwise<F: Fn(Op, Scalar, Scalar) -> Scalar>(
        &self,
        op: Additive,
        rhs: &[Vec3],
        fpu: &F,
    ) -> (r: Result<Vec3arr<N>, LengthMismatch>)
        requires
            total(fpu),
        ensures
            r is Ok <==> rhs@.len() == N,
            r matches Ok(v) ==> all_pairwise(fpu, op.op(), self@, rhs@, v@),
            r matches Err(e) ==> e == (LengthMismatch { left: N, right: rhs@.len() as usize }),
    {
        if rhs.len() != N {
            return Err(LengthMismatch { left: N, right: rhs.len() });
        }
        let mut out: [Vec3; N] = self.0;
        let g = |a: Vec3, b: Vec3| -> (v: Vec3)
            ensures
                Vec3::is_pairwise(fpu, op.op(), a, b, v),
            { a.pairwise(op, b, fpu) };
        zip_assign(&mut out, rhs, &g);
        Ok(Vec3arr(out))
    }

    /// `lhs op self`, index by index: the operation with this container as
    /// the right operand of a container of another kind.
    pub fn pairwise_left<F: Fn(Op, Scalar, Scalar) -> Scalar>(
        &self,
        op: Additive,
        lhs: &[Vec3],
        fpu: &F,
    ) -> (r: Result<Vec3arr<N>, LengthMismatch>)
        requires
            total(fpu),
        ensures
            r is Ok <==> lhs@.len() == N,
            r matches Ok(v) ==> all_pairwise(fpu, op.op(), lhs@, self@, v@),
            r matches Err(e) ==> e == (LengthMismatch { left: lhs@.len() as usize, right: N }),
    {
        if lhs.len() != N {
            return Err(LengthMismatch { left: lhs.len(), right: N });
        }
        let mut out: [Vec3; N] = self.0;
        let g = |b: Vec3, a: Vec3| -> (v: Vec3)
            ensures
                Vec3::is_pairwise(fpu, op.op(), a, b, v),
            { a.pairwise(op, b, fpu) };
        zip_assign(&mut out, lhs, &g);
        Ok(Vec3arr(out))
    }

    /// `self op rhs`, the scalar applied to every vector.
    pub fn broadcast<F: Fn(Op, Scalar, Scalar) -> Scalar>(
        &self,
        op: Op,
        rhs: Scalar,
        fpu: &F,
    ) -> (r: Vec3arr<N>)
        requires
            total(fpu),
        ensures
            all_broadcast(fpu, op, self@, rhs, r@),
    {
        let mut out: [Vec3; N] = self.0;
        let g = |a: Vec3| -> (v: Vec3)
            ensures
                Vec3::is_broadcast(fpu, op, a, rhs, v),
            { a.broadcast(op, rhs, fpu) };
        map_assign(&mut out, &g);
        Vec3arr(out)
    }

    /// `lhs op self`, the scalar on the left of every vector.
    pub fn broadcast_left<F: Fn(Op, Scalar, Scalar) -> Scalar>(
        &self,
        op: Commutative,
        lhs: Scalar,
        fpu: &F,
    ) -> (r: Vec3arr<N>)
        requires
            total(fpu),
        ensures
            all_broadcast_left(fpu, op.op(), lhs, self@, r@),
    {
        let mut out: [Vec3; N] = self.0;
        let g = |a: Vec3| -> (v: Vec3)
            ensures
                Vec3::is_broadcast_left(fpu, op.op(), lhs, a, v),
            { a.broadcast_left(op, lhs, fpu) };
        map_assign(&mut out, &g);
        Vec3arr(out)
    }

    /// The dot products of the vectors of `self` and `rhs`, index by index.
    /// This is what multiplying two containers means.
    pub fn dot<F: Fn(Op, Scalar, Scalar) -> Scalar>(&self, rhs: &[Vec3], fpu: &F) -> (r: Result<
        [Scalar; N],
        LengthMismatch,
    >)
        requires
            total(fpu),
        ensures
            r is Ok <==> rhs@.len() == N,
            r matches Ok(v) ==> all_dot(fpu, self@, rhs@, v@),
            r matches Err(e) ==> e == (LengthMismatch { left: N, right: rhs@.len() as usize }),
    {
        if rhs.len() != N {
            return Err(LengthMismatch { left: N, right: rhs.len() });
        }
        let mut out: [Scalar; N] = [Scalar::zero();N];
        let g = |a: Vec3, b: Vec3| -> (v: Scalar)
            ensures
                Vec3::is_dot(fpu, a, b, v),
            { a.dot(b, fpu) };
        zip_into(&mut out, &self.0, rhs, &g);
        Ok(out)
    }

    /// The dot products of the vectors of `lhs` and `self`, index by index.
    pub fn dot_left<F: Fn(Op, Scalar, Scalar) -> Scalar>(&self, lhs: &[Vec3], fpu: &F) -> (r:
        Result<[Scalar; N], LengthMismatch>)
        requires
            total(fpu),
        ensures
            r is Ok <==> lhs@.len() == N,
            r matches Ok(v) ==> all_dot(fpu, lhs@, self@, v@),
            r matches Err(e) ==> e == (LengthMismatch { left: lhs@.len() as usize, right: N }),
    {
        if lhs.len() != N {
            return Err(LengthMismatch { left: lhs.len(), right: N });
        }
        let mut out: [Scalar; N] = [Scalar::zero();N];
        let g = |a: Vec3, b: Vec3| -> (v: Scalar)
            ensures
                Vec3::is_dot(fpu, a, b, v),
            { a.dot(b, fpu) };
        zip_into(&mut out, lhs, &self.0, &g);
        Ok(out)
    }

    /// Every vector with its signs reversed.
    pub fn neg(&self) -> (r: Vec3arr<N>)
        ensures
            all_neg(self@, r@),
    {
        let mut out: [Vec3; N] = self.0;
        let g = |a: Vec3| -> (v: Vec3)
            ensures
                v == a.neg(),
            { a.neg() };
        map_assign(&mut out, &g);
        Vec3arr(out)
    }

    /// Replaces every vector by `self op rhs` at its index. Nothing is written
    /// when the lengths differ.
    pub fn pairwise_assign<F: Fn(Op, Scalar, Scalar) -> Scalar>(
        &mut self,
        op: Additive,
        rhs: &[Vec3],
        fpu: &F,
    ) -> (r: Result<(), LengthMismatch>)
        requires
            total(fpu),
        ensures
            r is Ok <==> rhs@.len() == N,
            r is Ok ==> all_pairwise(fpu, op.op(), old(self)@, rhs@, final(self)@),
            r matches Err(e) ==> e == (LengthMismatch { left: N, right: rhs@.len() as usize })
                && final(self)@ == old(self)@,
    {
        if rhs.len() != N {
            return Err(LengthMismatch { left: N, right: rhs.len() });
        }
        let g = |a: Vec3, b: Vec3| -> (v: Vec3)
            ensures
                Vec3::is_pairwise(fpu, op.op(), a, b, v),
            { a.pairwise(op, b, fpu) };
        zip_assign(&mut self.0, rhs, &g);
        Ok(())
    }

    /// Replaces every vector by `self op rhs`, the scalar applied to it.
    pub fn broadcast_assign<F: Fn(Op, Scalar, Scalar) -> Scalar>(
        &mut self,
        op: Op,
        rhs: Scalar,
        fpu: &F,
    )
        requires
            total(fpu),
        ensures
            all_broadcast(fpu, op, old(self)@, rhs, final(self)@),
    {
        let g = |a: Vec3| -> (v: Vec3)
            ensures
                Vec3::is_broadcast(fpu, op, a, rhs, v),
            { a.broadcast(op, rhs, fpu) };
        map_assign(&mut self.0, &g);
    }

    /// The cross products of the vectors of `self` and `rhs`, index by index.
    pub fn crossarr<F: Fn(Op, Scalar, Scalar) -> Scalar>(&self, rhs: Vec3arr<N>, fpu: &F) -> (r:
        Vec3arr<N>)
        requires
            total(fpu),
        ensures
            all_cross(fpu, self@, rhs@, r@),
    {
        let mut out: [Vec3; N] = self.0;
        let g = |a: Vec3, b: Vec3| -> (v: Vec3)
            ensures
                Vec3::is_cross(fpu, a, b, v),
            { a.cross(b, fpu) };
        zip_assign(&mut out, &rhs.0, &g);
        Vec3arr(out)
    }

    /// The cross product of every vector with `rhs`.
    pub fn cross<F: Fn(Op, Scalar, Scalar) -> Scalar>(&self, rhs: Vec3, fpu: &F) -> (r: Vec3arr<N>)
        requires
            total(fpu),
        ensures
            all_cross_with(fpu, self@, rhs, r@),
    {
        let mut out: [Vec3; N] = self.0;
        let g = |a: Vec3| -> (v: Vec3)
            ensures
                Vec3::is_cross(fpu, a, rhs, v),
            { a.cross(rhs, fpu) };
        map_assign(&mut out, &g);
        Vec3arr(out)
    }

    /// The length of every vector.
    pub fn mag<F: Fn(Op, Scalar, Scalar) -> Scalar, R: Fn(Scalar) -> Scalar>(
        &self,
        fpu: &F,
        root: &R,
    ) -> (r: [Scalar; N])
        requires
            total(fpu),
            total_root(root),
        ensures
            all_mag(fpu, root, self@, r@),
    {
        let mut out: [Scalar; N] = [Scalar::zero();N];
        let g = |a: Vec3| -> (v: Scalar)
            ensures
                Vec3::is_mag(fpu, root, a, v),
            { a.mag(fpu, root) };
        map_into(&mut out, &self.0, &g);
        out
    }

    /// The squared length of every vector.
    pub fn mag2<F: Fn(Op, Scalar, Scalar) -> Scalar>(&self, fpu: &F) -> (r: [Scalar; N])
        requires
            total(fpu),
        ensures
            all_mag2(fpu, self@, r@),
    {
        let mut out: [Scalar; N] = [Scalar::zero();N];
        let g = |a: Vec3| -> (v: Scalar)
            ensures
                Vec3::is_mag2(fpu, a, v),
            { a.mag2(fpu) };
        map_into(&mut out, &self.0, &g);
        out
    }

    /// Every vector divided by its length.
    pub fn norm<F: Fn(Op, Scalar, Scalar) -> Scalar, R: Fn(Scalar) -> Scalar>(
        &self,
        fpu: &F,
        root: &R,
    ) -> (r: Vec3arr<N>)
        requires
            total(fpu),
            total_root(root),
        ensures
            all_norm(fpu, root, self@, r@),
    {
        let mut out: [Vec3; N] = self.0;
        let g = |a: Vec3| -> (v: Vec3)
            ensures
                Vec3::is_norm(fpu, root, a, v),
            { a.norm(fpu, root) };
        map_assign(&mut out, &g);
        Vec3arr(out)
    }

    /// Replaces every vector by what `f` makes of it.
    pub fn transform<G: Fn(Vec3) -> Vec3>(&mut self, f: G)
        requires
            accepts_all(&f, old(self)@),
        ensures
            all_mapped(&f, old(self)@, final(self)@),
    {
        map_assign(&mut self.0, &f);
    }

    /// The container whose vector at each index is what `f` returns for it.
    pub fn ftoarr<G: Fn(usize) -> Vec3>(f: G) -> (r: Vec3arr<N>)
        requires
            accepts_indices(&f, N),
        ensures
            all_tabulated(&f, N, r@),
    {
        let mut out: [Vec3; N] = [Vec3::zero();N];
        tabulate_into(&mut out, &f);
        Vec3arr(out)
    }
}

impl<const N: usize> PartialEq for Vec3arr<N> {
    fn eq(&self, rhs: &Vec3arr<N>) -> (r: bool) {
        same_slices(&self.0, &rhs.0)
    }
}

impl<const N: usize> vstd::std_specs::cmp::PartialEqSpecImpl for Vec3arr<N> {
    open spec fn obeys_eq_spec() -> bool {
        true
    }

    open spec fn eq_spec(&self, rhs: &Vec3arr<N>) -> bool {
        all_same(self@, rhs@)
    }
}


impl Vec3box {
    /// The number of vectors.
    pub fn len(&self) -> (n: usize)
        ensures
            n == self@.len(),
    {
        self.0.len()
    }

    /// The vector at index `i`.
    pub fn get(&self, i: usize) -> (v: Vec3)
        requires
            i < self@.len(),
        ensures
            v == self@[i as int],
    {
        self.0[i]
    }

    /// Overwrites the vector at index `i`.
    pub fn set(&mut self, i: usize, v: Vec3)
        requires
            i < old(self)@.len(),
        ensures
            final(self)@ == old(self)@.update(i as int, v),
    {
        self.0[i] = v;
    }

    /// The vectors in index order.
    pub fn as_slice(&self) -> (s: &[Vec3])
        ensures
            s@ == self@,
    {
        &self.0
    }

    /// A window onto the vectors of this container. What is written through
    /// the window is written to the container.
    pub fn window(&mut self) -> (w: Vec3win<'_>)
        ensures
            w@ == old(self)@,
            final(self)@ == final(w.0)@,
    {
        Vec3win(&mut self.0)
    }

    /// Heap storage for `len` vectors, none of them written yet. Write every
    /// slot, then wrap what [`Uninit::finish`] returns in a `Vec3box`.
    pub fn new_uninit_box(len: usize) -> (r: Uninit<Vec3>)
        ensures
            r.written() == Seq::<Vec3>::empty(),
            r.capacity() == len,
    {
        Uninit::new(len)
    }

    /// A boxed container holding `len` vectors, all of them zero.
    pub fn new_zeroed(len: usize) -> (r: Vec3box)
        ensures
            r@.len() == len,
            forall|i: int| 0 <= i < len ==> #[trigger] r@[i] == Vec3::zero(),
    {
        let g = |i: usize| -> (v: Vec3)
            ensures
                v == Vec3::zero(),
            { Vec3::zero() };
        Vec3box(tabulated(len, &g))
    }

    /// A copy of a fixed-size container in fresh heap storage.
    pub fn new_from_arr<const N: usize>(arr: Vec3arr<N>) -> (r: Vec3box)
        ensures
            r@ == arr@,
    {
        Vec3box(copied(&arr.0))
    }

    /// A copy of a boxed container in fresh heap storage.
    pub fn new_from_box(arr: Vec3box) -> (r: Vec3box)
        ensures
            r@ == arr@,
    {
        Vec3box(copied(&arr.0))
    }

    /// A copy of the vectors under a window in fresh heap storage.
    pub fn new_from_win<'a>(arr: Vec3win<'a>) -> (r: Vec3box)
        ensures
            r@ == arr@,
    {
        Vec3box(copied(&*arr.0))
    }

    /// A copy of a raw container in fresh heap storage.
    pub fn new_from_raw(arr: Vec3raw) -> (r: Vec3box)
        ensures
            r@ == arr@,
    {
        Vec3box(copied(&*arr.0))
    }

    /// `self op rhs`, index by index, in fresh heap storage.
    pub fn pairwise<F: Fn(Op, Scalar, Scalar) -> Scalar>(
        &self,
        op: Additive,
        rhs: &[Vec3],
        fpu: &F,
    ) -> (r: Result<Vec3box, LengthMismatch>)
        requires
            total(fpu),
        ensures
            r is Ok <==> rhs@.len() == self@.len(),
            r matches Ok(v) ==> all_pairwise(fpu, op.op(), self@, rhs@, v@),
            r matches Err(e) ==> e == (LengthMismatch {
                left: self@.len() as usize,
                right: rhs@.len() as usize,
            }),
    {
        if rhs.len() != self.0.len() {
            return Err(LengthMismatch { left: self.0.len(), right: rhs.len() });
        }
        let g = |a: Vec3, b: Vec3| -> (v: Vec3)
            ensures
                Vec3::is_pairwise(fpu, op.op(), a, b, v),
            { a.pairwise(op, b, fpu) };
        Ok(Vec3box(zipped(&self.0, rhs, &g)))
    }

    /// `self op rhs`, the scalar applied to every vector, in fresh heap
    /// storage.
    pub fn broadcast<F: Fn(Op, Scalar, Scalar) -> Scalar>(
        &self,
        op: Op,
        rhs: Scalar,
        fpu: &F,
    ) -> (r: Vec3box)
        requires
            total(fpu),
        ensures
            all_broadcast(fpu, op, self@, rhs, r@),
    {
        let g = |a: Vec3| -> (v: Vec3)
            ensures
                Vec3::is_broadcast(fpu, op, a, rhs, v),
            { a.broadcast(op, rhs, fpu) };
        Vec3box(mapped(&self.0, &g))
    }

    /// `lhs op self`, the scalar on the left of every vector, in fresh heap
    /// storage.
    pub fn broadcast_left<F: Fn(Op, Scalar, Scalar) -> Scalar>(
        &self,
        op: Commutative,
        lhs: Scalar,
        fpu: &F,
    ) -> (r: Vec3box)
        requires
            total(fpu),
        ensures
            all_broadcast_left(fpu, op.op(), lhs, self@, r@),
    {
        let g = |a: Vec3| -> (v: Vec3)
            ensures
                Vec3::is_broadcast_left(fpu, op.op(), lhs, a, v),
            { a.broadcast_left(op, lhs, fpu) };
        Vec3box(mapped(&self.0, &g))
    }

    /// The dot products of the vectors of `self` and `rhs`, index by index.
    /// This is what multiplying two containers means.
    pub fn dot<F: Fn(Op, Scalar, Scalar) -> Scalar>(&self, rhs: &[Vec3], fpu: &F) -> (r: Result<
        Box<[Scalar]>,
        LengthMismatch,
    >)
        requires
            total(fpu),
        ensures
            r is Ok <==> rhs@.len() == self@.len(),
            r matches Ok(v) ==> all_dot(fpu, self@, rhs@, v@),
            r matches Err(e) ==> e == (LengthMismatch {
                left: self@.len() as usize,
                right: rhs@.len() as usize,
            }),
    {
        if rhs.len() != self.0.len() {
            return Err(LengthMismatch { left: self.0.len(), right: rhs.len() });
        }
        let g = |a: Vec3, b: Vec3| -> (v: Scalar)
            ensures
                Vec3::is_dot(fpu, a, b, v),
            { a.dot(b, fpu) };
        Ok(zipped(&self.0, rhs, &g))
    }

    /// Every vector with its signs reversed, in fresh heap storage.
    pub fn neg(&self) -> (r: Vec3box)
        ensures
            all_neg(self@, r@),
    {
        let g = |a: Vec3| -> (v: Vec3)
            ensures
                v == a.neg(),
            { a.neg() };
        Vec3box(mapped(&self.0, &g))
    }

    /// Replaces every vector by `self op rhs` at its index. Nothing is written
    /// when the lengths differ.
    pub fn pairwise_assign<F: Fn(Op, Scalar, Scalar) -> Scalar>(
        &mut self,
        op: Additive,
        rhs: &[Vec3],
        fpu: &F,
    ) -> (r: Result<(), LengthMismatch>)
        requires
            total(fpu),
        ensures
            r is Ok <==> rhs@.len() == old(self)@.len(),
            r is Ok ==> all_pairwise(fpu, op.op(), old(self)@, rhs@, final(self)@),
            r matches Err(e) ==> e == (LengthMismatch {
                left: old(self)@.len() as usize,
                right: rhs@.len() as usize,
            }) && final(self)@ == old(self)@,
    {
        if rhs.len() != self.0.len() {
            return Err(LengthMismatch { left: self.0.len(), right: rhs.len() });
        }
        let g = |a: Vec3, b: Vec3| -> (v: Vec3)
            ensures
                Vec3::is_pairwise(fpu, op.op(), a, b, v),
            { a.pairwise(op, b, fpu) };
        zip_assign(&mut self.0, rhs, &g);
        Ok(())
    }

    /// Replaces every vector by `self op rhs`, the scalar applied to it.
    pub fn broadcast_assign<F: Fn(Op, Scalar, Scalar) -> Scalar>(
        &mut self,
        op: Op,
        rhs: Scalar,
        fpu: &F,
    )
        requires
            total(fpu),
        ensures
            all_broadcast(fpu, op, old(self)@, rhs, final(self)@),
    {
        let g = |a: Vec3| -> (v: Vec3)
            ensures
                Vec3::is_broadcast(fpu, op, a, rhs, v),
            { a.broadcast(op, rhs, fpu) };
        map_assign(&mut self.0, &g);
    }

    /// Replaces every vector by what `f` makes of it.
    pub fn transform<G: Fn(Vec3) -> Vec3>(&mut self, f: G)
        requires
            accepts_all(&f, old(self)@),
        ensures
            all_mapped(&f, old(self)@, final(self)@),
    {
        map_assign(&mut self.0, &f);
    }

    /// The cross products of the vectors of `self` and `rhs`, index by index.
    pub fn crossarr<F: Fn(Op, Scalar, Scalar) -> Scalar>(&self, rhs: Vec3box, fpu: &F) -> (r:
        Result<Vec3box, LengthMismatch>)
        requires
            total(fpu),
        ensures
            r is Ok <==> rhs@.len() == self@.len(),
            r matches Ok(v) ==> all_cross(fpu, self@, rhs@, v@),
            r matches Err(e) ==> e == (LengthMismatch {
                left: self@.len() as usize,
                right: rhs@.len() as usize,
            }),
    {
        if rhs.0.len() != self.0.len() {
            return Err(LengthMismatch { left: self.0.len(), right: rhs.0.len() });
        }
        let g = |a: Vec3, b: Vec3| -> (v: Vec3)
            ensures
                Vec3::is_cross(fpu, a, b, v),
            { a.cross(b, fpu) };
        Ok(Vec3box(zipped(&self.0, &rhs.0, &g)))
    }

    /// The cross product of every vector with `rhs`.
    pub fn cross<F: Fn(Op, Scalar, Scalar) -> Scalar>(&self, rhs: Vec3, fpu: &F) -> (r: Vec3box)
        requires
            total(fpu),
        ensures
            all_cross_with(fpu, self@, rhs, r@),
    {
        let g = |a: Vec3| -> (v: Vec3)
            ensures
                Vec3::is_cross(fpu, a, rhs, v),
            { a.cross(rhs, fpu) };
        Vec3box(mapped(&self.0, &g))
    }

    /// The length of every vector.
    pub fn mag<F: Fn(Op, Scalar, Scalar) -> Scalar, R: Fn(Scalar) -> Scalar>(
        &self,
        fpu: &F,
        root: &R,
    ) -> (r: Box<[Scalar]>)
        requires
            total(fpu),
            total_root(root),
        ensures
            all_mag(fpu, root, self@, r@),
    {
        let g = |a: Vec3| -> (v: Scalar)
            ensures
                Vec3::is_mag(fpu, root, a, v),
            { a.mag(fpu, root) };
        mapped(&self.0, &g)
    }

    /// The squared length of every vector.
    pub fn mag2<F: Fn(Op, Scalar, Scalar) -> Scalar>(&self, fpu: &F) -> (r: Box<[Scalar]>)
        requires
            total(fpu),
        ensures
            all_mag2(fpu, self@, r@),
    {
        let g = |a: Vec3| -> (v: Scalar)
            ensures
                Vec3::is_mag2(fpu, a, v),
            { a.mag2(fpu) };
        mapped(&self.0, &g)
    }

    /// Every vector divided by its length.
    pub fn norm<F: Fn(Op, Scalar, Scalar) -> Scalar, R: Fn(Scalar) -> Scalar>(
        &self,
        fpu: &F,
        root: &R,
    ) -> (r: Vec3box)
        requires
            total(fpu),
            total_root(root),
        ensures
            all_norm(fpu, root, self@, r@),
    {
        let g = |a: Vec3| -> (v: Vec3)
            ensures
                Vec3::is_norm(fpu, root, a, v),
            { a.norm(fpu, root) };
        Vec3box(mapped(&self.0, &g))
    }

    /// The container of `n` vectors whose vector at each index is what `f`
    /// returns for it.
    pub fn ftoarr<G: Fn(usize) -> Vec3>(f: G, n: usize) -> (r: Vec3box)
        requires
            accepts_indices(&f, n),
        ensures
            all_tabulated(&f, n, r@),
    {
        Vec3box(tabulated(n, &f))
    }
}

impl Clone for Vec3box {
    fn clone(&self) -> (r: Vec3box)
        ensures
            r@ == self@,
    {
        Vec3box(copied(&self.0))
    }
}

impl PartialEq for Vec3box {
    fn eq(&self, rhs: &Vec3box) -> (r: bool) {
        same_slices(&self.0, &rhs.0)
    }
}

impl vstd::std_specs::cmp::PartialEqSpecImpl for Vec3box {
    open spec fn obeys_eq_spec() -> bool {
        true
    }

    open spec fn eq_spec(&self, rhs: &Vec3box) -> bool {
        all_same(self@, rhs@)
    }
}

impl<'a> Vec3win<'a> {
    /// The number of vectors.
    pub fn len(&self) -> (n: usize)
        ensures
            n == self@.len(),
    {
        self.0.len()
    }

    /// The vector at index `i`.
    pub fn get(&self, i: usize) -> (v: Vec3)
        requires
            i < self@.len(),
        ensures
            v == self@[i as int],
    {
        self.0[i]
    }

    /// Overwrites the vector at index `i`.
    pub fn set(&mut self, i: usize, v: Vec3)
        requires
            i < old(self)@.len(),
        ensures
            final(self)@ == old(self)@.update(i as int, v),
            final(final(self).0)@ == final(old(self).0)@,
    {
        self.0[i] = v;
    }

    /// The vectors in index order.
    pub fn as_slice(&self) -> (s: &[Vec3])
        ensures
            s@ == self@,
    {
        &*self.0
    }

    /// `self op rhs`, index by index, in fresh heap storage.
    pub fn pairwise<F: Fn(Op, Scalar, Scalar) -> Scalar>(
        &self,
        op: Additive,
        rhs: &[Vec3],
        fpu: &F,
    ) -> (r: Result<Vec3box, LengthMismatch>)
        requires
            total(fpu),
        ensures
            r is Ok <==> rhs@.len() == self@.len(),
            r matches Ok(v) ==> all_pairwise(fpu, op.op(), self@, rhs@, v@),
            r matches Err(e) ==> e == (LengthMismatch {
                left: self@.len() as usize,
                right: rhs@.len() as usize,
            }),
    {
        if rhs.len() != self.0.len() {
            return Err(LengthMismatch { left: self.0.len(), right: rhs.len() });
        }
        let g = |a: Vec3, b: Vec3| -> (v: Vec3)
            ensures
                Vec3::is_pairwise(fpu, op.op(), a, b, v),
            { a.pairwise(op, b, fpu) };
        Ok(Vec3box(zipped(&*self.0, rhs, &g)))
    }

    /// `self op rhs`, the scalar applied to every vector, in fresh heap
    /// storage.
    pub fn broadcast<F: Fn(Op, Scalar, Scalar) -> Scalar>(
        &self,
        op: Op,
        rhs: Scalar,
        fpu: &F,
    ) -> (r: Vec3box)
        requires
            total(fpu),
        ensures
            all_broadcast(fpu, op, self@, rhs, r@),
    {
        let g = |a: Vec3| -> (v: Vec3)
            ensures
                Vec3::is_broadcast(fpu, op, a, rhs, v),
            { a.broadcast(op, rhs, fpu) };
        Vec3box(mapped(&*self.0, &g))
    }

    /// `lhs op self`, the scalar on the left of every vector, in fresh heap
    /// storage.
    pub fn broadcast_left<F: Fn(Op, Scalar, Scalar) -> Scalar>(
        &self,
        op: Commutative,
        lhs: Scalar,
        fpu: &F,
    ) -> (r: Vec3box)
        requires
            total(fpu),
        ensures
            all_broadcast_left(fpu, op.op(), lhs, self@, r@),
    {
        let g = |a: Vec3| -> (v: Vec3)
            ensures
                Vec3::is_broadcast_left(fpu, op.op(), lhs, a, v),
            { a.broadcast_left(op, lhs, fpu) };
        Vec3box(mapped(&*self.0, &g))
    }

    /// The dot products of the vectors of `self` and `rhs`, index by index.
    /// This is what multiplying two containers means.
    pub fn dot<F: Fn(Op, Scalar, Scalar) -> Scalar>(&self, rhs: &[Vec3], fpu: &F) -> (r: Result<
        Box<[Scalar]>,
        LengthMismatch,
    >)
        requires
            total(fpu),
        ensures
            r is Ok <==> rhs@.len() == self@.len(),
            r matches Ok(v) ==> all_dot(fpu, self@, rhs@, v@),
            r matches Err(e) ==> e == (LengthMismatch {
                left: self@.len() as usize,
                right: rhs@.len() as usize,
            }),
    {
        if rhs.len() != self.0.len() {
            return Err(LengthMismatch { left: self.0.len(), right: rhs.len() });
        }
        let g = |a: Vec3, b: Vec3| -> (v: Scalar)
            ensures
                Vec3::is_dot(fpu, a, b, v),
            { a.dot(b, fpu) };
        Ok(zipped(&*self.0, rhs, &g))
    }

    /// Every vector with its signs reversed, in fresh heap storage.
    pub fn neg(&self) -> (r: Vec3box)
        ensures
            all_neg(self@, r@),
    {
        let g = |a: Vec3| -> (v: Vec3)
            ensures
                v == a.neg(),
            { a.neg() };
        Vec3box(mapped(&*self.0, &g))
    }

    /// Replaces every vector by `self op rhs` at its index. Nothing is written
    /// when the lengths differ.
    pub fn pairwise_assign<F: Fn(Op, Scalar, Scalar) -> Scalar>(
        &mut self,
        op: Additive,
        rhs: &[Vec3],
        fpu: &F,
    ) -> (r: Result<(), LengthMismatch>)
        requires
            total(fpu),
        ensures
            r is Ok <==> rhs@.len() == old(self)@.len(),
            r is Ok ==> all_pairwise(fpu, op.op(), old(self)@, rhs@, final(self)@),
            r matches Err(e) ==> e == (LengthMismatch {
                left: old(self)@.len() as usize,
                right: rhs@.len() as usize,
            }) && final(self)@ == old(self)@,
            final(final(self).0)@ == final(old(self).0)@,
    {
        if rhs.len() != self.0.len() {
            return Err(LengthMismatch { left: self.0.len(), right: rhs.len() });
        }
        let g = |a: Vec3, b: Vec3| -> (v: Vec3)
            ensures
                Vec3::is_pairwise(fpu, op.op(), a, b, v),
            { a.pairwise(op, b, fpu) };
        zip_assign(&mut *self.0, rhs, &g);
        Ok(())
    }

    /// Replaces every vector by `self op rhs`, the scalar applied to it.
    pub fn broadcast_assign<F: Fn(Op, Scalar, Scalar) -> Scalar>(
        &mut self,
        op: Op,
        rhs: Scalar,
        fpu: &F,
    )
        requires
            total(fpu),
        ensures
            all_broadcast(fpu, op, old(self)@, rhs, final(self)@),
            final(final(self).0)@ == final(old(self).0)@,
    {
        let g = |a: Vec3| -> (v: Vec3)
            ensures
                Vec3::is_broadcast(fpu, op, a, rhs, v),
            { a.broadcast(op, rhs, fpu) };
        map_assign(&mut *self.0, &g);
    }

    /// Replaces every vector by what `f` makes of it.
    pub fn transform<G: Fn(Vec3) -> Vec3>(&mut self, f: G)
        requires
            accepts_all(&f, old(self)@),
        ensures
            all_mapped(&f, old(self)@, final(self)@),
            final(final(self).0)@ == final(old(self).0)@,
    {
        map_assign(&mut *self.0, &f);
    }
}

impl<'a> PartialEq for Vec3win<'a> {
    fn eq(&self, rhs: &Vec3win<'a>) -> (r: bool) {
        same_slices(&*self.0, &*rhs.0)
    }
}

impl<'a> vstd::std_specs::cmp::PartialEqSpecImpl for Vec3win<'a> {
    open spec fn obeys_eq_spec() -> bool {
        true
    }

    open spec fn eq_spec(&self, rhs: &Vec3win<'a>) -> bool {
        all_same(self@, rhs@)
    }
}

impl Vec3raw {
    /// The number of vectors.
    pub fn len(&self) -> (n: usize)
        ensures
            n == self@.len(),
    {
        self.0.len()
    }

    /// The vector at index `i`.
    pub fn get(&self, i: usize) -> (v: Vec3)
        requires
            i < self@.len(),
        ensures
            v == self@[i as int],
    {
        self.0[i]
    }

    /// Overwrites the vector at index `i`.
    pub fn set(&mut self, i: usize, v: Vec3)
        requires
            i < old(self)@.len(),
        ensures
            final(self)@ == old(self)@.update(i as int, v),
    {
        self.0[i] = v;
    }

    /// The vectors in index order.
    pub fn as_slice(&self) -> (s: &[Vec3])
        ensures
            s@ == self@,
    {
        &*self.0
    }

    /// A window onto the vectors of this container. What is written through
    /// the window is written to the container's storage.
    pub fn window(&mut self) -> (w: Vec3win<'_>)
        ensures
            w@ == old(self)@,
            final(self)@ == final(w.0)@,
    {
        Vec3win(&mut *self.0)
    }

    /// A raw container holding `len` vectors, all of them zero.
    pub fn new_zeroed(len: usize) -> (r: Vec3raw)
        ensures
            r@.len() == len,
            forall|i: int| 0 <= i < len ==> #[trigger] r@[i] == Vec3::zero(),
    {
        let g = |i: usize| -> (v: Vec3)
            ensures
                v == Vec3::zero(),
            { Vec3::zero() };
        Vec3raw(leak(tabulated(len, &g)))
    }

    /// A copy of a fixed-size container in fresh heap storage.
    pub fn new_from_arr<const N: usize>(arr: Vec3arr<N>) -> (r: Vec3raw)
        ensures
            r@ == arr@,
    {
        Vec3raw(leak(copied(&arr.0)))
    }

    /// A copy of a boxed container in fresh heap storage.
    pub fn new_from_box(arr: Vec3box) -> (r: Vec3raw)
        ensures
            r@ == arr@,
    {
        Vec3raw(leak(copied(&arr.0)))
    }

    /// A copy of the vectors under a window in fresh heap storage.
    pub fn new_from_win<'a>(arr: Vec3win<'a>) -> (r: Vec3raw)
        ensures
            r@ == arr@,
    {
        Vec3raw(leak(copied(&*arr.0)))
    }

    /// A copy of a raw container in fresh heap storage.
    pub fn new_from_raw(arr: Vec3raw) -> (r: Vec3raw)
        ensures
            r@ == arr@,
    {
        Vec3raw(leak(copied(&*arr.0)))
    }

    /// Overwrites the vectors with those of a fixed-size container. Nothing
    /// is written when the lengths differ.
    pub fn from_arr<const N: usize>(&mut self, arr: Vec3arr<N>) -> (r: Result<
        (),
        LengthMismatch,
    >)
        ensures
            r is Ok <==> old(self)@.len() == N,
            r is Ok ==> final(self)@ == arr@,
            r matches Err(e) ==> e == (LengthMismatch { left: old(self)@.len() as usize, right: N })
                && final(self)@ == old(self)@,
    {
        if self.0.len() != N {
            return Err(LengthMismatch { left: self.0.len(), right: N });
        }
        copy_into(&mut *self.0, &arr.0);
        Ok(())
    }

    /// Overwrites the vectors with those of a boxed container. Nothing is
    /// written when the lengths differ.
    pub fn from_box(&mut self, arr: Vec3box) -> (r: Result<(), LengthMismatch>)
        ensures
            r is Ok <==> old(self)@.len() == arr@.len(),
            r is Ok ==> final(self)@ == arr@,
            r matches Err(e) ==> e == (LengthMismatch {
                left: old(self)@.len() as usize,
                right: arr@.len() as usize,
            }) && final(self)@ == old(self)@,
    {
        if self.0.len() != arr.0.len() {
            return Err(LengthMismatch { left: self.0.len(), right: arr.0.len() });
        }
        copy_into(&mut *self.0, &arr.0);
        Ok(())
    }

    /// Overwrites the vectors with those under a window. Nothing is written
    /// when the lengths differ.
    pub fn from_win<'a>(&mut self, arr: Vec3win<'a>) -> (r: Result<(), LengthMismatch>)
        ensures
            r is Ok <==> old(self)@.len() == arr@.len(),
            r is Ok ==> final(self)@ == arr@,
            r matches Err(e) ==> e == (LengthMismatch {
                left: old(self)@.len() as usize,
                right: arr@.len() as usize,
            }) && final(self)@ == old(self)@,
    {
        if self.0.len() != arr.0.len() {
            return Err(LengthMismatch { left: self.0.len(), right: arr.0.len() });
        }
        copy_into(&mut *self.0, &*arr.0);
        Ok(())
    }

    /// A copy of the vectors as a fixed-size container of `N` vectors, which
    /// there is only when the container holds exactly `N`.
    pub fn to_arr<const N: usize>(&self) -> (r: Result<Vec3arr<N>, LengthMismatch>)
        ensures
            r is Ok <==> self@.len() == N,
            r matches Ok(v) ==> v@ == self@,
            r matches Err(e) ==> e == (LengthMismatch { left: self@.len() as usize, right: N }),
    {
        if self.0.len() != N {
            return Err(LengthMismatch { left: self.0.len(), right: N });
        }
        let mut out: [Vec3; N] = [Vec3::zero();N];
        copy_into(&mut out, &*self.0);
        Ok(Vec3arr(out))
    }

    /// A copy of the vectors as a boxed container.
    pub fn to_box(&self) -> (r: Vec3box)
        ensures
            r@ == self@,
    {
        Vec3box(copied(&*self.0))
    }

    /// `self op rhs`, index by index, in fresh heap storage.
    pub fn pairwise<F: Fn(Op, Scalar, Scalar) -> Scalar>(
        &self,
        op: Additive,
        rhs: &[Vec3],
        fpu: &F,
    ) -> (r: Result<Vec3box, LengthMismatch>)
        requires
            total(fpu),
        ensures
            r is Ok <==> rhs@.len() == self@.len(),
            r matches Ok(v) ==> all_pairwise(fpu, op.op(), self@, rhs@, v@),
            r matches Err(e) ==> e == (LengthMismatch {
                left: self@.len() as usize,
                right: rhs@.len() as usize,
            }),
    {
        if rhs.len() != self.0.len() {
            return Err(LengthMismatch { left: self.0.len(), right: rhs.len() });
        }
        let g = |a: Vec3, b: Vec3| -> (v: Vec3)
            ensures
                Vec3::is_pairwise(fpu, op.op(), a, b, v),
            { a.pairwise(op, b, fpu) };
        Ok(Vec3box(zipped(&*self.0, rhs, &g)))
    }

    /// `self op rhs`, the scalar applied to every vector, in fresh heap
    /// storage.
    pub fn broadcast<F: Fn(Op, Scalar, Scalar) -> Scalar>(
        &self,
        op: Op,
        rhs: Scalar,
        fpu: &F,
    ) -> (r: Vec3box)
        requires
            total(fpu),
        ensures
            all_broadcast(fpu, op, self@, rhs, r@),
    {
        let g = |a: Vec3| -> (v: Vec3)
            ensures
                Vec3::is_broadcast(fpu, op, a, rhs, v),
            { a.broadcast(op, rhs, fpu) };
        Vec3box(mapped(&*self.0, &g))
    }

    /// `lhs op self`, the scalar on the left of every vector, in fresh heap
    /// storage.
    pub fn broadcast_left<F: Fn(Op, Scalar, Scalar) -> Scalar>(
        &self,
        op: Commutative,
        lhs: Scalar,
        fpu: &F,
    ) -> (r: Vec3box)
        requires
            total(fpu),
        ensures
            all_broadcast_left(fpu, op.op(), lhs, self@, r@),
    {
        let g = |a: Vec3| -> (v: Vec3)
            ensures
                Vec3::is_broadcast_left(fpu, op.op(), lhs, a, v),
            { a.broadcast_left(op, lhs, fpu) };
        Vec3box(mapped(&*self.0, &g))
    }

    /// The dot products of the vectors of `self` and `rhs`, index by index.
    /// This is what multiplying two containers means.
    pub fn dot<F: Fn(Op, Scalar, Scalar) -> Scalar>(&self, rhs: &[Vec3], fpu: &F) -> (r: Result<
        Box<[Scalar]>,
        LengthMismatch,
    >)
        requires
            total(fpu),
        ensures
            r is Ok <==> rhs@.len() == self@.len(),
            r matches Ok(v) ==> all_dot(fpu, self@, rhs@, v@),
            r matches Err(e) ==> e == (LengthMismatch {
                left: self@.len() as usize,
                right: rhs@.len() as usize,
            }),
    {
        if rhs.len() != self.0.len() {
            return Err(LengthMismatch { left: self.0.len(), right: rhs.len() });
        }
        let g = |a: Vec3, b: Vec3| -> (v: Scalar)
            ensures
                Vec3::is_dot(fpu, a, b, v),
            { a.dot(b, fpu) };
        Ok(zipped(&*self.0, rhs, &g))
    }

    /// Every vector with its signs reversed, in fresh heap storage.
    pub fn neg(&self) -> (r: Vec3box)
        ensures
            all_neg(self@, r@),
    {
        let g = |a: Vec3| -> (v: Vec3)
            ensures
                v == a.neg(),
            { a.neg() };
        Vec3box(mapped(&*self.0, &g))
    }

    /// Replaces every vector by `self op rhs` at its index. Nothing is written
    /// when the lengths differ.
    pub fn pairwise_assign<F: Fn(Op, Scalar, Scalar) -> Scalar>(
        &mut self,
        op: Additive,
        rhs: &[Vec3],
        fpu: &F,
    ) -> (r: Result<(), LengthMismatch>)
        requires
            total(fpu),
        ensures
            r is Ok <==> rhs@.len() == old(self)@.len(),
            r is Ok ==> all_pairwise(fpu, op.op(), old(self)@, rhs@, final(self)@),
            r matches Err(e) ==> e == (LengthMismatch {
                left: old(self)@.len() as usize,
                right: rhs@.len() as usize,
            }) && final(self)@ == old(self)@,
    {
        if rhs.len() != self.0.len() {
            return Err(LengthMismatch { left: self.0.len(), right: rhs.len() });
        }
        let g = |a: Vec3, b: Vec3| -> (v: Vec3)
            ensures
                Vec3::is_pairwise(fpu, op.op(), a, b, v),
            { a.pairwise(op, b, fpu) };
        zip_assign(&mut *self.0, rhs, &g);
        Ok(())
    }

    /// Replaces every vector by `self op rhs`, the scalar applied to it.
    pub fn broadcast_assign<F: Fn(Op, Scalar, Scalar) -> Scalar>(
        &mut self,
        op: Op,
        rhs: Scalar,
        fpu: &F,
    )
        requires
            total(fpu),
        ensures
            all_broadcast(fpu, op, old(self)@, rhs, final(self)@),
    {
        let g = |a: Vec3| -> (v: Vec3)
            ensures
                Vec3::is_broadcast(fpu, op, a, rhs, v),
            { a.broadcast(op, rhs, fpu) };
        map_assign(&mut *self.0, &g);
    }

    /// Replaces every vector by what `f` makes of it.
    pub fn transform<G: Fn(Vec3) -> Vec3>(&mut self, f: G)
        requires
            accepts_all(&f, old(self)@),
        ensures
            all_mapped(&f, old(self)@, final(self)@),
    {
        map_assign(&mut *self.0, &f);
    }
}

impl PartialEq for Vec3raw {
    fn eq(&self, rhs: &Vec3raw) -> (r: bool) {
        same_slices(&*self.0, &*rhs.0)
    }
}

impl vstd::std_specs::cmp::PartialEqSpecImpl for Vec3raw {
    open spec fn obeys_eq_spec() -> bool {
        true
    }

    open spec fn eq_spec(&self, rhs: &Vec3raw) -> bool {
        all_same(self@, rhs@)
    }
}

impl<const N: usize> Assoc for Vec3arr<N> {
    type ID = i8;

    open spec fn spec_kind() -> Kind {
        Kind::Fixed
    }

    fn kind() -> (k: Kind) {
        Kind::Fixed
    }
}

impl<const N: usize> VArr<N> for Vec3arr<N> {
    proof fn is_fixed() {
    }
}

impl Assoc for Vec3box {
    type ID = i16;

    open spec fn spec_kind() -> Kind {
        Kind::Boxed
    }

    fn kind() -> (k: Kind) {
        Kind::Boxed
    }
}

impl VBox for Vec3box {
    proof fn is_boxed() {
    }
}

impl<'a> Assoc for Vec3win<'a> {
    type ID = i32;

    open spec fn spec_kind() -> Kind {
        Kind::Window
    }

    fn kind() -> (k: Kind) {
        Kind::Window
    }
}

impl<'a> VInd for Vec3win<'a> {
    proof fn is_indexed() {
    }
}

impl Assoc for Vec3raw {
    type ID = i32;

    open spec fn spec_kind() -> Kind {
        Kind::Raw
    }

    fn kind() -> (k: Kind) {
        Kind::Raw
    }
}

impl VInd for Vec3raw {
    proof fn is_indexed() {
    }
}

impl<const N: usize, F: Fn(Op, Scalar, Scalar) -> Scalar> BoxValue<Scalar, F> for Vec3arr<N> {
    type Output = Vec3arr<N>;

    open spec fn is_value(fpu: &F, op: Op, a: &Vec3arr<N>, rhs: Scalar, r: &Vec3arr<N>) -> bool {
        all_broadcast(fpu, op, a@, rhs, r@)
    }

    open spec fn is_update(fpu: &F, op: Op, a: &Vec3arr<N>, rhs: Scalar, r: &Vec3arr<N>) -> bool {
        all_broadcast(fpu, op, a@, rhs, r@)
    }

    fn value(&self, op: Op, rhs: Scalar, fpu: &F) -> (r: Vec3arr<N>) {
        self.broadcast(op, rhs, fpu)
    }

    fn update(&mut self, op: Op, rhs: Scalar, fpu: &F) {
        self.broadcast_assign(op, rhs, fpu)
    }
}

impl<F: Fn(Op, Scalar, Scalar) -> Scalar> BoxValue<Scalar, F> for Vec3box {
    type Output = Vec3box;

    open spec fn is_value(fpu: &F, op: Op, a: &Vec3box, rhs: Scalar, r: &Vec3box) -> bool {
        all_broadcast(fpu, op, a@, rhs, r@)
    }

    open spec fn is_update(fpu: &F, op: Op, a: &Vec3box, rhs: Scalar, r: &Vec3box) -> bool {
        all_broadcast(fpu, op, a@, rhs, r@)
    }

    fn value(&self, op: Op, rhs: Scalar, fpu: &F) -> (r: Vec3box) {
        self.broadcast(op, rhs, fpu)
    }

    fn update(&mut self, op: Op, rhs: Scalar, fpu: &F) {
        self.broadcast_assign(op, rhs, fpu)
    }
}

impl<'a, F: Fn(Op, Scalar, Scalar) -> Scalar> BoxValue<Scalar, F> for Vec3win<'a> {
    type Output = Vec3box;

    open spec fn is_value(fpu: &F, op: Op, a: &Vec3win<'a>, rhs: Scalar, r: &Vec3box) -> bool {
        all_broadcast(fpu, op, a@, rhs, r@)
    }

    open spec fn is_update(fpu: &F, op: Op, a: &Vec3win<'a>, rhs: Scalar, r: &Vec3win<'a>) -> bool {
        all_broadcast(fpu, op, a@, rhs, r@)
    }

    fn value(&self, op: Op, rhs: Scalar, fpu: &F) -> (r: Vec3box) {
        self.broadcast(op, rhs, fpu)
    }

    fn update(&mut self, op: Op, rhs: Scalar, fpu: &F)
        ensures
            final(final(self).0)@ == final(old(self).0)@,
    {
        self.broadcast_assign(op, rhs, fpu)
    }
}

impl<F: Fn(Op, Scalar, Scalar) -> Scalar> BoxValue<Scalar, F> for Vec3raw {
    type Output = Vec3box;

    open spec fn is_value(fpu: &F, op: Op, a: &Vec3raw, rhs: Scalar, r: &Vec3box) -> bool {
        all_broadcast(fpu, op, a@, rhs, r@)
    }

    open spec fn is_update(fpu: &F, op: Op, a: &Vec3raw, rhs: Scalar, r: &Vec3raw) -> bool {
        all_broadcast(fpu, op, a@, rhs, r@)
    }

    fn value(&self, op: Op, rhs: Scalar, fpu: &F) -> (r: Vec3box) {
        self.broadcast(op, rhs, fpu)
    }

    fn update(&mut self, op: Op, rhs: Scalar, fpu: &F) {
        self.broadcast_assign(op, rhs, fpu)
    }
}

} // verus!
