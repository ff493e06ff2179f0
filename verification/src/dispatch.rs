//! Which operations exist between which operands, and what they return.
//!
//! An operand is a scalar or a container of one of four kinds. The kinds are
//! ranked by how structured they are. For each operator and each pair of
//! operand kinds, [`rule`] says whether the operation is defined, how it
//! treats its operands, what kind the result has and whether it allocates.
use vstd::prelude::*;
use crate::mat22::Mat22;
use crate::mat33::Mat33;
use crate::scalar::{total, Additive, Commutative, Op, Scalar};
use crate::vec2::Vec2;
use crate::vec3::Vec3;

verus! {

/// What an operand is, from the least structured to the most.
#[derive(Clone, Copy, Debug, PartialEq, Eq, Structural)]
pub enum Kind {
    /// A single scalar or a single vector.
    Scalar,
    /// A container over storage that is never released for it.
    Raw,
    /// A container that borrows its storage.
    Window,
    /// A container that owns heap storage.
    Boxed,
    /// A container whose length is part of its type.
    Fixed,
}

/// How an operation treats its operands.
#[derive(Clone, Copy, Debug, PartialEq, Eq, Structural)]
pub enum Mode {
    /// One operand is a scalar and is applied to every element of the other.
    /// No lengths are compared.
    Broadcast,
    /// Both operands are containers, combined index by index. The lengths
    /// must agree.
    Elementwise,
    /// Both operands are containers, and each pair of elements at one index
    /// is reduced to a scalar: the dot product. The lengths must agree.
    Reduction,
}

/// What [`rule`] says of a defined operation.
#[derive(Clone, Copy, Debug, PartialEq, Eq, Structural)]
pub struct Rule {
    pub mode: Mode,
    /// The kind of the container that holds the result.
    pub result: Kind,
    /// Whether the operation acquires heap storage for its result.
    pub allocates: bool,
}

impl Kind {
    pub open spec fn spec_rank(self) -> u8 {
        match self {
            Kind::Scalar => 0,
            Kind::Raw => 1,
            Kind::Window => 2,
            Kind::Boxed => 3,
            Kind::Fixed => 4,
        }
    }

    pub open spec fn spec_is_container(self) -> bool {
        self != Kind::Scalar
    }

    pub open spec fn spec_owns_results(self) -> bool {
        self == Kind::Fixed || self == Kind::Boxed
    }

    /// The place of the kind in the ranking: a larger number for a more
    /// structured kind.
    #[verifier::when_used_as_spec(spec_rank)]
    pub fn rank(self) -> (r: u8)
        ensures
            r == self.spec_rank(),
    {
        match self {
            Kind::Scalar => 0,
            Kind::Raw => 1,
            Kind::Window => 2,
            Kind::Boxed => 3,
            Kind::Fixed => 4,
        }
    }

    /// Whether the operand is a container rather than a single value.
    #[verifier::when_used_as_spec(spec_is_container)]
    pub fn is_container(self) -> (r: bool)
        ensures
            r == self.spec_is_container(),
    {
        self.rank() > 0
    }

    /// Whether a container of this kind can hold the result of an operation
    /// that produces a new value. A window and a raw container cannot: they
    /// have no storage of their own to give to a result.
    #[verifier::when_used_as_spec(spec_owns_results)]
    pub fn owns_results(self) -> (r: bool)
        ensures
            r == self.spec_owns_results(),
    {
        self.rank() >= 3
    }
}

/// The more structured of two kinds.
pub open spec fn more_structured(a: Kind, b: Kind) -> Kind {
    if a.rank() >= b.rank() {
        a
    } else {
        b
    }
}

/// Whether `lhs op rhs` is defined: as a new value, or in place (`lhs op= rhs`).
///
/// Two single values are no operands of a container operation. A scalar on
/// the left is accepted only by the operators that commute, and never in
/// place. Between two containers there is no division, and the product is the
/// dot product, which cannot be taken in place.
pub open spec fn defined(op: Op, in_place: bool, lhs: Kind, rhs: Kind) -> bool {
    if lhs.is_container() && rhs.is_container() {
        match op {
            Op::Add | Op::Sub => true,
            Op::Mul => !in_place,
            Op::Div => false,
        }
    } else if lhs.is_container() {
        true
    } else if rhs.is_container() {
        !in_place && (op == Op::Add || op == Op::Mul)
    } else {
        false
    }
}

/// How a defined operation treats its operands.
pub open spec fn mode_of(op: Op, lhs: Kind, rhs: Kind) -> Mode {
    if !lhs.is_container() || !rhs.is_container() {
        Mode::Broadcast
    } else if op == Op::Mul {
        Mode::Reduction
    } else {
        Mode::Elementwise
    }
}

/// The kind of the container that holds the result of a defined operation.
///
/// In place it is the left operand. A new value takes the more structured of
/// the two operand kinds if that kind can own a result, and is promoted to a
/// boxed container if it cannot.
pub open spec fn result_of(in_place: bool, lhs: Kind, rhs: Kind) -> Kind {
    if in_place {
        lhs
    } else if more_structured(lhs, rhs).owns_results() {
        more_structured(lhs, rhs)
    } else {
        Kind::Boxed
    }
}

/// The rule for `lhs op rhs`, or for `lhs op= rhs` when `in_place` is set;
/// `None` when the operation is not defined.
pub fn rule(op: Op, in_place: bool, lhs: Kind, rhs: Kind) -> (r: Option<Rule>)
    ensures
        r is Some <==> defined(op, in_place, lhs, rhs),
        r matches Some(x) ==> {
            &&& x.mode == mode_of(op, lhs, rhs)
            &&& x.result == result_of(in_place, lhs, rhs)
            &&& x.allocates == (!in_place && x.result != Kind::Fixed)
            &&& x.result.is_container()
            &&& !in_place ==> x.result.owns_results()
            &&& x.mode == Mode::Broadcast <==> !(lhs.is_container() && rhs.is_container())
        },
{
    let both: bool = lhs.is_container() && rhs.is_container();
    let mode: Mode = if !both {
        Mode::Broadcast
    } else {
        match op {
            Op::Mul => Mode::Reduction,
            _ => Mode::Elementwise,
        }
    };
    let legal: bool = if both {
        match op {
            Op::Add => true,
            Op::Sub => true,
            Op::Mul => !in_place,
            Op::Div => false,
        }
    } else if lhs.is_container() {
        true
    } else if rhs.is_container() {
        match op {
            Op::Add => !in_place,
            Op::Mul => !in_place,
            _ => false,
        }
    } else {
        false
    };
    if !legal {
        return None;
    }
    let result: Kind = if in_place {
        lhs
    } else {
        match (lhs, rhs) {
            (Kind::Fixed, _) => Kind::Fixed,
            (_, Kind::Fixed) => Kind::Fixed,
            _ => Kind::Boxed,
        }
    };
    let allocates: bool = !in_place && match result {
        Kind::Fixed => false,
        _ => true,
    };
    Some(Rule { mode, result, allocates })
}

/// The operators that the functions of this library take are those that
/// [`rule`] defines. Between two containers, index by index, as a new value
/// and in place: the additive ones and no other. With a scalar on the left of
/// a container: the commutative ones and no other. With a scalar on the
/// right: every one.
pub proof fn operator_classes(op: Op, in_place: bool, lhs: Kind, rhs: Kind)
    requires
        lhs.is_container(),
        rhs.is_container(),
    ensures
        defined(op, in_place, lhs, rhs) && mode_of(op, lhs, rhs) == Mode::Elementwise <==> exists|
            a: Additive,
        | a.op() == op,
        defined(op, false, Kind::Scalar, rhs) <==> exists|c: Commutative| c.op() == op,
        defined(op, in_place, lhs, Kind::Scalar),
{
    assert(Additive::Add.op() == Op::Add);
    assert(Additive::Sub.op() == Op::Sub);
    assert(Commutative::Add.op() == Op::Add);
    assert(Commutative::Mul.op() == Op::Mul);
}

/// Associates an operand type with the integer type that tags its class, and
/// with its kind.
pub trait Assoc {
    /// `i8` for fixed-size containers, `i16` for boxed ones, `i32` for the
    /// containers that only index storage, `i64` for single values.
    type ID;

    spec fn spec_kind() -> Kind;

    /// The kind of the operand.
    fn kind() -> (k: Kind)
        ensures
            k == Self::spec_kind(),
    ;
}

/// The fixed-size containers of `N` elements.
pub trait VArr<const N: usize>: Assoc<ID = i8> {
    proof fn is_fixed()
        ensures
            Self::spec_kind() == Kind::Fixed,
    ;
}

/// The boxed containers.
pub trait VBox: Assoc<ID = i16> {
    proof fn is_boxed()
        ensures
            Self::spec_kind() == Kind::Boxed,
    ;
}

/// The containers that index storage which is not theirs to release: windows
/// and raw containers. A new value computed from them is boxed.
pub trait VInd: Assoc<ID = i32> {
    proof fn is_indexed()
        ensures
            Self::spec_kind() == Kind::Window || Self::spec_kind() == Kind::Raw,
    ;
}

/// The operands that are no containers: scalars and single vectors.
pub trait VNot: Assoc<ID = i64> {
    proof fn is_single()
        ensures
            Self::spec_kind() == Kind::Scalar,
    ;
}

/// The arithmetic of an operand with a right-hand operand of type `Rhs`, by
/// the names of the operators: the four that produce a new value, and the
/// four that work in place. `F` is the type of the arithmetic unit.
///
/// It is implemented where all eight are defined, which is with a scalar on
/// the right: for the vectors, the matrices, and the containers of every
/// kind. A new value computed from a window or from a raw container is boxed.
pub trait BoxValue<Rhs, F: Fn(Op, Scalar, Scalar) -> Scalar>: Sized {
    /// What an operator that produces a new value returns.
    type Output;

    /// `r` is a value of `a op rhs`.
    spec fn is_value(
        fpu: &F,
        op: Op,
        a: &Self,
        rhs: Rhs,
        r: &Self::Output,
    ) -> bool;

    /// `r` is a value of `a` after `a op= rhs`.
    spec fn is_update(
        fpu: &F,
        op: Op,
        a: &Self,
        rhs: Rhs,
        r: &Self,
    ) -> bool;

    /// `self op rhs` as a new value.
    fn value(&self, op: Op, rhs: Rhs, fpu: &F) -> (r:
        Self::Output)
        requires
            total(fpu),
        ensures
            Self::is_value(fpu, op, self, rhs, &r),
    ;

    /// `self op= rhs`.
    fn update(&mut self, op: Op, rhs: Rhs, fpu: &F)
        requires
            total(fpu),
        ensures
            Self::is_update(fpu, op, old(self), rhs, final(self)),
    ;

    /// `self + rhs`.
    fn add(self, rhs: Rhs, fpu: &F) -> (r: Self::Output)
        requires
            total(fpu),
        ensures
            Self::is_value(fpu, Op::Add, &self, rhs, &r),
    {
        self.value(Op::Add, rhs, fpu)
    }

    /// `self / rhs`.
    fn div(self, rhs: Rhs, fpu: &F) -> (r: Self::Output)
        requires
            total(fpu),
        ensures
            Self::is_value(fpu, Op::Div, &self, rhs, &r),
    {
        self.value(Op::Div, rhs, fpu)
    }

    /// `self * rhs`.
    fn mul(self, rhs: Rhs, fpu: &F) -> (r: Self::Output)
        requires
            total(fpu),
        ensures
            Self::is_value(fpu, Op::Mul, &self, rhs, &r),
    {
        self.value(Op::Mul, rhs, fpu)
    }

    /// `self - rhs`.
    fn sub(self, rhs: Rhs, fpu: &F) -> (r: Self::Output)
        requires
            total(fpu),
        ensures
            Self::is_value(fpu, Op::Sub, &self, rhs, &r),
    {
        self.value(Op::Sub, rhs, fpu)
    }

    /// `self += rhs`.
    fn add_assign(&mut self, rhs: Rhs, fpu: &F)
        requires
            total(fpu),
        ensures
            Self::is_update(fpu, Op::Add, old(self), rhs, final(self)),
    {
        self.update(Op::Add, rhs, fpu)
    }

    /// `self /= rhs`.
    fn div_assign(&mut self, rhs: Rhs, fpu: &F)
        requires
            total(fpu),
        ensures
            Self::is_update(fpu, Op::Div, old(self), rhs, final(self)),
    {
        self.update(Op::Div, rhs, fpu)
    }

    /// `self *= rhs`.
    fn mul_assign(&mut self, rhs: Rhs, fpu: &F)
        requires
            total(fpu),
        ensures
            Self::is_update(fpu, Op::Mul, old(self), rhs, final(self)),
    {
        self.update(Op::Mul, rhs, fpu)
    }

    /// `self -= rhs`.
    fn sub_assign(&mut self, rhs: Rhs, fpu: &F)
        requires
            total(fpu),
        ensures
            Self::is_update(fpu, Op::Sub, old(self), rhs, final(self)),
    {
        self.update(Op::Sub, rhs, fpu)
    }
}

impl<F: Fn(Op, Scalar, Scalar) -> Scalar> BoxValue<Scalar, F> for Vec2 {
    type Output = Vec2;

    open spec fn is_value(
        fpu: &F,
        op: Op,
        a: &Vec2,
        rhs: Scalar,
        r: &Vec2,
    ) -> bool {
        Vec2::is_broadcast(fpu, op, *a, rhs, *r)
    }

    open spec fn is_update(
        fpu: &F,
        op: Op,
        a: &Vec2,
        rhs: Scalar,
        r: &Vec2,
    ) -> bool {
        Vec2::is_broadcast(fpu, op, *a, rhs, *r)
    }

    fn value(&self, op: Op, rhs: Scalar, fpu: &F) -> (r: Vec2) {
        self.broadcast(op, rhs, fpu)
    }

    fn update(&mut self, op: Op, rhs: Scalar, fpu: &F) {
        self.broadcast_assign(op, rhs, fpu)
    }
}

impl<F: Fn(Op, Scalar, Scalar) -> Scalar> BoxValue<Scalar, F> for Vec3 {
    type Output = Vec3;

    open spec fn is_value(
        fpu: &F,
        op: Op,
        a: &Vec3,
        rhs: Scalar,
        r: &Vec3,
    ) -> bool {
        Vec3::is_broadcast(fpu, op, *a, rhs, *r)
    }

    open spec fn is_update(
        fpu: &F,
        op: Op,
        a: &Vec3,
        rhs: Scalar,
        r: &Vec3,
    ) -> bool {
        Vec3::is_broadcast(fpu, op, *a, rhs, *r)
    }

    fn value(&self, op: Op, rhs: Scalar, fpu: &F) -> (r: Vec3) {
        self.broadcast(op, rhs, fpu)
    }

    fn update(&mut self, op: Op, rhs: Scalar, fpu: &F) {
        self.broadcast_assign(op, rhs, fpu)
    }
}

impl<F: Fn(Op, Scalar, Scalar) -> Scalar> BoxValue<Scalar, F> for Mat22 {
    type Output = Mat22;

    open spec fn is_value(
        fpu: &F,
        op: Op,
        a: &Mat22,
        rhs: Scalar,
        r: &Mat22,
    ) -> bool {
        Mat22::is_broadcast(fpu, op, *a, rhs, *r)
    }

    open spec fn is_update(
        fpu: &F,
        op: Op,
        a: &Mat22,
        rhs: Scalar,
        r: &Mat22,
    ) -> bool {
        Mat22::is_broadcast(fpu, op, *a, rhs, *r)
    }

    fn value(&self, op: Op, rhs: Scalar, fpu: &F) -> (r: Mat22) {
        self.broadcast(op, rhs, fpu)
    }

    fn update(&mut self, op: Op, rhs: Scalar, fpu: &F) {
        self.broadcast_assign(op, rhs, fpu)
    }
}

impl<F: Fn(Op, Scalar, Scalar) -> Scalar> BoxValue<Scalar, F> for Mat33 {
    type Output = Mat33;

    open spec fn is_value(
        fpu: &F,
        op: Op,
        a: &Mat33,
        rhs: Scalar,
        r: &Mat33,
    ) -> bool {
        Mat33::is_broadcast(fpu, op, *a, rhs, *r)
    }

    open spec fn is_update(
        fpu: &F,
        op: Op,
        a: &Mat33,
        rhs: Scalar,
        r: &Mat33,
    ) -> bool {
        Mat33::is_broadcast(fpu, op, *a, rhs, *r)
    }

    fn value(&self, op: Op, rhs: Scalar, fpu: &F) -> (r: Mat33) {
        self.broadcast(op, rhs, fpu)
    }

    fn update(&mut self, op: Op, rhs: Scalar, fpu: &F) {
        self.broadcast_assign(op, rhs, fpu)
    }
}

impl Assoc for Scalar {
    type ID = i64;

    open spec fn spec_kind() -> Kind {
        Kind::Scalar
    }

    fn kind() -> (k: Kind) {
        Kind::Scalar
    }
}

impl VNot for Scalar {
    proof fn is_single() {
    }
}

impl Assoc for Vec2 {
    type ID = i64;

    open spec fn spec_kind() -> Kind {
        Kind::Scalar
    }

    fn kind() -> (k: Kind) {
        Kind::Scalar
    }
}

impl VNot for Vec2 {
    proof fn is_single() {
    }
}

impl Assoc for Vec3 {
    type ID = i64;

    open spec fn spec_kind() -> Kind {
        Kind::Scalar
    }

    fn kind() -> (k: Kind) {
        Kind::Scalar
    }
}

impl VNot for Vec3 {
    proof fn is_single() {
    }
}

} // verus!
