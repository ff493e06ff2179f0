//! Scalars as bit patterns, the operations of an arithmetic unit, and the
//! small formulas that the vector and matrix types are built from.
use vstd::prelude::*;

verus! {

/// The bit that holds the sign of a scalar.
pub const SIGN_BIT: u32 = 0x8000_0000;

/// The magnitude bits of an infinity; any larger magnitude is a NaN.
pub const INFINITY_BITS: u32 = 0x7f80_0000;

/// A single-precision number, held as its IEEE 754 binary32 bit pattern.
#[derive(Clone, Copy, Debug)]
pub struct Scalar {
    pub bits: u32,
}

/// The four rounding operations that an arithmetic unit performs.
#[derive(Clone, Copy, Debug, PartialEq, Eq, Structural)]
pub enum Op {
    Add,
    Sub,
    Mul,
    Div,
}

/// The operators between two operands of one shape, taken part by part: two
/// vectors, two matrices or two containers. Their product is not among them:
/// it is the dot product for vectors and containers and the matrix product
/// for matrices. Nor is a quotient, which they do not have.
#[derive(Clone, Copy, Debug, PartialEq, Eq, Structural)]
pub enum Additive {
    Add,
    Sub,
}

/// The operators that take a scalar on the left of a vector, a matrix or a
/// container: those that give the same number in either order.
#[derive(Clone, Copy, Debug, PartialEq, Eq, Structural)]
pub enum Commutative {
    Add,
    Mul,
}

impl Additive {
    pub open spec fn spec_op(self) -> Op {
        match self {
            Additive::Add => Op::Add,
            Additive::Sub => Op::Sub,
        }
    }

    /// The operation of the arithmetic unit that the operator stands for.
    #[verifier::when_used_as_spec(spec_op)]
    pub fn op(self) -> (r: Op)
        ensures
            r == self.spec_op(),
    {
        match self {
            Additive::Add => Op::Add,
            Additive::Sub => Op::Sub,
        }
    }
}

impl Commutative {
    pub open spec fn spec_op(self) -> Op {
        match self {
            Commutative::Add => Op::Add,
            Commutative::Mul => Op::Mul,
        }
    }

    /// The operation of the arithmetic unit that the operator stands for.
    #[verifier::when_used_as_spec(spec_op)]
    pub fn op(self) -> (r: Op)
        ensures
            r == self.spec_op(),
    {
        match self {
            Commutative::Add => Op::Add,
            Commutative::Mul => Op::Mul,
        }
    }
}

impl Scalar {
    /// The bit pattern without its sign bit.
    pub open spec fn magnitude(self) -> u32 {
        if self.bits >= SIGN_BIT {
            (self.bits - SIGN_BIT) as u32
        } else {
            self.bits
        }
    }

    /// Whether the sign bit is set.
    pub open spec fn is_negative(self) -> bool {
        self.bits >= SIGN_BIT
    }

    pub open spec fn spec_is_nan(self) -> bool {
        self.magnitude() > INFINITY_BITS
    }

    pub open spec fn spec_is_zero(self) -> bool {
        self.magnitude() == 0
    }

    /// Equality of the two numbers as IEEE 754 defines it: a NaN equals
    /// nothing, the two zeros equal each other, and any other two numbers are
    /// equal when their bit patterns are.
    pub open spec fn same(self, rhs: Scalar) -> bool {
        &&& !self.spec_is_nan()
        &&& !rhs.spec_is_nan()
        &&& (self.bits == rhs.bits || (self.spec_is_zero() && rhs.spec_is_zero()))
    }

    pub open spec fn spec_neg(self) -> Scalar {
        if self.bits >= SIGN_BIT {
            Scalar { bits: (self.bits - SIGN_BIT) as u32 }
        } else {
            Scalar { bits: (self.bits + SIGN_BIT) as u32 }
        }
    }

    pub open spec fn spec_zero() -> Scalar {
        Scalar { bits: 0 }
    }

    pub open spec fn spec_one() -> Scalar {
        Scalar { bits: 0x3f80_0000 }
    }

    pub open spec fn spec_minus_one() -> Scalar {
        Scalar { bits: 0xbf80_0000 }
    }

    /// Positive zero.
    #[verifier::when_used_as_spec(spec_zero)]
    pub fn zero() -> (r: Scalar)
        ensures
            r == Scalar::spec_zero(),
    {
        Scalar { bits: 0 }
    }

    /// The number 1: no sign, a biased exponent of 127 and an empty fraction.
    #[verifier::when_used_as_spec(spec_one)]
    pub fn one() -> (r: Scalar)
        ensures
            r == Scalar::spec_one(),
    {
        Scalar { bits: 0x3f80_0000 }
    }

    /// The number -1, which is 1 with the sign bit set.
    #[verifier::when_used_as_spec(spec_minus_one)]
    pub fn minus_one() -> (r: Scalar)
        ensures
            r == Scalar::spec_minus_one(),
    {
        Scalar { bits: 0xbf80_0000 }
    }

    /// The bit pattern with the sign bit cleared.
    pub fn magnitude_bits(self) -> (r: u32)
        ensures
            r == self.magnitude(),
    {
        if self.bits >= SIGN_BIT {
            self.bits - SIGN_BIT
        } else {
            self.bits
        }
    }

    /// Whether the bit pattern is that of a NaN: an exponent of all ones and
    /// a fraction that is not empty.
    #[verifier::when_used_as_spec(spec_is_nan)]
    pub fn is_nan(self) -> (r: bool)
        ensures
            r == self.spec_is_nan(),
    {
        self.magnitude_bits() > INFINITY_BITS
    }

    /// Whether the number is zero of either sign.
    #[verifier::when_used_as_spec(spec_is_zero)]
    pub fn is_zero(self) -> (r: bool)
        ensures
            r == self.spec_is_zero(),
    {
        self.magnitude_bits() == 0
    }

    /// The number with its sign reversed. Negation only flips the sign bit,
    /// for a NaN as for any other value, so it needs no arithmetic unit.
    #[verifier::when_used_as_spec(spec_neg)]
    pub fn neg(self) -> (r: Scalar)
        ensures
            r == self.spec_neg(),
            r.magnitude() == self.magnitude(),
            r.is_negative() != self.is_negative(),
    {
        if self.bits >= SIGN_BIT {
            Scalar { bits: self.bits - SIGN_BIT }
        } else {
            Scalar { bits: self.bits + SIGN_BIT }
        }
    }
}

impl PartialEq for Scalar {
    fn eq(&self, rhs: &Scalar) -> (r: bool) {
        !self.is_nan() && !rhs.is_nan() && (self.bits == rhs.bits || (self.is_zero()
            && rhs.is_zero()))
    }
}

impl vstd::std_specs::cmp::PartialEqSpecImpl for Scalar {
    open spec fn obeys_eq_spec() -> bool {
        true
    }

    open spec fn eq_spec(&self, rhs: &Scalar) -> bool {
        self.same(*rhs)
    }
}

/// An arithmetic unit that accepts every operation on every pair of operands.
pub open spec fn total<F: Fn(Op, Scalar, Scalar) -> Scalar>(fpu: &F) -> bool {
    forall|op: Op, a: Scalar, b: Scalar| #[trigger] fpu.requires((op, a, b))
}

/// The unit computes the function `val`: whatever it returns for an operation
/// on two operands is `val` of the three.
pub open spec fn computes<F: Fn(Op, Scalar, Scalar) -> Scalar>(
    fpu: &F,
    val: spec_fn(Op, Scalar, Scalar) -> Scalar,
) -> bool {
    forall|op: Op, a: Scalar, b: Scalar, r: Scalar| #[trigger]
        fpu.ensures((op, a, b), r) ==> r == val(op, a, b)
}

/// A square-root function that accepts every operand.
pub open spec fn total_root<R: Fn(Scalar) -> Scalar>(root: &R) -> bool {
    forall|a: Scalar| #[trigger] root.requires((a,))
}

/// `r` is a value of `a * b - c * d`: the unit can return `r` for the
/// difference of two products that it can return.
pub open spec fn is_minor<F: Fn(Op, Scalar, Scalar) -> Scalar>(
    fpu: &F,
    a: Scalar,
    b: Scalar,
    c: Scalar,
    d: Scalar,
    r: Scalar,
) -> bool {
    exists|p: Scalar, q: Scalar|
        #![trigger fpu.ensures((Op::Mul, a, b), p), fpu.ensures((Op::Mul, c, d), q)]
        fpu.ensures((Op::Mul, a, b), p) && fpu.ensures((Op::Mul, c, d), q) && fpu.ensures(
            (Op::Sub, p, q),
            r,
        )
}

/// `r` is a value of `a1 * b1 + a2 * b2`.
pub open spec fn is_dot2<F: Fn(Op, Scalar, Scalar) -> Scalar>(
    fpu: &F,
    a1: Scalar,
    b1: Scalar,
    a2: Scalar,
    b2: Scalar,
    r: Scalar,
) -> bool {
    exists|p: Scalar, q: Scalar|
        #![trigger fpu.ensures((Op::Mul, a1, b1), p), fpu.ensures((Op::Mul, a2, b2), q)]
        fpu.ensures((Op::Mul, a1, b1), p) && fpu.ensures((Op::Mul, a2, b2), q) && fpu.ensures(
            (Op::Add, p, q),
            r,
        )
}

/// `r` is a value of `(a1 * b1 + a2 * b2) + a3 * b3`, summed in that order.
pub open spec fn is_dot3<F: Fn(Op, Scalar, Scalar) -> Scalar>(
    fpu: &F,
    a1: Scalar,
    b1: Scalar,
    a2: Scalar,
    b2: Scalar,
    a3: Scalar,
    b3: Scalar,
    r: Scalar,
) -> bool {
    exists|s: Scalar, p: Scalar|
        #![trigger is_dot2(fpu, a1, b1, a2, b2, s), fpu.ensures((Op::Mul, a3, b3), p)]
        is_dot2(fpu, a1, b1, a2, b2, s) && fpu.ensures((Op::Mul, a3, b3), p) && fpu.ensures(
            (Op::Add, s, p),
            r,
        )
}

/// Computes `a * b - c * d`, the determinant of a two by two block.
pub fn minor<F: Fn(Op, Scalar, Scalar) -> Scalar>(
    a: Scalar,
    b: Scalar,
    c: Scalar,
    d: Scalar,
    fpu: &F,
) -> (r: Scalar)
    requires
        total(fpu),
    ensures
        is_minor(fpu, a, b, c, d, r),
{
    let p = fpu(Op::Mul, a, b);
    let q = fpu(Op::Mul, c, d);
    fpu(Op::Sub, p, q)
}

/// Computes `a1 * b1 + a2 * b2`.
pub fn dot2<F: Fn(Op, Scalar, Scalar) -> Scalar>(
    a1: Scalar,
    b1: Scalar,
    a2: Scalar,
    b2: Scalar,
    fpu: &F,
) -> (r: Scalar)
    requires
        total(fpu),
    ensures
        is_dot2(fpu, a1, b1, a2, b2, r),
{
    let p = fpu(Op::Mul, a1, b1);
    let q = fpu(Op::Mul, a2, b2);
    fpu(Op::Add, p, q)
}

/// Computes `(a1 * b1 + a2 * b2) + a3 * b3`.
pub fn dot3<F: Fn(Op, Scalar, Scalar) -> Scalar>(
    a1: Scalar,
    b1: Scalar,
    a2: Scalar,
    b2: Scalar,
    a3: Scalar,
    b3: Scalar,
    fpu: &F,
) -> (r: Scalar)
    requires
        total(fpu),
    ensures
        is_dot3(fpu, a1, b1, a2, b2, a3, b3, r),
{
    let s = dot2(a1, b1, a2, b2, fpu);
    let p = fpu(Op::Mul, a3, b3);
    fpu(Op::Add, s, p)
}

} // verus!
