use vstd::math::abs;
use vstd::prelude::*;

verus! {

/// The scalar kind stored in every component of a vector or matrix.
#[derive(Clone, Copy, Debug, PartialEq, Eq, Structural)]
pub enum ElementKind {
    Unsigned,
    Signed,
    Float,
}

/// An elementwise arithmetic operation.
#[derive(Clone, Copy, Debug, PartialEq, Eq, Structural)]
pub enum Op {
    Add,
    Sub,
    Mul,
    Div,
}

/// Integer division that rounds toward zero, as Rust's `/` does.
pub open spec fn div_trunc(a: int, b: int) -> int {
    if a >= 0 && b > 0 {
        a / b
    } else if a >= 0 {
        -(a / -b)
    } else if b > 0 {
        -((-a) / b)
    } else {
        (-a) / (-b)
    }
}

/// The mathematical value of `op` on two integers.
pub open spec fn apply_op(op: Op, a: int, b: int) -> int {
    match op {
        Op::Add => a + b,
        Op::Sub => a - b,
        Op::Mul => a * b,
        Op::Div => div_trunc(a, b),
    }
}

/// Whether `v` can be stored in the scalar type `T`.
pub open spec fn fits<T: Scalar>(v: int) -> bool {
    T::lo() <= v <= T::hi()
}

/// Whether `op` on `a` and `b` is defined for `T`: no division by zero, and
/// the exact result fits.
pub open spec fn op_ok<T: Scalar>(op: Op, a: int, b: int) -> bool {
    &&& (op == Op::Div ==> b != 0)
    &&& fits::<T>(apply_op(op, a, b))
}

/// An integer scalar type whose arithmetic is exact within its range.
pub trait Scalar: Copy + Sized {
    /// The mathematical value of a scalar.
    spec fn val(self) -> int;

    /// The smallest value the type holds.
    spec fn lo() -> int;

    /// The largest value the type holds.
    spec fn hi() -> int;

    /// The scalar whose value is `v`, for `v` in range.
    spec fn from_val(v: int) -> Self;

    /// A scalar is in range and is the scalar of its value.
    proof fn lemma_range(self)
        ensures
            Self::lo() <= self.val() <= Self::hi(),
            Self::from_val(self.val()) == self,
    ;

    /// Zero and one are in range.
    proof fn lemma_bounds()
        ensures
            Self::lo() <= 0,
            1 <= Self::hi(),
    ;

    /// The scalar of an in-range value has that value.
    proof fn lemma_from_val(v: int)
        requires
            Self::lo() <= v <= Self::hi(),
        ensures
            Self::from_val(v).val() == v,
    ;

    /// The scalar zero.
    fn zero() -> (r: Self)
        ensures
            r.val() == 0,
    ;

    /// The scalar one.
    fn one() -> (r: Self)
        ensures
            r.val() == 1,
    ;

    /// `op` applied to two scalars, exactly.
    fn calc(op: Op, a: Self, b: Self) -> (r: Self)
        requires
            op == Op::Div ==> b.val() != 0,
            Self::lo() <= apply_op(op, a.val(), b.val()) <= Self::hi(),
        ensures
            r.val() == apply_op(op, a.val(), b.val()),
    ;
}

/// A scalar type with negation and absolute value.
pub trait SignedScalar: Scalar {
    /// `-self`, exactly.
    fn negate(self) -> (r: Self)
        requires
            Self::lo() <= -self.val() <= Self::hi(),
        ensures
            r.val() == -self.val(),
    ;

    /// `|self|`, exactly.
    fn absolute(self) -> (r: Self)
        requires
            abs(self.val()) <= Self::hi(),
        ensures
            r.val() == abs(self.val()),
    ;
}

impl Scalar for u32 {
    open spec fn val(self) -> int {
        self as int
    }

    open spec fn lo() -> int {
        0
    }

    open spec fn hi() -> int {
        u32::MAX as int
    }

    open spec fn from_val(v: int) -> u32 {
        v as u32
    }

    /// A scalar is in range and is the scalar of its value.
    proof fn lemma_range(self) {
    }

    proof fn lemma_bounds() {
    }

    proof fn lemma_from_val(v: int) {
    }

    fn zero() -> (r: u32) {
        0
    }

    fn one() -> (r: u32) {
        1
    }

    fn calc(op: Op, a: u32, b: u32) -> (r: u32) {
        match op {
            Op::Add => a + b,
            Op::Sub => a - b,
            Op::Mul => a * b,
            Op::Div => a / b,
        }
    }
}

impl Scalar for i32 {
    open spec fn val(self) -> int {
        self as int
    }

    open spec fn lo() -> int {
        i32::MIN as int
    }

    open spec fn hi() -> int {
        i32::MAX as int
    }

    open spec fn from_val(v: int) -> i32 {
        v as i32
    }

    /// A scalar is in range and is the scalar of its value.
    proof fn lemma_range(self) {
    }

    proof fn lemma_bounds() {
    }

    proof fn lemma_from_val(v: int) {
    }

    fn zero() -> (r: i32) {
        0
    }

    fn one() -> (r: i32) {
        1
    }

    fn calc(op: Op, a: i32, b: i32) -> (r: i32) {
        match op {
            Op::Add => a + b,
            Op::Sub => a - b,
            Op::Mul => a * b,
            Op::Div => {
                let ua: i64 = if a < 0 { -(a as i64) } else { a as i64 };
                let ub: i64 = if b < 0 { -(b as i64) } else { b as i64 };
                let uq: i64 = ua / ub;
                let q: i64 = if (a < 0) != (b < 0) { -uq } else { uq };
                q as i32
            },
        }
    }
}

impl SignedScalar for i32 {
    fn negate(self) -> (r: i32) {
        -self
    }

    fn absolute(self) -> (r: i32) {
        if self < 0 {
            -self
        } else {
            self
        }
    }
}

/// `op` applied to matching components of `a` and `b`.
pub open spec fn zip_op(op: Op, a: Seq<int>, b: Seq<int>) -> Seq<int> {
    Seq::new(a.len(), |i: int| apply_op(op, a[i], b[i]))
}

/// `op` applied to every component of `a` and the scalar `s`.
pub open spec fn scalar_op(op: Op, a: Seq<int>, s: int) -> Seq<int> {
    Seq::new(a.len(), |i: int| apply_op(op, a[i], s))
}

/// Every component of `a` negated.
pub open spec fn negated(a: Seq<int>) -> Seq<int> {
    Seq::new(a.len(), |i: int| -a[i])
}

/// The absolute value of every component of `a`.
pub open spec fn absolute(a: Seq<int>) -> Seq<int> {
    Seq::new(a.len(), |i: int| abs(a[i]) as int)
}

/// Every component of `a` fits in `T`.
pub open spec fn all_fit<T: Scalar>(a: Seq<int>) -> bool {
    forall|i: int| 0 <= i < a.len() ==> fits::<T>(#[trigger] a[i])
}

/// `op` is defined for `T` on every pair of matching components.
pub open spec fn zip_ok<T: Scalar>(op: Op, a: Seq<int>, b: Seq<int>) -> bool {
    forall|i: int| 0 <= i < a.len() ==> op_ok::<T>(op, #[trigger] a[i], b[i])
}

/// `op` with the scalar `s` is defined for `T` on every component.
pub open spec fn scalar_ok<T: Scalar>(op: Op, a: Seq<int>, s: int) -> bool {
    forall|i: int| 0 <= i < a.len() ==> op_ok::<T>(op, #[trigger] a[i], s)
}

} // verus!
