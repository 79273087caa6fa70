//! Scalars: the component type of vectors, points, boxes and rays.
//!
//! A scalar is a bounded integer: it has a value in `int`, and its arithmetic is
//! that of the integers wherever the result lies between `min_int()` and
//! `max_int()`. Where a result would not, the operation is not defined, and
//! callers keep away from it.
use core::ops::Add;
use core::ops::Div;
use core::ops::Mul;
use core::ops::Neg;
use core::ops::Sub;
use vstd::prelude::*;
use vstd::std_specs::cmp::PartialOrdIs;
use vstd::std_specs::cmp::PartialOrdSpec;
use vstd::std_specs::ops::AddSpec;
use vstd::std_specs::ops::DivSpec;
use vstd::std_specs::ops::MulSpec;
use vstd::std_specs::ops::NegSpec;
use vstd::std_specs::ops::SubSpec;

verus! {

/// The absolute value of an integer.
pub open spec fn abs_int(v: int) -> int {
    if v < 0 {
        -v
    } else {
        v
    }
}

/// The sign of an integer: -1, 0 or 1.
pub open spec fn signum_int(v: int) -> int {
    if v < 0 {
        -1
    } else if v == 0 {
        0
    } else {
        1
    }
}

/// The smaller of two integers.
pub open spec fn lesser(a: int, b: int) -> int {
    if a <= b {
        a
    } else {
        b
    }
}

/// The larger of two integers.
pub open spec fn greater(a: int, b: int) -> int {
    if a >= b {
        a
    } else {
        b
    }
}

/// The quotient of `a` by `b` rounded toward zero, as machine division gives it.
/// (On `int`, `/` is Euclidean: its remainder is never negative.)
pub open spec fn trunc_div(a: int, b: int) -> int
    recommends
        b != 0,
{
    if a >= 0 {
        a / b
    } else {
        -((-a) / b)
    }
}

/// Whether `v` is the value of some scalar of type `T`.
pub open spec fn fits<T: Numeric>(v: int) -> bool {
    T::min_int() <= v <= T::max_int()
}

/// What a type must offer to be the component type of a vector: the four
/// arithmetic operators and negation, an order, a default, and the methods
/// below. The spec functions give the type its model, and the lemmas tie the
/// operators of the type to that model.
pub trait Numeric: Copy + Default + Add<Output = Self> + Sub<Output = Self> + Mul<
    Output = Self,
> + Div<Output = Self> + Neg<Output = Self> + PartialEq + PartialOrd {
    /// The integer that the scalar stands for.
    spec fn as_int(self) -> int;

    /// The scalar that stands for `v`, where `v` fits.
    spec fn from_int(v: int) -> Self;

    /// The least value of a scalar.
    spec fn min_int() -> int;

    /// The greatest value of a scalar.
    spec fn max_int() -> int;

    /// Every scalar has a value in range, and is the only one with that value.
    proof fn lemma_as_int(x: Self)
        ensures
            Self::min_int() <= x.as_int() <= Self::max_int(),
            Self::from_int(x.as_int()) == x,
    ;

    /// Every integer in range is the value of a scalar.
    proof fn lemma_from_int(v: int)
        requires
            Self::min_int() <= v <= Self::max_int(),
        ensures
            Self::from_int(v).as_int() == v,
    ;

    /// Zero is the value of a scalar.
    proof fn lemma_zero()
        ensures
            Self::min_int() <= 0 <= Self::max_int(),
    ;

    /// The default is zero.
    proof fn lemma_default(d: Self)
        requires
            call_ensures(Self::default, (), d),
        ensures
            d.as_int() == 0,
    ;

    /// `a + b` is defined where the sum fits, and is then the sum.
    proof fn lemma_add(a: Self, b: Self)
        ensures
            Self::obeys_add_spec(),
            a.add_req(b) <==> Self::min_int() <= a.as_int() + b.as_int() <= Self::max_int(),
            a.add_req(b) ==> a.add_spec(b).as_int() == a.as_int() + b.as_int(),
    ;

    /// `a - b` is defined where the difference fits, and is then the difference.
    proof fn lemma_sub(a: Self, b: Self)
        ensures
            Self::obeys_sub_spec(),
            a.sub_req(b) <==> Self::min_int() <= a.as_int() - b.as_int() <= Self::max_int(),
            a.sub_req(b) ==> a.sub_spec(b).as_int() == a.as_int() - b.as_int(),
    ;

    /// `a * b` is defined where the product fits, and is then the product.
    proof fn lemma_mul(a: Self, b: Self)
        ensures
            Self::obeys_mul_spec(),
            a.mul_req(b) <==> Self::min_int() <= a.as_int() * b.as_int() <= Self::max_int(),
            a.mul_req(b) ==> a.mul_spec(b).as_int() == a.as_int() * b.as_int(),
    ;

    /// `a / b` is defined where `b` is not zero and the quotient fits, and is
    /// then the quotient rounded toward zero.
    proof fn lemma_div(a: Self, b: Self)
        ensures
            Self::obeys_div_spec(),
            a.div_req(b) <==> b.as_int() != 0 && Self::min_int() <= trunc_div(
                a.as_int(),
                b.as_int(),
            ) <= Self::max_int(),
            a.div_req(b) ==> a.div_spec(b).as_int() == trunc_div(a.as_int(), b.as_int()),
    ;

    /// `-a` is defined where the negation fits, and is then the negation.
    proof fn lemma_neg(a: Self)
        ensures
            Self::obeys_neg_spec(),
            a.neg_req() <==> Self::min_int() <= -a.as_int() <= Self::max_int(),
            a.neg_req() ==> a.neg_spec().as_int() == -a.as_int(),
    ;

    /// Scalars are ordered as their values are.
    proof fn lemma_order(a: Self, b: Self)
        ensures
            Self::obeys_partial_cmp_spec(),
            a.is_lt(&b) <==> a.as_int() < b.as_int(),
            a.is_gt(&b) <==> a.as_int() > b.as_int(),
    ;

    /// The greatest scalar.
    fn m_max_value() -> (r: Self)
        ensures
            r.as_int() == Self::max_int(),
    ;

    /// The least scalar.
    fn m_min_value() -> (r: Self)
        ensures
            r.as_int() == Self::min_int(),
    ;

    /// The absolute value.
    fn m_abs(self) -> (r: Self)
        requires
            Self::min_int() <= abs_int(self.as_int()) <= Self::max_int(),
        ensures
            r.as_int() == abs_int(self.as_int()),
    ;

    /// The quotient of Euclidean division: the one that leaves a remainder
    /// that is not negative.
    fn m_div_euclid(self, rhs: Self) -> (r: Self)
        requires
            rhs.as_int() != 0,
            Self::min_int() <= self.as_int() / rhs.as_int() <= Self::max_int(),
        ensures
            r.as_int() == self.as_int() / rhs.as_int(),
    ;

    /// The remainder of Euclidean division, which is never negative.
    fn m_rem_euclid(self, rhs: Self) -> (r: Self)
        requires
            rhs.as_int() != 0,
            Self::min_int() <= self.as_int() / rhs.as_int() <= Self::max_int(),
        ensures
            r.as_int() == self.as_int() % rhs.as_int(),
    ;

    /// The sign: -1, 0 or 1.
    fn m_signum(self) -> (r: Self)
        ensures
            r.as_int() == signum_int(self.as_int()),
    ;

    /// The larger of two scalars.
    fn m_max(self, other: Self) -> (r: Self)
        ensures
            r.as_int() == greater(self.as_int(), other.as_int()),
    ;

    /// The smaller of two scalars.
    fn m_min(self, other: Self) -> (r: Self)
        ensures
            r.as_int() == lesser(self.as_int(), other.as_int()),
    ;
}

/// The least and the greatest value of a scalar fit the scalar.
pub proof fn lemma_limits_fit<T: Numeric>()
    ensures
        fits::<T>(T::min_int()),
        fits::<T>(T::max_int()),
{
    let some: T = arbitrary();
    T::lemma_as_int(some);
}

/// A quotient rounded toward zero is no larger in absolute value than the
/// dividend, and unless the divisor is 1 or -1, no larger than half of it.
pub proof fn lemma_trunc_div_bound(a: int, b: int)
    requires
        b != 0,
    ensures
        abs_int(trunc_div(a, b)) <= abs_int(a),
        b == 1 ==> trunc_div(a, b) == a,
        b != 1 && b != -1 ==> 2 * abs_int(trunc_div(a, b)) <= abs_int(a),
{
    let n = abs_int(a);
    let q = n / b;
    let r = n % b;
    assert(n == b * q + r && 0 <= r < abs_int(b)) by (nonlinear_arith)
        requires
            b != 0,
            q == n / b,
            r == n % b,
    ;
    assert(abs_int(q) <= n && (b == 1 ==> q == n) && (b != 1 && b != -1 ==> 2 * abs_int(q) <= n))
        by (nonlinear_arith)
        requires
            n == b * q + r,
            0 <= r < abs_int(b),
            0 <= n,
            b != 0,
    ;
}

/// A Euclidean remainder is not negative and is smaller than the divisor's
/// absolute value.
pub proof fn lemma_rem_euclid_bound(a: int, b: int)
    requires
        b != 0,
    ensures
        0 <= a % b < abs_int(b),
{
    assert(0 <= a % b < abs_int(b)) by (nonlinear_arith)
        requires
            b != 0,
    ;
}

impl Numeric for i32 {
    open spec fn as_int(self) -> int {
        self as int
    }

    open spec fn from_int(v: int) -> Self {
        v as i32
    }

    open spec fn min_int() -> int {
        i32::MIN as int
    }

    open spec fn max_int() -> int {
        i32::MAX as int
    }

    proof fn lemma_as_int(x: Self) {
    }

    proof fn lemma_from_int(v: int) {
    }

    proof fn lemma_zero() {
    }

    proof fn lemma_default(d: Self) {
    }

    proof fn lemma_add(a: Self, b: Self) {
    }

    proof fn lemma_sub(a: Self, b: Self) {
    }

    proof fn lemma_mul(a: Self, b: Self) {
    }

    proof fn lemma_div(a: Self, b: Self) {
        if b != 0 {
            lemma_trunc_div_bound(a as int, b as int);
        }
    }

    proof fn lemma_neg(a: Self) {
    }

    proof fn lemma_order(a: Self, b: Self) {
    }

    fn m_max_value() -> (r: Self) {
        i32::MAX
    }

    fn m_min_value() -> (r: Self) {
        i32::MIN
    }

    fn m_abs(self) -> (r: Self) {
        if self < 0 {
            -self
        } else {
            self
        }
    }

    fn m_div_euclid(self, rhs: Self) -> (r: Self) {
        self.checked_div_euclid(rhs).unwrap()
    }

    fn m_rem_euclid(self, rhs: Self) -> (r: Self) {
        proof {
            lemma_rem_euclid_bound(self as int, rhs as int);
        }
        self.checked_rem_euclid(rhs).unwrap()
    }

    fn m_signum(self) -> (r: Self) {
        if self < 0 {
            -1
        } else if self == 0 {
            0
        } else {
            1
        }
    }

    fn m_max(self, other: Self) -> (r: Self) {
        self.max(other)
    }

    fn m_min(self, other: Self) -> (r: Self) {
        self.min(other)
    }
}

impl Numeric for i64 {
    open spec fn as_int(self) -> int {
        self as int
    }

    open spec fn from_int(v: int) -> Self {
        v as i64
    }

    open spec fn min_int() -> int {
        i64::MIN as int
    }

    open spec fn max_int() -> int {
        i64::MAX as int
    }

    proof fn lemma_as_int(x: Self) {
    }

    proof fn lemma_from_int(v: int) {
    }

    proof fn lemma_zero() {
    }

    proof fn lemma_default(d: Self) {
    }

    proof fn lemma_add(a: Self, b: Self) {
    }

    proof fn lemma_sub(a: Self, b: Self) {
    }

    proof fn lemma_mul(a: Self, b: Self) {
    }

    proof fn lemma_div(a: Self, b: Self) {
        if b != 0 {
            lemma_trunc_div_bound(a as int, b as int);
        }
    }

    proof fn lemma_neg(a: Self) {
    }

    proof fn lemma_order(a: Self, b: Self) {
    }

    fn m_max_value() -> (r: Self) {
        i64::MAX
    }

    fn m_min_value() -> (r: Self) {
        i64::MIN
    }

    fn m_abs(self) -> (r: Self) {
        if self < 0 {
            -self
        } else {
            self
        }
    }

    fn m_div_euclid(self, rhs: Self) -> (r: Self) {
        self.checked_div_euclid(rhs).unwrap()
    }

    fn m_rem_euclid(self, rhs: Self) -> (r: Self) {
        proof {
            lemma_rem_euclid_bound(self as int, rhs as int);
        }
        self.checked_rem_euclid(rhs).unwrap()
    }

    fn m_signum(self) -> (r: Self) {
        if self < 0 {
            -1
        } else if self == 0 {
            0
        } else {
            1
        }
    }

    fn m_max(self, other: Self) -> (r: Self) {
        self.max(other)
    }

    fn m_min(self, other: Self) -> (r: Self) {
        self.min(other)
    }
}


} // verus!
