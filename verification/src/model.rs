//! Arithmetic on sequences of integers: what the operations on vectors compute,
//! stated on the values of their components.
use crate::numeric;
use vstd::prelude::*;

verus! {

/// The sequence of `n` components that are all `v`.
pub open spec fn constant(n: nat, v: int) -> Seq<int> {
    Seq::new(n, |i: int| v)
}

/// The componentwise sum.
pub open spec fn sum(a: Seq<int>, b: Seq<int>) -> Seq<int> {
    Seq::new(a.len(), |i: int| a[i] + b[i])
}

/// The componentwise difference.
pub open spec fn difference(a: Seq<int>, b: Seq<int>) -> Seq<int> {
    Seq::new(a.len(), |i: int| a[i] - b[i])
}

/// The componentwise product.
pub open spec fn products(a: Seq<int>, b: Seq<int>) -> Seq<int> {
    Seq::new(a.len(), |i: int| a[i] * b[i])
}

/// Every component multiplied by `k`.
pub open spec fn scaled(a: Seq<int>, k: int) -> Seq<int> {
    Seq::new(a.len(), |i: int| a[i] * k)
}

/// Every component divided by `k`, rounded toward zero.
pub open spec fn quotient(a: Seq<int>, k: int) -> Seq<int> {
    Seq::new(a.len(), |i: int| numeric::trunc_div(a[i], k))
}

/// Every component negated.
pub open spec fn negated(a: Seq<int>) -> Seq<int> {
    Seq::new(a.len(), |i: int| -a[i])
}

/// The absolute value of every component.
pub open spec fn absolute(a: Seq<int>) -> Seq<int> {
    Seq::new(a.len(), |i: int| numeric::abs_int(a[i]))
}

/// The componentwise minimum.
pub open spec fn lower(a: Seq<int>, b: Seq<int>) -> Seq<int> {
    Seq::new(a.len(), |i: int| numeric::lesser(a[i], b[i]))
}

/// The componentwise maximum.
pub open spec fn upper(a: Seq<int>, b: Seq<int>) -> Seq<int> {
    Seq::new(a.len(), |i: int| numeric::greater(a[i], b[i]))
}

/// The sum of the products of the first `n` components.
pub open spec fn dot_prefix(a: Seq<int>, b: Seq<int>, n: nat) -> int
    decreases n,
{
    if n == 0 {
        0
    } else {
        dot_prefix(a, b, (n - 1) as nat) + a[n - 1] * b[n - 1]
    }
}

/// The dot product: the sum of the componentwise products.
pub open spec fn dot(a: Seq<int>, b: Seq<int>) -> int {
    dot_prefix(a, b, a.len())
}

/// The sums that a left-to-right accumulation of the dot product passes
/// through: component `i` is the sum of the first `i + 1` products.
pub open spec fn dot_prefixes(a: Seq<int>, b: Seq<int>) -> Seq<int> {
    Seq::new(a.len(), |i: int| dot_prefix(a, b, (i + 1) as nat))
}

/// Whether `(dim, value)` is what a scan of the first `n` components for the
/// least one gives, when it starts from `(0, seed)` and moves on only to a
/// component strictly below the least so far: where no component is below the
/// seed, the start itself; else the least component with the first index that
/// holds it.
pub open spec fn first_min_of(s: Seq<int>, n: int, seed: int, dim: int, value: int) -> bool {
    if forall|j: int| 0 <= j < n ==> s[j] >= seed {
        dim == 0 && value == seed
    } else {
        &&& 0 <= dim < n
        &&& s[dim] == value
        &&& forall|j: int| 0 <= j < n ==> s[j] >= value
        &&& forall|j: int| 0 <= j < dim ==> s[j] > value
    }
}

/// Whether `(dim, value)` is what a scan of the first `n` components for the
/// greatest one gives, when it starts from `(0, seed)` and moves on only to a
/// component strictly above the greatest so far.
pub open spec fn first_max_of(s: Seq<int>, n: int, seed: int, dim: int, value: int) -> bool {
    if forall|j: int| 0 <= j < n ==> s[j] <= seed {
        dim == 0 && value == seed
    } else {
        &&& 0 <= dim < n
        &&& s[dim] == value
        &&& forall|j: int| 0 <= j < n ==> s[j] <= value
        &&& forall|j: int| 0 <= j < dim ==> s[j] < value
    }
}

/// The right-handed cross product of two sequences of three components.
pub open spec fn cross(a: Seq<int>, b: Seq<int>) -> Seq<int> {
    seq![a[1] * b[2] - a[2] * b[1], -(a[0] * b[2] - a[2] * b[0]), a[0] * b[1] - a[1] * b[0]]
}

/// Whether every component is the value of some scalar of type `T`.
pub open spec fn all_fit<T: numeric::Numeric>(s: Seq<int>) -> bool {
    forall|i: int| 0 <= i < s.len() ==> numeric::fits::<T>(#[trigger] s[i])
}

/// The accumulated dot product does not depend on the order of its arguments.
pub proof fn lemma_dot_prefix_symmetric(a: Seq<int>, b: Seq<int>, n: nat)
    ensures
        dot_prefix(a, b, n) == dot_prefix(b, a, n),
    decreases n,
{
    if n > 0 {
        lemma_dot_prefix_symmetric(a, b, (n - 1) as nat);
        assert(a[n - 1] * b[n - 1] == b[n - 1] * a[n - 1]) by (nonlinear_arith);
    }
}

/// The dot product is symmetric: `dot(a, b) == dot(b, a)` for sequences of one
/// length, and the same products and sums are formed on the way.
pub proof fn lemma_dot_symmetric(a: Seq<int>, b: Seq<int>)
    requires
        a.len() == b.len(),
    ensures
        dot(a, b) == dot(b, a),
        products(a, b) == products(b, a),
        dot_prefixes(a, b) == dot_prefixes(b, a),
{
    lemma_dot_prefix_symmetric(a, b, a.len());
    assert forall|i: int| 0 <= i < a.len() implies #[trigger] products(a, b)[i]
        == products(b, a)[i] by {
        assert(a[i] * b[i] == b[i] * a[i]) by (nonlinear_arith);
    }
    assert(products(a, b) =~= products(b, a));
    assert forall|i: int| 0 <= i < a.len() implies #[trigger] dot_prefixes(a, b)[i]
        == dot_prefixes(b, a)[i] by {
        lemma_dot_prefix_symmetric(a, b, (i + 1) as nat);
    }
    assert(dot_prefixes(a, b) =~= dot_prefixes(b, a));
}

/// The cross product changes sign when its arguments change places:
/// `cross(a, b) == -cross(b, a)`.
pub proof fn lemma_cross_antisymmetric(a: Seq<int>, b: Seq<int>)
    ensures
        cross(a, b) == negated(cross(b, a)),
{
    assert(a[1] * b[2] == b[2] * a[1]) by (nonlinear_arith);
    assert(a[2] * b[1] == b[1] * a[2]) by (nonlinear_arith);
    assert(a[0] * b[2] == b[2] * a[0]) by (nonlinear_arith);
    assert(a[2] * b[0] == b[0] * a[2]) by (nonlinear_arith);
    assert(a[0] * b[1] == b[1] * a[0]) by (nonlinear_arith);
    assert(a[1] * b[0] == b[0] * a[1]) by (nonlinear_arith);
    assert(cross(a, b) =~= negated(cross(b, a)));
}

} // verus!
