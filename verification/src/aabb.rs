//! Axis-aligned bounding boxes: a low corner and a high corner.
//!
//! A box is valid where no component of its low corner exceeds that of its high
//! corner. The empty box is deliberately not valid: its low corner is the
//! greatest point and its high corner the least, which makes it the identity
//! of `union`.
use crate::model;
use crate::numeric;
use crate::numeric::Numeric;
use crate::point::Point;
use crate::vector::Vector;
use vstd::prelude::*;

verus! {

/// The box between the corners `p_min` and `p_max`.
#[derive(Copy, Clone, PartialEq, Eq, Debug)]
pub struct Bounds<T, const N: usize> {
    pub p_min: Point<T, N>,
    pub p_max: Point<T, N>,
}

impl<T: Numeric, const N: usize> Bounds<T, N> {
    /// Whether no component of the low corner exceeds that of the high corner.
    pub open spec fn is_valid(self) -> bool {
        forall|i: int| 0 <= i < N ==> (#[trigger] self.p_min@[i]) <= self.p_max@[i]
    }

    /// Whether the two boxes share no point: along some axis one of them ends
    /// before the other begins.
    pub open spec fn disjoint(self, other: Self) -> bool {
        exists|i: int|
            0 <= i < N && ((#[trigger] self.p_max@[i]) < other.p_min@[i] || other.p_max@[i]
                < self.p_min@[i])
    }

    /// The empty box: the low corner is the greatest point, the high corner
    /// the least.
    pub open spec fn empty() -> Self {
        Bounds {
            p_min: Vector::from_ints(model::constant(N as nat, T::max_int())),
            p_max: Vector::from_ints(model::constant(N as nat, T::min_int())),
        }
    }

    /// The smallest box that holds the two points.
    pub open spec fn spanning(a: Point<T, N>, b: Point<T, N>) -> Self {
        Bounds { p_min: Vector::min_components(a, b), p_max: Vector::max_components(a, b) }
    }

    /// The box that holds `p` and nothing else.
    pub open spec fn single(p: Point<T, N>) -> Self {
        Bounds { p_min: p, p_max: p }
    }

    /// The box grown to hold `p`.
    pub open spec fn enlarged(self, p: Point<T, N>) -> Self {
        Bounds {
            p_min: Vector::min_components(self.p_min, p),
            p_max: Vector::max_components(self.p_max, p),
        }
    }

    /// The smallest box that holds both boxes.
    pub open spec fn joined(self, other: Self) -> Self {
        Bounds {
            p_min: Vector::min_components(self.p_min, other.p_min),
            p_max: Vector::max_components(self.p_max, other.p_max),
        }
    }

    /// What the two boxes have in common; not valid where they share no point.
    pub open spec fn overlap(self, other: Self) -> Self {
        Bounds {
            p_min: Vector::max_components(self.p_min, other.p_min),
            p_max: Vector::min_components(self.p_max, other.p_max),
        }
    }

    /// The smallest box that holds the two points, in whichever order they
    /// are given.
    pub fn new(p_min: Point<T, N>, p_max: Point<T, N>) -> (r: Self)
        ensures
            r == Self::spanning(p_min, p_max),
            r.p_min@ == model::lower(p_min@, p_max@),
            r.p_max@ == model::upper(p_min@, p_max@),
    {
        Self {
            p_min: Point::<T, N>::from_min_components(&p_min, &p_max),
            p_max: Point::<T, N>::from_max_components(&p_min, &p_max),
        }
    }

    /// The box that holds `p` and nothing else.
    pub fn from_single(p: Point<T, N>) -> (r: Self)
        ensures
            r == Self::single(p),
    {
        Self { p_min: p, p_max: p }
    }

    /// The box grown to hold `p`.
    pub fn union_with_point(&self, p: Point<T, N>) -> (r: Self)
        ensures
            r == self.enlarged(p),
            r.p_min@ == model::lower(self.p_min@, p@),
            r.p_max@ == model::upper(self.p_max@, p@),
    {
        Self {
            p_min: Point::<T, N>::from_min_components(&self.p_min, &p),
            p_max: Point::<T, N>::from_max_components(&self.p_max, &p),
        }
    }

    /// The smallest box that holds both boxes.
    pub fn union(&self, bb: &Self) -> (r: Self)
        ensures
            r == self.joined(*bb),
            r.p_min@ == model::lower(self.p_min@, bb.p_min@),
            r.p_max@ == model::upper(self.p_max@, bb.p_max@),
    {
        Self {
            p_min: Point::<T, N>::from_min_components(&self.p_min, &bb.p_min),
            p_max: Point::<T, N>::from_max_components(&self.p_max, &bb.p_max),
        }
    }

    /// What the two boxes have in common. Where they share no point the result
    /// is not valid; it is for the caller to test that.
    pub fn intersect(&self, bb: &Self) -> (r: Self)
        ensures
            r == self.overlap(*bb),
            r.p_min@ == model::upper(self.p_min@, bb.p_min@),
            r.p_max@ == model::lower(self.p_max@, bb.p_max@),
    {
        Self {
            p_min: Point::<T, N>::from_max_components(&self.p_min, &bb.p_min),
            p_max: Point::<T, N>::from_min_components(&self.p_max, &bb.p_max),
        }
    }
}

impl<T: Numeric, const N: usize> Bounds<T, N> {
    /// The empty box grown to hold a point is the box that holds that point
    /// and nothing else.
    pub proof fn lemma_empty_enlarged(p: Point<T, N>)
        ensures
            Self::empty().enlarged(p) == Self::single(p),
    {
        let e = Self::empty();
        p.lemma_view_fits();
        numeric::lemma_limits_fit::<T>();
        Vector::<T, N>::lemma_from_ints(model::constant(N as nat, T::max_int()));
        Vector::<T, N>::lemma_from_ints(model::constant(N as nat, T::min_int()));
        assert(model::lower(e.p_min@, p@) =~= p@);
        assert(model::upper(e.p_max@, p@) =~= p@);
        p.lemma_from_view();
    }

    /// The empty box is the identity of `union`: joined with a box, on either
    /// side, it gives that box.
    pub proof fn lemma_empty_joined(b: Self)
        ensures
            Self::empty().joined(b) == b,
            b.joined(Self::empty()) == b,
    {
        let e = Self::empty();
        b.p_min.lemma_view_fits();
        b.p_max.lemma_view_fits();
        numeric::lemma_limits_fit::<T>();
        Vector::<T, N>::lemma_from_ints(model::constant(N as nat, T::max_int()));
        Vector::<T, N>::lemma_from_ints(model::constant(N as nat, T::min_int()));
        assert(model::lower(e.p_min@, b.p_min@) =~= b.p_min@);
        assert(model::upper(e.p_max@, b.p_max@) =~= b.p_max@);
        assert(model::lower(b.p_min@, e.p_min@) =~= b.p_min@);
        assert(model::upper(b.p_max@, e.p_max@) =~= b.p_max@);
        b.p_min.lemma_from_view();
        b.p_max.lemma_from_view();
    }

    /// The box that two points span does not depend on their order.
    pub proof fn lemma_spanning_symmetric(a: Point<T, N>, b: Point<T, N>)
        ensures
            Self::spanning(a, b) == Self::spanning(b, a),
    {
        assert(model::lower(a@, b@) =~= model::lower(b@, a@));
        assert(model::upper(a@, b@) =~= model::upper(b@, a@));
    }

    /// The box that two points span is valid.
    pub proof fn lemma_spanning_valid(a: Point<T, N>, b: Point<T, N>)
        ensures
            Self::spanning(a, b).is_valid(),
    {
        Vector::lemma_min_max_components(a, b);
    }

    /// `union` is commutative.
    pub proof fn lemma_joined_commutative(a: Self, b: Self)
        ensures
            a.joined(b) == b.joined(a),
    {
        assert(model::lower(a.p_min@, b.p_min@) =~= model::lower(b.p_min@, a.p_min@));
        assert(model::upper(a.p_max@, b.p_max@) =~= model::upper(b.p_max@, a.p_max@));
    }

    /// `union` is associative.
    pub proof fn lemma_joined_associative(a: Self, b: Self, c: Self)
        ensures
            a.joined(b).joined(c) == a.joined(b.joined(c)),
    {
        Vector::lemma_min_max_components(a.p_min, b.p_min);
        Vector::lemma_min_max_components(a.p_max, b.p_max);
        Vector::lemma_min_max_components(b.p_min, c.p_min);
        Vector::lemma_min_max_components(b.p_max, c.p_max);
        assert(model::lower(model::lower(a.p_min@, b.p_min@), c.p_min@) =~= model::lower(
            a.p_min@,
            model::lower(b.p_min@, c.p_min@),
        ));
        assert(model::upper(model::upper(a.p_max@, b.p_max@), c.p_max@) =~= model::upper(
            a.p_max@,
            model::upper(b.p_max@, c.p_max@),
        ));
    }

    /// Two boxes that share no point have an overlap that is not valid.
    pub proof fn lemma_disjoint_overlap(a: Self, b: Self)
        requires
            a.disjoint(b),
        ensures
            !a.overlap(b).is_valid(),
    {
        Vector::lemma_min_max_components(a.p_min, b.p_min);
        Vector::lemma_min_max_components(a.p_max, b.p_max);
        let i = choose|i: int|
            0 <= i < N && ((#[trigger] a.p_max@[i]) < b.p_min@[i] || b.p_max@[i] < a.p_min@[i]);
        let o = a.overlap(b);
        assert(o.p_min@[i] > o.p_max@[i]);
    }
}

impl<T: Numeric, const N: usize> Default for Bounds<T, N> {
    /// The empty box.
    fn default() -> (r: Self)
        ensures
            r == Self::empty(),
            r.p_min@ == model::constant(N as nat, T::max_int()),
            r.p_max@ == model::constant(N as nat, T::min_int()),
    {
        let r = Self {
            p_min: Point::<T, N>::new(T::m_max_value()),
            p_max: Point::<T, N>::new(T::m_min_value()),
        };
        proof {
            r.p_min.lemma_from_view();
            r.p_max.lemma_from_view();
        }
        r
    }
}

} // verus!
