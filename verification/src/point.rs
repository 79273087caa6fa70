//! Points: vectors read as locations. A point is a vector in all but name, so
//! that the two mix freely in arithmetic.
use crate::dims::Vec2;
use crate::dims::Vec3;
use crate::dims::Vec4;
use crate::model;
use crate::numeric;
use crate::numeric::Numeric;
use crate::vector::Vector;
use vstd::prelude::*;

verus! {

/// A point of two components.
pub type Point2<T> = Vec2<T>;

/// A point of three components.
pub type Point3<T> = Vec3<T>;

/// A point of four components.
pub type Point4<T> = Vec4<T>;

/// A point of `N` components.
pub type Point<T, const N: usize> = Vector<T, N>;

impl<T: Numeric, const N: usize> Vector<T, N> {
    /// The point whose every component is the smaller of the two points'.
    pub open spec fn min_components(a: Self, b: Self) -> Self {
        Self::from_ints(model::lower(a@, b@))
    }

    /// The point whose every component is the larger of the two points'.
    pub open spec fn max_components(a: Self, b: Self) -> Self {
        Self::from_ints(model::upper(a@, b@))
    }

    /// The componentwise minimum and maximum of two points are points with the
    /// views that `lower` and `upper` give.
    pub proof fn lemma_min_max_components(a: Self, b: Self)
        ensures
            Self::min_components(a, b)@ == model::lower(a@, b@),
            Self::max_components(a, b)@ == model::upper(a@, b@),
    {
        a.lemma_view_fits();
        b.lemma_view_fits();
        assert forall|i: int| 0 <= i < N implies numeric::fits::<T>(
            #[trigger] model::lower(a@, b@)[i],
        ) && numeric::fits::<T>(#[trigger] model::upper(a@, b@)[i]) by {
            assert(numeric::fits::<T>(a@[i]));
            assert(numeric::fits::<T>(b@[i]));
        }
        Self::lemma_from_ints(model::lower(a@, b@));
        Self::lemma_from_ints(model::upper(a@, b@));
    }

    /// The componentwise minimum of two points.
    pub fn from_min_components(a: &Self, b: &Self) -> (r: Self)
        ensures
            r@ == model::lower(a@, b@),
            r == Self::min_components(*a, *b),
    {
        let mut new_data = [T::default();N];
        for i in 0..N
            invariant
                forall|j: int|
                    0 <= j < i ==> (#[trigger] new_data[j]).as_int() == numeric::lesser(
                        a@[j],
                        b@[j],
                    ),
        {
            new_data[i] = a.data[i].m_min(b.data[i]);
        }
        let r = Self { data: new_data };
        proof {
            assert(r@ =~= model::lower(a@, b@));
            r.lemma_from_view();
        }
        r
    }

    /// The componentwise maximum of two points.
    pub fn from_max_components(a: &Self, b: &Self) -> (r: Self)
        ensures
            r@ == model::upper(a@, b@),
            r == Self::max_components(*a, *b),
    {
        let mut new_data = [T::default();N];
        for i in 0..N
            invariant
                forall|j: int|
                    0 <= j < i ==> (#[trigger] new_data[j]).as_int() == numeric::greater(
                        a@[j],
                        b@[j],
                    ),
        {
            new_data[i] = a.data[i].m_max(b.data[i]);
        }
        let r = Self { data: new_data };
        proof {
            assert(r@ =~= model::upper(a@, b@));
            r.lemma_from_view();
        }
        r
    }
}

} // verus!
