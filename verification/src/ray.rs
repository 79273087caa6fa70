//! Rays: an origin, a direction, and how far along the direction the ray
//! reaches.
use crate::dims::Vec3;
use crate::model;
use crate::numeric::Numeric;
use crate::point::Point3;
use crate::vector::Vector;
use vstd::prelude::*;

verus! {

/// The points `origin + dir * t`. The ray reaches as far as `t_max`, the
/// greatest scalar where the ray is unbounded; `time` is the moment it
/// belongs to.
#[derive(Copy, Clone, PartialEq, Eq, Debug)]
pub struct Ray<T> {
    pub origin: Point3<T>,
    pub dir: Vec3<T>,
    pub t_max: T,
    pub time: T,
}

impl<T: Numeric> Ray<T> {
    /// The point of the ray at parameter `t`, on views.
    pub open spec fn position(self, t: int) -> Seq<int> {
        model::sum(self.origin@, model::scaled(self.dir@, t))
    }

    /// The point of the ray at parameter `t`.
    pub open spec fn point_at(self, t: T) -> Point3<T> {
        Vector::from_ints(self.position(t.as_int()))
    }

    /// Whether the point at parameter `t` can be computed in `T`: the scaled
    /// direction fits, and so does the point.
    pub open spec fn at_req(self, t: int) -> bool {
        &&& model::all_fit::<T>(model::scaled(self.dir@, t))
        &&& model::all_fit::<T>(self.position(t))
    }

    /// The unbounded ray from `o` along `d`, at the default time.
    pub fn new(o: Point3<T>, d: Vec3<T>) -> (r: Self)
        ensures
            r.origin == o,
            r.dir == d,
            r.t_max.as_int() == T::max_int(),
            r.time.as_int() == 0,
    {
        let rest = Self::default();
        Self { origin: o, dir: d, t_max: rest.t_max, time: rest.time }
    }

    /// The point of the ray at parameter `t`: `origin + dir * t`. `t` is not
    /// held against `t_max`.
    pub fn at(&self, t: T) -> (r: Point3<T>)
        requires
            self.at_req(t.as_int()),
        ensures
            r == self.point_at(t),
            r@ == self.position(t.as_int()),
    {
        let r = self.origin + self.dir * t;
        proof {
            r.lemma_from_view();
        }
        r
    }
}

impl<T: Numeric> Ray<T> {
    /// At parameter 0 the ray is at its origin, which can always be computed.
    pub proof fn lemma_at_zero(self, zero: T)
        requires
            zero.as_int() == 0,
        ensures
            self.at_req(0),
            self.position(0) == self.origin@,
            self.point_at(zero) == self.origin,
    {
        self.origin.lemma_from_view();
        self.origin.lemma_view_fits();
        assert(model::scaled(self.dir@, 0) =~= model::constant(3, 0)) by {
            assert forall|i: int| 0 <= i < 3 implies self.dir@[i] * 0 == 0 by {
                assert(self.dir@[i] * 0 == 0) by (nonlinear_arith);
            }
        }
        assert(self.position(0) =~= self.origin@);
        T::lemma_zero();
    }

    /// The ray is affine in its parameter: the displacement from the origin
    /// at `t1 + t2` is the sum of the displacements at `t1` and at `t2`.
    pub proof fn lemma_at_affine(self, t1: int, t2: int)
        ensures
            model::difference(self.position(t1 + t2), self.origin@) == model::sum(
                model::difference(self.position(t1), self.origin@),
                model::difference(self.position(t2), self.origin@),
            ),
    {
        assert forall|i: int| 0 <= i < 3 implies self.dir@[i] * (t1 + t2) == self.dir@[i] * t1
            + self.dir@[i] * t2 by {
            assert(self.dir@[i] * (t1 + t2) == self.dir@[i] * t1 + self.dir@[i] * t2)
                by (nonlinear_arith);
        }
        assert(model::difference(self.position(t1 + t2), self.origin@) =~= model::sum(
            model::difference(self.position(t1), self.origin@),
            model::difference(self.position(t2), self.origin@),
        ));
    }
}

impl<T: Numeric> Default for Ray<T> {
    /// The unbounded ray from the default point along the default vector, at
    /// the default time.
    fn default() -> (r: Self)
        ensures
            r.origin@ == model::constant(3, 0),
            r.dir@ == model::constant(3, 0),
            r.t_max.as_int() == T::max_int(),
            r.time.as_int() == 0,
    {
        let zero = T::default();
        proof {
            T::lemma_default(zero);
        }
        Self {
            origin: Point3::<T>::new(zero),
            dir: Vec3::<T>::new(zero),
            t_max: T::m_max_value(),
            time: zero,
        }
    }
}

} // verus!
