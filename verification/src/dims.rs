//! Vectors of two, three and four components: construction from the
//! components, access by name, and the cross product in three dimensions.
use crate::model;
use crate::numeric;
use crate::numeric::Numeric;
use crate::vector::Vector;
use core::ops::Neg;
use vstd::prelude::*;

verus! {

/// A vector of two components.
pub type Vec2<T> = Vector<T, 2>;

/// A vector of three components.
pub type Vec3<T> = Vector<T, 3>;

/// A vector of four components.
pub type Vec4<T> = Vector<T, 4>;

impl<T: Numeric> vstd::std_specs::convert::FromSpecImpl<(T, T)> for Vector<T, 2> {
    open spec fn obeys_from_spec() -> bool {
        true
    }

    open spec fn from_spec(other: (T, T)) -> Self {
        Vector { data: [other.0, other.1] }
    }
}

impl<T: Numeric> From<(T, T)> for Vector<T, 2> {
    /// The vector with the components of the pair, in their order.
    fn from(other: (T, T)) -> (r: Self)
        ensures
            r.data@ == seq![other.0, other.1],
    {
        let r = Self { data: [other.0, other.1] };
        assert(r.data@ =~= seq![other.0, other.1]);
        r
    }
}

impl<T: Numeric> Vector<T, 2> {
    /// The vector `(x, y)`.
    pub fn elements(x: T, y: T) -> (r: Self)
        ensures
            r.data@ == seq![x, y],
            r@ == seq![x.as_int(), y.as_int()],
    {
        let r = Self { data: [x, y] };
        assert(r.data@ =~= seq![x, y]);
        assert(r@ =~= seq![x.as_int(), y.as_int()]);
        r
    }

    /// The first component.
    pub fn x(&self) -> (r: T)
        ensures
            r == self.data[0],
            r.as_int() == self@[0],
    {
        self.data[0]
    }

    /// The second component.
    pub fn y(&self) -> (r: T)
        ensures
            r == self.data[1],
            r.as_int() == self@[1],
    {
        self.data[1]
    }
}

impl<T: Numeric> vstd::std_specs::convert::FromSpecImpl<(T, T, T)> for Vector<T, 3> {
    open spec fn obeys_from_spec() -> bool {
        true
    }

    open spec fn from_spec(other: (T, T, T)) -> Self {
        Vector { data: [other.0, other.1, other.2] }
    }
}

impl<T: Numeric> From<(T, T, T)> for Vector<T, 3> {
    /// The vector with the components of the triple, in their order.
    fn from(other: (T, T, T)) -> (r: Self)
        ensures
            r.data@ == seq![other.0, other.1, other.2],
    {
        let r = Self { data: [other.0, other.1, other.2] };
        assert(r.data@ =~= seq![other.0, other.1, other.2]);
        r
    }
}

impl<T: Numeric> Vector<T, 3> {
    /// The vector `(x, y, z)`.
    pub fn elements(x: T, y: T, z: T) -> (r: Self)
        ensures
            r.data@ == seq![x, y, z],
            r@ == seq![x.as_int(), y.as_int(), z.as_int()],
    {
        let r = Self { data: [x, y, z] };
        assert(r.data@ =~= seq![x, y, z]);
        assert(r@ =~= seq![x.as_int(), y.as_int(), z.as_int()]);
        r
    }

    /// The first component.
    pub fn x(&self) -> (r: T)
        ensures
            r == self.data[0],
            r.as_int() == self@[0],
    {
        self.data[0]
    }

    /// The second component.
    pub fn y(&self) -> (r: T)
        ensures
            r == self.data[1],
            r.as_int() == self@[1],
    {
        self.data[1]
    }

    /// The third component.
    pub fn z(&self) -> (r: T)
        ensures
            r == self.data[2],
            r.as_int() == self@[2],
    {
        self.data[2]
    }

    /// Whether the cross product of two views can be computed in `T`: the six
    /// products fit, and so do the three differences and the negation that
    /// gives the second component.
    pub open spec fn cross_req(a: Seq<int>, b: Seq<int>) -> bool {
        &&& numeric::fits::<T>(a[1] * b[2])
        &&& numeric::fits::<T>(a[2] * b[1])
        &&& numeric::fits::<T>(a[0] * b[2])
        &&& numeric::fits::<T>(a[2] * b[0])
        &&& numeric::fits::<T>(a[0] * b[1])
        &&& numeric::fits::<T>(a[1] * b[0])
        &&& numeric::fits::<T>(a[0] * b[2] - a[2] * b[0])
        &&& model::all_fit::<T>(model::cross(a, b))
    }

    /// The cross product changes sign when its arguments change places:
    /// `a.cross(b) == -b.cross(a)`.
    pub proof fn lemma_cross_antisymmetric(self, other: Self)
        ensures
            model::cross(self@, other@) == model::negated(model::cross(other@, self@)),
    {
        model::lemma_cross_antisymmetric(self@, other@);
    }

    /// The right-handed cross product.
    pub fn cross(&self, other: &Self) -> (r: Self)
        requires
            Self::cross_req(self@, other@),
        ensures
            r@ == model::cross(self@, other@),
    {
        let u1 = self.data[0];
        let u2 = self.data[1];
        let u3 = self.data[2];
        let v1 = other.data[0];
        let v2 = other.data[1];
        let v3 = other.data[2];
        proof {
            let a = self@;
            let b = other@;
            assert(a[0] == u1.as_int() && a[1] == u2.as_int() && a[2] == u3.as_int());
            assert(b[0] == v1.as_int() && b[1] == v2.as_int() && b[2] == v3.as_int());
            let c = model::cross(a, b);
            assert(numeric::fits::<T>(c[0]));
            assert(numeric::fits::<T>(c[1]));
            assert(numeric::fits::<T>(c[2]));
            T::lemma_mul(u2, v3);
            T::lemma_mul(u3, v2);
            T::lemma_mul(u1, v3);
            T::lemma_mul(u3, v1);
            T::lemma_mul(u1, v2);
            T::lemma_mul(u2, v1);
        }
        let u2v3 = u2 * v3;
        let u3v2 = u3 * v2;
        let u1v3 = u1 * v3;
        let u3v1 = u3 * v1;
        let u1v2 = u1 * v2;
        let u2v1 = u2 * v1;
        proof {
            T::lemma_sub(u2v3, u3v2);
            T::lemma_sub(u1v3, u3v1);
            T::lemma_sub(u1v2, u2v1);
        }
        let first = u2v3 - u3v2;
        let middle = u1v3 - u3v1;
        let third = u1v2 - u2v1;
        proof {
            T::lemma_neg(middle);
        }
        let second = middle.neg();
        let r = Self { data: [first, second, third] };
        assert(r@ =~= model::cross(self@, other@));
        r
    }
}

impl<T: Numeric> vstd::std_specs::convert::FromSpecImpl<(T, T, T, T)> for Vector<T, 4> {
    open spec fn obeys_from_spec() -> bool {
        true
    }

    open spec fn from_spec(other: (T, T, T, T)) -> Self {
        Vector { data: [other.0, other.1, other.2, other.3] }
    }
}

impl<T: Numeric> From<(T, T, T, T)> for Vector<T, 4> {
    /// The vector with the components of the quadruple, in their order.
    fn from(other: (T, T, T, T)) -> (r: Self)
        ensures
            r.data@ == seq![other.0, other.1, other.2, other.3],
    {
        let r = Self { data: [other.0, other.1, other.2, other.3] };
        assert(r.data@ =~= seq![other.0, other.1, other.2, other.3]);
        r
    }
}

impl<T: Numeric> Vector<T, 4> {
    /// The vector `(x, y, z, w)`.
    pub fn elements(x: T, y: T, z: T, w: T) -> (r: Self)
        ensures
            r.data@ == seq![x, y, z, w],
            r@ == seq![x.as_int(), y.as_int(), z.as_int(), w.as_int()],
    {
        let r = Self { data: [x, y, z, w] };
        assert(r.data@ =~= seq![x, y, z, w]);
        assert(r@ =~= seq![x.as_int(), y.as_int(), z.as_int(), w.as_int()]);
        r
    }

    /// The first component.
    pub fn x(&self) -> (r: T)
        ensures
            r == self.data[0],
            r.as_int() == self@[0],
    {
        self.data[0]
    }

    /// The second component.
    pub fn y(&self) -> (r: T)
        ensures
            r == self.data[1],
            r.as_int() == self@[1],
    {
        self.data[1]
    }

    /// The third component.
    pub fn z(&self) -> (r: T)
        ensures
            r == self.data[2],
            r.as_int() == self@[2],
    {
        self.data[2]
    }

    /// The fourth component.
    pub fn w(&self) -> (r: T)
        ensures
            r == self.data[3],
            r.as_int() == self@[3],
    {
        self.data[3]
    }
}

} // verus!
