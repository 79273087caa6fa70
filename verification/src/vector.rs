//! Vectors of a fixed number of scalars.
//!
//! The view of a vector is the sequence of the integer values of its
//! components. Contracts state results on views.
use crate::model;
use crate::numeric;
use crate::numeric::Numeric;
use core::ops::Neg;
use vstd::prelude::*;
use vstd::std_specs::ops::NegSpec;

verus! {

/// `N` scalars in a fixed order.
#[derive(Copy, Clone, PartialEq, Eq, Debug)]
pub struct Vector<T, const N: usize> {
    pub data: [T; N],
}

impl<T: Numeric, const N: usize> View for Vector<T, N> {
    type V = Seq<int>;

    open spec fn view(&self) -> Seq<int> {
        Seq::new(N as nat, |i: int| self.data[i].as_int())
    }
}

/// Some array that agrees with `s` on its first `k` components.
proof fn lemma_array_agrees<T, const N: usize>(s: Seq<T>, k: nat) -> (a: [T; N])
    requires
        k <= N,
    ensures
        forall|i: int| 0 <= i < k ==> a[i] == s[i],
    decreases k,
{
    if k == 0 {
        arbitrary()
    } else {
        let shorter = lemma_array_agrees::<T, N>(s, (k - 1) as nat);
        vstd::array::spec_array_update(shorter, k - 1, s[k - 1])
    }
}

impl<T: Numeric, const N: usize> Vector<T, N> {
    /// The vector whose components are those of `s`, where `s` has `N` of them.
    pub closed spec fn from_seq(s: Seq<T>) -> Self {
        Vector { data: choose|a: [T; N]| a@ == s }
    }

    /// The vector whose components have the values in `s`.
    pub open spec fn from_ints(s: Seq<int>) -> Self {
        Self::from_seq(Seq::new(N as nat, |i: int| T::from_int(s[i])))
    }

    /// `from_seq` builds the vector with the given components.
    pub proof fn lemma_from_seq(s: Seq<T>)
        requires
            s.len() == N,
        ensures
            Self::from_seq(s).data@ == s,
    {
        let a = lemma_array_agrees::<T, N>(s, N as nat);
        assert(a@ =~= s);
    }

    /// `from_ints` builds the vector with the given view.
    pub proof fn lemma_from_ints(s: Seq<int>)
        requires
            s.len() == N,
            model::all_fit::<T>(s),
        ensures
            Self::from_ints(s)@ == s,
    {
        let components = Seq::new(N as nat, |i: int| T::from_int(s[i]));
        Self::lemma_from_seq(components);
        assert forall|i: int| 0 <= i < N implies #[trigger] Self::from_ints(s)@[i] == s[i] by {
            T::lemma_from_int(s[i]);
        }
        assert(Self::from_ints(s)@ =~= s);
    }

    /// The view of a vector has `N` components, and each of them fits.
    pub proof fn lemma_view_fits(self)
        ensures
            self@.len() == N,
            model::all_fit::<T>(self@),
    {
        assert forall|i: int| 0 <= i < N implies numeric::fits::<T>(#[trigger] self@[i]) by {
            T::lemma_as_int(self.data[i]);
        }
    }

    /// Two vectors with one view are one vector.
    pub proof fn lemma_view_injective(self, other: Self)
        requires
            self@ == other@,
        ensures
            self == other,
    {
        assert forall|i: int| 0 <= i < N implies self.data[i] == other.data[i] by {
            T::lemma_as_int(self.data[i]);
            T::lemma_as_int(other.data[i]);
            assert(self@[i] == self.data[i].as_int());
            assert(other@[i] == other.data[i].as_int());
        }
        assert(self.data =~= other.data);
    }

    /// A vector is the one that `from_ints` builds from its view.
    pub proof fn lemma_from_view(self)
        ensures
            self == Self::from_ints(self@),
    {
        self.lemma_view_fits();
        Self::lemma_from_ints(self@);
        self.lemma_view_injective(Self::from_ints(self@));
    }

    /// The vector whose components are all `v`.
    pub fn new(v: T) -> (r: Self)
        ensures
            r.data@ == Seq::new(N as nat, |i: int| v),
            r@ == model::constant(N as nat, v.as_int()),
    {
        let r = Self { data: [v;N] };
        assert(r.data@ =~= Seq::new(N as nat, |i: int| v));
        assert(r@ =~= model::constant(N as nat, v.as_int()));
        r
    }
}

impl<T: Numeric, const N: usize> Vector<T, N> {
    /// Whether the dot product of two views can be accumulated from left to
    /// right in `T`: every product and every sum on the way fits.
    pub open spec fn dot_req(a: Seq<int>, b: Seq<int>) -> bool {
        &&& model::all_fit::<T>(model::products(a, b))
        &&& model::all_fit::<T>(model::dot_prefixes(a, b))
    }

    /// The dot product: the sum of the componentwise products, accumulated
    /// from left to right from the scalar's default.
    pub fn dot(&self, other: &Self) -> (r: T)
        requires
            Self::dot_req(self@, other@),
        ensures
            r.as_int() == model::dot(self@, other@),
    {
        let mut accum = T::default();
        proof {
            T::lemma_default(accum);
        }
        for i in 0..N
            invariant
                Self::dot_req(self@, other@),
                accum.as_int() == model::dot_prefix(self@, other@, i as nat),
        {
            proof {
                T::lemma_mul(self.data[i as int], other.data[i as int]);
                assert(numeric::fits::<T>(model::products(self@, other@)[i as int]));
            }
            let product = self.data[i] * other.data[i];
            proof {
                T::lemma_add(accum, product);
                assert(numeric::fits::<T>(model::dot_prefixes(self@, other@)[i as int]));
            }
            accum = accum + product;
        }
        accum
    }

    /// The dot product is symmetric: `a.dot(b) == b.dot(a)`, and the one can
    /// be computed where the other can.
    pub proof fn lemma_dot_symmetric(self, other: Self)
        ensures
            Self::dot_req(self@, other@) == Self::dot_req(other@, self@),
            model::dot(self@, other@) == model::dot(other@, self@),
    {
        model::lemma_dot_symmetric(self@, other@);
    }

    /// The absolute value of the dot product.
    pub fn abs_dot(&self, other: &Self) -> (r: T)
        requires
            Self::dot_req(self@, other@),
            numeric::fits::<T>(numeric::abs_int(model::dot(self@, other@))),
        ensures
            r.as_int() == numeric::abs_int(model::dot(self@, other@)),
    {
        self.dot(other).m_abs()
    }

    /// The squared magnitude: the dot product of the vector with itself.
    pub fn mag2(&self) -> (r: T)
        requires
            Self::dot_req(self@, self@),
        ensures
            r.as_int() == model::dot(self@, self@),
    {
        self.dot(self)
    }

    /// The least component and its index. The scan starts from index 0 and the
    /// greatest scalar, and moves on only to a strictly smaller component, so
    /// of equal least components the first one is named.
    pub fn min_component(&self) -> (r: (usize, T))
        ensures
            model::first_min_of(self@, N as int, T::max_int(), r.0 as int, r.1.as_int()),
    {
        let mut dim: usize = 0;
        let mut min = T::m_max_value();
        for i in 0..N
            invariant
                model::first_min_of(self@, i as int, T::max_int(), dim as int, min.as_int()),
        {
            proof {
                T::lemma_order(min, self.data[i as int]);
                assert(self@[i as int] == self.data[i as int].as_int());
            }
            if min > self.data[i] {
                dim = i;
                min = self.data[i];
            }
        }
        (dim, min)
    }

    /// The greatest component and its index. The scan starts from index 0 and
    /// the least scalar, and moves on only to a strictly greater component, so
    /// of equal greatest components the first one is named.
    pub fn max_component(&self) -> (r: (usize, T))
        ensures
            model::first_max_of(self@, N as int, T::min_int(), r.0 as int, r.1.as_int()),
    {
        let mut dim: usize = 0;
        let mut max = T::m_min_value();
        for i in 0..N
            invariant
                model::first_max_of(self@, i as int, T::min_int(), dim as int, max.as_int()),
        {
            proof {
                T::lemma_order(max, self.data[i as int]);
                assert(self@[i as int] == self.data[i as int].as_int());
            }
            if max < self.data[i] {
                dim = i;
                max = self.data[i];
            }
        }
        (dim, max)
    }
}

impl<T: Numeric, const N: usize> Vector<T, N> {
    /// The vector itself where its dot product with `other` is not negative,
    /// else its negation: the one of the two that lies on the side of `other`.
    pub fn face_towards_same_hemisphere(&self, other: &Self) -> (r: Self)
        requires
            Self::dot_req(self@, other@),
            model::dot(self@, other@) < 0 ==> model::all_fit::<T>(model::negated(self@)),
        ensures
            r@ == if model::dot(self@, other@) < 0 {
                model::negated(self@)
            } else {
                self@
            },
            model::dot(self@, other@) >= 0 ==> r == *self,
            model::dot(self@, other@) < 0 ==> r == self.neg_spec(),
    {
        let zero = T::default();
        let d = self.dot(other);
        proof {
            T::lemma_default(zero);
            T::lemma_order(d, zero);
        }
        if d < zero {
            (*self).neg()
        } else {
            *self
        }
    }

    /// The squared distance between two points: the squared magnitude of
    /// their difference.
    pub fn square_distance_to(&self, other: &Self) -> (r: T)
        requires
            model::all_fit::<T>(model::difference(other@, self@)),
            Self::dot_req(model::difference(other@, self@), model::difference(other@, self@)),
        ensures
            r.as_int() == model::dot(
                model::difference(other@, self@),
                model::difference(other@, self@),
            ),
    {
        let d = *other - *self;
        d.mag2()
    }

    /// The absolute value of every component.
    pub fn abs(&self) -> (r: Self)
        requires
            model::all_fit::<T>(model::absolute(self@)),
        ensures
            r@ == model::absolute(self@),
    {
        let mut new_data = [T::default();N];
        for i in 0..N
            invariant
                model::all_fit::<T>(model::absolute(self@)),
                forall|j: int|
                    0 <= j < i ==> (#[trigger] new_data[j]).as_int() == numeric::abs_int(self@[j]),
        {
            proof {
                assert(numeric::fits::<T>(model::absolute(self@)[i as int]));
            }
            new_data[i] = self.data[i].m_abs();
        }
        let r = Self { data: new_data };
        assert(r@ =~= model::absolute(self@));
        r
    }
}

impl<T: Numeric, const N: usize> Default for Vector<T, N> {
    /// The vector whose components are all the scalar's default: the zero
    /// vector.
    fn default() -> (r: Self)
        ensures
            r@ == model::constant(N as nat, 0),
    {
        let zero = T::default();
        proof {
            T::lemma_default(zero);
        }
        let r = Self { data: [zero;N] };
        assert(r@ =~= model::constant(N as nat, zero.as_int()));
        r
    }
}

} // verus!
