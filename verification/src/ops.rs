//! The arithmetic operators on vectors: componentwise sum and difference,
//! product and quotient by a scalar, and negation, each with its in-place form.
//!
//! Each operator is defined where every component of its result fits the
//! scalar; the quotient also needs a divisor that is not zero.
use crate::model;
use crate::numeric;
use crate::numeric::Numeric;
use crate::vector::Vector;
use core::ops::Add;
use core::ops::AddAssign;
use core::ops::Div;
use core::ops::DivAssign;
use core::ops::Mul;
use core::ops::MulAssign;
use core::ops::Neg;
use core::ops::Sub;
use core::ops::SubAssign;
use vstd::prelude::*;
use vstd::std_specs::ops::AddSpec;
use vstd::std_specs::ops::DivSpec;
use vstd::std_specs::ops::MulSpec;
use vstd::std_specs::ops::SubSpec;

verus! {

impl<T: Numeric, const N: usize> vstd::std_specs::ops::AddSpecImpl for Vector<T, N> {
    open spec fn obeys_add_spec() -> bool {
        true
    }

    open spec fn add_req(self, other: Self) -> bool {
        model::all_fit::<T>(model::sum(self@, other@))
    }

    open spec fn add_spec(self, other: Self) -> Self {
        Self::from_ints(model::sum(self@, other@))
    }
}

impl<T: Numeric, const N: usize> Add for Vector<T, N> {
    type Output = Self;

    /// The componentwise sum.
    fn add(self, other: Self) -> (r: Self)
        ensures
            r@ == model::sum(self@, other@),
    {
        let mut new_data = [T::default();N];
        for i in 0..N
            invariant
                model::all_fit::<T>(model::sum(self@, other@)),
                forall|j: int|
                    0 <= j < i ==> (#[trigger] new_data[j]).as_int() == self@[j] + other@[j],
        {
            proof {
                T::lemma_add(self.data[i as int], other.data[i as int]);
                assert(numeric::fits::<T>(model::sum(self@, other@)[i as int]));
            }
            new_data[i] = self.data[i] + other.data[i];
        }
        let r = Self { data: new_data };
        proof {
            assert(r@ =~= model::sum(self@, other@));
            r.lemma_from_view();
        }
        r
    }
}

impl<T: Numeric, const N: usize> AddAssign for Vector<T, N> {
    /// Replaces the vector by its componentwise sum with `other`.
    fn add_assign(&mut self, other: Self)
        requires
            old(self).add_req(other),
        ensures
            final(self)@ == model::sum(old(self)@, other@),
            *final(self) == old(self).add_spec(other),
    {
        for i in 0..N
            invariant
                old(self).add_req(other),
                forall|j: int|
                    0 <= j < i ==> (#[trigger] self.data[j]).as_int() == old(self)@[j] + other@[j],
                forall|j: int| i <= j < N ==> self.data[j] == old(self).data[j],
        {
            proof {
                T::lemma_add(self.data[i as int], other.data[i as int]);
                assert(numeric::fits::<T>(model::sum(old(self)@, other@)[i as int]));
            }
            self.data[i] = self.data[i] + other.data[i];
        }
        proof {
            assert(self@ =~= model::sum(old(self)@, other@));
            self.lemma_from_view();
        }
    }
}

impl<T: Numeric, const N: usize> vstd::std_specs::ops::SubSpecImpl for Vector<T, N> {
    open spec fn obeys_sub_spec() -> bool {
        true
    }

    open spec fn sub_req(self, other: Self) -> bool {
        model::all_fit::<T>(model::difference(self@, other@))
    }

    open spec fn sub_spec(self, other: Self) -> Self {
        Self::from_ints(model::difference(self@, other@))
    }
}

impl<T: Numeric, const N: usize> Sub for Vector<T, N> {
    type Output = Self;

    /// The componentwise difference.
    fn sub(self, other: Self) -> (r: Self)
        ensures
            r@ == model::difference(self@, other@),
    {
        let mut new_data = [T::default();N];
        for i in 0..N
            invariant
                model::all_fit::<T>(model::difference(self@, other@)),
                forall|j: int|
                    0 <= j < i ==> (#[trigger] new_data[j]).as_int() == self@[j] - other@[j],
        {
            proof {
                T::lemma_sub(self.data[i as int], other.data[i as int]);
                assert(numeric::fits::<T>(model::difference(self@, other@)[i as int]));
            }
            new_data[i] = self.data[i] - other.data[i];
        }
        let r = Self { data: new_data };
        proof {
            assert(r@ =~= model::difference(self@, other@));
            r.lemma_from_view();
        }
        r
    }
}

impl<T: Numeric, const N: usize> SubAssign for Vector<T, N> {
    /// Replaces the vector by its componentwise difference with `other`.
    fn sub_assign(&mut self, other: Self)
        requires
            old(self).sub_req(other),
        ensures
            final(self)@ == model::difference(old(self)@, other@),
            *final(self) == old(self).sub_spec(other),
    {
        for i in 0..N
            invariant
                old(self).sub_req(other),
                forall|j: int|
                    0 <= j < i ==> (#[trigger] self.data[j]).as_int() == old(self)@[j] - other@[j],
                forall|j: int| i <= j < N ==> self.data[j] == old(self).data[j],
        {
            proof {
                T::lemma_sub(self.data[i as int], other.data[i as int]);
                assert(numeric::fits::<T>(model::difference(old(self)@, other@)[i as int]));
            }
            self.data[i] = self.data[i] - other.data[i];
        }
        proof {
            assert(self@ =~= model::difference(old(self)@, other@));
            self.lemma_from_view();
        }
    }
}

impl<T: Numeric, const N: usize> vstd::std_specs::ops::MulSpecImpl<T> for Vector<T, N> {
    open spec fn obeys_mul_spec() -> bool {
        true
    }

    open spec fn mul_req(self, other: T) -> bool {
        model::all_fit::<T>(model::scaled(self@, other.as_int()))
    }

    open spec fn mul_spec(self, other: T) -> Self {
        Self::from_ints(model::scaled(self@, other.as_int()))
    }
}

impl<T: Numeric, const N: usize> Mul<T> for Vector<T, N> {
    type Output = Self;

    /// Every component multiplied by `other`.
    fn mul(self, other: T) -> (r: Self)
        ensures
            r@ == model::scaled(self@, other.as_int()),
    {
        let mut new_data = [T::default();N];
        for i in 0..N
            invariant
                model::all_fit::<T>(model::scaled(self@, other.as_int())),
                forall|j: int|
                    0 <= j < i ==> (#[trigger] new_data[j]).as_int() == model::scaled(
                        self@,
                        other.as_int(),
                    )[j],
        {
            proof {
                T::lemma_mul(self.data[i as int], other);
                assert(numeric::fits::<T>(model::scaled(self@, other.as_int())[i as int]));
            }
            new_data[i] = self.data[i] * other;
        }
        let r = Self { data: new_data };
        proof {
            assert(r@ =~= model::scaled(self@, other.as_int()));
            r.lemma_from_view();
        }
        r
    }
}

impl<T: Numeric, const N: usize> MulAssign<T> for Vector<T, N> {
    /// Replaces every component by itself multiplied by `other`.
    fn mul_assign(&mut self, other: T)
        requires
            old(self).mul_req(other),
        ensures
            final(self)@ == model::scaled(old(self)@, other.as_int()),
            *final(self) == old(self).mul_spec(other),
    {
        for i in 0..N
            invariant
                old(self).mul_req(other),
                forall|j: int|
                    0 <= j < i ==> (#[trigger] self.data[j]).as_int() == model::scaled(
                        old(self)@,
                        other.as_int(),
                    )[j],
                forall|j: int| i <= j < N ==> self.data[j] == old(self).data[j],
        {
            proof {
                T::lemma_mul(self.data[i as int], other);
                assert(numeric::fits::<T>(model::scaled(old(self)@, other.as_int())[i as int]));
            }
            self.data[i] = self.data[i] * other;
        }
        proof {
            assert(self@ =~= model::scaled(old(self)@, other.as_int()));
            self.lemma_from_view();
        }
    }
}

impl<T: Numeric, const N: usize> vstd::std_specs::ops::DivSpecImpl<T> for Vector<T, N> {
    open spec fn obeys_div_spec() -> bool {
        true
    }

    open spec fn div_req(self, other: T) -> bool {
        other.as_int() != 0 && model::all_fit::<T>(model::quotient(self@, other.as_int()))
    }

    open spec fn div_spec(self, other: T) -> Self {
        Self::from_ints(model::quotient(self@, other.as_int()))
    }
}

impl<T: Numeric, const N: usize> Div<T> for Vector<T, N> {
    type Output = Self;

    /// Every component divided by `other`, rounded toward zero.
    fn div(self, other: T) -> (r: Self)
        ensures
            r@ == model::quotient(self@, other.as_int()),
    {
        let mut new_data = [T::default();N];
        for i in 0..N
            invariant
                other.as_int() != 0 && model::all_fit::<T>(model::quotient(self@, other.as_int())),
                forall|j: int|
                    0 <= j < i ==> (#[trigger] new_data[j]).as_int() == model::quotient(
                        self@,
                        other.as_int(),
                    )[j],
        {
            proof {
                T::lemma_div(self.data[i as int], other);
                assert(numeric::fits::<T>(model::quotient(self@, other.as_int())[i as int]));
            }
            new_data[i] = self.data[i] / other;
        }
        let r = Self { data: new_data };
        proof {
            assert(r@ =~= model::quotient(self@, other.as_int()));
            r.lemma_from_view();
        }
        r
    }
}

impl<T: Numeric, const N: usize> DivAssign<T> for Vector<T, N> {
    /// Replaces every component by itself divided by `other`, rounded toward zero.
    fn div_assign(&mut self, other: T)
        requires
            old(self).div_req(other),
        ensures
            final(self)@ == model::quotient(old(self)@, other.as_int()),
            *final(self) == old(self).div_spec(other),
    {
        for i in 0..N
            invariant
                old(self).div_req(other),
                forall|j: int|
                    0 <= j < i ==> (#[trigger] self.data[j]).as_int() == model::quotient(
                        old(self)@,
                        other.as_int(),
                    )[j],
                forall|j: int| i <= j < N ==> self.data[j] == old(self).data[j],
        {
            proof {
                T::lemma_div(self.data[i as int], other);
                assert(numeric::fits::<T>(model::quotient(old(self)@, other.as_int())[i as int]));
            }
            self.data[i] = self.data[i] / other;
        }
        proof {
            assert(self@ =~= model::quotient(old(self)@, other.as_int()));
            self.lemma_from_view();
        }
    }
}

impl<T: Numeric, const N: usize> vstd::std_specs::ops::NegSpecImpl for Vector<T, N> {
    open spec fn obeys_neg_spec() -> bool {
        true
    }

    open spec fn neg_req(self) -> bool {
        model::all_fit::<T>(model::negated(self@))
    }

    open spec fn neg_spec(self) -> Self {
        Self::from_ints(model::negated(self@))
    }
}

impl<T: Numeric, const N: usize> Neg for Vector<T, N> {
    type Output = Self;

    /// Every component negated.
    fn neg(self) -> (r: Self)
        ensures
            r@ == model::negated(self@),
    {
        let mut new_data = [T::default();N];
        for i in 0..N
            invariant
                model::all_fit::<T>(model::negated(self@)),
                forall|j: int| 0 <= j < i ==> (#[trigger] new_data[j]).as_int() == -self@[j],
        {
            proof {
                T::lemma_neg(self.data[i as int]);
                assert(numeric::fits::<T>(model::negated(self@)[i as int]));
            }
            new_data[i] = self.data[i].neg();
        }
        let r = Self { data: new_data };
        proof {
            assert(r@ =~= model::negated(self@));
            r.lemma_from_view();
        }
        r
    }
}

impl<T: Numeric, const N: usize> Vector<T, N> {
    /// Adding a vector and taking it away again gives back the vector one
    /// started from, wherever the sum can be formed.
    pub proof fn lemma_add_then_sub(a: Self, b: Self)
        requires
            a.add_req(b),
        ensures
            a.add_spec(b).sub_req(b),
            a.add_spec(b).sub_spec(b) == a,
    {
        a.lemma_view_fits();
        let total = model::sum(a@, b@);
        Self::lemma_from_ints(total);
        assert(model::difference(total, b@) =~= a@);
        a.lemma_from_view();
    }
}

} // verus!
