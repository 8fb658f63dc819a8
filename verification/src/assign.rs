//! The compound assignment operators, applied element by element.
//!
//! Each element is combined through the value operator (`Add` for `+=`, and so on),
//! whose contract vstd gives; the elements are therefore required to be `Copy`.
use crate::array::NumericArray;
use core::ops::{Add, AddAssign, Sub, SubAssign, Mul, MulAssign, Div, DivAssign, Rem, RemAssign};
use vstd::prelude::*;
use vstd::std_specs::ops::{AddSpec, SubSpec, MulSpec, DivSpec, RemSpec};

verus! {

/// One element's sum of two lent elements.
fn add_ref_elem<T: Copy + Add<Output = T>>(a: &T, b: &T) -> (c: T)
    requires
        (*a).add_req(*b),
    ensures
        T::obeys_add_spec() ==> c == (*a).add_spec(*b),
{
    (*a).add(*b)
}

impl<T: Copy + Add<Output = T>, const N: usize> AddAssign<NumericArray<T, N>> for NumericArray<T, N> {
    /// Replaces each element by its sum with the matching element of `rhs`.
    fn add_assign(&mut self, rhs: NumericArray<T, N>)
        requires
            forall|i: int| 0 <= i < N ==> #[trigger] old(self)@[i].add_req(rhs@[i]),
        ensures
            final(self)@.len() == N,
            T::obeys_add_spec() ==> forall|i: int|
                0 <= i < N ==> #[trigger] final(self)@[i] == old(self)@[i].add_spec(rhs@[i]),
    {
        let r = self.zip(&rhs, add_ref_elem::<T>);
        *self = r;
    }
}

impl<T: Copy + Add<Output = T>, const N: usize> AddAssign<T> for NumericArray<T, N> {
    /// Replaces each element by its sum with the scalar `rhs`.
    fn add_assign(&mut self, rhs: T)
        requires
            forall|i: int| 0 <= i < N ==> #[trigger] old(self)@[i].add_req(rhs),
        ensures
            final(self)@.len() == N,
            T::obeys_add_spec() ==> forall|i: int|
                0 <= i < N ==> #[trigger] final(self)@[i] == old(self)@[i].add_spec(rhs),
    {
        let f = |l: &T| -> (c: T)
            requires
                (*l).add_req(rhs),
            ensures
                T::obeys_add_spec() ==> c == (*l).add_spec(rhs),
        {
            (*l).add(rhs)
        };
        let r = self.map(f);
        *self = r;
    }
}

/// One element's difference of two lent elements.
fn sub_ref_elem<T: Copy + Sub<Output = T>>(a: &T, b: &T) -> (c: T)
    requires
        (*a).sub_req(*b),
    ensures
        T::obeys_sub_spec() ==> c == (*a).sub_spec(*b),
{
    (*a).sub(*b)
}

impl<T: Copy + Sub<Output = T>, const N: usize> SubAssign<NumericArray<T, N>> for NumericArray<T, N> {
    /// Replaces each element by its difference with the matching element of `rhs`.
    fn sub_assign(&mut self, rhs: NumericArray<T, N>)
        requires
            forall|i: int| 0 <= i < N ==> #[trigger] old(self)@[i].sub_req(rhs@[i]),
        ensures
            final(self)@.len() == N,
            T::obeys_sub_spec() ==> forall|i: int|
                0 <= i < N ==> #[trigger] final(self)@[i] == old(self)@[i].sub_spec(rhs@[i]),
    {
        let r = self.zip(&rhs, sub_ref_elem::<T>);
        *self = r;
    }
}

impl<T: Copy + Sub<Output = T>, const N: usize> SubAssign<T> for NumericArray<T, N> {
    /// Replaces each element by its difference with the scalar `rhs`.
    fn sub_assign(&mut self, rhs: T)
        requires
            forall|i: int| 0 <= i < N ==> #[trigger] old(self)@[i].sub_req(rhs),
        ensures
            final(self)@.len() == N,
            T::obeys_sub_spec() ==> forall|i: int|
                0 <= i < N ==> #[trigger] final(self)@[i] == old(self)@[i].sub_spec(rhs),
    {
        let f = |l: &T| -> (c: T)
            requires
                (*l).sub_req(rhs),
            ensures
                T::obeys_sub_spec() ==> c == (*l).sub_spec(rhs),
        {
            (*l).sub(rhs)
        };
        let r = self.map(f);
        *self = r;
    }
}

/// One element's product of two lent elements.
fn mul_ref_elem<T: Copy + Mul<Output = T>>(a: &T, b: &T) -> (c: T)
    requires
        (*a).mul_req(*b),
    ensures
        T::obeys_mul_spec() ==> c == (*a).mul_spec(*b),
{
    (*a).mul(*b)
}

impl<T: Copy + Mul<Output = T>, const N: usize> MulAssign<NumericArray<T, N>> for NumericArray<T, N> {
    /// Replaces each element by its product with the matching element of `rhs`.
    fn mul_assign(&mut self, rhs: NumericArray<T, N>)
        requires
            forall|i: int| 0 <= i < N ==> #[trigger] old(self)@[i].mul_req(rhs@[i]),
        ensures
            final(self)@.len() == N,
            T::obeys_mul_spec() ==> forall|i: int|
                0 <= i < N ==> #[trigger] final(self)@[i] == old(self)@[i].mul_spec(rhs@[i]),
    {
        let r = self.zip(&rhs, mul_ref_elem::<T>);
        *self = r;
    }
}

impl<T: Copy + Mul<Output = T>, const N: usize> MulAssign<T> for NumericArray<T, N> {
    /// Replaces each element by its product with the scalar `rhs`.
    fn mul_assign(&mut self, rhs: T)
        requires
            forall|i: int| 0 <= i < N ==> #[trigger] old(self)@[i].mul_req(rhs),
        ensures
            final(self)@.len() == N,
            T::obeys_mul_spec() ==> forall|i: int|
                0 <= i < N ==> #[trigger] final(self)@[i] == old(self)@[i].mul_spec(rhs),
    {
        let f = |l: &T| -> (c: T)
            requires
                (*l).mul_req(rhs),
            ensures
                T::obeys_mul_spec() ==> c == (*l).mul_spec(rhs),
        {
            (*l).mul(rhs)
        };
        let r = self.map(f);
        *self = r;
    }
}

/// One element's quotient of two lent elements.
fn div_ref_elem<T: Copy + Div<Output = T>>(a: &T, b: &T) -> (c: T)
    requires
        (*a).div_req(*b),
    ensures
        T::obeys_div_spec() ==> c == (*a).div_spec(*b),
{
    (*a).div(*b)
}

impl<T: Copy + Div<Output = T>, const N: usize> DivAssign<NumericArray<T, N>> for NumericArray<T, N> {
    /// Replaces each element by its quotient with the matching element of `rhs`.
    fn div_assign(&mut self, rhs: NumericArray<T, N>)
        requires
            forall|i: int| 0 <= i < N ==> #[trigger] old(self)@[i].div_req(rhs@[i]),
        ensures
            final(self)@.len() == N,
            T::obeys_div_spec() ==> forall|i: int|
                0 <= i < N ==> #[trigger] final(self)@[i] == old(self)@[i].div_spec(rhs@[i]),
    {
        let r = self.zip(&rhs, div_ref_elem::<T>);
        *self = r;
    }
}

impl<T: Copy + Div<Output = T>, const N: usize> DivAssign<T> for NumericArray<T, N> {
    /// Replaces each element by its quotient with the scalar `rhs`.
    fn div_assign(&mut self, rhs: T)
        requires
            forall|i: int| 0 <= i < N ==> #[trigger] old(self)@[i].div_req(rhs),
        ensures
            final(self)@.len() == N,
            T::obeys_div_spec() ==> forall|i: int|
                0 <= i < N ==> #[trigger] final(self)@[i] == old(self)@[i].div_spec(rhs),
    {
        let f = |l: &T| -> (c: T)
            requires
                (*l).div_req(rhs),
            ensures
                T::obeys_div_spec() ==> c == (*l).div_spec(rhs),
        {
            (*l).div(rhs)
        };
        let r = self.map(f);
        *self = r;
    }
}

/// One element's remainder of two lent elements.
fn rem_ref_elem<T: Copy + Rem<Output = T>>(a: &T, b: &T) -> (c: T)
    requires
        (*a).rem_req(*b),
    ensures
        T::obeys_rem_spec() ==> c == (*a).rem_spec(*b),
{
    (*a).rem(*b)
}

impl<T: Copy + Rem<Output = T>, const N: usize> RemAssign<NumericArray<T, N>> for NumericArray<T, N> {
    /// Replaces each element by its remainder with the matching element of `rhs`.
    fn rem_assign(&mut self, rhs: NumericArray<T, N>)
        requires
            forall|i: int| 0 <= i < N ==> #[trigger] old(self)@[i].rem_req(rhs@[i]),
        ensures
            final(self)@.len() == N,
            T::obeys_rem_spec() ==> forall|i: int|
                0 <= i < N ==> #[trigger] final(self)@[i] == old(self)@[i].rem_spec(rhs@[i]),
    {
        let r = self.zip(&rhs, rem_ref_elem::<T>);
        *self = r;
    }
}

impl<T: Copy + Rem<Output = T>, const N: usize> RemAssign<T> for NumericArray<T, N> {
    /// Replaces each element by its remainder with the scalar `rhs`.
    fn rem_assign(&mut self, rhs: T)
        requires
            forall|i: int| 0 <= i < N ==> #[trigger] old(self)@[i].rem_req(rhs),
        ensures
            final(self)@.len() == N,
            T::obeys_rem_spec() ==> forall|i: int|
                0 <= i < N ==> #[trigger] final(self)@[i] == old(self)@[i].rem_spec(rhs),
    {
        let f = |l: &T| -> (c: T)
            requires
                (*l).rem_req(rhs),
            ensures
                T::obeys_rem_spec() ==> c == (*l).rem_spec(rhs),
        {
            (*l).rem(rhs)
        };
        let r = self.map(f);
        *self = r;
    }
}

} // verus!
