//! Checked, wrapping and saturating arithmetic, element by element.
use crate::array::NumericArray;
use crate::element::Primitive;
use vstd::prelude::*;

verus! {

impl<T: Primitive, const N: usize> NumericArray<T, N> {
    /// The element-wise sum, or `None` where any element's `checked_add` fails.
    pub fn checked_add(&self, rhs: &Self) -> (r: Option<Self>)
        ensures
            r is Some <==> forall|i: int|
                0 <= i < N ==> (#[trigger] T::checked_add_spec(self@[i], rhs@[i])) is Some,
            r matches Some(v) ==> v@.len() == N && forall|i: int|
                0 <= i < N ==> Some(#[trigger] v@[i]) == T::checked_add_spec(self@[i], rhs@[i]),
    {
        let r = self.try_zip(rhs, T::checked_add_elem);
        proof {
            if r is Some {
                let v = r->0;
                assert forall|i: int| 0 <= i < N implies #[trigger] T::checked_add_spec(
                    self@[i],
                    rhs@[i],
                ) == Some(v@[i]) by {
                    assert(call_ensures(T::checked_add_elem, (&self@[i], &rhs@[i]), Some(v@[i])));
                }
            } else {
                let i = choose|i: int|
                    0 <= i < N && #[trigger] call_ensures(
                        T::checked_add_elem,
                        (&self@[i], &rhs@[i]),
                        None::<T>,
                    );
                assert(T::checked_add_spec(self@[i], rhs@[i]) is None);
            }
        }
        r
    }

    /// The element-wise difference, or `None` where any element's `checked_sub` fails.
    pub fn checked_sub(&self, rhs: &Self) -> (r: Option<Self>)
        ensures
            r is Some <==> forall|i: int|
                0 <= i < N ==> (#[trigger] T::checked_sub_spec(self@[i], rhs@[i])) is Some,
            r matches Some(v) ==> v@.len() == N && forall|i: int|
                0 <= i < N ==> Some(#[trigger] v@[i]) == T::checked_sub_spec(self@[i], rhs@[i]),
    {
        let r = self.try_zip(rhs, T::checked_sub_elem);
        proof {
            if r is Some {
                let v = r->0;
                assert forall|i: int| 0 <= i < N implies #[trigger] T::checked_sub_spec(
                    self@[i],
                    rhs@[i],
                ) == Some(v@[i]) by {
                    assert(call_ensures(T::checked_sub_elem, (&self@[i], &rhs@[i]), Some(v@[i])));
                }
            } else {
                let i = choose|i: int|
                    0 <= i < N && #[trigger] call_ensures(
                        T::checked_sub_elem,
                        (&self@[i], &rhs@[i]),
                        None::<T>,
                    );
                assert(T::checked_sub_spec(self@[i], rhs@[i]) is None);
            }
        }
        r
    }

    /// The element-wise product, or `None` where any element's `checked_mul` fails.
    pub fn checked_mul(&self, rhs: &Self) -> (r: Option<Self>)
        ensures
            r is Some <==> forall|i: int|
                0 <= i < N ==> (#[trigger] T::checked_mul_spec(self@[i], rhs@[i])) is Some,
            r matches Some(v) ==> v@.len() == N && forall|i: int|
                0 <= i < N ==> Some(#[trigger] v@[i]) == T::checked_mul_spec(self@[i], rhs@[i]),
    {
        let r = self.try_zip(rhs, T::checked_mul_elem);
        proof {
            if r is Some {
                let v = r->0;
                assert forall|i: int| 0 <= i < N implies #[trigger] T::checked_mul_spec(
                    self@[i],
                    rhs@[i],
                ) == Some(v@[i]) by {
                    assert(call_ensures(T::checked_mul_elem, (&self@[i], &rhs@[i]), Some(v@[i])));
                }
            } else {
                let i = choose|i: int|
                    0 <= i < N && #[trigger] call_ensures(
                        T::checked_mul_elem,
                        (&self@[i], &rhs@[i]),
                        None::<T>,
                    );
                assert(T::checked_mul_spec(self@[i], rhs@[i]) is None);
            }
        }
        r
    }

    /// The element-wise quotient, or `None` where any element's `checked_div` fails.
    pub fn checked_div(&self, rhs: &Self) -> (r: Option<Self>)
        ensures
            r is Some <==> forall|i: int|
                0 <= i < N ==> (#[trigger] T::checked_div_spec(self@[i], rhs@[i])) is Some,
            r matches Some(v) ==> v@.len() == N && forall|i: int|
                0 <= i < N ==> Some(#[trigger] v@[i]) == T::checked_div_spec(self@[i], rhs@[i]),
    {
        let r = self.try_zip(rhs, T::checked_div_elem);
        proof {
            if r is Some {
                let v = r->0;
                assert forall|i: int| 0 <= i < N implies #[trigger] T::checked_div_spec(
                    self@[i],
                    rhs@[i],
                ) == Some(v@[i]) by {
                    assert(call_ensures(T::checked_div_elem, (&self@[i], &rhs@[i]), Some(v@[i])));
                }
            } else {
                let i = choose|i: int|
                    0 <= i < N && #[trigger] call_ensures(
                        T::checked_div_elem,
                        (&self@[i], &rhs@[i]),
                        None::<T>,
                    );
                assert(T::checked_div_spec(self@[i], rhs@[i]) is None);
            }
        }
        r
    }

    /// The element-wise sum, wrapped around at the bounds of the element type.
    pub fn wrapping_add(&self, rhs: &Self) -> (r: Self)
        ensures
            r@.len() == N,
            forall|i: int| 0 <= i < N ==> #[trigger] r@[i] == T::wrapping_add_spec(self@[i], rhs@[i]),
    {
        self.zip(rhs, T::wrapping_add_elem)
    }

    /// The element-wise difference, wrapped around at the bounds of the element type.
    pub fn wrapping_sub(&self, rhs: &Self) -> (r: Self)
        ensures
            r@.len() == N,
            forall|i: int| 0 <= i < N ==> #[trigger] r@[i] == T::wrapping_sub_spec(self@[i], rhs@[i]),
    {
        self.zip(rhs, T::wrapping_sub_elem)
    }

    /// The element-wise product, wrapped around at the bounds of the element type.
    pub fn wrapping_mul(&self, rhs: &Self) -> (r: Self)
        ensures
            r@.len() == N,
            forall|i: int| 0 <= i < N ==> #[trigger] r@[i] == T::wrapping_mul_spec(self@[i], rhs@[i]),
    {
        self.zip(rhs, T::wrapping_mul_elem)
    }

    /// The element-wise sum, held at the bounds of the element type.
    pub fn saturating_add(self, rhs: Self) -> (r: Self)
        ensures
            r@.len() == N,
            forall|i: int| 0 <= i < N ==> #[trigger] r@[i] == T::saturating_add_spec(self@[i], rhs@[i]),
    {
        self.zip_move_both(rhs, T::saturating_add_elem)
    }

    /// The element-wise difference, held at the bounds of the element type.
    pub fn saturating_sub(self, rhs: Self) -> (r: Self)
        ensures
            r@.len() == N,
            forall|i: int| 0 <= i < N ==> #[trigger] r@[i] == T::saturating_sub_spec(self@[i], rhs@[i]),
    {
        self.zip_move_both(rhs, T::saturating_sub_elem)
    }
}

} // verus!
