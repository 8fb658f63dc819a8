//! The operators of `core::ops`, applied element by element.
use crate::array::NumericArray;
use core::ops::{Add, Sub, Mul, Div, Rem, Neg, Not};
use vstd::prelude::*;
use vstd::std_specs::ops::{AddSpec, AddSpecImpl, SubSpec, SubSpecImpl, MulSpec, MulSpecImpl, DivSpec, DivSpecImpl, RemSpec, RemSpecImpl, NegSpec, NegSpecImpl, NotSpec, NotSpecImpl};

verus! {

/// One element's sum, under the contract that vstd gives `Add`.
fn add_elem<T: Add>(a: T, b: T) -> (c: T::Output)
    requires
        a.add_req(b),
    ensures
        T::obeys_add_spec() ==> c == a.add_spec(b),
{
    a.add(b)
}

impl<T: Add, const N: usize> Add<NumericArray<T, N>> for NumericArray<T, N> {
    type Output = NumericArray<T::Output, N>;

    /// Element-wise sum of two arrays.
    fn add(self, rhs: NumericArray<T, N>) -> (r: NumericArray<T::Output, N>)
        ensures
            r@.len() == N,
            T::obeys_add_spec() ==> forall|i: int|
                0 <= i < N ==> #[trigger] r@[i] == self@[i].add_spec(rhs@[i]),
    {
        self.zip_move_both(rhs, add_elem::<T>)
    }
}

impl<T: Add, const N: usize> AddSpecImpl<NumericArray<T, N>> for NumericArray<T, N> {
    /// What the operator gives back is stated element by element on `add` itself.
    open spec fn obeys_add_spec() -> bool {
        false
    }

    open spec fn add_req(self, rhs: NumericArray<T, N>) -> bool {
        forall|i: int| 0 <= i < N ==> #[trigger] self@[i].add_req(rhs@[i])
    }

    open spec fn add_spec(self, rhs: NumericArray<T, N>) -> NumericArray<T::Output, N> {
        vstd::pervasive::arbitrary()
    }
}

impl<T: Copy + Add, const N: usize> Add<T> for NumericArray<T, N> {
    type Output = NumericArray<T::Output, N>;

    /// The sum of every element with the scalar `rhs`.
    fn add(self, rhs: T) -> (r: NumericArray<T::Output, N>)
        ensures
            r@.len() == N,
            T::obeys_add_spec() ==> forall|i: int|
                0 <= i < N ==> #[trigger] r@[i] == self@[i].add_spec(rhs),
    {
        let f = |l: T| -> (c: T::Output)
            requires
                l.add_req(rhs),
            ensures
                T::obeys_add_spec() ==> c == l.add_spec(rhs),
        {
            l.add(rhs)
        };
        self.map_move(f)
    }
}

impl<T: Copy + Add, const N: usize> AddSpecImpl<T> for NumericArray<T, N> {
    /// What the operator gives back is stated element by element on `add` itself.
    open spec fn obeys_add_spec() -> bool {
        false
    }

    open spec fn add_req(self, rhs: T) -> bool {
        forall|i: int| 0 <= i < N ==> #[trigger] self@[i].add_req(rhs)
    }

    open spec fn add_spec(self, rhs: T) -> NumericArray<T::Output, N> {
        vstd::pervasive::arbitrary()
    }
}

/// One element's difference, under the contract that vstd gives `Sub`.
fn sub_elem<T: Sub>(a: T, b: T) -> (c: T::Output)
    requires
        a.sub_req(b),
    ensures
        T::obeys_sub_spec() ==> c == a.sub_spec(b),
{
    a.sub(b)
}

impl<T: Sub, const N: usize> Sub<NumericArray<T, N>> for NumericArray<T, N> {
    type Output = NumericArray<T::Output, N>;

    /// Element-wise difference of two arrays.
    fn sub(self, rhs: NumericArray<T, N>) -> (r: NumericArray<T::Output, N>)
        ensures
            r@.len() == N,
            T::obeys_sub_spec() ==> forall|i: int|
                0 <= i < N ==> #[trigger] r@[i] == self@[i].sub_spec(rhs@[i]),
    {
        self.zip_move_both(rhs, sub_elem::<T>)
    }
}

impl<T: Sub, const N: usize> SubSpecImpl<NumericArray<T, N>> for NumericArray<T, N> {
    /// What the operator gives back is stated element by element on `sub` itself.
    open spec fn obeys_sub_spec() -> bool {
        false
    }

    open spec fn sub_req(self, rhs: NumericArray<T, N>) -> bool {
        forall|i: int| 0 <= i < N ==> #[trigger] self@[i].sub_req(rhs@[i])
    }

    open spec fn sub_spec(self, rhs: NumericArray<T, N>) -> NumericArray<T::Output, N> {
        vstd::pervasive::arbitrary()
    }
}

impl<T: Copy + Sub, const N: usize> Sub<T> for NumericArray<T, N> {
    type Output = NumericArray<T::Output, N>;

    /// The difference of every element with the scalar `rhs`.
    fn sub(self, rhs: T) -> (r: NumericArray<T::Output, N>)
        ensures
            r@.len() == N,
            T::obeys_sub_spec() ==> forall|i: int|
                0 <= i < N ==> #[trigger] r@[i] == self@[i].sub_spec(rhs),
    {
        let f = |l: T| -> (c: T::Output)
            requires
                l.sub_req(rhs),
            ensures
                T::obeys_sub_spec() ==> c == l.sub_spec(rhs),
        {
            l.sub(rhs)
        };
        self.map_move(f)
    }
}

impl<T: Copy + Sub, const N: usize> SubSpecImpl<T> for NumericArray<T, N> {
    /// What the operator gives back is stated element by element on `sub` itself.
    open spec fn obeys_sub_spec() -> bool {
        false
    }

    open spec fn sub_req(self, rhs: T) -> bool {
        forall|i: int| 0 <= i < N ==> #[trigger] self@[i].sub_req(rhs)
    }

    open spec fn sub_spec(self, rhs: T) -> NumericArray<T::Output, N> {
        vstd::pervasive::arbitrary()
    }
}

/// One element's product, under the contract that vstd gives `Mul`.
fn mul_elem<T: Mul>(a: T, b: T) -> (c: T::Output)
    requires
        a.mul_req(b),
    ensures
        T::obeys_mul_spec() ==> c == a.mul_spec(b),
{
    a.mul(b)
}

impl<T: Mul, const N: usize> Mul<NumericArray<T, N>> for NumericArray<T, N> {
    type Output = NumericArray<T::Output, N>;

    /// Element-wise product of two arrays.
    fn mul(self, rhs: NumericArray<T, N>) -> (r: NumericArray<T::Output, N>)
        ensures
            r@.len() == N,
            T::obeys_mul_spec() ==> forall|i: int|
                0 <= i < N ==> #[trigger] r@[i] == self@[i].mul_spec(rhs@[i]),
    {
        self.zip_move_both(rhs, mul_elem::<T>)
    }
}

impl<T: Mul, const N: usize> MulSpecImpl<NumericArray<T, N>> for NumericArray<T, N> {
    /// What the operator gives back is stated element by element on `mul` itself.
    open spec fn obeys_mul_spec() -> bool {
        false
    }

    open spec fn mul_req(self, rhs: NumericArray<T, N>) -> bool {
        forall|i: int| 0 <= i < N ==> #[trigger] self@[i].mul_req(rhs@[i])
    }

    open spec fn mul_spec(self, rhs: NumericArray<T, N>) -> NumericArray<T::Output, N> {
        vstd::pervasive::arbitrary()
    }
}

impl<T: Copy + Mul, const N: usize> Mul<T> for NumericArray<T, N> {
    type Output = NumericArray<T::Output, N>;

    /// The product of every element with the scalar `rhs`.
    fn mul(self, rhs: T) -> (r: NumericArray<T::Output, N>)
        ensures
            r@.len() == N,
            T::obeys_mul_spec() ==> forall|i: int|
                0 <= i < N ==> #[trigger] r@[i] == self@[i].mul_spec(rhs),
    {
        let f = |l: T| -> (c: T::Output)
            requires
                l.mul_req(rhs),
            ensures
                T::obeys_mul_spec() ==> c == l.mul_spec(rhs),
        {
            l.mul(rhs)
        };
        self.map_move(f)
    }
}

impl<T: Copy + Mul, const N: usize> MulSpecImpl<T> for NumericArray<T, N> {
    /// What the operator gives back is stated element by element on `mul` itself.
    open spec fn obeys_mul_spec() -> bool {
        false
    }

    open spec fn mul_req(self, rhs: T) -> bool {
        forall|i: int| 0 <= i < N ==> #[trigger] self@[i].mul_req(rhs)
    }

    open spec fn mul_spec(self, rhs: T) -> NumericArray<T::Output, N> {
        vstd::pervasive::arbitrary()
    }
}

/// One element's quotient, under the contract that vstd gives `Div`.
fn div_elem<T: Div>(a: T, b: T) -> (c: T::Output)
    requires
        a.div_req(b),
    ensures
        T::obeys_div_spec() ==> c == a.div_spec(b),
{
    a.div(b)
}

impl<T: Div, const N: usize> Div<NumericArray<T, N>> for NumericArray<T, N> {
    type Output = NumericArray<T::Output, N>;

    /// Element-wise quotient of two arrays.
    fn div(self, rhs: NumericArray<T, N>) -> (r: NumericArray<T::Output, N>)
        ensures
            r@.len() == N,
            T::obeys_div_spec() ==> forall|i: int|
                0 <= i < N ==> #[trigger] r@[i] == self@[i].div_spec(rhs@[i]),
    {
        self.zip_move_both(rhs, div_elem::<T>)
    }
}

impl<T: Div, const N: usize> DivSpecImpl<NumericArray<T, N>> for NumericArray<T, N> {
    /// What the operator gives back is stated element by element on `div` itself.
    open spec fn obeys_div_spec() -> bool {
        false
    }

    open spec fn div_req(self, rhs: NumericArray<T, N>) -> bool {
        forall|i: int| 0 <= i < N ==> #[trigger] self@[i].div_req(rhs@[i])
    }

    open spec fn div_spec(self, rhs: NumericArray<T, N>) -> NumericArray<T::Output, N> {
        vstd::pervasive::arbitrary()
    }
}

impl<T: Copy + Div, const N: usize> Div<T> for NumericArray<T, N> {
    type Output = NumericArray<T::Output, N>;

    /// The quotient of every element with the scalar `rhs`.
    fn div(self, rhs: T) -> (r: NumericArray<T::Output, N>)
        ensures
            r@.len() == N,
            T::obeys_div_spec() ==> forall|i: int|
                0 <= i < N ==> #[trigger] r@[i] == self@[i].div_spec(rhs),
    {
        let f = |l: T| -> (c: T::Output)
            requires
                l.div_req(rhs),
            ensures
                T::obeys_div_spec() ==> c == l.div_spec(rhs),
        {
            l.div(rhs)
        };
        self.map_move(f)
    }
}

impl<T: Copy + Div, const N: usize> DivSpecImpl<T> for NumericArray<T, N> {
    /// What the operator gives back is stated element by element on `div` itself.
    open spec fn obeys_div_spec() -> bool {
        false
    }

    open spec fn div_req(self, rhs: T) -> bool {
        forall|i: int| 0 <= i < N ==> #[trigger] self@[i].div_req(rhs)
    }

    open spec fn div_spec(self, rhs: T) -> NumericArray<T::Output, N> {
        vstd::pervasive::arbitrary()
    }
}

/// One element's remainder, under the contract that vstd gives `Rem`.
fn rem_elem<T: Rem>(a: T, b: T) -> (c: T::Output)
    requires
        a.rem_req(b),
    ensures
        T::obeys_rem_spec() ==> c == a.rem_spec(b),
{
    a.rem(b)
}

impl<T: Rem, const N: usize> Rem<NumericArray<T, N>> for NumericArray<T, N> {
    type Output = NumericArray<T::Output, N>;

    /// Element-wise remainder of two arrays.
    fn rem(self, rhs: NumericArray<T, N>) -> (r: NumericArray<T::Output, N>)
        ensures
            r@.len() == N,
            T::obeys_rem_spec() ==> forall|i: int|
                0 <= i < N ==> #[trigger] r@[i] == self@[i].rem_spec(rhs@[i]),
    {
        self.zip_move_both(rhs, rem_elem::<T>)
    }
}

impl<T: Rem, const N: usize> RemSpecImpl<NumericArray<T, N>> for NumericArray<T, N> {
    /// What the operator gives back is stated element by element on `rem` itself.
    open spec fn obeys_rem_spec() -> bool {
        false
    }

    open spec fn rem_req(self, rhs: NumericArray<T, N>) -> bool {
        forall|i: int| 0 <= i < N ==> #[trigger] self@[i].rem_req(rhs@[i])
    }

    open spec fn rem_spec(self, rhs: NumericArray<T, N>) -> NumericArray<T::Output, N> {
        vstd::pervasive::arbitrary()
    }
}

impl<T: Copy + Rem, const N: usize> Rem<T> for NumericArray<T, N> {
    type Output = NumericArray<T::Output, N>;

    /// The remainder of every element with the scalar `rhs`.
    fn rem(self, rhs: T) -> (r: NumericArray<T::Output, N>)
        ensures
            r@.len() == N,
            T::obeys_rem_spec() ==> forall|i: int|
                0 <= i < N ==> #[trigger] r@[i] == self@[i].rem_spec(rhs),
    {
        let f = |l: T| -> (c: T::Output)
            requires
                l.rem_req(rhs),
            ensures
                T::obeys_rem_spec() ==> c == l.rem_spec(rhs),
        {
            l.rem(rhs)
        };
        self.map_move(f)
    }
}

impl<T: Copy + Rem, const N: usize> RemSpecImpl<T> for NumericArray<T, N> {
    /// What the operator gives back is stated element by element on `rem` itself.
    open spec fn obeys_rem_spec() -> bool {
        false
    }

    open spec fn rem_req(self, rhs: T) -> bool {
        forall|i: int| 0 <= i < N ==> #[trigger] self@[i].rem_req(rhs)
    }

    open spec fn rem_spec(self, rhs: T) -> NumericArray<T::Output, N> {
        vstd::pervasive::arbitrary()
    }
}

/// One element's negation, under the contract that vstd gives `Neg`.
fn neg_elem<T: Neg>(a: T) -> (c: T::Output)
    requires
        a.neg_req(),
    ensures
        T::obeys_neg_spec() ==> c == a.neg_spec(),
{
    a.neg()
}

impl<T: Neg, const N: usize> Neg for NumericArray<T, N> {
    type Output = NumericArray<T::Output, N>;

    /// Element-wise negation.
    fn neg(self) -> (r: NumericArray<T::Output, N>)
        ensures
            r@.len() == N,
            T::obeys_neg_spec() ==> forall|i: int|
                0 <= i < N ==> #[trigger] r@[i] == self@[i].neg_spec(),
    {
        self.map_move(neg_elem::<T>)
    }
}

impl<T: Neg, const N: usize> NegSpecImpl for NumericArray<T, N> {
    /// What the operator gives back is stated element by element on `neg` itself.
    open spec fn obeys_neg_spec() -> bool {
        false
    }

    open spec fn neg_req(self) -> bool {
        forall|i: int| 0 <= i < N ==> #[trigger] self@[i].neg_req()
    }

    open spec fn neg_spec(self) -> NumericArray<T::Output, N> {
        vstd::pervasive::arbitrary()
    }
}

/// One element's complement, under the contract that vstd gives `Not`.
fn not_elem<T: Not>(a: T) -> (c: T::Output)
    requires
        a.not_req(),
    ensures
        T::obeys_not_spec() ==> c == a.not_spec(),
{
    a.not()
}

impl<T: Not, const N: usize> Not for NumericArray<T, N> {
    type Output = NumericArray<T::Output, N>;

    /// Element-wise complement.
    fn not(self) -> (r: NumericArray<T::Output, N>)
        ensures
            r@.len() == N,
            T::obeys_not_spec() ==> forall|i: int|
                0 <= i < N ==> #[trigger] r@[i] == self@[i].not_spec(),
    {
        self.map_move(not_elem::<T>)
    }
}

impl<T: Not, const N: usize> NotSpecImpl for NumericArray<T, N> {
    /// What the operator gives back is stated element by element on `not` itself.
    open spec fn obeys_not_spec() -> bool {
        false
    }

    open spec fn not_req(self) -> bool {
        forall|i: int| 0 <= i < N ==> #[trigger] self@[i].not_req()
    }

    open spec fn not_spec(self) -> NumericArray<T::Output, N> {
        vstd::pervasive::arbitrary()
    }
}

} // verus!
