//! Reading the elements: as a slice, by index and by range.
use crate::array::NumericArray;
use core::ops::{Deref, DerefMut, Index, IndexMut, Range, RangeFrom, RangeFull, RangeTo};
use vstd::prelude::*;
use vstd::std_specs::iter::IteratorSpec;

verus! {

impl<T, const N: usize> Deref for NumericArray<T, N> {
    type Target = [T];

    /// The elements as a slice.
    fn deref(&self) -> (r: &[T])
        ensures
            r@ == self@,
    {
        self.0.as_slice()
    }
}

/// Wraps `Vec::as_mut_slice`, which std documents as giving the whole vector as a
/// mutable slice; it does not panic, and a slice cannot change its length. The
/// contract claims those facts.
#[verifier::external_body]
fn vec_as_mut_slice<T>(v: &mut Vec<T>) -> (r: &mut [T])
    ensures
        r@ == old(v)@,
        final(r)@.len() == old(v)@.len(),
        final(r)@ == final(v)@,
    no_unwind
{
    v.as_mut_slice()
}

impl<T, const N: usize> NumericArray<T, N> {
    /// The elements as a mutable slice; its length cannot change, so the array keeps `N`.
    pub fn as_mut_slice(&mut self) -> (r: &mut [T])
        ensures
            r@ == old(self)@,
            final(r)@ == final(self)@,
            final(self)@.len() == N,
    {
        proof {
            use_type_invariant(&*self);
        }
        vec_as_mut_slice(&mut self.0)
    }
}

impl<T, const N: usize> DerefMut for NumericArray<T, N> {
    /// The elements as a mutable slice.
    fn deref_mut(&mut self) -> (r: &mut [T])
        ensures
            r@ == old(self)@,
            final(r)@ == final(self)@,
    {
        self.as_mut_slice()
    }
}

impl<T, const N: usize> Index<usize> for NumericArray<T, N> {
    type Output = T;

    /// The element at `index`.
    fn index(&self, index: usize) -> (r: &T)
        ensures
            *r == self@[index as int],
    {
        proof {
            use_type_invariant(self);
        }
        &self.0[index]
    }
}

impl<T, const N: usize> vstd::std_specs::core::IndexSpecImpl<usize> for NumericArray<T, N> {
    open spec fn index_req(&self, index: &usize) -> bool {
        *index < N
    }
}

impl<T, const N: usize> Index<Range<usize>> for NumericArray<T, N> {
    type Output = [T];

    /// The elements from `index.start` up to, not including, `index.end`.
    fn index(&self, index: Range<usize>) -> (r: &[T])
        ensures
            r@ == self@.subrange(index.start as int, index.end as int),
    {
        proof {
            use_type_invariant(self);
        }
        &self.0.as_slice()[index]
    }
}

impl<T, const N: usize> vstd::std_specs::core::IndexSpecImpl<Range<usize>> for NumericArray<T, N> {
    open spec fn index_req(&self, index: &Range<usize>) -> bool {
        index.start <= index.end <= N
    }
}

impl<T, const N: usize> IndexMut<usize> for NumericArray<T, N> {
    /// The element at `index`, to be changed in place.
    fn index_mut(&mut self, index: usize) -> (r: &mut T)
        requires
            index < N,
        ensures
            *r == old(self)@[index as int],
            final(self)@ == old(self)@.update(index as int, *final(r)),
    {
        proof {
            use_type_invariant(&*self);
        }
        &mut self.0[index]
    }
}

/// Declares `core::ops::RangeTo`, the type of `..end`, whose one field `end` is public.
#[verifier::external_type_specification]
#[verifier::reject_recursive_types(Idx)]
pub struct ExRangeTo<Idx>(RangeTo<Idx>);

/// Declares `core::ops::RangeFrom`, the type of `start..`, whose one field `start` is public.
#[verifier::external_type_specification]
#[verifier::reject_recursive_types(Idx)]
pub struct ExRangeFrom<Idx>(RangeFrom<Idx>);

impl<T, const N: usize> Index<RangeTo<usize>> for NumericArray<T, N> {
    type Output = [T];

    /// The elements before `index.end`.
    fn index(&self, index: RangeTo<usize>) -> (r: &[T])
        ensures
            r@ == self@.subrange(0, index.end as int),
    {
        proof {
            use_type_invariant(self);
        }
        &self.0.as_slice()[0..index.end]
    }
}

impl<T, const N: usize> vstd::std_specs::core::IndexSpecImpl<RangeTo<usize>> for NumericArray<T, N> {
    open spec fn index_req(&self, index: &RangeTo<usize>) -> bool {
        index.end <= N
    }
}

impl<T, const N: usize> Index<RangeFrom<usize>> for NumericArray<T, N> {
    type Output = [T];

    /// The elements from `index.start` on.
    fn index(&self, index: RangeFrom<usize>) -> (r: &[T])
        ensures
            r@ == self@.subrange(index.start as int, N as int),
    {
        proof {
            use_type_invariant(self);
        }
        &self.0.as_slice()[index.start..self.0.len()]
    }
}

impl<T, const N: usize> vstd::std_specs::core::IndexSpecImpl<RangeFrom<usize>> for NumericArray<T, N> {
    open spec fn index_req(&self, index: &RangeFrom<usize>) -> bool {
        index.start <= N
    }
}

/// Declares `core::ops::RangeFull`, the type of `..`, which carries no data.
#[verifier::external_type_specification]
#[verifier::external_body]
pub struct ExRangeFull(RangeFull);

impl<T, const N: usize> Index<RangeFull> for NumericArray<T, N> {
    type Output = [T];

    /// All elements.
    fn index(&self, _index: RangeFull) -> (r: &[T])
        ensures
            r@ == self@,
    {
        self.0.as_slice()
    }
}

impl<T, const N: usize> vstd::std_specs::core::IndexSpecImpl<RangeFull> for NumericArray<T, N> {
    open spec fn index_req(&self, index: &RangeFull) -> bool {
        true
    }
}

impl<T, const N: usize> AsRef<[T]> for NumericArray<T, N> {
    /// The elements as a slice.
    fn as_ref(&self) -> (r: &[T])
        ensures
            r@ == self@,
    {
        self.0.as_slice()
    }
}

/// The elements of a slice.
pub open spec fn slice_view<T>(s: &[T]) -> Seq<T> {
    s@
}

impl<T, const N: usize> core::borrow::Borrow<[T]> for NumericArray<T, N> {
    /// The elements as a slice.
    fn borrow(&self) -> (r: &[T])
        ensures
            slice_view(r) == self@,
    {
        self.0.as_slice()
    }
}

impl<T, const N: usize> AsMut<[T]> for NumericArray<T, N> {
    /// The elements as a mutable slice.
    fn as_mut(&mut self) -> (r: &mut [T])
        ensures
            r@ == old(self)@,
            final(r)@ == final(self)@,
    {
        self.as_mut_slice()
    }
}

impl<T, const N: usize> core::borrow::BorrowMut<[T]> for NumericArray<T, N> {
    /// The elements as a mutable slice.
    fn borrow_mut(&mut self) -> (r: &mut [T])
        ensures
            slice_view(r) == old(self)@,
            slice_view(final(r)) == final(self)@,
    {
        self.as_mut_slice()
    }
}

impl<'a, T, const N: usize> IntoIterator for &'a NumericArray<T, N> {
    type Item = &'a T;

    type IntoIter = core::slice::Iter<'a, T>;

    /// Iterates over the elements by reference, in order.
    fn into_iter(self) -> (r: core::slice::Iter<'a, T>)
        ensures
            r.remaining() == self@.as_ref(),
    {
        broadcast use vstd::std_specs::slice::axiom_spec_slice_iter;

        self.0.as_slice().iter()
    }
}

/// Declares `core::slice::IterMut`, the iterator over a slice by mutable reference.
#[verifier::external_type_specification]
#[verifier::external_body]
#[verifier::reject_recursive_types(T)]
pub struct ExIterMut<'a, T: 'a>(core::slice::IterMut<'a, T>);

/// Wraps `<[T]>::iter_mut`, which std documents as iterating over the slice's elements
/// by mutable reference, in order. vstd gives `IterMut` no model, so the contract
/// states nothing of the iterator.
#[verifier::external_body]
fn slice_iter_mut<'a, T>(s: &'a mut [T]) -> core::slice::IterMut<'a, T> {
    s.iter_mut()
}

impl<'a, T, const N: usize> IntoIterator for &'a mut NumericArray<T, N> {
    type Item = &'a mut T;

    type IntoIter = core::slice::IterMut<'a, T>;

    /// Iterates over the elements by mutable reference, in order.
    fn into_iter(self) -> core::slice::IterMut<'a, T> {
        slice_iter_mut(self.as_mut_slice())
    }
}

} // verus!
