//! Equality of arrays, element by element.
use crate::array::NumericArray;
use vstd::prelude::*;
use vstd::std_specs::cmp::{PartialEqSpec, PartialEqSpecImpl};

verus! {

/// Whether `a` and `b` agree at every index below `n`, by the elements' own equality.
pub open spec fn all_elements_eq<T: PartialEq>(a: Seq<T>, b: Seq<T>, n: int) -> bool {
    forall|i: int| 0 <= i < n ==> #[trigger] a[i].eq_spec(&b[i])
}

impl<T: PartialEq, const N: usize> PartialEq for NumericArray<T, N> {
    /// Compares the elements pairwise, stopping at the first pair that differs.
    fn eq(&self, other: &Self) -> (r: bool)
        ensures
            T::obeys_eq_spec() ==> (r <==> all_elements_eq(self@, other@, N as int)),
    {
        proof {
            use_type_invariant(self);
            use_type_invariant(other);
        }
        let mut i: usize = 0;
        while i < self.0.len()
            invariant
                self.0@.len() == N,
                other.0@.len() == N,
                self@ == self.0@,
                other@ == other.0@,
                i <= N,
                T::obeys_eq_spec() ==> all_elements_eq(self@, other@, i as int),
            decreases N - i,
        {
            if !(self.0[i] == other.0[i]) {
                return false;
            }
            i = i + 1;
        }
        true
    }

    /// Whether some pair of elements differs.
    fn ne(&self, other: &Self) -> (r: bool)
        ensures
            T::obeys_eq_spec() ==> (r <==> !all_elements_eq(self@, other@, N as int)),
    {
        !self.eq(other)
    }
}

impl<T: PartialEq, const N: usize> PartialEqSpecImpl for NumericArray<T, N> {
    open spec fn obeys_eq_spec() -> bool {
        T::obeys_eq_spec()
    }

    open spec fn eq_spec(&self, other: &Self) -> bool {
        all_elements_eq(self@, other@, N as int)
    }
}

impl<T: Eq, const N: usize> Eq for NumericArray<T, N> {

}

} // verus!
