use vstd::prelude::*;

verus! {

/// An array of exactly `N` elements on which arithmetic acts element by element.
#[derive(Debug)]
pub struct NumericArray<T, const N: usize>(pub(crate) Vec<T>);

impl<T, const N: usize> View for NumericArray<T, N> {
    type V = Seq<T>;

    open(crate) spec fn view(&self) -> Seq<T> {
        self.0@
    }
}

impl<T, const N: usize> NumericArray<T, N> {
    /// The array always holds exactly `N` elements.
    #[verifier::type_invariant]
    pub open(crate) spec fn holds_n(self) -> bool {
        self.0@.len() == N
    }

    /// The number of elements, which is `N`.
    pub fn len(&self) -> (r: usize)
        ensures
            r == N,
            r == self@.len(),
    {
        proof {
            use_type_invariant(self);
        }
        self.0.len()
    }

    /// Builds an array from a plain array of the same length, keeping the order.
    pub fn new(arr: [T; N]) -> (r: Self)
        ensures
            r@.len() == N,
            r@ == arr@,
    {
        let data = vec_from_array(arr);
        NumericArray(data)
    }

    /// Maps each element by reference to a new array of the same length.
    pub fn map<U, F: Fn(&T) -> U>(&self, f: F) -> (r: NumericArray<U, N>)
        requires
            forall|i: int| 0 <= i < N ==> call_requires(f, (&self@[i],)),
        ensures
            r@.len() == N,
            forall|i: int| 0 <= i < N ==> call_ensures(f, (&self@[i],), #[trigger] r@[i]),
    {
        proof {
            use_type_invariant(self);
        }
        let mut out: Vec<U> = Vec::new();
        let mut i: usize = 0;
        while i < self.0.len()
            invariant
                self.0@.len() == N,
                self@ == self.0@,
                out@.len() == i,
                i <= N,
                forall|k: int| 0 <= k < N ==> call_requires(f, (&self@[k],)),
                forall|k: int| 0 <= k < i ==> call_ensures(f, (&self@[k],), #[trigger] out@[k]),
            decreases N - i,
        {
            let y = f(&self.0[i]);
            out.push(y);
            i = i + 1;
        }
        NumericArray(out)
    }

    /// Same as `map`, but the elements are moved into `f` rather than lent.
    pub fn map_move<U, F: Fn(T) -> U>(self, f: F) -> (r: NumericArray<U, N>)
        requires
            forall|i: int| 0 <= i < N ==> call_requires(f, (self@[i],)),
        ensures
            r@.len() == N,
            forall|i: int| 0 <= i < N ==> call_ensures(f, (self@[i],), #[trigger] r@[i]),
    {
        proof {
            use_type_invariant(&self);
        }
        let ghost d = self@;
        let mut src = reversed(self.0);
        let mut out: Vec<U> = Vec::new();
        while src.len() > 0
            invariant
                d.len() == N,
                src@.len() + out@.len() == N,
                forall|k: int| 0 <= k < src@.len() ==> #[trigger] src@[k] == d[N - 1 - k],
                forall|k: int| 0 <= k < N ==> call_requires(f, (d[k],)),
                forall|k: int| 0 <= k < out@.len() ==> call_ensures(f, (d[k],), #[trigger] out@[k]),
            decreases src@.len(),
        {
            let x = src.pop().unwrap();
            let y = f(x);
            out.push(y);
        }
        NumericArray(out)
    }

    /// Combines two arrays of the same length element by element with `f`,
    /// both arrays lent.
    pub fn zip<U, F: Fn(&T, &T) -> U>(&self, rhs: &Self, f: F) -> (r: NumericArray<U, N>)
        requires
            forall|i: int| 0 <= i < N ==> call_requires(f, (&self@[i], &rhs@[i])),
        ensures
            r@.len() == N,
            forall|i: int|
                0 <= i < N ==> call_ensures(f, (&self@[i], &rhs@[i]), #[trigger] r@[i]),
    {
        proof {
            use_type_invariant(self);
            use_type_invariant(rhs);
        }
        let mut out: Vec<U> = Vec::new();
        let mut i: usize = 0;
        while i < self.0.len()
            invariant
                self.0@.len() == N,
                rhs.0@.len() == N,
                self@ == self.0@,
                rhs@ == rhs.0@,
                out@.len() == i,
                i <= N,
                forall|k: int| 0 <= k < N ==> call_requires(f, (&self@[k], &rhs@[k])),
                forall|k: int|
                    0 <= k < i ==> call_ensures(f, (&self@[k], &rhs@[k]), #[trigger] out@[k]),
            decreases N - i,
        {
            let y = f(&self.0[i], &rhs.0[i]);
            out.push(y);
            i = i + 1;
        }
        NumericArray(out)
    }

    /// Same as `zip`, but the elements of `self` are moved into `f`; those of
    /// `rhs` are still lent.
    pub fn zip_move<U, F: Fn(T, &T) -> U>(self, rhs: &Self, f: F) -> (r: NumericArray<U, N>)
        requires
            forall|i: int| 0 <= i < N ==> call_requires(f, (self@[i], &rhs@[i])),
        ensures
            r@.len() == N,
            forall|i: int|
                0 <= i < N ==> call_ensures(f, (self@[i], &rhs@[i]), #[trigger] r@[i]),
    {
        proof {
            use_type_invariant(&self);
            use_type_invariant(rhs);
        }
        let ghost d = self@;
        let mut src = reversed(self.0);
        let mut out: Vec<U> = Vec::new();
        let mut i: usize = 0;
        while i < rhs.0.len()
            invariant
                d.len() == N,
                rhs.0@.len() == N,
                rhs@ == rhs.0@,
                i <= N,
                out@.len() == i,
                src@.len() == N - i,
                forall|k: int| 0 <= k < src@.len() ==> #[trigger] src@[k] == d[N - 1 - k],
                forall|k: int| 0 <= k < N ==> call_requires(f, (d[k], &rhs@[k])),
                forall|k: int|
                    0 <= k < i ==> call_ensures(f, (d[k], &rhs@[k]), #[trigger] out@[k]),
            decreases N - i,
        {
            let x = src.pop().unwrap();
            let y = f(x, &rhs.0[i]);
            out.push(y);
            i = i + 1;
        }
        NumericArray(out)
    }

    /// Like `zip` and `zip_move`, but the elements of both arrays are moved into `f`.
    pub fn zip_move_both<U, F: Fn(T, T) -> U>(self, rhs: Self, f: F) -> (r: NumericArray<U, N>)
        requires
            forall|i: int| 0 <= i < N ==> call_requires(f, (self@[i], rhs@[i])),
        ensures
            r@.len() == N,
            forall|i: int|
                0 <= i < N ==> call_ensures(f, (self@[i], rhs@[i]), #[trigger] r@[i]),
    {
        proof {
            use_type_invariant(&self);
            use_type_invariant(&rhs);
        }
        let ghost a = self@;
        let ghost b = rhs@;
        let mut src_a = reversed(self.0);
        let mut src_b = reversed(rhs.0);
        let mut out: Vec<U> = Vec::new();
        while src_a.len() > 0
            invariant
                a.len() == N,
                b.len() == N,
                src_a@.len() + out@.len() == N,
                src_b@.len() == src_a@.len(),
                forall|k: int| 0 <= k < src_a@.len() ==> #[trigger] src_a@[k] == a[N - 1 - k],
                forall|k: int| 0 <= k < src_b@.len() ==> #[trigger] src_b@[k] == b[N - 1 - k],
                forall|k: int| 0 <= k < N ==> call_requires(f, (a[k], b[k])),
                forall|k: int|
                    0 <= k < out@.len() ==> call_ensures(f, (a[k], b[k]), #[trigger] out@[k]),
            decreases src_a@.len(),
        {
            let x = src_a.pop().unwrap();
            let y = src_b.pop().unwrap();
            let z = f(x, y);
            out.push(z);
        }
        NumericArray(out)
    }

    /// Combines two arrays element by element with a fallible `f`, stopping at the
    /// first element where `f` gives `None`; `Some` of all results where no element fails.
    pub(crate) fn try_zip<U, F: Fn(&T, &T) -> Option<U>>(&self, rhs: &Self, f: F) -> (r: Option<
        NumericArray<U, N>,
    >)
        requires
            forall|i: int| 0 <= i < N ==> call_requires(f, (&self@[i], &rhs@[i])),
        ensures
            r matches Some(v) ==> v@.len() == N && forall|i: int|
                0 <= i < N ==> call_ensures(f, (&self@[i], &rhs@[i]), Some(#[trigger] v@[i])),
            r is None ==> exists|i: int|
                0 <= i < N && #[trigger] call_ensures(f, (&self@[i], &rhs@[i]), None::<U>),
    {
        proof {
            use_type_invariant(self);
            use_type_invariant(rhs);
        }
        let mut out: Vec<U> = Vec::new();
        let mut i: usize = 0;
        while i < self.0.len()
            invariant
                self.0@.len() == N,
                rhs.0@.len() == N,
                self@ == self.0@,
                rhs@ == rhs.0@,
                out@.len() == i,
                i <= N,
                forall|k: int| 0 <= k < N ==> call_requires(f, (&self@[k], &rhs@[k])),
                forall|k: int|
                    0 <= k < i ==> call_ensures(f, (&self@[k], &rhs@[k]), Some(#[trigger] out@[k])),
            decreases N - i,
        {
            match f(&self.0[i], &rhs.0[i]) {
                Some(y) => {
                    out.push(y);
                },
                None => {
                    return None;
                },
            }
            i = i + 1;
        }
        Some(NumericArray(out))
    }

    /// Moves all but the last element into an array one element shorter; the
    /// last element is dropped.
    pub fn shorten<const M: usize>(self) -> (r: NumericArray<T, M>)
        requires
            M + 1 == N,
        ensures
            r@.len() == M,
            r@ == self@.drop_last(),
    {
        proof {
            use_type_invariant(&self);
        }
        let mut data = self.0;
        let _last = data.pop();
        NumericArray(data)
    }

    /// Moves all elements into an array one element longer, whose last element is `last`.
    pub fn lengthen<const M: usize>(self, last: T) -> (r: NumericArray<T, M>)
        requires
            M == N + 1,
        ensures
            r@.len() == M,
            r@ == self@.push(last),
    {
        proof {
            use_type_invariant(&self);
        }
        let mut data = self.0;
        data.push(last);
        NumericArray(data)
    }
}

/// Wraps `From<[T; N]> for Vec<T>`: std documents that it moves the array's items,
/// in order, into a newly allocated vector. The contract claims exactly that.
#[verifier::external_body]
fn vec_from_array<T, const N: usize>(arr: [T; N]) -> (v: Vec<T>)
    ensures
        v@ == arr@,
{
    Vec::from(arr)
}

/// The elements of `v` in reverse order.
fn reversed<A>(v: Vec<A>) -> (r: Vec<A>)
    ensures
        r@ == v@.reverse(),
{
    let mut src = v;
    let mut out: Vec<A> = Vec::new();
    let ghost n = v@.len();
    while src.len() > 0
        invariant
            n == v@.len(),
            src@.len() + out@.len() == n,
            src@ == v@.take(src@.len() as int),
            forall|k: int| 0 <= k < out@.len() ==> #[trigger] out@[k] == v@[n - 1 - k],
        decreases src@.len(),
    {
        let x = src.pop().unwrap();
        out.push(x);
    }
    assert(out@ =~= v@.reverse());
    out
}

impl<T: Copy, const N: usize> Clone for NumericArray<T, N> {
    /// Copies every element.
    fn clone(&self) -> (r: Self)
        ensures
            r@ == self@,
    {
        proof {
            use_type_invariant(self);
        }
        let mut out: Vec<T> = Vec::new();
        let mut i: usize = 0;
        while i < self.0.len()
            invariant
                self.0@.len() == N,
                self@ == self.0@,
                i <= N,
                out@ == self@.take(i as int),
            decreases N - i,
        {
            out.push(self.0[i]);
            i = i + 1;
            assert(out@ =~= self@.take(i as int));
        }
        assert(out@ =~= self@);
        NumericArray(out)
    }
}

} // verus!
