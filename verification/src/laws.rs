//! Laws that relate the operations of `NumericArray` to one another.
use crate::array::NumericArray;
use crate::element::Primitive;
use vstd::prelude::*;
use vstd::std_specs::ops::{AddSpec, DivSpec, MulSpec, NotSpec, SubSpec};

verus! {

/// Lengthening an array by `x` and then shortening the result gives back the
/// elements it started with.
pub proof fn lemma_shorten_undoes_lengthen<T, const N: usize, const M: usize>(
    a: NumericArray<T, N>,
    x: T,
    longer: NumericArray<T, M>,
    back: NumericArray<T, N>,
)
    requires
        longer@ == a@.push(x),
        back@ == longer@.drop_last(),
    ensures
        back@ == a@,
{
    assert(a@.push(x).drop_last() =~= a@);
}

/// Shortening a non-empty array and then lengthening the result by the element that
/// was dropped gives back the elements it started with.
pub proof fn lemma_lengthen_undoes_shorten<T, const N: usize, const M: usize>(
    a: NumericArray<T, N>,
    shorter: NumericArray<T, M>,
    back: NumericArray<T, N>,
)
    requires
        a@.len() == N,
        N >= 1,
        shorter@ == a@.drop_last(),
        back@ == shorter@.push(a@.last()),
    ensures
        back@ == a@,
{
    assert(a@.drop_last().push(a@.last()) =~= a@);
}

/// For arrays of any `Primitive` element type: `checked_add` gives `Some` exactly where
/// the operator `+` is defined for every pair of elements, and there `checked_add`, `wrapping_add`, `saturating_add`
/// and `+` give the same elements.
pub proof fn lemma_add_forms_agree<T: Primitive>(a: Seq<T>, b: Seq<T>)
    requires
        a.len() == b.len(),
    ensures
        (forall|i: int| #![trigger a[i]] 0 <= i < a.len() ==> T::checked_add_spec(a[i], b[i]) is Some)
            <==> (forall|i: int| #![trigger a[i]] 0 <= i < a.len() ==> a[i].add_req(b[i])),
        forall|i: int|
            #![trigger a[i]]
            0 <= i < a.len() && a[i].add_req(b[i]) ==> T::checked_add_spec(a[i], b[i]) == Some(
                a[i].add_spec(b[i]),
            ),
        forall|i: int|
            #![trigger a[i]]
            0 <= i < a.len() && a[i].add_req(b[i]) ==> T::wrapping_add_spec(a[i], b[i]) == a[i].add_spec(b[i]),
        forall|i: int|
            #![trigger a[i]]
            0 <= i < a.len() && a[i].add_req(b[i]) ==> T::saturating_add_spec(a[i], b[i]) == a[i].add_spec(b[i]),
{
    assert forall|i: int| #![trigger a[i]] 0 <= i < a.len() implies a[i].add_req(b[i])
        == (T::checked_add_spec(a[i], b[i]) is Some) by {
        T::lemma_add_forms_agree(a[i], b[i]);
    }
    assert forall|i: int| #![trigger a[i]] 0 <= i < a.len() && a[i].add_req(b[i]) implies T::checked_add_spec(a[i], b[i]) == Some(a[i].add_spec(b[i])) && T::wrapping_add_spec(a[i], b[i]) == a[i].add_spec(b[i]) && T::saturating_add_spec(a[i], b[i]) == a[i].add_spec(b[i]) by {
        T::lemma_add_forms_agree(a[i], b[i]);
    }
}

/// For arrays of any `Primitive` element type: `checked_sub` gives `Some` exactly where
/// the operator `-` is defined for every pair of elements, and there `checked_sub`, `wrapping_sub`, `saturating_sub`
/// and `-` give the same elements.
pub proof fn lemma_sub_forms_agree<T: Primitive>(a: Seq<T>, b: Seq<T>)
    requires
        a.len() == b.len(),
    ensures
        (forall|i: int| #![trigger a[i]] 0 <= i < a.len() ==> T::checked_sub_spec(a[i], b[i]) is Some)
            <==> (forall|i: int| #![trigger a[i]] 0 <= i < a.len() ==> a[i].sub_req(b[i])),
        forall|i: int|
            #![trigger a[i]]
            0 <= i < a.len() && a[i].sub_req(b[i]) ==> T::checked_sub_spec(a[i], b[i]) == Some(
                a[i].sub_spec(b[i]),
            ),
        forall|i: int|
            #![trigger a[i]]
            0 <= i < a.len() && a[i].sub_req(b[i]) ==> T::wrapping_sub_spec(a[i], b[i]) == a[i].sub_spec(b[i]),
        forall|i: int|
            #![trigger a[i]]
            0 <= i < a.len() && a[i].sub_req(b[i]) ==> T::saturating_sub_spec(a[i], b[i]) == a[i].sub_spec(b[i]),
{
    assert forall|i: int| #![trigger a[i]] 0 <= i < a.len() implies a[i].sub_req(b[i])
        == (T::checked_sub_spec(a[i], b[i]) is Some) by {
        T::lemma_sub_forms_agree(a[i], b[i]);
    }
    assert forall|i: int| #![trigger a[i]] 0 <= i < a.len() && a[i].sub_req(b[i]) implies T::checked_sub_spec(a[i], b[i]) == Some(a[i].sub_spec(b[i])) && T::wrapping_sub_spec(a[i], b[i]) == a[i].sub_spec(b[i]) && T::saturating_sub_spec(a[i], b[i]) == a[i].sub_spec(b[i]) by {
        T::lemma_sub_forms_agree(a[i], b[i]);
    }
}

/// For arrays of any `Primitive` element type: `checked_mul` gives `Some` exactly where
/// the operator `*` is defined for every pair of elements, and there `checked_mul`, `wrapping_mul`
/// and `*` give the same elements.
pub proof fn lemma_mul_forms_agree<T: Primitive>(a: Seq<T>, b: Seq<T>)
    requires
        a.len() == b.len(),
    ensures
        (forall|i: int| #![trigger a[i]] 0 <= i < a.len() ==> T::checked_mul_spec(a[i], b[i]) is Some)
            <==> (forall|i: int| #![trigger a[i]] 0 <= i < a.len() ==> a[i].mul_req(b[i])),
        forall|i: int|
            #![trigger a[i]]
            0 <= i < a.len() && a[i].mul_req(b[i]) ==> T::checked_mul_spec(a[i], b[i]) == Some(
                a[i].mul_spec(b[i]),
            ),
        forall|i: int|
            #![trigger a[i]]
            0 <= i < a.len() && a[i].mul_req(b[i]) ==> T::wrapping_mul_spec(a[i], b[i]) == a[i].mul_spec(b[i]),
{
    assert forall|i: int| #![trigger a[i]] 0 <= i < a.len() implies a[i].mul_req(b[i])
        == (T::checked_mul_spec(a[i], b[i]) is Some) by {
        T::lemma_mul_forms_agree(a[i], b[i]);
    }
    assert forall|i: int| #![trigger a[i]] 0 <= i < a.len() && a[i].mul_req(b[i]) implies T::checked_mul_spec(a[i], b[i]) == Some(a[i].mul_spec(b[i])) && T::wrapping_mul_spec(a[i], b[i]) == a[i].mul_spec(b[i]) by {
        T::lemma_mul_forms_agree(a[i], b[i]);
    }
}

/// For arrays of any `Primitive` element type: `checked_div` gives `Some` exactly where
/// the operator `/` is defined for every pair of elements, and there `checked_div`
/// and `/` give the same elements.
pub proof fn lemma_div_forms_agree<T: Primitive>(a: Seq<T>, b: Seq<T>)
    requires
        a.len() == b.len(),
    ensures
        (forall|i: int| #![trigger a[i]] 0 <= i < a.len() ==> T::checked_div_spec(a[i], b[i]) is Some)
            <==> (forall|i: int| #![trigger a[i]] 0 <= i < a.len() ==> a[i].div_req(b[i])),
        forall|i: int|
            #![trigger a[i]]
            0 <= i < a.len() && a[i].div_req(b[i]) ==> T::checked_div_spec(a[i], b[i]) == Some(
                a[i].div_spec(b[i]),
            ),
{
    assert forall|i: int| #![trigger a[i]] 0 <= i < a.len() implies a[i].div_req(b[i])
        == (T::checked_div_spec(a[i], b[i]) is Some) by {
        T::lemma_div_forms_agree(a[i], b[i]);
    }
    assert forall|i: int| #![trigger a[i]] 0 <= i < a.len() && a[i].div_req(b[i]) implies T::checked_div_spec(a[i], b[i]) == Some(a[i].div_spec(b[i])) by {
        T::lemma_div_forms_agree(a[i], b[i]);
    }
}

/// `a.checked_add(&b)` and `b.checked_add(&a)` give the same result: both `None`, or
/// both `Some` of the same elements. The requirements are what `checked_add` ensures of
/// each call.
pub proof fn lemma_checked_add_commutes<T: Primitive, const N: usize>(
    a: Seq<T>,
    b: Seq<T>,
    ab: Option<NumericArray<T, N>>,
    ba: Option<NumericArray<T, N>>,
)
    requires
        a.len() == N,
        b.len() == N,
        ab is Some <==> forall|i: int|
            0 <= i < N ==> (#[trigger] T::checked_add_spec(a[i], b[i])) is Some,
        ab matches Some(v) ==> v@.len() == N && forall|i: int|
            0 <= i < N ==> Some(#[trigger] v@[i]) == T::checked_add_spec(a[i], b[i]),
        ba is Some <==> forall|i: int|
            0 <= i < N ==> (#[trigger] T::checked_add_spec(b[i], a[i])) is Some,
        ba matches Some(v) ==> v@.len() == N && forall|i: int|
            0 <= i < N ==> Some(#[trigger] v@[i]) == T::checked_add_spec(b[i], a[i]),
    ensures
        ab is Some <==> ba is Some,
        ab is Some ==> ab->0@ == ba->0@,
{
    assert forall|i: int|
        #![trigger T::checked_add_spec(a[i], b[i])]
        #![trigger T::checked_add_spec(b[i], a[i])]
        0 <= i < N implies T::checked_add_spec(a[i], b[i]) == T::checked_add_spec(b[i], a[i]) by {
        T::lemma_add_commutes(a[i], b[i]);
    }
    if ab is Some {
        let v = ab->0;
        let w = ba->0;
        assert(v@ =~= w@);
    }
}

/// `wrapping_add` and `saturating_add` give the same elements whichever array stands on the left.
pub proof fn lemma_add_forms_commute<T: Primitive>(a: Seq<T>, b: Seq<T>)
    requires
        a.len() == b.len(),
    ensures
        forall|i: int| #![trigger a[i]] 0 <= i < a.len() ==> T::wrapping_add_spec(a[i], b[i]) == T::wrapping_add_spec(b[i], a[i]),
        forall|i: int| #![trigger a[i]] 0 <= i < a.len() ==> T::saturating_add_spec(a[i], b[i]) == T::saturating_add_spec(b[i], a[i]),
{
    assert forall|i: int| #![trigger a[i]] 0 <= i < a.len() implies T::wrapping_add_spec(a[i], b[i]) == T::wrapping_add_spec(b[i], a[i]) && T::saturating_add_spec(a[i], b[i]) == T::saturating_add_spec(b[i], a[i]) by {
        T::lemma_add_commutes(a[i], b[i]);
    }
}

/// `a.checked_mul(&b)` and `b.checked_mul(&a)` give the same result: both `None`, or
/// both `Some` of the same elements. The requirements are what `checked_mul` ensures of
/// each call.
pub proof fn lemma_checked_mul_commutes<T: Primitive, const N: usize>(
    a: Seq<T>,
    b: Seq<T>,
    ab: Option<NumericArray<T, N>>,
    ba: Option<NumericArray<T, N>>,
)
    requires
        a.len() == N,
        b.len() == N,
        ab is Some <==> forall|i: int|
            0 <= i < N ==> (#[trigger] T::checked_mul_spec(a[i], b[i])) is Some,
        ab matches Some(v) ==> v@.len() == N && forall|i: int|
            0 <= i < N ==> Some(#[trigger] v@[i]) == T::checked_mul_spec(a[i], b[i]),
        ba is Some <==> forall|i: int|
            0 <= i < N ==> (#[trigger] T::checked_mul_spec(b[i], a[i])) is Some,
        ba matches Some(v) ==> v@.len() == N && forall|i: int|
            0 <= i < N ==> Some(#[trigger] v@[i]) == T::checked_mul_spec(b[i], a[i]),
    ensures
        ab is Some <==> ba is Some,
        ab is Some ==> ab->0@ == ba->0@,
{
    assert forall|i: int|
        #![trigger T::checked_mul_spec(a[i], b[i])]
        #![trigger T::checked_mul_spec(b[i], a[i])]
        0 <= i < N implies T::checked_mul_spec(a[i], b[i]) == T::checked_mul_spec(b[i], a[i]) by {
        T::lemma_mul_commutes(a[i], b[i]);
    }
    if ab is Some {
        let v = ab->0;
        let w = ba->0;
        assert(v@ =~= w@);
    }
}

/// `wrapping_mul` give the same elements whichever array stands on the left.
pub proof fn lemma_mul_forms_commute<T: Primitive>(a: Seq<T>, b: Seq<T>)
    requires
        a.len() == b.len(),
    ensures
        forall|i: int| #![trigger a[i]] 0 <= i < a.len() ==> T::wrapping_mul_spec(a[i], b[i]) == T::wrapping_mul_spec(b[i], a[i]),
{
    assert forall|i: int| #![trigger a[i]] 0 <= i < a.len() implies T::wrapping_mul_spec(a[i], b[i]) == T::wrapping_mul_spec(b[i], a[i]) by {
        T::lemma_mul_commutes(a[i], b[i]);
    }
}

/// `c.checked_sub(&b)`, where `c` is the `Some` result of `a.checked_add(&b)`, gives
/// `Some` of `a` back. The requirements are what `checked_add` and `checked_sub` ensure.
pub proof fn lemma_checked_sub_undoes_checked_add<T: Primitive, const N: usize>(
    a: Seq<T>,
    b: Seq<T>,
    sum: Option<NumericArray<T, N>>,
    back: Option<NumericArray<T, N>>,
)
    requires
        a.len() == N,
        b.len() == N,
        sum is Some <==> forall|i: int|
            0 <= i < N ==> (#[trigger] T::checked_add_spec(a[i], b[i])) is Some,
        sum matches Some(v) ==> v@.len() == N && forall|i: int|
            0 <= i < N ==> Some(#[trigger] v@[i]) == T::checked_add_spec(a[i], b[i]),
        sum matches Some(v) ==> (back is Some <==> forall|i: int|
            0 <= i < N ==> (#[trigger] T::checked_sub_spec(v@[i], b[i])) is Some),
        sum matches Some(v) ==> (back matches Some(w) ==> w@.len() == N && forall|i: int|
            0 <= i < N ==> Some(#[trigger] w@[i]) == T::checked_sub_spec(v@[i], b[i])),
        sum is Some,
    ensures
        back is Some,
        back->0@ == a,
{
    let v = sum->0;
    assert forall|i: int| 0 <= i < N implies #[trigger] T::checked_sub_spec(v@[i], b[i]) == Some(
        a[i],
    ) by {
        T::lemma_sub_undoes_add(a[i], b[i]);
        assert(Some(v@[i]) == T::checked_add_spec(a[i], b[i]));
    }
    let w = back->0;
    assert(w@ =~= a);
}

/// `(a + b) - b` gives back `a` wherever every sum `a[i] + b[i]` fits; then every
/// difference is defined. The requirements are what `+` and `-` ensure.
pub proof fn lemma_sub_undoes_add<T: Primitive>(
    a: Seq<T>,
    b: Seq<T>,
    sum: Seq<T>,
    back: Seq<T>,
)
    requires
        a.len() == b.len(),
        forall|i: int| 0 <= i < a.len() ==> #[trigger] a[i].add_req(b[i]),
        sum.len() == a.len(),
        T::obeys_add_spec() ==> forall|i: int|
            0 <= i < a.len() ==> #[trigger] sum[i] == a[i].add_spec(b[i]),
        back.len() == a.len(),
        T::obeys_sub_spec() ==> forall|i: int|
            0 <= i < a.len() ==> #[trigger] back[i] == sum[i].sub_spec(b[i]),
    ensures
        forall|i: int| 0 <= i < a.len() ==> #[trigger] sum[i].sub_req(b[i]),
        back == a,
{
    T::lemma_operators_specified();
    assert forall|i: int| #![trigger back[i]] #![trigger sum[i].sub_req(b[i])] 0 <= i < a.len() implies sum[i].sub_req(b[i]) && back[i] == a[i] by {
        T::lemma_sub_undoes_add(a[i], b[i]);
    }
    assert(back =~= a);
}

/// `!` applied twice to an array of a `Primitive` element type gives it back. The
/// requirements are what `!` ensures of each call.
pub proof fn lemma_not_twice<T: Primitive>(a: Seq<T>, once: Seq<T>, twice: Seq<T>)
    requires
        once.len() == a.len(),
        T::obeys_not_spec() ==> forall|i: int| 0 <= i < a.len() ==> #[trigger] once[i] == a[i].not_spec(),
        twice.len() == a.len(),
        T::obeys_not_spec() ==> forall|i: int|
            0 <= i < a.len() ==> #[trigger] twice[i] == once[i].not_spec(),
    ensures
        forall|i: int| 0 <= i < a.len() ==> #[trigger] a[i].not_req() && once[i].not_req(),
        twice == a,
{
    T::lemma_operators_specified();
    assert forall|i: int| #![trigger twice[i]] #![trigger a[i].not_req(), once[i].not_req()] 0 <= i < a.len() implies a[i].not_req() && once[i].not_req() && twice[i] == a[i] by {
        T::lemma_not_involutive(a[i]);
    }
    assert(twice =~= a);
}

/// `!` applied twice to an array of `bool` gives it back. The requirements are what `!`
/// ensures of each call.
pub proof fn lemma_not_twice_bool(a: Seq<bool>, once: Seq<bool>, twice: Seq<bool>)
    requires
        once.len() == a.len(),
        forall|i: int| 0 <= i < a.len() ==> #[trigger] once[i] == a[i].not_spec(),
        twice.len() == a.len(),
        forall|i: int| 0 <= i < a.len() ==> #[trigger] twice[i] == once[i].not_spec(),
    ensures
        twice == a,
{
    assert(twice =~= a);
}

/// `a += b` leaves `a` holding the same elements as `a + b` gives, for a
/// `Primitive` element type. The requirements are what `+=` and `+` ensure.
pub proof fn lemma_add_assign_matches_add<T: Primitive>(
    a: Seq<T>,
    b: Seq<T>,
    by_operator: Seq<T>,
    by_assignment: Seq<T>,
)
    requires
        a.len() == b.len(),
        by_operator.len() == a.len(),
        by_assignment.len() == a.len(),
        T::obeys_add_spec() ==> forall|i: int|
            0 <= i < a.len() ==> #[trigger] by_operator[i] == a[i].add_spec(b[i]),
        T::obeys_add_spec() ==> forall|i: int|
            0 <= i < a.len() ==> #[trigger] by_assignment[i] == a[i].add_spec(b[i]),
    ensures
        by_assignment == by_operator,
{
    T::lemma_operators_specified();
    assert(by_assignment =~= by_operator);
}

/// `a -= b` leaves `a` holding the same elements as `a - b` gives, for a
/// `Primitive` element type. The requirements are what `-=` and `-` ensure.
pub proof fn lemma_sub_assign_matches_sub<T: Primitive>(
    a: Seq<T>,
    b: Seq<T>,
    by_operator: Seq<T>,
    by_assignment: Seq<T>,
)
    requires
        a.len() == b.len(),
        by_operator.len() == a.len(),
        by_assignment.len() == a.len(),
        T::obeys_sub_spec() ==> forall|i: int|
            0 <= i < a.len() ==> #[trigger] by_operator[i] == a[i].sub_spec(b[i]),
        T::obeys_sub_spec() ==> forall|i: int|
            0 <= i < a.len() ==> #[trigger] by_assignment[i] == a[i].sub_spec(b[i]),
    ensures
        by_assignment == by_operator,
{
    T::lemma_operators_specified();
    assert(by_assignment =~= by_operator);
}

/// `a *= b` leaves `a` holding the same elements as `a * b` gives, for a
/// `Primitive` element type. The requirements are what `*=` and `*` ensure.
pub proof fn lemma_mul_assign_matches_mul<T: Primitive>(
    a: Seq<T>,
    b: Seq<T>,
    by_operator: Seq<T>,
    by_assignment: Seq<T>,
)
    requires
        a.len() == b.len(),
        by_operator.len() == a.len(),
        by_assignment.len() == a.len(),
        T::obeys_mul_spec() ==> forall|i: int|
            0 <= i < a.len() ==> #[trigger] by_operator[i] == a[i].mul_spec(b[i]),
        T::obeys_mul_spec() ==> forall|i: int|
            0 <= i < a.len() ==> #[trigger] by_assignment[i] == a[i].mul_spec(b[i]),
    ensures
        by_assignment == by_operator,
{
    T::lemma_operators_specified();
    assert(by_assignment =~= by_operator);
}

/// `a /= b` leaves `a` holding the same elements as `a / b` gives, for a
/// `Primitive` element type. The requirements are what `/=` and `/` ensure.
pub proof fn lemma_div_assign_matches_div<T: Primitive>(
    a: Seq<T>,
    b: Seq<T>,
    by_operator: Seq<T>,
    by_assignment: Seq<T>,
)
    requires
        a.len() == b.len(),
        by_operator.len() == a.len(),
        by_assignment.len() == a.len(),
        T::obeys_div_spec() ==> forall|i: int|
            0 <= i < a.len() ==> #[trigger] by_operator[i] == a[i].div_spec(b[i]),
        T::obeys_div_spec() ==> forall|i: int|
            0 <= i < a.len() ==> #[trigger] by_assignment[i] == a[i].div_spec(b[i]),
    ensures
        by_assignment == by_operator,
{
    T::lemma_operators_specified();
    assert(by_assignment =~= by_operator);
}

/// For closures whose results a spec function `s` fixes, `a.map(by_ref)` and
/// `a.map_move(by_val)` give the same elements. The last two requirements are what
/// `map` and `map_move` ensure.
pub proof fn lemma_map_agrees_with_map_move<T, U, F: Fn(&T) -> U, G: Fn(T) -> U>(
    a: Seq<T>,
    by_ref: F,
    by_val: G,
    s: spec_fn(T) -> U,
    r1: Seq<U>,
    r2: Seq<U>,
)
    requires
        forall|x: &T, y: U| call_ensures(by_ref, (x,), y) ==> y == s(*x),
        forall|x: T, y: U| call_ensures(by_val, (x,), y) ==> y == s(x),
        r1.len() == a.len(),
        r2.len() == a.len(),
        forall|i: int| 0 <= i < a.len() ==> call_ensures(by_ref, (&a[i],), #[trigger] r1[i]),
        forall|i: int| 0 <= i < a.len() ==> call_ensures(by_val, (a[i],), #[trigger] r2[i]),
    ensures
        r1 == r2,
{
    assert forall|i: int| 0 <= i < a.len() implies r1[i] == r2[i] by {
        assert(call_ensures(by_ref, (&a[i],), r1[i]));
        assert(call_ensures(by_val, (a[i],), r2[i]));
    }
    assert(r1 =~= r2);
}

/// For closures whose results a spec function `s` fixes, `a.zip(&b, by_ref)` and
/// `a.zip_move_both(b, by_val)` give the same elements. The last two requirements are
/// what `zip` and `zip_move_both` ensure.
pub proof fn lemma_zip_agrees_with_zip_move_both<T, U, F: Fn(&T, &T) -> U, G: Fn(T, T) -> U>(
    a: Seq<T>,
    b: Seq<T>,
    by_ref: F,
    by_val: G,
    s: spec_fn(T, T) -> U,
    r1: Seq<U>,
    r2: Seq<U>,
)
    requires
        forall|x: &T, y: &T, z: U| call_ensures(by_ref, (x, y), z) ==> z == s(*x, *y),
        forall|x: T, y: T, z: U| call_ensures(by_val, (x, y), z) ==> z == s(x, y),
        b.len() == a.len(),
        r1.len() == a.len(),
        r2.len() == a.len(),
        forall|i: int|
            0 <= i < a.len() ==> call_ensures(by_ref, (&a[i], &b[i]), #[trigger] r1[i]),
        forall|i: int|
            0 <= i < a.len() ==> call_ensures(by_val, (a[i], b[i]), #[trigger] r2[i]),
    ensures
        r1 == r2,
{
    assert forall|i: int| 0 <= i < a.len() implies r1[i] == r2[i] by {
        assert(call_ensures(by_ref, (&a[i], &b[i]), r1[i]));
        assert(call_ensures(by_val, (a[i], b[i]), r2[i]));
    }
    assert(r1 =~= r2);
}

/// For closures whose results spec functions fix, mapping with `f` and then with `g`
/// gives the same elements as mapping once with `h`, where `h` computes `g` after `f`.
/// The last three requirements are what the three calls of `map_move` ensure.
pub proof fn lemma_map_move_composes<T, U, V, F: Fn(T) -> U, G: Fn(U) -> V, H: Fn(T) -> V>(
    a: Seq<T>,
    f: F,
    g: G,
    h: H,
    sf: spec_fn(T) -> U,
    sg: spec_fn(U) -> V,
    mid: Seq<U>,
    twice: Seq<V>,
    once: Seq<V>,
)
    requires
        forall|x: T, y: U| call_ensures(f, (x,), y) ==> y == sf(x),
        forall|x: U, y: V| call_ensures(g, (x,), y) ==> y == sg(x),
        forall|x: T, y: V| call_ensures(h, (x,), y) ==> y == sg(sf(x)),
        mid.len() == a.len(),
        twice.len() == a.len(),
        once.len() == a.len(),
        forall|i: int| 0 <= i < a.len() ==> call_ensures(f, (a[i],), #[trigger] mid[i]),
        forall|i: int| 0 <= i < a.len() ==> call_ensures(g, (mid[i],), #[trigger] twice[i]),
        forall|i: int| 0 <= i < a.len() ==> call_ensures(h, (a[i],), #[trigger] once[i]),
    ensures
        twice == once,
{
    assert forall|i: int| 0 <= i < a.len() implies twice[i] == once[i] by {
        assert(call_ensures(f, (a[i],), mid[i]));
        assert(call_ensures(g, (mid[i],), twice[i]));
        assert(call_ensures(h, (a[i],), once[i]));
    }
    assert(twice =~= once);
}

/// `v` held within `[lo, hi]`.
pub open spec fn clamp(v: int, lo: int, hi: int) -> int {
    if v > hi {
        hi
    } else if v < lo {
        lo
    } else {
        v
    }
}

/// `r` and `v` differ by `k` times the modulus `m`, so they leave the same remainder.
proof fn lemma_differ_by_multiple(r: int, v: int, k: int, m: int)
    requires
        m > 0,
        r == v + k * m,
    ensures
        (r - v) % m == 0,
{
    vstd::arithmetic::div_mod::lemma_mod_multiples_basic(k, m);
}

/// The remainder of `v` by `m`, shifted down by `s` times `m`, leaves the same
/// remainder as `v`.
proof fn lemma_remainder_congruent(v: int, m: int, s: int)
    requires
        m > 0,
    ensures
        ((v % m - s * m) - v) % m == 0,
{
    vstd::arithmetic::div_mod::lemma_fundamental_div_mod(v, m);
    let q = v / m;
    assert((v % m - s * m) - v == (-q - s) * m) by (nonlinear_arith)
        requires
            v == m * q + v % m,
    ;
    vstd::arithmetic::div_mod::lemma_mod_multiples_basic(-q - s, m);
}

/// For `u8` elements, whatever the inputs, also where the exact result leaves the
/// range of `u8`: `wrapping_add`, `wrapping_sub` and `wrapping_mul` give the one value
/// of `u8` that leaves the same remainder modulo 2^8 as the exact sum, difference
/// or product; `saturating_add` and `saturating_sub` give the exact sum or difference
/// held within the bounds of `u8`.
pub proof fn lemma_u8_wrapping_and_saturating(x: u8, y: u8)
    ensures
        (<u8 as Primitive>::wrapping_add_spec(x, y) - (x + y)) % (0x100int) == 0,
        (<u8 as Primitive>::wrapping_sub_spec(x, y) - (x - y)) % (0x100int) == 0,
        (<u8 as Primitive>::wrapping_mul_spec(x, y) - x * y) % (0x100int) == 0,
        <u8 as Primitive>::saturating_add_spec(x, y) == clamp(x + y, u8::MIN as int, u8::MAX as int),
        <u8 as Primitive>::saturating_sub_spec(x, y) == clamp(x - y, u8::MIN as int, u8::MAX as int),
{
    lemma_differ_by_multiple(<u8 as Primitive>::wrapping_add_spec(x, y) as int, x + y, if x + y > u8::MAX { -1 } else { 0 }, 0x100int);
    lemma_differ_by_multiple(<u8 as Primitive>::wrapping_sub_spec(x, y) as int, x - y, if x - y < 0 { 1 } else { 0 }, 0x100int);
    let p = x * y;
    let m = 0x100int;
    vstd::arithmetic::div_mod::lemma_mod_pos_bound(p, m);
    lemma_remainder_congruent(p, m, 0);
}

/// For `u16` elements, whatever the inputs, also where the exact result leaves the
/// range of `u16`: `wrapping_add`, `wrapping_sub` and `wrapping_mul` give the one value
/// of `u16` that leaves the same remainder modulo 2^16 as the exact sum, difference
/// or product; `saturating_add` and `saturating_sub` give the exact sum or difference
/// held within the bounds of `u16`.
pub proof fn lemma_u16_wrapping_and_saturating(x: u16, y: u16)
    ensures
        (<u16 as Primitive>::wrapping_add_spec(x, y) - (x + y)) % (0x1_0000int) == 0,
        (<u16 as Primitive>::wrapping_sub_spec(x, y) - (x - y)) % (0x1_0000int) == 0,
        (<u16 as Primitive>::wrapping_mul_spec(x, y) - x * y) % (0x1_0000int) == 0,
        <u16 as Primitive>::saturating_add_spec(x, y) == clamp(x + y, u16::MIN as int, u16::MAX as int),
        <u16 as Primitive>::saturating_sub_spec(x, y) == clamp(x - y, u16::MIN as int, u16::MAX as int),
{
    lemma_differ_by_multiple(<u16 as Primitive>::wrapping_add_spec(x, y) as int, x + y, if x + y > u16::MAX { -1 } else { 0 }, 0x1_0000int);
    lemma_differ_by_multiple(<u16 as Primitive>::wrapping_sub_spec(x, y) as int, x - y, if x - y < 0 { 1 } else { 0 }, 0x1_0000int);
    let p = x * y;
    let m = 0x1_0000int;
    vstd::arithmetic::div_mod::lemma_mod_pos_bound(p, m);
    lemma_remainder_congruent(p, m, 0);
}

/// For `u32` elements, whatever the inputs, also where the exact result leaves the
/// range of `u32`: `wrapping_add`, `wrapping_sub` and `wrapping_mul` give the one value
/// of `u32` that leaves the same remainder modulo 2^32 as the exact sum, difference
/// or product; `saturating_add` and `saturating_sub` give the exact sum or difference
/// held within the bounds of `u32`.
pub proof fn lemma_u32_wrapping_and_saturating(x: u32, y: u32)
    ensures
        (<u32 as Primitive>::wrapping_add_spec(x, y) - (x + y)) % (0x1_0000_0000int) == 0,
        (<u32 as Primitive>::wrapping_sub_spec(x, y) - (x - y)) % (0x1_0000_0000int) == 0,
        (<u32 as Primitive>::wrapping_mul_spec(x, y) - x * y) % (0x1_0000_0000int) == 0,
        <u32 as Primitive>::saturating_add_spec(x, y) == clamp(x + y, u32::MIN as int, u32::MAX as int),
        <u32 as Primitive>::saturating_sub_spec(x, y) == clamp(x - y, u32::MIN as int, u32::MAX as int),
{
    lemma_differ_by_multiple(<u32 as Primitive>::wrapping_add_spec(x, y) as int, x + y, if x + y > u32::MAX { -1 } else { 0 }, 0x1_0000_0000int);
    lemma_differ_by_multiple(<u32 as Primitive>::wrapping_sub_spec(x, y) as int, x - y, if x - y < 0 { 1 } else { 0 }, 0x1_0000_0000int);
    let p = x * y;
    let m = 0x1_0000_0000int;
    vstd::arithmetic::div_mod::lemma_mod_pos_bound(p, m);
    lemma_remainder_congruent(p, m, 0);
}

/// For `u64` elements, whatever the inputs, also where the exact result leaves the
/// range of `u64`: `wrapping_add`, `wrapping_sub` and `wrapping_mul` give the one value
/// of `u64` that leaves the same remainder modulo 2^64 as the exact sum, difference
/// or product; `saturating_add` and `saturating_sub` give the exact sum or difference
/// held within the bounds of `u64`.
pub proof fn lemma_u64_wrapping_and_saturating(x: u64, y: u64)
    ensures
        (<u64 as Primitive>::wrapping_add_spec(x, y) - (x + y)) % (0x1_0000_0000_0000_0000int) == 0,
        (<u64 as Primitive>::wrapping_sub_spec(x, y) - (x - y)) % (0x1_0000_0000_0000_0000int) == 0,
        (<u64 as Primitive>::wrapping_mul_spec(x, y) - x * y) % (0x1_0000_0000_0000_0000int) == 0,
        <u64 as Primitive>::saturating_add_spec(x, y) == clamp(x + y, u64::MIN as int, u64::MAX as int),
        <u64 as Primitive>::saturating_sub_spec(x, y) == clamp(x - y, u64::MIN as int, u64::MAX as int),
{
    lemma_differ_by_multiple(<u64 as Primitive>::wrapping_add_spec(x, y) as int, x + y, if x + y > u64::MAX { -1 } else { 0 }, 0x1_0000_0000_0000_0000int);
    lemma_differ_by_multiple(<u64 as Primitive>::wrapping_sub_spec(x, y) as int, x - y, if x - y < 0 { 1 } else { 0 }, 0x1_0000_0000_0000_0000int);
    let p = x * y;
    let m = 0x1_0000_0000_0000_0000int;
    vstd::arithmetic::div_mod::lemma_mod_pos_bound(p, m);
    lemma_remainder_congruent(p, m, 0);
}

/// For `u128` elements, whatever the inputs, also where the exact result leaves the
/// range of `u128`: `wrapping_add`, `wrapping_sub` and `wrapping_mul` give the one value
/// of `u128` that leaves the same remainder modulo 2^128 as the exact sum, difference
/// or product; `saturating_add` and `saturating_sub` give the exact sum or difference
/// held within the bounds of `u128`.
pub proof fn lemma_u128_wrapping_and_saturating(x: u128, y: u128)
    ensures
        (<u128 as Primitive>::wrapping_add_spec(x, y) - (x + y)) % (0x1_0000_0000_0000_0000_0000_0000_0000_0000int) == 0,
        (<u128 as Primitive>::wrapping_sub_spec(x, y) - (x - y)) % (0x1_0000_0000_0000_0000_0000_0000_0000_0000int) == 0,
        (<u128 as Primitive>::wrapping_mul_spec(x, y) - x * y) % (0x1_0000_0000_0000_0000_0000_0000_0000_0000int) == 0,
        <u128 as Primitive>::saturating_add_spec(x, y) == clamp(x + y, u128::MIN as int, u128::MAX as int),
        <u128 as Primitive>::saturating_sub_spec(x, y) == clamp(x - y, u128::MIN as int, u128::MAX as int),
{
    lemma_differ_by_multiple(<u128 as Primitive>::wrapping_add_spec(x, y) as int, x + y, if x + y > u128::MAX { -1 } else { 0 }, 0x1_0000_0000_0000_0000_0000_0000_0000_0000int);
    lemma_differ_by_multiple(<u128 as Primitive>::wrapping_sub_spec(x, y) as int, x - y, if x - y < 0 { 1 } else { 0 }, 0x1_0000_0000_0000_0000_0000_0000_0000_0000int);
    let p = x * y;
    let m = 0x1_0000_0000_0000_0000_0000_0000_0000_0000int;
    vstd::arithmetic::div_mod::lemma_mod_pos_bound(p, m);
    lemma_remainder_congruent(p, m, 0);
}

/// For `usize` elements, whatever the inputs, also where the exact result leaves the
/// range of `usize`: `wrapping_add`, `wrapping_sub` and `wrapping_mul` give the one value
/// of `usize` that leaves the same remainder modulo `usize::MAX + 1` as the exact sum, difference
/// or product; `saturating_add` and `saturating_sub` give the exact sum or difference
/// held within the bounds of `usize`.
pub proof fn lemma_usize_wrapping_and_saturating(x: usize, y: usize)
    ensures
        (<usize as Primitive>::wrapping_add_spec(x, y) - (x + y)) % (usize::MAX as int + 1) == 0,
        (<usize as Primitive>::wrapping_sub_spec(x, y) - (x - y)) % (usize::MAX as int + 1) == 0,
        (<usize as Primitive>::wrapping_mul_spec(x, y) - x * y) % (usize::MAX as int + 1) == 0,
        <usize as Primitive>::saturating_add_spec(x, y) == clamp(x + y, usize::MIN as int, usize::MAX as int),
        <usize as Primitive>::saturating_sub_spec(x, y) == clamp(x - y, usize::MIN as int, usize::MAX as int),
{
    crate::element::lemma_word_bounds();
    lemma_differ_by_multiple(<usize as Primitive>::wrapping_add_spec(x, y) as int, x + y, if x + y > usize::MAX { -1 } else { 0 }, usize::MAX as int + 1);
    lemma_differ_by_multiple(<usize as Primitive>::wrapping_sub_spec(x, y) as int, x - y, if x - y < 0 { 1 } else { 0 }, usize::MAX as int + 1);
    let p = x * y;
    let m = usize::MAX as int + 1;
    vstd::arithmetic::div_mod::lemma_mod_pos_bound(p, m);
    lemma_remainder_congruent(p, m, 0);
}

/// For `i8` elements, whatever the inputs, also where the exact result leaves the
/// range of `i8`: `wrapping_add`, `wrapping_sub` and `wrapping_mul` give the one value
/// of `i8` that leaves the same remainder modulo 2^8 as the exact sum, difference
/// or product; `saturating_add` and `saturating_sub` give the exact sum or difference
/// held within the bounds of `i8`.
pub proof fn lemma_i8_wrapping_and_saturating(x: i8, y: i8)
    ensures
        (<i8 as Primitive>::wrapping_add_spec(x, y) - (x + y)) % (0x100int) == 0,
        (<i8 as Primitive>::wrapping_sub_spec(x, y) - (x - y)) % (0x100int) == 0,
        (<i8 as Primitive>::wrapping_mul_spec(x, y) - x * y) % (0x100int) == 0,
        <i8 as Primitive>::saturating_add_spec(x, y) == clamp(x + y, i8::MIN as int, i8::MAX as int),
        <i8 as Primitive>::saturating_sub_spec(x, y) == clamp(x - y, i8::MIN as int, i8::MAX as int),
{
    lemma_differ_by_multiple(<i8 as Primitive>::wrapping_add_spec(x, y) as int, x + y, if x + y > i8::MAX { -1 } else if x + y < i8::MIN { 1 } else { 0 }, 0x100int);
    lemma_differ_by_multiple(<i8 as Primitive>::wrapping_sub_spec(x, y) as int, x - y, if x - y > i8::MAX { -1 } else if x - y < i8::MIN { 1 } else { 0 }, 0x100int);
    let p = x * y;
    let m = 0x100int;
    vstd::arithmetic::div_mod::lemma_mod_bound(p, m);
    if p % m > i8::MAX {
        lemma_remainder_congruent(p, m, 1);
    } else {
        lemma_remainder_congruent(p, m, 0);
    }
}

/// For `i16` elements, whatever the inputs, also where the exact result leaves the
/// range of `i16`: `wrapping_add`, `wrapping_sub` and `wrapping_mul` give the one value
/// of `i16` that leaves the same remainder modulo 2^16 as the exact sum, difference
/// or product; `saturating_add` and `saturating_sub` give the exact sum or difference
/// held within the bounds of `i16`.
pub proof fn lemma_i16_wrapping_and_saturating(x: i16, y: i16)
    ensures
        (<i16 as Primitive>::wrapping_add_spec(x, y) - (x + y)) % (0x1_0000int) == 0,
        (<i16 as Primitive>::wrapping_sub_spec(x, y) - (x - y)) % (0x1_0000int) == 0,
        (<i16 as Primitive>::wrapping_mul_spec(x, y) - x * y) % (0x1_0000int) == 0,
        <i16 as Primitive>::saturating_add_spec(x, y) == clamp(x + y, i16::MIN as int, i16::MAX as int),
        <i16 as Primitive>::saturating_sub_spec(x, y) == clamp(x - y, i16::MIN as int, i16::MAX as int),
{
    lemma_differ_by_multiple(<i16 as Primitive>::wrapping_add_spec(x, y) as int, x + y, if x + y > i16::MAX { -1 } else if x + y < i16::MIN { 1 } else { 0 }, 0x1_0000int);
    lemma_differ_by_multiple(<i16 as Primitive>::wrapping_sub_spec(x, y) as int, x - y, if x - y > i16::MAX { -1 } else if x - y < i16::MIN { 1 } else { 0 }, 0x1_0000int);
    let p = x * y;
    let m = 0x1_0000int;
    vstd::arithmetic::div_mod::lemma_mod_bound(p, m);
    if p % m > i16::MAX {
        lemma_remainder_congruent(p, m, 1);
    } else {
        lemma_remainder_congruent(p, m, 0);
    }
}

/// For `i32` elements, whatever the inputs, also where the exact result leaves the
/// range of `i32`: `wrapping_add`, `wrapping_sub` and `wrapping_mul` give the one value
/// of `i32` that leaves the same remainder modulo 2^32 as the exact sum, difference
/// or product; `saturating_add` and `saturating_sub` give the exact sum or difference
/// held within the bounds of `i32`.
pub proof fn lemma_i32_wrapping_and_saturating(x: i32, y: i32)
    ensures
        (<i32 as Primitive>::wrapping_add_spec(x, y) - (x + y)) % (0x1_0000_0000int) == 0,
        (<i32 as Primitive>::wrapping_sub_spec(x, y) - (x - y)) % (0x1_0000_0000int) == 0,
        (<i32 as Primitive>::wrapping_mul_spec(x, y) - x * y) % (0x1_0000_0000int) == 0,
        <i32 as Primitive>::saturating_add_spec(x, y) == clamp(x + y, i32::MIN as int, i32::MAX as int),
        <i32 as Primitive>::saturating_sub_spec(x, y) == clamp(x - y, i32::MIN as int, i32::MAX as int),
{
    lemma_differ_by_multiple(<i32 as Primitive>::wrapping_add_spec(x, y) as int, x + y, if x + y > i32::MAX { -1 } else if x + y < i32::MIN { 1 } else { 0 }, 0x1_0000_0000int);
    lemma_differ_by_multiple(<i32 as Primitive>::wrapping_sub_spec(x, y) as int, x - y, if x - y > i32::MAX { -1 } else if x - y < i32::MIN { 1 } else { 0 }, 0x1_0000_0000int);
    let p = x * y;
    let m = 0x1_0000_0000int;
    vstd::arithmetic::div_mod::lemma_mod_bound(p, m);
    if p % m > i32::MAX {
        lemma_remainder_congruent(p, m, 1);
    } else {
        lemma_remainder_congruent(p, m, 0);
    }
}

/// For `i64` elements, whatever the inputs, also where the exact result leaves the
/// range of `i64`: `wrapping_add`, `wrapping_sub` and `wrapping_mul` give the one value
/// of `i64` that leaves the same remainder modulo 2^64 as the exact sum, difference
/// or product; `saturating_add` and `saturating_sub` give the exact sum or difference
/// held within the bounds of `i64`.
pub proof fn lemma_i64_wrapping_and_saturating(x: i64, y: i64)
    ensures
        (<i64 as Primitive>::wrapping_add_spec(x, y) - (x + y)) % (0x1_0000_0000_0000_0000int) == 0,
        (<i64 as Primitive>::wrapping_sub_spec(x, y) - (x - y)) % (0x1_0000_0000_0000_0000int) == 0,
        (<i64 as Primitive>::wrapping_mul_spec(x, y) - x * y) % (0x1_0000_0000_0000_0000int) == 0,
        <i64 as Primitive>::saturating_add_spec(x, y) == clamp(x + y, i64::MIN as int, i64::MAX as int),
        <i64 as Primitive>::saturating_sub_spec(x, y) == clamp(x - y, i64::MIN as int, i64::MAX as int),
{
    lemma_differ_by_multiple(<i64 as Primitive>::wrapping_add_spec(x, y) as int, x + y, if x + y > i64::MAX { -1 } else if x + y < i64::MIN { 1 } else { 0 }, 0x1_0000_0000_0000_0000int);
    lemma_differ_by_multiple(<i64 as Primitive>::wrapping_sub_spec(x, y) as int, x - y, if x - y > i64::MAX { -1 } else if x - y < i64::MIN { 1 } else { 0 }, 0x1_0000_0000_0000_0000int);
    let p = x * y;
    let m = 0x1_0000_0000_0000_0000int;
    vstd::arithmetic::div_mod::lemma_mod_bound(p, m);
    if p % m > i64::MAX {
        lemma_remainder_congruent(p, m, 1);
    } else {
        lemma_remainder_congruent(p, m, 0);
    }
}

/// For `i128` elements, whatever the inputs, also where the exact result leaves the
/// range of `i128`: `wrapping_add`, `wrapping_sub` and `wrapping_mul` give the one value
/// of `i128` that leaves the same remainder modulo 2^128 as the exact sum, difference
/// or product; `saturating_add` and `saturating_sub` give the exact sum or difference
/// held within the bounds of `i128`.
pub proof fn lemma_i128_wrapping_and_saturating(x: i128, y: i128)
    ensures
        (<i128 as Primitive>::wrapping_add_spec(x, y) - (x + y)) % (0x1_0000_0000_0000_0000_0000_0000_0000_0000int) == 0,
        (<i128 as Primitive>::wrapping_sub_spec(x, y) - (x - y)) % (0x1_0000_0000_0000_0000_0000_0000_0000_0000int) == 0,
        (<i128 as Primitive>::wrapping_mul_spec(x, y) - x * y) % (0x1_0000_0000_0000_0000_0000_0000_0000_0000int) == 0,
        <i128 as Primitive>::saturating_add_spec(x, y) == clamp(x + y, i128::MIN as int, i128::MAX as int),
        <i128 as Primitive>::saturating_sub_spec(x, y) == clamp(x - y, i128::MIN as int, i128::MAX as int),
{
    lemma_differ_by_multiple(<i128 as Primitive>::wrapping_add_spec(x, y) as int, x + y, if x + y > i128::MAX { -1 } else if x + y < i128::MIN { 1 } else { 0 }, 0x1_0000_0000_0000_0000_0000_0000_0000_0000int);
    lemma_differ_by_multiple(<i128 as Primitive>::wrapping_sub_spec(x, y) as int, x - y, if x - y > i128::MAX { -1 } else if x - y < i128::MIN { 1 } else { 0 }, 0x1_0000_0000_0000_0000_0000_0000_0000_0000int);
    let p = x * y;
    let m = 0x1_0000_0000_0000_0000_0000_0000_0000_0000int;
    vstd::arithmetic::div_mod::lemma_mod_bound(p, m);
    if p % m > i128::MAX {
        lemma_remainder_congruent(p, m, 1);
    } else {
        lemma_remainder_congruent(p, m, 0);
    }
}

/// For `isize` elements, whatever the inputs, also where the exact result leaves the
/// range of `isize`: `wrapping_add`, `wrapping_sub` and `wrapping_mul` give the one value
/// of `isize` that leaves the same remainder modulo `usize::MAX + 1` as the exact sum, difference
/// or product; `saturating_add` and `saturating_sub` give the exact sum or difference
/// held within the bounds of `isize`.
pub proof fn lemma_isize_wrapping_and_saturating(x: isize, y: isize)
    ensures
        (<isize as Primitive>::wrapping_add_spec(x, y) - (x + y)) % (usize::MAX as int + 1) == 0,
        (<isize as Primitive>::wrapping_sub_spec(x, y) - (x - y)) % (usize::MAX as int + 1) == 0,
        (<isize as Primitive>::wrapping_mul_spec(x, y) - x * y) % (usize::MAX as int + 1) == 0,
        <isize as Primitive>::saturating_add_spec(x, y) == clamp(x + y, isize::MIN as int, isize::MAX as int),
        <isize as Primitive>::saturating_sub_spec(x, y) == clamp(x - y, isize::MIN as int, isize::MAX as int),
{
    crate::element::lemma_word_bounds();
    lemma_differ_by_multiple(<isize as Primitive>::wrapping_add_spec(x, y) as int, x + y, if x + y > isize::MAX { -1 } else if x + y < isize::MIN { 1 } else { 0 }, usize::MAX as int + 1);
    lemma_differ_by_multiple(<isize as Primitive>::wrapping_sub_spec(x, y) as int, x - y, if x - y > isize::MAX { -1 } else if x - y < isize::MIN { 1 } else { 0 }, usize::MAX as int + 1);
    let p = x * y;
    let m = usize::MAX as int + 1;
    vstd::arithmetic::div_mod::lemma_mod_bound(p, m);
    if p % m > isize::MAX {
        lemma_remainder_congruent(p, m, 1);
    } else {
        lemma_remainder_congruent(p, m, 0);
    }
}

} // verus!
