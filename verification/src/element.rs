//! Element types whose checked, wrapping and saturating arithmetic comes from num-traits.
use core::ops::{Add, Div, Mul, Not, Sub};
use vstd::prelude::*;
use vstd::std_specs::ops::{AddSpec, DivSpec, MulSpec, NotSpec, SubSpec};

verus! {

/// The largest value of `i8`, or the smallest, where `x` leaves its range; `x` otherwise.
pub open spec fn saturate_i8(x: int) -> i8 {
    if x > i8::MAX {
        i8::MAX
    } else if x < i8::MIN {
        i8::MIN
    } else {
        x as i8
    }
}

/// The largest value of `i16`, or the smallest, where `x` leaves its range; `x` otherwise.
pub open spec fn saturate_i16(x: int) -> i16 {
    if x > i16::MAX {
        i16::MAX
    } else if x < i16::MIN {
        i16::MIN
    } else {
        x as i16
    }
}

/// The largest value of `i32`, or the smallest, where `x` leaves its range; `x` otherwise.
pub open spec fn saturate_i32(x: int) -> i32 {
    if x > i32::MAX {
        i32::MAX
    } else if x < i32::MIN {
        i32::MIN
    } else {
        x as i32
    }
}

/// The largest value of `i64`, or the smallest, where `x` leaves its range; `x` otherwise.
pub open spec fn saturate_i64(x: int) -> i64 {
    if x > i64::MAX {
        i64::MAX
    } else if x < i64::MIN {
        i64::MIN
    } else {
        x as i64
    }
}

/// The largest value of `i128`, or the smallest, where `x` leaves its range; `x` otherwise.
pub open spec fn saturate_i128(x: int) -> i128 {
    if x > i128::MAX {
        i128::MAX
    } else if x < i128::MIN {
        i128::MIN
    } else {
        x as i128
    }
}

/// The largest value of `isize`, or the smallest, where `x` leaves its range; `x` otherwise.
pub open spec fn saturate_isize(x: int) -> isize {
    if x > isize::MAX {
        isize::MAX
    } else if x < isize::MIN {
        isize::MIN
    } else {
        x as isize
    }
}

/// For a non-negative dividend and a negative divisor, the Euclidean quotient is the
/// negated quotient by the divisor's absolute value.
proof fn lemma_div_by_negative(n: int, d: int)
    requires
        n >= 0,
        d < 0,
    ensures
        n / d == -(n / (-d)),
{
    let q = n / (-d);
    let r = n % (-d);
    vstd::arithmetic::div_mod::lemma_fundamental_div_mod(n, -d);
    vstd::arithmetic::div_mod::lemma_mod_pos_bound(n, -d);
    assert(n == d * (-q) + r) by (nonlinear_arith)
        requires
            n == (-d) * q + r,
    ;
    assert(n / d == -q) by (nonlinear_arith)
        requires
            n == d * (-q) + r,
            0 <= r < -d,
            d < 0,
    ;
}

/// The bounds of the pointer-sized integer types, in terms of one another.
pub(crate) proof fn lemma_word_bounds()
    ensures
        usize::MIN == 0,
        usize::MAX + 1 == 2 * (isize::MAX + 1),
        isize::MIN == -isize::MAX - 1,
{
}

/// An element type on which `NumericArray` offers checked, wrapping and saturating
/// arithmetic. Each spec function says what the matching operation gives back for one
/// pair of elements; the proof functions relate those operations to the plain operators
/// and to one another.
pub trait Primitive: Sized + Copy + Add<Output = Self> + Sub<Output = Self> + Mul<
    Output = Self,
> + Div<Output = Self> + Not<Output = Self> {
    /// The sum of `a` and `b`, or `None` where the operation fails.
    spec fn checked_add_spec(a: Self, b: Self) -> Option<Self>;

    /// The difference of `a` and `b`, or `None` where the operation fails.
    spec fn checked_sub_spec(a: Self, b: Self) -> Option<Self>;

    /// The product of `a` and `b`, or `None` where the operation fails.
    spec fn checked_mul_spec(a: Self, b: Self) -> Option<Self>;

    /// The quotient of `a` and `b`, or `None` where the operation fails.
    spec fn checked_div_spec(a: Self, b: Self) -> Option<Self>;

    /// The sum of `a` and `b`, wrapped around at the bounds of the type.
    spec fn wrapping_add_spec(a: Self, b: Self) -> Self;

    /// The difference of `a` and `b`, wrapped around at the bounds of the type.
    spec fn wrapping_sub_spec(a: Self, b: Self) -> Self;

    /// The product of `a` and `b`, wrapped around at the bounds of the type.
    spec fn wrapping_mul_spec(a: Self, b: Self) -> Self;

    /// The sum of `a` and `b`, held at the bounds of the type.
    spec fn saturating_add_spec(a: Self, b: Self) -> Self;

    /// The difference of `a` and `b`, held at the bounds of the type.
    spec fn saturating_sub_spec(a: Self, b: Self) -> Self;

    /// Computes `checked_add_spec` for one pair of elements.
    fn checked_add_elem(a: &Self, b: &Self) -> (r: Option<Self>)
        ensures
            r == Self::checked_add_spec(*a, *b),
    ;

    /// Computes `checked_sub_spec` for one pair of elements.
    fn checked_sub_elem(a: &Self, b: &Self) -> (r: Option<Self>)
        ensures
            r == Self::checked_sub_spec(*a, *b),
    ;

    /// Computes `checked_mul_spec` for one pair of elements.
    fn checked_mul_elem(a: &Self, b: &Self) -> (r: Option<Self>)
        ensures
            r == Self::checked_mul_spec(*a, *b),
    ;

    /// Computes `checked_div_spec` for one pair of elements.
    fn checked_div_elem(a: &Self, b: &Self) -> (r: Option<Self>)
        ensures
            r == Self::checked_div_spec(*a, *b),
    ;

    /// Computes `wrapping_add_spec` for one pair of elements.
    fn wrapping_add_elem(a: &Self, b: &Self) -> (r: Self)
        ensures
            r == Self::wrapping_add_spec(*a, *b),
    ;

    /// Computes `wrapping_sub_spec` for one pair of elements.
    fn wrapping_sub_elem(a: &Self, b: &Self) -> (r: Self)
        ensures
            r == Self::wrapping_sub_spec(*a, *b),
    ;

    /// Computes `wrapping_mul_spec` for one pair of elements.
    fn wrapping_mul_elem(a: &Self, b: &Self) -> (r: Self)
        ensures
            r == Self::wrapping_mul_spec(*a, *b),
    ;

    /// Computes `saturating_add_spec` for one pair of elements.
    fn saturating_add_elem(a: Self, b: Self) -> (r: Self)
        ensures
            r == Self::saturating_add_spec(a, b),
    ;

    /// Computes `saturating_sub_spec` for one pair of elements.
    fn saturating_sub_elem(a: Self, b: Self) -> (r: Self)
        ensures
            r == Self::saturating_sub_spec(a, b),
    ;

    /// `checked_add` succeeds exactly where `+` is defined, and there every form of
    /// the sum agrees with `+`.
    proof fn lemma_add_forms_agree(x: Self, y: Self)
        ensures
            Self::checked_add_spec(x, y) is Some <==> x.add_req(y),
            x.add_req(y) ==> Self::checked_add_spec(x, y) == Some(x.add_spec(y)),
            x.add_req(y) ==> Self::wrapping_add_spec(x, y) == x.add_spec(y),
            x.add_req(y) ==> Self::saturating_add_spec(x, y) == x.add_spec(y),
    ;

    /// `checked_sub` succeeds exactly where `-` is defined, and there every form of
    /// the difference agrees with `-`.
    proof fn lemma_sub_forms_agree(x: Self, y: Self)
        ensures
            Self::checked_sub_spec(x, y) is Some <==> x.sub_req(y),
            x.sub_req(y) ==> Self::checked_sub_spec(x, y) == Some(x.sub_spec(y)),
            x.sub_req(y) ==> Self::wrapping_sub_spec(x, y) == x.sub_spec(y),
            x.sub_req(y) ==> Self::saturating_sub_spec(x, y) == x.sub_spec(y),
    ;

    /// `checked_mul` succeeds exactly where `*` is defined, and there every form of
    /// the product agrees with `*`.
    proof fn lemma_mul_forms_agree(x: Self, y: Self)
        ensures
            Self::checked_mul_spec(x, y) is Some <==> x.mul_req(y),
            x.mul_req(y) ==> Self::checked_mul_spec(x, y) == Some(x.mul_spec(y)),
            x.mul_req(y) ==> Self::wrapping_mul_spec(x, y) == x.mul_spec(y),
    ;

    /// `checked_div` succeeds exactly where `/` is defined, and there every form of
    /// the quotient agrees with `/`.
    proof fn lemma_div_forms_agree(x: Self, y: Self)
        ensures
            Self::checked_div_spec(x, y) is Some <==> x.div_req(y),
            x.div_req(y) ==> Self::checked_div_spec(x, y) == Some(x.div_spec(y)),
    ;

    /// Every form of the sum is commutative.
    proof fn lemma_add_commutes(x: Self, y: Self)
        ensures
            Self::checked_add_spec(x, y) == Self::checked_add_spec(y, x),
            Self::wrapping_add_spec(x, y) == Self::wrapping_add_spec(y, x),
            Self::saturating_add_spec(x, y) == Self::saturating_add_spec(y, x),
    ;

    /// Every form of the product is commutative.
    proof fn lemma_mul_commutes(x: Self, y: Self)
        ensures
            Self::checked_mul_spec(x, y) == Self::checked_mul_spec(y, x),
            Self::wrapping_mul_spec(x, y) == Self::wrapping_mul_spec(y, x),
    ;

    /// The operators `+ - * /` and `!` of this type follow vstd's specifications.
    proof fn lemma_operators_specified()
        ensures
            Self::obeys_add_spec(),
            Self::obeys_sub_spec(),
            Self::obeys_mul_spec(),
            Self::obeys_div_spec(),
            Self::obeys_not_spec(),
    ;

    /// Subtracting `y` from a sum `x + y` that fits gives back `x`, both with the
    /// operators and with their checked forms.
    proof fn lemma_sub_undoes_add(x: Self, y: Self)
        ensures
            x.add_req(y) ==> x.add_spec(y).sub_req(y) && x.add_spec(y).sub_spec(y) == x,
            Self::checked_add_spec(x, y) is Some ==> Self::checked_sub_spec(
                Self::checked_add_spec(x, y)->0,
                y,
            ) == Some(x),
    ;

    /// `!` applied twice gives back the element.
    proof fn lemma_not_involutive(x: Self)
        ensures
            x.not_req(),
            x.not_spec().not_req(),
            x.not_spec().not_spec() == x,
    ;
}

/// Wraps `<u8 as num_traits::CheckedAdd>::checked_add`, which num-traits implements by calling
/// `u8::checked_add`. The contract claims the result that vstd states for `u8::checked_add`.
#[verifier::external_body]
fn u8_checked_add(a: &u8, b: &u8) -> (r: Option<u8>)
    ensures
        r == (*a).checked_add(*b),
{
    num_traits::CheckedAdd::checked_add(a, b)
}

/// Wraps `<u8 as num_traits::CheckedSub>::checked_sub`, which num-traits implements by calling
/// `u8::checked_sub`. The contract claims the result that vstd states for `u8::checked_sub`.
#[verifier::external_body]
fn u8_checked_sub(a: &u8, b: &u8) -> (r: Option<u8>)
    ensures
        r == (*a).checked_sub(*b),
{
    num_traits::CheckedSub::checked_sub(a, b)
}

/// Wraps `<u8 as num_traits::CheckedMul>::checked_mul`, which num-traits implements by calling
/// `u8::checked_mul`. The contract claims the result that vstd states for `u8::checked_mul`.
#[verifier::external_body]
fn u8_checked_mul(a: &u8, b: &u8) -> (r: Option<u8>)
    ensures
        r == (*a).checked_mul(*b),
{
    num_traits::CheckedMul::checked_mul(a, b)
}

/// Wraps `<u8 as num_traits::CheckedDiv>::checked_div`, which num-traits implements by calling
/// `u8::checked_div`. The contract claims the result that vstd states for `u8::checked_div`.
#[verifier::external_body]
fn u8_checked_div(a: &u8, b: &u8) -> (r: Option<u8>)
    ensures
        r == (*a).checked_div(*b),
{
    num_traits::CheckedDiv::checked_div(a, b)
}

/// Wraps `<u8 as num_traits::WrappingAdd>::wrapping_add`, which num-traits implements by calling
/// `u8::wrapping_add`. The contract claims the result that vstd states for `u8::wrapping_add`.
#[verifier::external_body]
fn u8_wrapping_add(a: &u8, b: &u8) -> (r: u8)
    ensures
        r == (*a).wrapping_add(*b),
{
    num_traits::WrappingAdd::wrapping_add(a, b)
}

/// Wraps `<u8 as num_traits::WrappingSub>::wrapping_sub`, which num-traits implements by calling
/// `u8::wrapping_sub`. The contract claims the result that vstd states for `u8::wrapping_sub`.
#[verifier::external_body]
fn u8_wrapping_sub(a: &u8, b: &u8) -> (r: u8)
    ensures
        r == (*a).wrapping_sub(*b),
{
    num_traits::WrappingSub::wrapping_sub(a, b)
}

/// Wraps `<u8 as num_traits::WrappingMul>::wrapping_mul`, which num-traits implements by calling
/// `u8::wrapping_mul`. The contract claims the result that vstd states for `u8::wrapping_mul`.
#[verifier::external_body]
fn u8_wrapping_mul(a: &u8, b: &u8) -> (r: u8)
    ensures
        r == (*a).wrapping_mul(*b),
{
    num_traits::WrappingMul::wrapping_mul(a, b)
}

/// Wraps `<u8 as num_traits::Saturating>::saturating_add`, which num-traits implements by
/// calling `u8::saturating_add`. The contract claims the result that vstd states for `u8::saturating_add`.
#[verifier::external_body]
fn u8_saturating_add(a: u8, b: u8) -> (r: u8)
    ensures
        r == a.saturating_add(b),
{
    num_traits::Saturating::saturating_add(a, b)
}

/// Wraps `<u8 as num_traits::Saturating>::saturating_sub`, which num-traits implements by
/// calling `u8::saturating_sub`. The contract claims the result that vstd states for `u8::saturating_sub`.
#[verifier::external_body]
fn u8_saturating_sub(a: u8, b: u8) -> (r: u8)
    ensures
        r == a.saturating_sub(b),
{
    num_traits::Saturating::saturating_sub(a, b)
}

impl Primitive for u8 {
    open spec fn checked_add_spec(a: u8, b: u8) -> Option<u8> {
        a.checked_add(b)
    }

    open spec fn checked_sub_spec(a: u8, b: u8) -> Option<u8> {
        a.checked_sub(b)
    }

    open spec fn checked_mul_spec(a: u8, b: u8) -> Option<u8> {
        a.checked_mul(b)
    }

    open spec fn checked_div_spec(a: u8, b: u8) -> Option<u8> {
        a.checked_div(b)
    }

    open spec fn wrapping_add_spec(a: u8, b: u8) -> u8 {
        a.wrapping_add(b)
    }

    open spec fn wrapping_sub_spec(a: u8, b: u8) -> u8 {
        a.wrapping_sub(b)
    }

    open spec fn wrapping_mul_spec(a: u8, b: u8) -> u8 {
        a.wrapping_mul(b)
    }

    open spec fn saturating_add_spec(a: u8, b: u8) -> u8 {
        a.saturating_add(b)
    }

    open spec fn saturating_sub_spec(a: u8, b: u8) -> u8 {
        a.saturating_sub(b)
    }

    fn checked_add_elem(a: &u8, b: &u8) -> (r: Option<u8>) {
        u8_checked_add(a, b)
    }

    fn checked_sub_elem(a: &u8, b: &u8) -> (r: Option<u8>) {
        u8_checked_sub(a, b)
    }

    fn checked_mul_elem(a: &u8, b: &u8) -> (r: Option<u8>) {
        u8_checked_mul(a, b)
    }

    fn checked_div_elem(a: &u8, b: &u8) -> (r: Option<u8>) {
        u8_checked_div(a, b)
    }

    fn wrapping_add_elem(a: &u8, b: &u8) -> (r: u8) {
        u8_wrapping_add(a, b)
    }

    fn wrapping_sub_elem(a: &u8, b: &u8) -> (r: u8) {
        u8_wrapping_sub(a, b)
    }

    fn wrapping_mul_elem(a: &u8, b: &u8) -> (r: u8) {
        u8_wrapping_mul(a, b)
    }

    fn saturating_add_elem(a: u8, b: u8) -> (r: u8) {
        u8_saturating_add(a, b)
    }

    fn saturating_sub_elem(a: u8, b: u8) -> (r: u8) {
        u8_saturating_sub(a, b)
    }

    proof fn lemma_add_forms_agree(x: u8, y: u8) {    }

    proof fn lemma_sub_forms_agree(x: u8, y: u8) {    }

    proof fn lemma_mul_forms_agree(x: u8, y: u8) {    }

    proof fn lemma_div_forms_agree(x: u8, y: u8) {    }

    proof fn lemma_add_commutes(x: u8, y: u8) {}

    proof fn lemma_mul_commutes(x: u8, y: u8) {
        vstd::arithmetic::mul::lemma_mul_is_commutative(x as int, y as int);
    }

    proof fn lemma_operators_specified() {
    }

    proof fn lemma_sub_undoes_add(x: u8, y: u8) {
    }

    proof fn lemma_not_involutive(x: u8) {
        assert(!(!x) == x) by (bit_vector);
    }
}

/// Wraps `<u16 as num_traits::CheckedAdd>::checked_add`, which num-traits implements by calling
/// `u16::checked_add`. The contract claims the result that vstd states for `u16::checked_add`.
#[verifier::external_body]
fn u16_checked_add(a: &u16, b: &u16) -> (r: Option<u16>)
    ensures
        r == (*a).checked_add(*b),
{
    num_traits::CheckedAdd::checked_add(a, b)
}

/// Wraps `<u16 as num_traits::CheckedSub>::checked_sub`, which num-traits implements by calling
/// `u16::checked_sub`. The contract claims the result that vstd states for `u16::checked_sub`.
#[verifier::external_body]
fn u16_checked_sub(a: &u16, b: &u16) -> (r: Option<u16>)
    ensures
        r == (*a).checked_sub(*b),
{
    num_traits::CheckedSub::checked_sub(a, b)
}

/// Wraps `<u16 as num_traits::CheckedMul>::checked_mul`, which num-traits implements by calling
/// `u16::checked_mul`. The contract claims the result that vstd states for `u16::checked_mul`.
#[verifier::external_body]
fn u16_checked_mul(a: &u16, b: &u16) -> (r: Option<u16>)
    ensures
        r == (*a).checked_mul(*b),
{
    num_traits::CheckedMul::checked_mul(a, b)
}

/// Wraps `<u16 as num_traits::CheckedDiv>::checked_div`, which num-traits implements by calling
/// `u16::checked_div`. The contract claims the result that vstd states for `u16::checked_div`.
#[verifier::external_body]
fn u16_checked_div(a: &u16, b: &u16) -> (r: Option<u16>)
    ensures
        r == (*a).checked_div(*b),
{
    num_traits::CheckedDiv::checked_div(a, b)
}

/// Wraps `<u16 as num_traits::WrappingAdd>::wrapping_add`, which num-traits implements by calling
/// `u16::wrapping_add`. The contract claims the result that vstd states for `u16::wrapping_add`.
#[verifier::external_body]
fn u16_wrapping_add(a: &u16, b: &u16) -> (r: u16)
    ensures
        r == (*a).wrapping_add(*b),
{
    num_traits::WrappingAdd::wrapping_add(a, b)
}

/// Wraps `<u16 as num_traits::WrappingSub>::wrapping_sub`, which num-traits implements by calling
/// `u16::wrapping_sub`. The contract claims the result that vstd states for `u16::wrapping_sub`.
#[verifier::external_body]
fn u16_wrapping_sub(a: &u16, b: &u16) -> (r: u16)
    ensures
        r == (*a).wrapping_sub(*b),
{
    num_traits::WrappingSub::wrapping_sub(a, b)
}

/// Wraps `<u16 as num_traits::WrappingMul>::wrapping_mul`, which num-traits implements by calling
/// `u16::wrapping_mul`. The contract claims the result that vstd states for `u16::wrapping_mul`.
#[verifier::external_body]
fn u16_wrapping_mul(a: &u16, b: &u16) -> (r: u16)
    ensures
        r == (*a).wrapping_mul(*b),
{
    num_traits::WrappingMul::wrapping_mul(a, b)
}

/// Wraps `<u16 as num_traits::Saturating>::saturating_add`, which num-traits implements by
/// calling `u16::saturating_add`. The contract claims the result that vstd states for `u16::saturating_add`.
#[verifier::external_body]
fn u16_saturating_add(a: u16, b: u16) -> (r: u16)
    ensures
        r == a.saturating_add(b),
{
    num_traits::Saturating::saturating_add(a, b)
}

/// Wraps `<u16 as num_traits::Saturating>::saturating_sub`, which num-traits implements by
/// calling `u16::saturating_sub`. The contract claims the result that vstd states for `u16::saturating_sub`.
#[verifier::external_body]
fn u16_saturating_sub(a: u16, b: u16) -> (r: u16)
    ensures
        r == a.saturating_sub(b),
{
    num_traits::Saturating::saturating_sub(a, b)
}

impl Primitive for u16 {
    open spec fn checked_add_spec(a: u16, b: u16) -> Option<u16> {
        a.checked_add(b)
    }

    open spec fn checked_sub_spec(a: u16, b: u16) -> Option<u16> {
        a.checked_sub(b)
    }

    open spec fn checked_mul_spec(a: u16, b: u16) -> Option<u16> {
        a.checked_mul(b)
    }

    open spec fn checked_div_spec(a: u16, b: u16) -> Option<u16> {
        a.checked_div(b)
    }

    open spec fn wrapping_add_spec(a: u16, b: u16) -> u16 {
        a.wrapping_add(b)
    }

    open spec fn wrapping_sub_spec(a: u16, b: u16) -> u16 {
        a.wrapping_sub(b)
    }

    open spec fn wrapping_mul_spec(a: u16, b: u16) -> u16 {
        a.wrapping_mul(b)
    }

    open spec fn saturating_add_spec(a: u16, b: u16) -> u16 {
        a.saturating_add(b)
    }

    open spec fn saturating_sub_spec(a: u16, b: u16) -> u16 {
        a.saturating_sub(b)
    }

    fn checked_add_elem(a: &u16, b: &u16) -> (r: Option<u16>) {
        u16_checked_add(a, b)
    }

    fn checked_sub_elem(a: &u16, b: &u16) -> (r: Option<u16>) {
        u16_checked_sub(a, b)
    }

    fn checked_mul_elem(a: &u16, b: &u16) -> (r: Option<u16>) {
        u16_checked_mul(a, b)
    }

    fn checked_div_elem(a: &u16, b: &u16) -> (r: Option<u16>) {
        u16_checked_div(a, b)
    }

    fn wrapping_add_elem(a: &u16, b: &u16) -> (r: u16) {
        u16_wrapping_add(a, b)
    }

    fn wrapping_sub_elem(a: &u16, b: &u16) -> (r: u16) {
        u16_wrapping_sub(a, b)
    }

    fn wrapping_mul_elem(a: &u16, b: &u16) -> (r: u16) {
        u16_wrapping_mul(a, b)
    }

    fn saturating_add_elem(a: u16, b: u16) -> (r: u16) {
        u16_saturating_add(a, b)
    }

    fn saturating_sub_elem(a: u16, b: u16) -> (r: u16) {
        u16_saturating_sub(a, b)
    }

    proof fn lemma_add_forms_agree(x: u16, y: u16) {    }

    proof fn lemma_sub_forms_agree(x: u16, y: u16) {    }

    proof fn lemma_mul_forms_agree(x: u16, y: u16) {    }

    proof fn lemma_div_forms_agree(x: u16, y: u16) {    }

    proof fn lemma_add_commutes(x: u16, y: u16) {}

    proof fn lemma_mul_commutes(x: u16, y: u16) {
        vstd::arithmetic::mul::lemma_mul_is_commutative(x as int, y as int);
    }

    proof fn lemma_operators_specified() {
    }

    proof fn lemma_sub_undoes_add(x: u16, y: u16) {
    }

    proof fn lemma_not_involutive(x: u16) {
        assert(!(!x) == x) by (bit_vector);
    }
}

/// Wraps `<u32 as num_traits::CheckedAdd>::checked_add`, which num-traits implements by calling
/// `u32::checked_add`. The contract claims the result that vstd states for `u32::checked_add`.
#[verifier::external_body]
fn u32_checked_add(a: &u32, b: &u32) -> (r: Option<u32>)
    ensures
        r == (*a).checked_add(*b),
{
    num_traits::CheckedAdd::checked_add(a, b)
}

/// Wraps `<u32 as num_traits::CheckedSub>::checked_sub`, which num-traits implements by calling
/// `u32::checked_sub`. The contract claims the result that vstd states for `u32::checked_sub`.
#[verifier::external_body]
fn u32_checked_sub(a: &u32, b: &u32) -> (r: Option<u32>)
    ensures
        r == (*a).checked_sub(*b),
{
    num_traits::CheckedSub::checked_sub(a, b)
}

/// Wraps `<u32 as num_traits::CheckedMul>::checked_mul`, which num-traits implements by calling
/// `u32::checked_mul`. The contract claims the result that vstd states for `u32::checked_mul`.
#[verifier::external_body]
fn u32_checked_mul(a: &u32, b: &u32) -> (r: Option<u32>)
    ensures
        r == (*a).checked_mul(*b),
{
    num_traits::CheckedMul::checked_mul(a, b)
}

/// Wraps `<u32 as num_traits::CheckedDiv>::checked_div`, which num-traits implements by calling
/// `u32::checked_div`. The contract claims the result that vstd states for `u32::checked_div`.
#[verifier::external_body]
fn u32_checked_div(a: &u32, b: &u32) -> (r: Option<u32>)
    ensures
        r == (*a).checked_div(*b),
{
    num_traits::CheckedDiv::checked_div(a, b)
}

/// Wraps `<u32 as num_traits::WrappingAdd>::wrapping_add`, which num-traits implements by calling
/// `u32::wrapping_add`. The contract claims the result that vstd states for `u32::wrapping_add`.
#[verifier::external_body]
fn u32_wrapping_add(a: &u32, b: &u32) -> (r: u32)
    ensures
        r == (*a).wrapping_add(*b),
{
    num_traits::WrappingAdd::wrapping_add(a, b)
}

/// Wraps `<u32 as num_traits::WrappingSub>::wrapping_sub`, which num-traits implements by calling
/// `u32::wrapping_sub`. The contract claims the result that vstd states for `u32::wrapping_sub`.
#[verifier::external_body]
fn u32_wrapping_sub(a: &u32, b: &u32) -> (r: u32)
    ensures
        r == (*a).wrapping_sub(*b),
{
    num_traits::WrappingSub::wrapping_sub(a, b)
}

/// Wraps `<u32 as num_traits::WrappingMul>::wrapping_mul`, which num-traits implements by calling
/// `u32::wrapping_mul`. The contract claims the result that vstd states for `u32::wrapping_mul`.
#[verifier::external_body]
fn u32_wrapping_mul(a: &u32, b: &u32) -> (r: u32)
    ensures
        r == (*a).wrapping_mul(*b),
{
    num_traits::WrappingMul::wrapping_mul(a, b)
}

/// Wraps `<u32 as num_traits::Saturating>::saturating_add`, which num-traits implements by
/// calling `u32::saturating_add`. The contract claims the result that vstd states for `u32::saturating_add`.
#[verifier::external_body]
fn u32_saturating_add(a: u32, b: u32) -> (r: u32)
    ensures
        r == a.saturating_add(b),
{
    num_traits::Saturating::saturating_add(a, b)
}

/// Wraps `<u32 as num_traits::Saturating>::saturating_sub`, which num-traits implements by
/// calling `u32::saturating_sub`. The contract claims the result that vstd states for `u32::saturating_sub`.
#[verifier::external_body]
fn u32_saturating_sub(a: u32, b: u32) -> (r: u32)
    ensures
        r == a.saturating_sub(b),
{
    num_traits::Saturating::saturating_sub(a, b)
}

impl Primitive for u32 {
    open spec fn checked_add_spec(a: u32, b: u32) -> Option<u32> {
        a.checked_add(b)
    }

    open spec fn checked_sub_spec(a: u32, b: u32) -> Option<u32> {
        a.checked_sub(b)
    }

    open spec fn checked_mul_spec(a: u32, b: u32) -> Option<u32> {
        a.checked_mul(b)
    }

    open spec fn checked_div_spec(a: u32, b: u32) -> Option<u32> {
        a.checked_div(b)
    }

    open spec fn wrapping_add_spec(a: u32, b: u32) -> u32 {
        a.wrapping_add(b)
    }

    open spec fn wrapping_sub_spec(a: u32, b: u32) -> u32 {
        a.wrapping_sub(b)
    }

    open spec fn wrapping_mul_spec(a: u32, b: u32) -> u32 {
        a.wrapping_mul(b)
    }

    open spec fn saturating_add_spec(a: u32, b: u32) -> u32 {
        a.saturating_add(b)
    }

    open spec fn saturating_sub_spec(a: u32, b: u32) -> u32 {
        a.saturating_sub(b)
    }

    fn checked_add_elem(a: &u32, b: &u32) -> (r: Option<u32>) {
        u32_checked_add(a, b)
    }

    fn checked_sub_elem(a: &u32, b: &u32) -> (r: Option<u32>) {
        u32_checked_sub(a, b)
    }

    fn checked_mul_elem(a: &u32, b: &u32) -> (r: Option<u32>) {
        u32_checked_mul(a, b)
    }

    fn checked_div_elem(a: &u32, b: &u32) -> (r: Option<u32>) {
        u32_checked_div(a, b)
    }

    fn wrapping_add_elem(a: &u32, b: &u32) -> (r: u32) {
        u32_wrapping_add(a, b)
    }

    fn wrapping_sub_elem(a: &u32, b: &u32) -> (r: u32) {
        u32_wrapping_sub(a, b)
    }

    fn wrapping_mul_elem(a: &u32, b: &u32) -> (r: u32) {
        u32_wrapping_mul(a, b)
    }

    fn saturating_add_elem(a: u32, b: u32) -> (r: u32) {
        u32_saturating_add(a, b)
    }

    fn saturating_sub_elem(a: u32, b: u32) -> (r: u32) {
        u32_saturating_sub(a, b)
    }

    proof fn lemma_add_forms_agree(x: u32, y: u32) {    }

    proof fn lemma_sub_forms_agree(x: u32, y: u32) {    }

    proof fn lemma_mul_forms_agree(x: u32, y: u32) {    }

    proof fn lemma_div_forms_agree(x: u32, y: u32) {    }

    proof fn lemma_add_commutes(x: u32, y: u32) {}

    proof fn lemma_mul_commutes(x: u32, y: u32) {
        vstd::arithmetic::mul::lemma_mul_is_commutative(x as int, y as int);
    }

    proof fn lemma_operators_specified() {
    }

    proof fn lemma_sub_undoes_add(x: u32, y: u32) {
    }

    proof fn lemma_not_involutive(x: u32) {
        assert(!(!x) == x) by (bit_vector);
    }
}

/// Wraps `<u64 as num_traits::CheckedAdd>::checked_add`, which num-traits implements by calling
/// `u64::checked_add`. The contract claims the result that vstd states for `u64::checked_add`.
#[verifier::external_body]
fn u64_checked_add(a: &u64, b: &u64) -> (r: Option<u64>)
    ensures
        r == (*a).checked_add(*b),
{
    num_traits::CheckedAdd::checked_add(a, b)
}

/// Wraps `<u64 as num_traits::CheckedSub>::checked_sub`, which num-traits implements by calling
/// `u64::checked_sub`. The contract claims the result that vstd states for `u64::checked_sub`.
#[verifier::external_body]
fn u64_checked_sub(a: &u64, b: &u64) -> (r: Option<u64>)
    ensures
        r == (*a).checked_sub(*b),
{
    num_traits::CheckedSub::checked_sub(a, b)
}

/// Wraps `<u64 as num_traits::CheckedMul>::checked_mul`, which num-traits implements by calling
/// `u64::checked_mul`. The contract claims the result that vstd states for `u64::checked_mul`.
#[verifier::external_body]
fn u64_checked_mul(a: &u64, b: &u64) -> (r: Option<u64>)
    ensures
        r == (*a).checked_mul(*b),
{
    num_traits::CheckedMul::checked_mul(a, b)
}

/// Wraps `<u64 as num_traits::CheckedDiv>::checked_div`, which num-traits implements by calling
/// `u64::checked_div`. The contract claims the result that vstd states for `u64::checked_div`.
#[verifier::external_body]
fn u64_checked_div(a: &u64, b: &u64) -> (r: Option<u64>)
    ensures
        r == (*a).checked_div(*b),
{
    num_traits::CheckedDiv::checked_div(a, b)
}

/// Wraps `<u64 as num_traits::WrappingAdd>::wrapping_add`, which num-traits implements by calling
/// `u64::wrapping_add`. The contract claims the result that vstd states for `u64::wrapping_add`.
#[verifier::external_body]
fn u64_wrapping_add(a: &u64, b: &u64) -> (r: u64)
    ensures
        r == (*a).wrapping_add(*b),
{
    num_traits::WrappingAdd::wrapping_add(a, b)
}

/// Wraps `<u64 as num_traits::WrappingSub>::wrapping_sub`, which num-traits implements by calling
/// `u64::wrapping_sub`. The contract claims the result that vstd states for `u64::wrapping_sub`.
#[verifier::external_body]
fn u64_wrapping_sub(a: &u64, b: &u64) -> (r: u64)
    ensures
        r == (*a).wrapping_sub(*b),
{
    num_traits::WrappingSub::wrapping_sub(a, b)
}

/// Wraps `<u64 as num_traits::WrappingMul>::wrapping_mul`, which num-traits implements by calling
/// `u64::wrapping_mul`. The contract claims the result that vstd states for `u64::wrapping_mul`.
#[verifier::external_body]
fn u64_wrapping_mul(a: &u64, b: &u64) -> (r: u64)
    ensures
        r == (*a).wrapping_mul(*b),
{
    num_traits::WrappingMul::wrapping_mul(a, b)
}

/// Wraps `<u64 as num_traits::Saturating>::saturating_add`, which num-traits implements by
/// calling `u64::saturating_add`. The contract claims the result that vstd states for `u64::saturating_add`.
#[verifier::external_body]
fn u64_saturating_add(a: u64, b: u64) -> (r: u64)
    ensures
        r == a.saturating_add(b),
{
    num_traits::Saturating::saturating_add(a, b)
}

/// Wraps `<u64 as num_traits::Saturating>::saturating_sub`, which num-traits implements by
/// calling `u64::saturating_sub`. The contract claims the result that vstd states for `u64::saturating_sub`.
#[verifier::external_body]
fn u64_saturating_sub(a: u64, b: u64) -> (r: u64)
    ensures
        r == a.saturating_sub(b),
{
    num_traits::Saturating::saturating_sub(a, b)
}

impl Primitive for u64 {
    open spec fn checked_add_spec(a: u64, b: u64) -> Option<u64> {
        a.checked_add(b)
    }

    open spec fn checked_sub_spec(a: u64, b: u64) -> Option<u64> {
        a.checked_sub(b)
    }

    open spec fn checked_mul_spec(a: u64, b: u64) -> Option<u64> {
        a.checked_mul(b)
    }

    open spec fn checked_div_spec(a: u64, b: u64) -> Option<u64> {
        a.checked_div(b)
    }

    open spec fn wrapping_add_spec(a: u64, b: u64) -> u64 {
        a.wrapping_add(b)
    }

    open spec fn wrapping_sub_spec(a: u64, b: u64) -> u64 {
        a.wrapping_sub(b)
    }

    open spec fn wrapping_mul_spec(a: u64, b: u64) -> u64 {
        a.wrapping_mul(b)
    }

    open spec fn saturating_add_spec(a: u64, b: u64) -> u64 {
        a.saturating_add(b)
    }

    open spec fn saturating_sub_spec(a: u64, b: u64) -> u64 {
        a.saturating_sub(b)
    }

    fn checked_add_elem(a: &u64, b: &u64) -> (r: Option<u64>) {
        u64_checked_add(a, b)
    }

    fn checked_sub_elem(a: &u64, b: &u64) -> (r: Option<u64>) {
        u64_checked_sub(a, b)
    }

    fn checked_mul_elem(a: &u64, b: &u64) -> (r: Option<u64>) {
        u64_checked_mul(a, b)
    }

    fn checked_div_elem(a: &u64, b: &u64) -> (r: Option<u64>) {
        u64_checked_div(a, b)
    }

    fn wrapping_add_elem(a: &u64, b: &u64) -> (r: u64) {
        u64_wrapping_add(a, b)
    }

    fn wrapping_sub_elem(a: &u64, b: &u64) -> (r: u64) {
        u64_wrapping_sub(a, b)
    }

    fn wrapping_mul_elem(a: &u64, b: &u64) -> (r: u64) {
        u64_wrapping_mul(a, b)
    }

    fn saturating_add_elem(a: u64, b: u64) -> (r: u64) {
        u64_saturating_add(a, b)
    }

    fn saturating_sub_elem(a: u64, b: u64) -> (r: u64) {
        u64_saturating_sub(a, b)
    }

    proof fn lemma_add_forms_agree(x: u64, y: u64) {    }

    proof fn lemma_sub_forms_agree(x: u64, y: u64) {    }

    proof fn lemma_mul_forms_agree(x: u64, y: u64) {    }

    proof fn lemma_div_forms_agree(x: u64, y: u64) {    }

    proof fn lemma_add_commutes(x: u64, y: u64) {}

    proof fn lemma_mul_commutes(x: u64, y: u64) {
        vstd::arithmetic::mul::lemma_mul_is_commutative(x as int, y as int);
    }

    proof fn lemma_operators_specified() {
    }

    proof fn lemma_sub_undoes_add(x: u64, y: u64) {
    }

    proof fn lemma_not_involutive(x: u64) {
        assert(!(!x) == x) by (bit_vector);
    }
}

/// Wraps `<u128 as num_traits::CheckedAdd>::checked_add`, which num-traits implements by calling
/// `u128::checked_add`. The contract claims the result that vstd states for `u128::checked_add`.
#[verifier::external_body]
fn u128_checked_add(a: &u128, b: &u128) -> (r: Option<u128>)
    ensures
        r == (*a).checked_add(*b),
{
    num_traits::CheckedAdd::checked_add(a, b)
}

/// Wraps `<u128 as num_traits::CheckedSub>::checked_sub`, which num-traits implements by calling
/// `u128::checked_sub`. The contract claims the result that vstd states for `u128::checked_sub`.
#[verifier::external_body]
fn u128_checked_sub(a: &u128, b: &u128) -> (r: Option<u128>)
    ensures
        r == (*a).checked_sub(*b),
{
    num_traits::CheckedSub::checked_sub(a, b)
}

/// Wraps `<u128 as num_traits::CheckedMul>::checked_mul`, which num-traits implements by calling
/// `u128::checked_mul`. The contract claims the result that vstd states for `u128::checked_mul`.
#[verifier::external_body]
fn u128_checked_mul(a: &u128, b: &u128) -> (r: Option<u128>)
    ensures
        r == (*a).checked_mul(*b),
{
    num_traits::CheckedMul::checked_mul(a, b)
}

/// Wraps `<u128 as num_traits::CheckedDiv>::checked_div`, which num-traits implements by calling
/// `u128::checked_div`. The contract claims the result that vstd states for `u128::checked_div`.
#[verifier::external_body]
fn u128_checked_div(a: &u128, b: &u128) -> (r: Option<u128>)
    ensures
        r == (*a).checked_div(*b),
{
    num_traits::CheckedDiv::checked_div(a, b)
}

/// Wraps `<u128 as num_traits::WrappingAdd>::wrapping_add`, which num-traits implements by calling
/// `u128::wrapping_add`. The contract claims the result that vstd states for `u128::wrapping_add`.
#[verifier::external_body]
fn u128_wrapping_add(a: &u128, b: &u128) -> (r: u128)
    ensures
        r == (*a).wrapping_add(*b),
{
    num_traits::WrappingAdd::wrapping_add(a, b)
}

/// Wraps `<u128 as num_traits::WrappingSub>::wrapping_sub`, which num-traits implements by calling
/// `u128::wrapping_sub`. The contract claims the result that vstd states for `u128::wrapping_sub`.
#[verifier::external_body]
fn u128_wrapping_sub(a: &u128, b: &u128) -> (r: u128)
    ensures
        r == (*a).wrapping_sub(*b),
{
    num_traits::WrappingSub::wrapping_sub(a, b)
}

/// Wraps `<u128 as num_traits::WrappingMul>::wrapping_mul`, which num-traits implements by calling
/// `u128::wrapping_mul`. The contract claims the result that vstd states for `u128::wrapping_mul`.
#[verifier::external_body]
fn u128_wrapping_mul(a: &u128, b: &u128) -> (r: u128)
    ensures
        r == (*a).wrapping_mul(*b),
{
    num_traits::WrappingMul::wrapping_mul(a, b)
}

/// Wraps `<u128 as num_traits::Saturating>::saturating_add`, which num-traits implements by
/// calling `u128::saturating_add`. The contract claims the result that vstd states for `u128::saturating_add`.
#[verifier::external_body]
fn u128_saturating_add(a: u128, b: u128) -> (r: u128)
    ensures
        r == a.saturating_add(b),
{
    num_traits::Saturating::saturating_add(a, b)
}

/// Wraps `<u128 as num_traits::Saturating>::saturating_sub`, which num-traits implements by
/// calling `u128::saturating_sub`. The contract claims the result that vstd states for `u128::saturating_sub`.
#[verifier::external_body]
fn u128_saturating_sub(a: u128, b: u128) -> (r: u128)
    ensures
        r == a.saturating_sub(b),
{
    num_traits::Saturating::saturating_sub(a, b)
}

impl Primitive for u128 {
    open spec fn checked_add_spec(a: u128, b: u128) -> Option<u128> {
        a.checked_add(b)
    }

    open spec fn checked_sub_spec(a: u128, b: u128) -> Option<u128> {
        a.checked_sub(b)
    }

    open spec fn checked_mul_spec(a: u128, b: u128) -> Option<u128> {
        a.checked_mul(b)
    }

    open spec fn checked_div_spec(a: u128, b: u128) -> Option<u128> {
        a.checked_div(b)
    }

    open spec fn wrapping_add_spec(a: u128, b: u128) -> u128 {
        a.wrapping_add(b)
    }

    open spec fn wrapping_sub_spec(a: u128, b: u128) -> u128 {
        a.wrapping_sub(b)
    }

    open spec fn wrapping_mul_spec(a: u128, b: u128) -> u128 {
        a.wrapping_mul(b)
    }

    open spec fn saturating_add_spec(a: u128, b: u128) -> u128 {
        a.saturating_add(b)
    }

    open spec fn saturating_sub_spec(a: u128, b: u128) -> u128 {
        a.saturating_sub(b)
    }

    fn checked_add_elem(a: &u128, b: &u128) -> (r: Option<u128>) {
        u128_checked_add(a, b)
    }

    fn checked_sub_elem(a: &u128, b: &u128) -> (r: Option<u128>) {
        u128_checked_sub(a, b)
    }

    fn checked_mul_elem(a: &u128, b: &u128) -> (r: Option<u128>) {
        u128_checked_mul(a, b)
    }

    fn checked_div_elem(a: &u128, b: &u128) -> (r: Option<u128>) {
        u128_checked_div(a, b)
    }

    fn wrapping_add_elem(a: &u128, b: &u128) -> (r: u128) {
        u128_wrapping_add(a, b)
    }

    fn wrapping_sub_elem(a: &u128, b: &u128) -> (r: u128) {
        u128_wrapping_sub(a, b)
    }

    fn wrapping_mul_elem(a: &u128, b: &u128) -> (r: u128) {
        u128_wrapping_mul(a, b)
    }

    fn saturating_add_elem(a: u128, b: u128) -> (r: u128) {
        u128_saturating_add(a, b)
    }

    fn saturating_sub_elem(a: u128, b: u128) -> (r: u128) {
        u128_saturating_sub(a, b)
    }

    proof fn lemma_add_forms_agree(x: u128, y: u128) {    }

    proof fn lemma_sub_forms_agree(x: u128, y: u128) {    }

    proof fn lemma_mul_forms_agree(x: u128, y: u128) {    }

    proof fn lemma_div_forms_agree(x: u128, y: u128) {    }

    proof fn lemma_add_commutes(x: u128, y: u128) {}

    proof fn lemma_mul_commutes(x: u128, y: u128) {
        vstd::arithmetic::mul::lemma_mul_is_commutative(x as int, y as int);
    }

    proof fn lemma_operators_specified() {
    }

    proof fn lemma_sub_undoes_add(x: u128, y: u128) {
    }

    proof fn lemma_not_involutive(x: u128) {
        assert(!(!x) == x) by (bit_vector);
    }
}

/// Wraps `<usize as num_traits::CheckedAdd>::checked_add`, which num-traits implements by calling
/// `usize::checked_add`. The contract claims the result that vstd states for `usize::checked_add`.
#[verifier::external_body]
fn usize_checked_add(a: &usize, b: &usize) -> (r: Option<usize>)
    ensures
        r == (*a).checked_add(*b),
{
    num_traits::CheckedAdd::checked_add(a, b)
}

/// Wraps `<usize as num_traits::CheckedSub>::checked_sub`, which num-traits implements by calling
/// `usize::checked_sub`. The contract claims the result that vstd states for `usize::checked_sub`.
#[verifier::external_body]
fn usize_checked_sub(a: &usize, b: &usize) -> (r: Option<usize>)
    ensures
        r == (*a).checked_sub(*b),
{
    num_traits::CheckedSub::checked_sub(a, b)
}

/// Wraps `<usize as num_traits::CheckedMul>::checked_mul`, which num-traits implements by calling
/// `usize::checked_mul`. The contract claims the result that vstd states for `usize::checked_mul`.
#[verifier::external_body]
fn usize_checked_mul(a: &usize, b: &usize) -> (r: Option<usize>)
    ensures
        r == (*a).checked_mul(*b),
{
    num_traits::CheckedMul::checked_mul(a, b)
}

/// Wraps `<usize as num_traits::CheckedDiv>::checked_div`, which num-traits implements by calling
/// `usize::checked_div`. The contract claims the result that vstd states for `usize::checked_div`.
#[verifier::external_body]
fn usize_checked_div(a: &usize, b: &usize) -> (r: Option<usize>)
    ensures
        r == (*a).checked_div(*b),
{
    num_traits::CheckedDiv::checked_div(a, b)
}

/// Wraps `<usize as num_traits::WrappingAdd>::wrapping_add`, which num-traits implements by calling
/// `usize::wrapping_add`. The contract claims the result that vstd states for `usize::wrapping_add`.
#[verifier::external_body]
fn usize_wrapping_add(a: &usize, b: &usize) -> (r: usize)
    ensures
        r == (*a).wrapping_add(*b),
{
    num_traits::WrappingAdd::wrapping_add(a, b)
}

/// Wraps `<usize as num_traits::WrappingSub>::wrapping_sub`, which num-traits implements by calling
/// `usize::wrapping_sub`. The contract claims the result that vstd states for `usize::wrapping_sub`.
#[verifier::external_body]
fn usize_wrapping_sub(a: &usize, b: &usize) -> (r: usize)
    ensures
        r == (*a).wrapping_sub(*b),
{
    num_traits::WrappingSub::wrapping_sub(a, b)
}

/// Wraps `<usize as num_traits::WrappingMul>::wrapping_mul`, which num-traits implements by calling
/// `usize::wrapping_mul`. The contract claims the result that vstd states for `usize::wrapping_mul`.
#[verifier::external_body]
fn usize_wrapping_mul(a: &usize, b: &usize) -> (r: usize)
    ensures
        r == (*a).wrapping_mul(*b),
{
    num_traits::WrappingMul::wrapping_mul(a, b)
}

/// Wraps `<usize as num_traits::Saturating>::saturating_add`, which num-traits implements by
/// calling `usize::saturating_add`. The contract claims the result that vstd states for `usize::saturating_add`.
#[verifier::external_body]
fn usize_saturating_add(a: usize, b: usize) -> (r: usize)
    ensures
        r == a.saturating_add(b),
{
    num_traits::Saturating::saturating_add(a, b)
}

/// Wraps `<usize as num_traits::Saturating>::saturating_sub`, which num-traits implements by
/// calling `usize::saturating_sub`. The contract claims the result that vstd states for `usize::saturating_sub`.
#[verifier::external_body]
fn usize_saturating_sub(a: usize, b: usize) -> (r: usize)
    ensures
        r == a.saturating_sub(b),
{
    num_traits::Saturating::saturating_sub(a, b)
}

impl Primitive for usize {
    open spec fn checked_add_spec(a: usize, b: usize) -> Option<usize> {
        a.checked_add(b)
    }

    open spec fn checked_sub_spec(a: usize, b: usize) -> Option<usize> {
        a.checked_sub(b)
    }

    open spec fn checked_mul_spec(a: usize, b: usize) -> Option<usize> {
        a.checked_mul(b)
    }

    open spec fn checked_div_spec(a: usize, b: usize) -> Option<usize> {
        a.checked_div(b)
    }

    open spec fn wrapping_add_spec(a: usize, b: usize) -> usize {
        a.wrapping_add(b)
    }

    open spec fn wrapping_sub_spec(a: usize, b: usize) -> usize {
        a.wrapping_sub(b)
    }

    open spec fn wrapping_mul_spec(a: usize, b: usize) -> usize {
        a.wrapping_mul(b)
    }

    open spec fn saturating_add_spec(a: usize, b: usize) -> usize {
        a.saturating_add(b)
    }

    open spec fn saturating_sub_spec(a: usize, b: usize) -> usize {
        a.saturating_sub(b)
    }

    fn checked_add_elem(a: &usize, b: &usize) -> (r: Option<usize>) {
        usize_checked_add(a, b)
    }

    fn checked_sub_elem(a: &usize, b: &usize) -> (r: Option<usize>) {
        usize_checked_sub(a, b)
    }

    fn checked_mul_elem(a: &usize, b: &usize) -> (r: Option<usize>) {
        usize_checked_mul(a, b)
    }

    fn checked_div_elem(a: &usize, b: &usize) -> (r: Option<usize>) {
        usize_checked_div(a, b)
    }

    fn wrapping_add_elem(a: &usize, b: &usize) -> (r: usize) {
        usize_wrapping_add(a, b)
    }

    fn wrapping_sub_elem(a: &usize, b: &usize) -> (r: usize) {
        usize_wrapping_sub(a, b)
    }

    fn wrapping_mul_elem(a: &usize, b: &usize) -> (r: usize) {
        usize_wrapping_mul(a, b)
    }

    fn saturating_add_elem(a: usize, b: usize) -> (r: usize) {
        usize_saturating_add(a, b)
    }

    fn saturating_sub_elem(a: usize, b: usize) -> (r: usize) {
        usize_saturating_sub(a, b)
    }

    proof fn lemma_add_forms_agree(x: usize, y: usize) {    }

    proof fn lemma_sub_forms_agree(x: usize, y: usize) {    }

    proof fn lemma_mul_forms_agree(x: usize, y: usize) {
        lemma_word_bounds();
        if x.mul_req(y) {
            vstd::arithmetic::div_mod::lemma_small_mod(
                (x as nat * y as nat) as nat,
                (usize::MAX - usize::MIN + 1) as nat,
            );
        }
    }

    proof fn lemma_div_forms_agree(x: usize, y: usize) {    }

    proof fn lemma_add_commutes(x: usize, y: usize) {}

    proof fn lemma_mul_commutes(x: usize, y: usize) {
        vstd::arithmetic::mul::lemma_mul_is_commutative(x as int, y as int);
    }

    proof fn lemma_operators_specified() {
    }

    proof fn lemma_sub_undoes_add(x: usize, y: usize) {
    }

    proof fn lemma_not_involutive(x: usize) {
        assert(!(!x) == x) by (bit_vector);
    }
}

/// Wraps `<i8 as num_traits::CheckedAdd>::checked_add`, which num-traits implements by calling
/// `i8::checked_add`. The contract claims the result that vstd states for `i8::checked_add`.
#[verifier::external_body]
fn i8_checked_add(a: &i8, b: &i8) -> (r: Option<i8>)
    ensures
        r == (*a).checked_add(*b),
{
    num_traits::CheckedAdd::checked_add(a, b)
}

/// Wraps `<i8 as num_traits::CheckedSub>::checked_sub`, which num-traits implements by calling
/// `i8::checked_sub`. The contract claims the result that vstd states for `i8::checked_sub`.
#[verifier::external_body]
fn i8_checked_sub(a: &i8, b: &i8) -> (r: Option<i8>)
    ensures
        r == (*a).checked_sub(*b),
{
    num_traits::CheckedSub::checked_sub(a, b)
}

/// Wraps `<i8 as num_traits::CheckedMul>::checked_mul`, which num-traits implements by calling
/// `i8::checked_mul`. The contract claims the result that vstd states for `i8::checked_mul`.
#[verifier::external_body]
fn i8_checked_mul(a: &i8, b: &i8) -> (r: Option<i8>)
    ensures
        r == (*a).checked_mul(*b),
{
    num_traits::CheckedMul::checked_mul(a, b)
}

/// Wraps `<i8 as num_traits::CheckedDiv>::checked_div`, which num-traits implements by calling
/// `i8::checked_div`. The contract claims the result that vstd states for `i8::checked_div`.
#[verifier::external_body]
fn i8_checked_div(a: &i8, b: &i8) -> (r: Option<i8>)
    ensures
        r == (*a).checked_div(*b),
{
    num_traits::CheckedDiv::checked_div(a, b)
}

/// Wraps `<i8 as num_traits::WrappingAdd>::wrapping_add`, which num-traits implements by calling
/// `i8::wrapping_add`. The contract claims the result that vstd states for `i8::wrapping_add`.
#[verifier::external_body]
fn i8_wrapping_add(a: &i8, b: &i8) -> (r: i8)
    ensures
        r == (*a).wrapping_add(*b),
{
    num_traits::WrappingAdd::wrapping_add(a, b)
}

/// Wraps `<i8 as num_traits::WrappingSub>::wrapping_sub`, which num-traits implements by calling
/// `i8::wrapping_sub`. The contract claims the result that vstd states for `i8::wrapping_sub`.
#[verifier::external_body]
fn i8_wrapping_sub(a: &i8, b: &i8) -> (r: i8)
    ensures
        r == (*a).wrapping_sub(*b),
{
    num_traits::WrappingSub::wrapping_sub(a, b)
}

/// Wraps `<i8 as num_traits::WrappingMul>::wrapping_mul`, which num-traits implements by calling
/// `i8::wrapping_mul`. The contract claims the result that vstd states for `i8::wrapping_mul`.
#[verifier::external_body]
fn i8_wrapping_mul(a: &i8, b: &i8) -> (r: i8)
    ensures
        r == (*a).wrapping_mul(*b),
{
    num_traits::WrappingMul::wrapping_mul(a, b)
}

/// Wraps `<i8 as num_traits::Saturating>::saturating_add`, which num-traits implements by
/// calling `i8::saturating_add`. The contract claims the exact sum, or the bound of `i8` that it passes, as std documents for `i8::saturating_add`.
#[verifier::external_body]
fn i8_saturating_add(a: i8, b: i8) -> (r: i8)
    ensures
        r == saturate_i8(a + b),
{
    num_traits::Saturating::saturating_add(a, b)
}

/// Wraps `<i8 as num_traits::Saturating>::saturating_sub`, which num-traits implements by
/// calling `i8::saturating_sub`. The contract claims the exact difference, or the bound of `i8` that it passes, as std documents for `i8::saturating_sub`.
#[verifier::external_body]
fn i8_saturating_sub(a: i8, b: i8) -> (r: i8)
    ensures
        r == saturate_i8(a - b),
{
    num_traits::Saturating::saturating_sub(a, b)
}

impl Primitive for i8 {
    open spec fn checked_add_spec(a: i8, b: i8) -> Option<i8> {
        a.checked_add(b)
    }

    open spec fn checked_sub_spec(a: i8, b: i8) -> Option<i8> {
        a.checked_sub(b)
    }

    open spec fn checked_mul_spec(a: i8, b: i8) -> Option<i8> {
        a.checked_mul(b)
    }

    open spec fn checked_div_spec(a: i8, b: i8) -> Option<i8> {
        a.checked_div(b)
    }

    open spec fn wrapping_add_spec(a: i8, b: i8) -> i8 {
        a.wrapping_add(b)
    }

    open spec fn wrapping_sub_spec(a: i8, b: i8) -> i8 {
        a.wrapping_sub(b)
    }

    open spec fn wrapping_mul_spec(a: i8, b: i8) -> i8 {
        a.wrapping_mul(b)
    }

    open spec fn saturating_add_spec(a: i8, b: i8) -> i8 {
        saturate_i8(a + b)
    }

    open spec fn saturating_sub_spec(a: i8, b: i8) -> i8 {
        saturate_i8(a - b)
    }

    fn checked_add_elem(a: &i8, b: &i8) -> (r: Option<i8>) {
        i8_checked_add(a, b)
    }

    fn checked_sub_elem(a: &i8, b: &i8) -> (r: Option<i8>) {
        i8_checked_sub(a, b)
    }

    fn checked_mul_elem(a: &i8, b: &i8) -> (r: Option<i8>) {
        i8_checked_mul(a, b)
    }

    fn checked_div_elem(a: &i8, b: &i8) -> (r: Option<i8>) {
        i8_checked_div(a, b)
    }

    fn wrapping_add_elem(a: &i8, b: &i8) -> (r: i8) {
        i8_wrapping_add(a, b)
    }

    fn wrapping_sub_elem(a: &i8, b: &i8) -> (r: i8) {
        i8_wrapping_sub(a, b)
    }

    fn wrapping_mul_elem(a: &i8, b: &i8) -> (r: i8) {
        i8_wrapping_mul(a, b)
    }

    fn saturating_add_elem(a: i8, b: i8) -> (r: i8) {
        i8_saturating_add(a, b)
    }

    fn saturating_sub_elem(a: i8, b: i8) -> (r: i8) {
        i8_saturating_sub(a, b)
    }

    proof fn lemma_add_forms_agree(x: i8, y: i8) {    }

    proof fn lemma_sub_forms_agree(x: i8, y: i8) {    }

    proof fn lemma_mul_forms_agree(x: i8, y: i8) {    }

    proof fn lemma_div_forms_agree(x: i8, y: i8) {
        let n = x as int;
        let d = y as int;
        if d != 0 {
            if n > 0 && d < 0 {
                lemma_div_by_negative(n, d);
                vstd::arithmetic::div_mod::lemma_div_nonincreasing(n, -d);
                vstd::arithmetic::div_mod::lemma_div_pos_is_pos(n, -d);
            } else if n > 0 && d > 0 {
                vstd::arithmetic::div_mod::lemma_div_nonincreasing(n, d);
                vstd::arithmetic::div_mod::lemma_div_pos_is_pos(n, d);
            } else if n < 0 && d > 0 {
                vstd::arithmetic::div_mod::lemma_div_nonincreasing(-n, d);
                vstd::arithmetic::div_mod::lemma_div_pos_is_pos(-n, d);
            } else if n < 0 && d < 0 {
                lemma_div_by_negative(-n, d);
                vstd::arithmetic::div_mod::lemma_div_nonincreasing(-n, -d);
                vstd::arithmetic::div_mod::lemma_div_pos_is_pos(-n, -d);
                if d < -1 {
                    vstd::arithmetic::div_mod::lemma_div_decreases(-n, -d);
                } else {
                    vstd::arithmetic::div_mod::lemma_div_basics(-n);
                }
            } else {
                vstd::arithmetic::div_mod::lemma_div_of0(d);
            }
        }
    }

    proof fn lemma_add_commutes(x: i8, y: i8) {}

    proof fn lemma_mul_commutes(x: i8, y: i8) {
        vstd::arithmetic::mul::lemma_mul_is_commutative(x as int, y as int);
    }

    proof fn lemma_operators_specified() {
    }

    proof fn lemma_sub_undoes_add(x: i8, y: i8) {
    }

    proof fn lemma_not_involutive(x: i8) {
        assert(!(!x) == x) by (bit_vector);
    }
}

/// Wraps `<i16 as num_traits::CheckedAdd>::checked_add`, which num-traits implements by calling
/// `i16::checked_add`. The contract claims the result that vstd states for `i16::checked_add`.
#[verifier::external_body]
fn i16_checked_add(a: &i16, b: &i16) -> (r: Option<i16>)
    ensures
        r == (*a).checked_add(*b),
{
    num_traits::CheckedAdd::checked_add(a, b)
}

/// Wraps `<i16 as num_traits::CheckedSub>::checked_sub`, which num-traits implements by calling
/// `i16::checked_sub`. The contract claims the result that vstd states for `i16::checked_sub`.
#[verifier::external_body]
fn i16_checked_sub(a: &i16, b: &i16) -> (r: Option<i16>)
    ensures
        r == (*a).checked_sub(*b),
{
    num_traits::CheckedSub::checked_sub(a, b)
}

/// Wraps `<i16 as num_traits::CheckedMul>::checked_mul`, which num-traits implements by calling
/// `i16::checked_mul`. The contract claims the result that vstd states for `i16::checked_mul`.
#[verifier::external_body]
fn i16_checked_mul(a: &i16, b: &i16) -> (r: Option<i16>)
    ensures
        r == (*a).checked_mul(*b),
{
    num_traits::CheckedMul::checked_mul(a, b)
}

/// Wraps `<i16 as num_traits::CheckedDiv>::checked_div`, which num-traits implements by calling
/// `i16::checked_div`. The contract claims the result that vstd states for `i16::checked_div`.
#[verifier::external_body]
fn i16_checked_div(a: &i16, b: &i16) -> (r: Option<i16>)
    ensures
        r == (*a).checked_div(*b),
{
    num_traits::CheckedDiv::checked_div(a, b)
}

/// Wraps `<i16 as num_traits::WrappingAdd>::wrapping_add`, which num-traits implements by calling
/// `i16::wrapping_add`. The contract claims the result that vstd states for `i16::wrapping_add`.
#[verifier::external_body]
fn i16_wrapping_add(a: &i16, b: &i16) -> (r: i16)
    ensures
        r == (*a).wrapping_add(*b),
{
    num_traits::WrappingAdd::wrapping_add(a, b)
}

/// Wraps `<i16 as num_traits::WrappingSub>::wrapping_sub`, which num-traits implements by calling
/// `i16::wrapping_sub`. The contract claims the result that vstd states for `i16::wrapping_sub`.
#[verifier::external_body]
fn i16_wrapping_sub(a: &i16, b: &i16) -> (r: i16)
    ensures
        r == (*a).wrapping_sub(*b),
{
    num_traits::WrappingSub::wrapping_sub(a, b)
}

/// Wraps `<i16 as num_traits::WrappingMul>::wrapping_mul`, which num-traits implements by calling
/// `i16::wrapping_mul`. The contract claims the result that vstd states for `i16::wrapping_mul`.
#[verifier::external_body]
fn i16_wrapping_mul(a: &i16, b: &i16) -> (r: i16)
    ensures
        r == (*a).wrapping_mul(*b),
{
    num_traits::WrappingMul::wrapping_mul(a, b)
}

/// Wraps `<i16 as num_traits::Saturating>::saturating_add`, which num-traits implements by
/// calling `i16::saturating_add`. The contract claims the exact sum, or the bound of `i16` that it passes, as std documents for `i16::saturating_add`.
#[verifier::external_body]
fn i16_saturating_add(a: i16, b: i16) -> (r: i16)
    ensures
        r == saturate_i16(a + b),
{
    num_traits::Saturating::saturating_add(a, b)
}

/// Wraps `<i16 as num_traits::Saturating>::saturating_sub`, which num-traits implements by
/// calling `i16::saturating_sub`. The contract claims the exact difference, or the bound of `i16` that it passes, as std documents for `i16::saturating_sub`.
#[verifier::external_body]
fn i16_saturating_sub(a: i16, b: i16) -> (r: i16)
    ensures
        r == saturate_i16(a - b),
{
    num_traits::Saturating::saturating_sub(a, b)
}

impl Primitive for i16 {
    open spec fn checked_add_spec(a: i16, b: i16) -> Option<i16> {
        a.checked_add(b)
    }

    open spec fn checked_sub_spec(a: i16, b: i16) -> Option<i16> {
        a.checked_sub(b)
    }

    open spec fn checked_mul_spec(a: i16, b: i16) -> Option<i16> {
        a.checked_mul(b)
    }

    open spec fn checked_div_spec(a: i16, b: i16) -> Option<i16> {
        a.checked_div(b)
    }

    open spec fn wrapping_add_spec(a: i16, b: i16) -> i16 {
        a.wrapping_add(b)
    }

    open spec fn wrapping_sub_spec(a: i16, b: i16) -> i16 {
        a.wrapping_sub(b)
    }

    open spec fn wrapping_mul_spec(a: i16, b: i16) -> i16 {
        a.wrapping_mul(b)
    }

    open spec fn saturating_add_spec(a: i16, b: i16) -> i16 {
        saturate_i16(a + b)
    }

    open spec fn saturating_sub_spec(a: i16, b: i16) -> i16 {
        saturate_i16(a - b)
    }

    fn checked_add_elem(a: &i16, b: &i16) -> (r: Option<i16>) {
        i16_checked_add(a, b)
    }

    fn checked_sub_elem(a: &i16, b: &i16) -> (r: Option<i16>) {
        i16_checked_sub(a, b)
    }

    fn checked_mul_elem(a: &i16, b: &i16) -> (r: Option<i16>) {
        i16_checked_mul(a, b)
    }

    fn checked_div_elem(a: &i16, b: &i16) -> (r: Option<i16>) {
        i16_checked_div(a, b)
    }

    fn wrapping_add_elem(a: &i16, b: &i16) -> (r: i16) {
        i16_wrapping_add(a, b)
    }

    fn wrapping_sub_elem(a: &i16, b: &i16) -> (r: i16) {
        i16_wrapping_sub(a, b)
    }

    fn wrapping_mul_elem(a: &i16, b: &i16) -> (r: i16) {
        i16_wrapping_mul(a, b)
    }

    fn saturating_add_elem(a: i16, b: i16) -> (r: i16) {
        i16_saturating_add(a, b)
    }

    fn saturating_sub_elem(a: i16, b: i16) -> (r: i16) {
        i16_saturating_sub(a, b)
    }

    proof fn lemma_add_forms_agree(x: i16, y: i16) {    }

    proof fn lemma_sub_forms_agree(x: i16, y: i16) {    }

    proof fn lemma_mul_forms_agree(x: i16, y: i16) {    }

    proof fn lemma_div_forms_agree(x: i16, y: i16) {
        let n = x as int;
        let d = y as int;
        if d != 0 {
            if n > 0 && d < 0 {
                lemma_div_by_negative(n, d);
                vstd::arithmetic::div_mod::lemma_div_nonincreasing(n, -d);
                vstd::arithmetic::div_mod::lemma_div_pos_is_pos(n, -d);
            } else if n > 0 && d > 0 {
                vstd::arithmetic::div_mod::lemma_div_nonincreasing(n, d);
                vstd::arithmetic::div_mod::lemma_div_pos_is_pos(n, d);
            } else if n < 0 && d > 0 {
                vstd::arithmetic::div_mod::lemma_div_nonincreasing(-n, d);
                vstd::arithmetic::div_mod::lemma_div_pos_is_pos(-n, d);
            } else if n < 0 && d < 0 {
                lemma_div_by_negative(-n, d);
                vstd::arithmetic::div_mod::lemma_div_nonincreasing(-n, -d);
                vstd::arithmetic::div_mod::lemma_div_pos_is_pos(-n, -d);
                if d < -1 {
                    vstd::arithmetic::div_mod::lemma_div_decreases(-n, -d);
                } else {
                    vstd::arithmetic::div_mod::lemma_div_basics(-n);
                }
            } else {
                vstd::arithmetic::div_mod::lemma_div_of0(d);
            }
        }
    }

    proof fn lemma_add_commutes(x: i16, y: i16) {}

    proof fn lemma_mul_commutes(x: i16, y: i16) {
        vstd::arithmetic::mul::lemma_mul_is_commutative(x as int, y as int);
    }

    proof fn lemma_operators_specified() {
    }

    proof fn lemma_sub_undoes_add(x: i16, y: i16) {
    }

    proof fn lemma_not_involutive(x: i16) {
        assert(!(!x) == x) by (bit_vector);
    }
}

/// Wraps `<i32 as num_traits::CheckedAdd>::checked_add`, which num-traits implements by calling
/// `i32::checked_add`. The contract claims the result that vstd states for `i32::checked_add`.
#[verifier::external_body]
fn i32_checked_add(a: &i32, b: &i32) -> (r: Option<i32>)
    ensures
        r == (*a).checked_add(*b),
{
    num_traits::CheckedAdd::checked_add(a, b)
}

/// Wraps `<i32 as num_traits::CheckedSub>::checked_sub`, which num-traits implements by calling
/// `i32::checked_sub`. The contract claims the result that vstd states for `i32::checked_sub`.
#[verifier::external_body]
fn i32_checked_sub(a: &i32, b: &i32) -> (r: Option<i32>)
    ensures
        r == (*a).checked_sub(*b),
{
    num_traits::CheckedSub::checked_sub(a, b)
}

/// Wraps `<i32 as num_traits::CheckedMul>::checked_mul`, which num-traits implements by calling
/// `i32::checked_mul`. The contract claims the result that vstd states for `i32::checked_mul`.
#[verifier::external_body]
fn i32_checked_mul(a: &i32, b: &i32) -> (r: Option<i32>)
    ensures
        r == (*a).checked_mul(*b),
{
    num_traits::CheckedMul::checked_mul(a, b)
}

/// Wraps `<i32 as num_traits::CheckedDiv>::checked_div`, which num-traits implements by calling
/// `i32::checked_div`. The contract claims the result that vstd states for `i32::checked_div`.
#[verifier::external_body]
fn i32_checked_div(a: &i32, b: &i32) -> (r: Option<i32>)
    ensures
        r == (*a).checked_div(*b),
{
    num_traits::CheckedDiv::checked_div(a, b)
}

/// Wraps `<i32 as num_traits::WrappingAdd>::wrapping_add`, which num-traits implements by calling
/// `i32::wrapping_add`. The contract claims the result that vstd states for `i32::wrapping_add`.
#[verifier::external_body]
fn i32_wrapping_add(a: &i32, b: &i32) -> (r: i32)
    ensures
        r == (*a).wrapping_add(*b),
{
    num_traits::WrappingAdd::wrapping_add(a, b)
}

/// Wraps `<i32 as num_traits::WrappingSub>::wrapping_sub`, which num-traits implements by calling
/// `i32::wrapping_sub`. The contract claims the result that vstd states for `i32::wrapping_sub`.
#[verifier::external_body]
fn i32_wrapping_sub(a: &i32, b: &i32) -> (r: i32)
    ensures
        r == (*a).wrapping_sub(*b),
{
    num_traits::WrappingSub::wrapping_sub(a, b)
}

/// Wraps `<i32 as num_traits::WrappingMul>::wrapping_mul`, which num-traits implements by calling
/// `i32::wrapping_mul`. The contract claims the result that vstd states for `i32::wrapping_mul`.
#[verifier::external_body]
fn i32_wrapping_mul(a: &i32, b: &i32) -> (r: i32)
    ensures
        r == (*a).wrapping_mul(*b),
{
    num_traits::WrappingMul::wrapping_mul(a, b)
}

/// Wraps `<i32 as num_traits::Saturating>::saturating_add`, which num-traits implements by
/// calling `i32::saturating_add`. The contract claims the exact sum, or the bound of `i32` that it passes, as std documents for `i32::saturating_add`.
#[verifier::external_body]
fn i32_saturating_add(a: i32, b: i32) -> (r: i32)
    ensures
        r == saturate_i32(a + b),
{
    num_traits::Saturating::saturating_add(a, b)
}

/// Wraps `<i32 as num_traits::Saturating>::saturating_sub`, which num-traits implements by
/// calling `i32::saturating_sub`. The contract claims the exact difference, or the bound of `i32` that it passes, as std documents for `i32::saturating_sub`.
#[verifier::external_body]
fn i32_saturating_sub(a: i32, b: i32) -> (r: i32)
    ensures
        r == saturate_i32(a - b),
{
    num_traits::Saturating::saturating_sub(a, b)
}

impl Primitive for i32 {
    open spec fn checked_add_spec(a: i32, b: i32) -> Option<i32> {
        a.checked_add(b)
    }

    open spec fn checked_sub_spec(a: i32, b: i32) -> Option<i32> {
        a.checked_sub(b)
    }

    open spec fn checked_mul_spec(a: i32, b: i32) -> Option<i32> {
        a.checked_mul(b)
    }

    open spec fn checked_div_spec(a: i32, b: i32) -> Option<i32> {
        a.checked_div(b)
    }

    open spec fn wrapping_add_spec(a: i32, b: i32) -> i32 {
        a.wrapping_add(b)
    }

    open spec fn wrapping_sub_spec(a: i32, b: i32) -> i32 {
        a.wrapping_sub(b)
    }

    open spec fn wrapping_mul_spec(a: i32, b: i32) -> i32 {
        a.wrapping_mul(b)
    }

    open spec fn saturating_add_spec(a: i32, b: i32) -> i32 {
        saturate_i32(a + b)
    }

    open spec fn saturating_sub_spec(a: i32, b: i32) -> i32 {
        saturate_i32(a - b)
    }

    fn checked_add_elem(a: &i32, b: &i32) -> (r: Option<i32>) {
        i32_checked_add(a, b)
    }

    fn checked_sub_elem(a: &i32, b: &i32) -> (r: Option<i32>) {
        i32_checked_sub(a, b)
    }

    fn checked_mul_elem(a: &i32, b: &i32) -> (r: Option<i32>) {
        i32_checked_mul(a, b)
    }

    fn checked_div_elem(a: &i32, b: &i32) -> (r: Option<i32>) {
        i32_checked_div(a, b)
    }

    fn wrapping_add_elem(a: &i32, b: &i32) -> (r: i32) {
        i32_wrapping_add(a, b)
    }

    fn wrapping_sub_elem(a: &i32, b: &i32) -> (r: i32) {
        i32_wrapping_sub(a, b)
    }

    fn wrapping_mul_elem(a: &i32, b: &i32) -> (r: i32) {
        i32_wrapping_mul(a, b)
    }

    fn saturating_add_elem(a: i32, b: i32) -> (r: i32) {
        i32_saturating_add(a, b)
    }

    fn saturating_sub_elem(a: i32, b: i32) -> (r: i32) {
        i32_saturating_sub(a, b)
    }

    proof fn lemma_add_forms_agree(x: i32, y: i32) {    }

    proof fn lemma_sub_forms_agree(x: i32, y: i32) {    }

    proof fn lemma_mul_forms_agree(x: i32, y: i32) {    }

    proof fn lemma_div_forms_agree(x: i32, y: i32) {
        let n = x as int;
        let d = y as int;
        if d != 0 {
            if n > 0 && d < 0 {
                lemma_div_by_negative(n, d);
                vstd::arithmetic::div_mod::lemma_div_nonincreasing(n, -d);
                vstd::arithmetic::div_mod::lemma_div_pos_is_pos(n, -d);
            } else if n > 0 && d > 0 {
                vstd::arithmetic::div_mod::lemma_div_nonincreasing(n, d);
                vstd::arithmetic::div_mod::lemma_div_pos_is_pos(n, d);
            } else if n < 0 && d > 0 {
                vstd::arithmetic::div_mod::lemma_div_nonincreasing(-n, d);
                vstd::arithmetic::div_mod::lemma_div_pos_is_pos(-n, d);
            } else if n < 0 && d < 0 {
                lemma_div_by_negative(-n, d);
                vstd::arithmetic::div_mod::lemma_div_nonincreasing(-n, -d);
                vstd::arithmetic::div_mod::lemma_div_pos_is_pos(-n, -d);
                if d < -1 {
                    vstd::arithmetic::div_mod::lemma_div_decreases(-n, -d);
                } else {
                    vstd::arithmetic::div_mod::lemma_div_basics(-n);
                }
            } else {
                vstd::arithmetic::div_mod::lemma_div_of0(d);
            }
        }
    }

    proof fn lemma_add_commutes(x: i32, y: i32) {}

    proof fn lemma_mul_commutes(x: i32, y: i32) {
        vstd::arithmetic::mul::lemma_mul_is_commutative(x as int, y as int);
    }

    proof fn lemma_operators_specified() {
    }

    proof fn lemma_sub_undoes_add(x: i32, y: i32) {
    }

    proof fn lemma_not_involutive(x: i32) {
        assert(!(!x) == x) by (bit_vector);
    }
}

/// Wraps `<i64 as num_traits::CheckedAdd>::checked_add`, which num-traits implements by calling
/// `i64::checked_add`. The contract claims the result that vstd states for `i64::checked_add`.
#[verifier::external_body]
fn i64_checked_add(a: &i64, b: &i64) -> (r: Option<i64>)
    ensures
        r == (*a).checked_add(*b),
{
    num_traits::CheckedAdd::checked_add(a, b)
}

/// Wraps `<i64 as num_traits::CheckedSub>::checked_sub`, which num-traits implements by calling
/// `i64::checked_sub`. The contract claims the result that vstd states for `i64::checked_sub`.
#[verifier::external_body]
fn i64_checked_sub(a: &i64, b: &i64) -> (r: Option<i64>)
    ensures
        r == (*a).checked_sub(*b),
{
    num_traits::CheckedSub::checked_sub(a, b)
}

/// Wraps `<i64 as num_traits::CheckedMul>::checked_mul`, which num-traits implements by calling
/// `i64::checked_mul`. The contract claims the result that vstd states for `i64::checked_mul`.
#[verifier::external_body]
fn i64_checked_mul(a: &i64, b: &i64) -> (r: Option<i64>)
    ensures
        r == (*a).checked_mul(*b),
{
    num_traits::CheckedMul::checked_mul(a, b)
}

/// Wraps `<i64 as num_traits::CheckedDiv>::checked_div`, which num-traits implements by calling
/// `i64::checked_div`. The contract claims the result that vstd states for `i64::checked_div`.
#[verifier::external_body]
fn i64_checked_div(a: &i64, b: &i64) -> (r: Option<i64>)
    ensures
        r == (*a).checked_div(*b),
{
    num_traits::CheckedDiv::checked_div(a, b)
}

/// Wraps `<i64 as num_traits::WrappingAdd>::wrapping_add`, which num-traits implements by calling
/// `i64::wrapping_add`. The contract claims the result that vstd states for `i64::wrapping_add`.
#[verifier::external_body]
fn i64_wrapping_add(a: &i64, b: &i64) -> (r: i64)
    ensures
        r == (*a).wrapping_add(*b),
{
    num_traits::WrappingAdd::wrapping_add(a, b)
}

/// Wraps `<i64 as num_traits::WrappingSub>::wrapping_sub`, which num-traits implements by calling
/// `i64::wrapping_sub`. The contract claims the result that vstd states for `i64::wrapping_sub`.
#[verifier::external_body]
fn i64_wrapping_sub(a: &i64, b: &i64) -> (r: i64)
    ensures
        r == (*a).wrapping_sub(*b),
{
    num_traits::WrappingSub::wrapping_sub(a, b)
}

/// Wraps `<i64 as num_traits::WrappingMul>::wrapping_mul`, which num-traits implements by calling
/// `i64::wrapping_mul`. The contract claims the result that vstd states for `i64::wrapping_mul`.
#[verifier::external_body]
fn i64_wrapping_mul(a: &i64, b: &i64) -> (r: i64)
    ensures
        r == (*a).wrapping_mul(*b),
{
    num_traits::WrappingMul::wrapping_mul(a, b)
}

/// Wraps `<i64 as num_traits::Saturating>::saturating_add`, which num-traits implements by
/// calling `i64::saturating_add`. The contract claims the exact sum, or the bound of `i64` that it passes, as std documents for `i64::saturating_add`.
#[verifier::external_body]
fn i64_saturating_add(a: i64, b: i64) -> (r: i64)
    ensures
        r == saturate_i64(a + b),
{
    num_traits::Saturating::saturating_add(a, b)
}

/// Wraps `<i64 as num_traits::Saturating>::saturating_sub`, which num-traits implements by
/// calling `i64::saturating_sub`. The contract claims the exact difference, or the bound of `i64` that it passes, as std documents for `i64::saturating_sub`.
#[verifier::external_body]
fn i64_saturating_sub(a: i64, b: i64) -> (r: i64)
    ensures
        r == saturate_i64(a - b),
{
    num_traits::Saturating::saturating_sub(a, b)
}

impl Primitive for i64 {
    open spec fn checked_add_spec(a: i64, b: i64) -> Option<i64> {
        a.checked_add(b)
    }

    open spec fn checked_sub_spec(a: i64, b: i64) -> Option<i64> {
        a.checked_sub(b)
    }

    open spec fn checked_mul_spec(a: i64, b: i64) -> Option<i64> {
        a.checked_mul(b)
    }

    open spec fn checked_div_spec(a: i64, b: i64) -> Option<i64> {
        a.checked_div(b)
    }

    open spec fn wrapping_add_spec(a: i64, b: i64) -> i64 {
        a.wrapping_add(b)
    }

    open spec fn wrapping_sub_spec(a: i64, b: i64) -> i64 {
        a.wrapping_sub(b)
    }

    open spec fn wrapping_mul_spec(a: i64, b: i64) -> i64 {
        a.wrapping_mul(b)
    }

    open spec fn saturating_add_spec(a: i64, b: i64) -> i64 {
        saturate_i64(a + b)
    }

    open spec fn saturating_sub_spec(a: i64, b: i64) -> i64 {
        saturate_i64(a - b)
    }

    fn checked_add_elem(a: &i64, b: &i64) -> (r: Option<i64>) {
        i64_checked_add(a, b)
    }

    fn checked_sub_elem(a: &i64, b: &i64) -> (r: Option<i64>) {
        i64_checked_sub(a, b)
    }

    fn checked_mul_elem(a: &i64, b: &i64) -> (r: Option<i64>) {
        i64_checked_mul(a, b)
    }

    fn checked_div_elem(a: &i64, b: &i64) -> (r: Option<i64>) {
        i64_checked_div(a, b)
    }

    fn wrapping_add_elem(a: &i64, b: &i64) -> (r: i64) {
        i64_wrapping_add(a, b)
    }

    fn wrapping_sub_elem(a: &i64, b: &i64) -> (r: i64) {
        i64_wrapping_sub(a, b)
    }

    fn wrapping_mul_elem(a: &i64, b: &i64) -> (r: i64) {
        i64_wrapping_mul(a, b)
    }

    fn saturating_add_elem(a: i64, b: i64) -> (r: i64) {
        i64_saturating_add(a, b)
    }

    fn saturating_sub_elem(a: i64, b: i64) -> (r: i64) {
        i64_saturating_sub(a, b)
    }

    proof fn lemma_add_forms_agree(x: i64, y: i64) {    }

    proof fn lemma_sub_forms_agree(x: i64, y: i64) {    }

    proof fn lemma_mul_forms_agree(x: i64, y: i64) {    }

    proof fn lemma_div_forms_agree(x: i64, y: i64) {
        let n = x as int;
        let d = y as int;
        if d != 0 {
            if n > 0 && d < 0 {
                lemma_div_by_negative(n, d);
                vstd::arithmetic::div_mod::lemma_div_nonincreasing(n, -d);
                vstd::arithmetic::div_mod::lemma_div_pos_is_pos(n, -d);
            } else if n > 0 && d > 0 {
                vstd::arithmetic::div_mod::lemma_div_nonincreasing(n, d);
                vstd::arithmetic::div_mod::lemma_div_pos_is_pos(n, d);
            } else if n < 0 && d > 0 {
                vstd::arithmetic::div_mod::lemma_div_nonincreasing(-n, d);
                vstd::arithmetic::div_mod::lemma_div_pos_is_pos(-n, d);
            } else if n < 0 && d < 0 {
                lemma_div_by_negative(-n, d);
                vstd::arithmetic::div_mod::lemma_div_nonincreasing(-n, -d);
                vstd::arithmetic::div_mod::lemma_div_pos_is_pos(-n, -d);
                if d < -1 {
                    vstd::arithmetic::div_mod::lemma_div_decreases(-n, -d);
                } else {
                    vstd::arithmetic::div_mod::lemma_div_basics(-n);
                }
            } else {
                vstd::arithmetic::div_mod::lemma_div_of0(d);
            }
        }
    }

    proof fn lemma_add_commutes(x: i64, y: i64) {}

    proof fn lemma_mul_commutes(x: i64, y: i64) {
        vstd::arithmetic::mul::lemma_mul_is_commutative(x as int, y as int);
    }

    proof fn lemma_operators_specified() {
    }

    proof fn lemma_sub_undoes_add(x: i64, y: i64) {
    }

    proof fn lemma_not_involutive(x: i64) {
        assert(!(!x) == x) by (bit_vector);
    }
}

/// Wraps `<i128 as num_traits::CheckedAdd>::checked_add`, which num-traits implements by calling
/// `i128::checked_add`. The contract claims the result that vstd states for `i128::checked_add`.
#[verifier::external_body]
fn i128_checked_add(a: &i128, b: &i128) -> (r: Option<i128>)
    ensures
        r == (*a).checked_add(*b),
{
    num_traits::CheckedAdd::checked_add(a, b)
}

/// Wraps `<i128 as num_traits::CheckedSub>::checked_sub`, which num-traits implements by calling
/// `i128::checked_sub`. The contract claims the result that vstd states for `i128::checked_sub`.
#[verifier::external_body]
fn i128_checked_sub(a: &i128, b: &i128) -> (r: Option<i128>)
    ensures
        r == (*a).checked_sub(*b),
{
    num_traits::CheckedSub::checked_sub(a, b)
}

/// Wraps `<i128 as num_traits::CheckedMul>::checked_mul`, which num-traits implements by calling
/// `i128::checked_mul`. The contract claims the result that vstd states for `i128::checked_mul`.
#[verifier::external_body]
fn i128_checked_mul(a: &i128, b: &i128) -> (r: Option<i128>)
    ensures
        r == (*a).checked_mul(*b),
{
    num_traits::CheckedMul::checked_mul(a, b)
}

/// Wraps `<i128 as num_traits::CheckedDiv>::checked_div`, which num-traits implements by calling
/// `i128::checked_div`. The contract claims the result that vstd states for `i128::checked_div`.
#[verifier::external_body]
fn i128_checked_div(a: &i128, b: &i128) -> (r: Option<i128>)
    ensures
        r == (*a).checked_div(*b),
{
    num_traits::CheckedDiv::checked_div(a, b)
}

/// Wraps `<i128 as num_traits::WrappingAdd>::wrapping_add`, which num-traits implements by calling
/// `i128::wrapping_add`. The contract claims the result that vstd states for `i128::wrapping_add`.
#[verifier::external_body]
fn i128_wrapping_add(a: &i128, b: &i128) -> (r: i128)
    ensures
        r == (*a).wrapping_add(*b),
{
    num_traits::WrappingAdd::wrapping_add(a, b)
}

/// Wraps `<i128 as num_traits::WrappingSub>::wrapping_sub`, which num-traits implements by calling
/// `i128::wrapping_sub`. The contract claims the result that vstd states for `i128::wrapping_sub`.
#[verifier::external_body]
fn i128_wrapping_sub(a: &i128, b: &i128) -> (r: i128)
    ensures
        r == (*a).wrapping_sub(*b),
{
    num_traits::WrappingSub::wrapping_sub(a, b)
}

/// Wraps `<i128 as num_traits::WrappingMul>::wrapping_mul`, which num-traits implements by calling
/// `i128::wrapping_mul`. The contract claims the result that vstd states for `i128::wrapping_mul`.
#[verifier::external_body]
fn i128_wrapping_mul(a: &i128, b: &i128) -> (r: i128)
    ensures
        r == (*a).wrapping_mul(*b),
{
    num_traits::WrappingMul::wrapping_mul(a, b)
}

/// Wraps `<i128 as num_traits::Saturating>::saturating_add`, which num-traits implements by
/// calling `i128::saturating_add`. The contract claims the exact sum, or the bound of `i128` that it passes, as std documents for `i128::saturating_add`.
#[verifier::external_body]
fn i128_saturating_add(a: i128, b: i128) -> (r: i128)
    ensures
        r == saturate_i128(a + b),
{
    num_traits::Saturating::saturating_add(a, b)
}

/// Wraps `<i128 as num_traits::Saturating>::saturating_sub`, which num-traits implements by
/// calling `i128::saturating_sub`. The contract claims the exact difference, or the bound of `i128` that it passes, as std documents for `i128::saturating_sub`.
#[verifier::external_body]
fn i128_saturating_sub(a: i128, b: i128) -> (r: i128)
    ensures
        r == saturate_i128(a - b),
{
    num_traits::Saturating::saturating_sub(a, b)
}

impl Primitive for i128 {
    open spec fn checked_add_spec(a: i128, b: i128) -> Option<i128> {
        a.checked_add(b)
    }

    open spec fn checked_sub_spec(a: i128, b: i128) -> Option<i128> {
        a.checked_sub(b)
    }

    open spec fn checked_mul_spec(a: i128, b: i128) -> Option<i128> {
        a.checked_mul(b)
    }

    open spec fn checked_div_spec(a: i128, b: i128) -> Option<i128> {
        a.checked_div(b)
    }

    open spec fn wrapping_add_spec(a: i128, b: i128) -> i128 {
        a.wrapping_add(b)
    }

    open spec fn wrapping_sub_spec(a: i128, b: i128) -> i128 {
        a.wrapping_sub(b)
    }

    open spec fn wrapping_mul_spec(a: i128, b: i128) -> i128 {
        a.wrapping_mul(b)
    }

    open spec fn saturating_add_spec(a: i128, b: i128) -> i128 {
        saturate_i128(a + b)
    }

    open spec fn saturating_sub_spec(a: i128, b: i128) -> i128 {
        saturate_i128(a - b)
    }

    fn checked_add_elem(a: &i128, b: &i128) -> (r: Option<i128>) {
        i128_checked_add(a, b)
    }

    fn checked_sub_elem(a: &i128, b: &i128) -> (r: Option<i128>) {
        i128_checked_sub(a, b)
    }

    fn checked_mul_elem(a: &i128, b: &i128) -> (r: Option<i128>) {
        i128_checked_mul(a, b)
    }

    fn checked_div_elem(a: &i128, b: &i128) -> (r: Option<i128>) {
        i128_checked_div(a, b)
    }

    fn wrapping_add_elem(a: &i128, b: &i128) -> (r: i128) {
        i128_wrapping_add(a, b)
    }

    fn wrapping_sub_elem(a: &i128, b: &i128) -> (r: i128) {
        i128_wrapping_sub(a, b)
    }

    fn wrapping_mul_elem(a: &i128, b: &i128) -> (r: i128) {
        i128_wrapping_mul(a, b)
    }

    fn saturating_add_elem(a: i128, b: i128) -> (r: i128) {
        i128_saturating_add(a, b)
    }

    fn saturating_sub_elem(a: i128, b: i128) -> (r: i128) {
        i128_saturating_sub(a, b)
    }

    proof fn lemma_add_forms_agree(x: i128, y: i128) {    }

    proof fn lemma_sub_forms_agree(x: i128, y: i128) {    }

    proof fn lemma_mul_forms_agree(x: i128, y: i128) {    }

    proof fn lemma_div_forms_agree(x: i128, y: i128) {
        let n = x as int;
        let d = y as int;
        if d != 0 {
            if n > 0 && d < 0 {
                lemma_div_by_negative(n, d);
                vstd::arithmetic::div_mod::lemma_div_nonincreasing(n, -d);
                vstd::arithmetic::div_mod::lemma_div_pos_is_pos(n, -d);
            } else if n > 0 && d > 0 {
                vstd::arithmetic::div_mod::lemma_div_nonincreasing(n, d);
                vstd::arithmetic::div_mod::lemma_div_pos_is_pos(n, d);
            } else if n < 0 && d > 0 {
                vstd::arithmetic::div_mod::lemma_div_nonincreasing(-n, d);
                vstd::arithmetic::div_mod::lemma_div_pos_is_pos(-n, d);
            } else if n < 0 && d < 0 {
                lemma_div_by_negative(-n, d);
                vstd::arithmetic::div_mod::lemma_div_nonincreasing(-n, -d);
                vstd::arithmetic::div_mod::lemma_div_pos_is_pos(-n, -d);
                if d < -1 {
                    vstd::arithmetic::div_mod::lemma_div_decreases(-n, -d);
                } else {
                    vstd::arithmetic::div_mod::lemma_div_basics(-n);
                }
            } else {
                vstd::arithmetic::div_mod::lemma_div_of0(d);
            }
        }
    }

    proof fn lemma_add_commutes(x: i128, y: i128) {}

    proof fn lemma_mul_commutes(x: i128, y: i128) {
        vstd::arithmetic::mul::lemma_mul_is_commutative(x as int, y as int);
    }

    proof fn lemma_operators_specified() {
    }

    proof fn lemma_sub_undoes_add(x: i128, y: i128) {
    }

    proof fn lemma_not_involutive(x: i128) {
        assert(!(!x) == x) by (bit_vector);
    }
}

/// Wraps `<isize as num_traits::CheckedAdd>::checked_add`, which num-traits implements by calling
/// `isize::checked_add`. The contract claims the result that vstd states for `isize::checked_add`.
#[verifier::external_body]
fn isize_checked_add(a: &isize, b: &isize) -> (r: Option<isize>)
    ensures
        r == (*a).checked_add(*b),
{
    num_traits::CheckedAdd::checked_add(a, b)
}

/// Wraps `<isize as num_traits::CheckedSub>::checked_sub`, which num-traits implements by calling
/// `isize::checked_sub`. The contract claims the result that vstd states for `isize::checked_sub`.
#[verifier::external_body]
fn isize_checked_sub(a: &isize, b: &isize) -> (r: Option<isize>)
    ensures
        r == (*a).checked_sub(*b),
{
    num_traits::CheckedSub::checked_sub(a, b)
}

/// Wraps `<isize as num_traits::CheckedMul>::checked_mul`, which num-traits implements by calling
/// `isize::checked_mul`. The contract claims the result that vstd states for `isize::checked_mul`.
#[verifier::external_body]
fn isize_checked_mul(a: &isize, b: &isize) -> (r: Option<isize>)
    ensures
        r == (*a).checked_mul(*b),
{
    num_traits::CheckedMul::checked_mul(a, b)
}

/// Wraps `<isize as num_traits::CheckedDiv>::checked_div`, which num-traits implements by calling
/// `isize::checked_div`. The contract claims the result that vstd states for `isize::checked_div`.
#[verifier::external_body]
fn isize_checked_div(a: &isize, b: &isize) -> (r: Option<isize>)
    ensures
        r == (*a).checked_div(*b),
{
    num_traits::CheckedDiv::checked_div(a, b)
}

/// Wraps `<isize as num_traits::WrappingAdd>::wrapping_add`, which num-traits implements by calling
/// `isize::wrapping_add`. The contract claims the result that vstd states for `isize::wrapping_add`.
#[verifier::external_body]
fn isize_wrapping_add(a: &isize, b: &isize) -> (r: isize)
    ensures
        r == (*a).wrapping_add(*b),
{
    num_traits::WrappingAdd::wrapping_add(a, b)
}

/// Wraps `<isize as num_traits::WrappingSub>::wrapping_sub`, which num-traits implements by calling
/// `isize::wrapping_sub`. The contract claims the result that vstd states for `isize::wrapping_sub`.
#[verifier::external_body]
fn isize_wrapping_sub(a: &isize, b: &isize) -> (r: isize)
    ensures
        r == (*a).wrapping_sub(*b),
{
    num_traits::WrappingSub::wrapping_sub(a, b)
}

/// Wraps `<isize as num_traits::WrappingMul>::wrapping_mul`, which num-traits implements by calling
/// `isize::wrapping_mul`. The contract claims the result that vstd states for `isize::wrapping_mul`.
#[verifier::external_body]
fn isize_wrapping_mul(a: &isize, b: &isize) -> (r: isize)
    ensures
        r == (*a).wrapping_mul(*b),
{
    num_traits::WrappingMul::wrapping_mul(a, b)
}

/// Wraps `<isize as num_traits::Saturating>::saturating_add`, which num-traits implements by
/// calling `isize::saturating_add`. The contract claims the exact sum, or the bound of `isize` that it passes, as std documents for `isize::saturating_add`.
#[verifier::external_body]
fn isize_saturating_add(a: isize, b: isize) -> (r: isize)
    ensures
        r == saturate_isize(a + b),
{
    num_traits::Saturating::saturating_add(a, b)
}

/// Wraps `<isize as num_traits::Saturating>::saturating_sub`, which num-traits implements by
/// calling `isize::saturating_sub`. The contract claims the exact difference, or the bound of `isize` that it passes, as std documents for `isize::saturating_sub`.
#[verifier::external_body]
fn isize_saturating_sub(a: isize, b: isize) -> (r: isize)
    ensures
        r == saturate_isize(a - b),
{
    num_traits::Saturating::saturating_sub(a, b)
}

impl Primitive for isize {
    open spec fn checked_add_spec(a: isize, b: isize) -> Option<isize> {
        a.checked_add(b)
    }

    open spec fn checked_sub_spec(a: isize, b: isize) -> Option<isize> {
        a.checked_sub(b)
    }

    open spec fn checked_mul_spec(a: isize, b: isize) -> Option<isize> {
        a.checked_mul(b)
    }

    open spec fn checked_div_spec(a: isize, b: isize) -> Option<isize> {
        a.checked_div(b)
    }

    open spec fn wrapping_add_spec(a: isize, b: isize) -> isize {
        a.wrapping_add(b)
    }

    open spec fn wrapping_sub_spec(a: isize, b: isize) -> isize {
        a.wrapping_sub(b)
    }

    open spec fn wrapping_mul_spec(a: isize, b: isize) -> isize {
        a.wrapping_mul(b)
    }

    open spec fn saturating_add_spec(a: isize, b: isize) -> isize {
        saturate_isize(a + b)
    }

    open spec fn saturating_sub_spec(a: isize, b: isize) -> isize {
        saturate_isize(a - b)
    }

    fn checked_add_elem(a: &isize, b: &isize) -> (r: Option<isize>) {
        isize_checked_add(a, b)
    }

    fn checked_sub_elem(a: &isize, b: &isize) -> (r: Option<isize>) {
        isize_checked_sub(a, b)
    }

    fn checked_mul_elem(a: &isize, b: &isize) -> (r: Option<isize>) {
        isize_checked_mul(a, b)
    }

    fn checked_div_elem(a: &isize, b: &isize) -> (r: Option<isize>) {
        isize_checked_div(a, b)
    }

    fn wrapping_add_elem(a: &isize, b: &isize) -> (r: isize) {
        isize_wrapping_add(a, b)
    }

    fn wrapping_sub_elem(a: &isize, b: &isize) -> (r: isize) {
        isize_wrapping_sub(a, b)
    }

    fn wrapping_mul_elem(a: &isize, b: &isize) -> (r: isize) {
        isize_wrapping_mul(a, b)
    }

    fn saturating_add_elem(a: isize, b: isize) -> (r: isize) {
        isize_saturating_add(a, b)
    }

    fn saturating_sub_elem(a: isize, b: isize) -> (r: isize) {
        isize_saturating_sub(a, b)
    }

    proof fn lemma_add_forms_agree(x: isize, y: isize) {    }

    proof fn lemma_sub_forms_agree(x: isize, y: isize) {    }

    proof fn lemma_mul_forms_agree(x: isize, y: isize) {
        lemma_word_bounds();
        let p = x * y;
        let range = usize::MAX - usize::MIN + 1;
        if x.mul_req(y) {
            if p >= 0 {
                vstd::arithmetic::div_mod::lemma_small_mod(p as nat, range as nat);
            } else {
                vstd::arithmetic::div_mod::lemma_fundamental_div_mod_converse(p, range, -1, p + range);
            }
        }
    }

    proof fn lemma_div_forms_agree(x: isize, y: isize) {
        lemma_word_bounds();
        let n = x as int;
        let d = y as int;
        if d != 0 {
            if n > 0 && d < 0 {
                lemma_div_by_negative(n, d);
                vstd::arithmetic::div_mod::lemma_div_nonincreasing(n, -d);
                vstd::arithmetic::div_mod::lemma_div_pos_is_pos(n, -d);
            } else if n > 0 && d > 0 {
                vstd::arithmetic::div_mod::lemma_div_nonincreasing(n, d);
                vstd::arithmetic::div_mod::lemma_div_pos_is_pos(n, d);
            } else if n < 0 && d > 0 {
                vstd::arithmetic::div_mod::lemma_div_nonincreasing(-n, d);
                vstd::arithmetic::div_mod::lemma_div_pos_is_pos(-n, d);
            } else if n < 0 && d < 0 {
                lemma_div_by_negative(-n, d);
                vstd::arithmetic::div_mod::lemma_div_nonincreasing(-n, -d);
                vstd::arithmetic::div_mod::lemma_div_pos_is_pos(-n, -d);
                if d < -1 {
                    vstd::arithmetic::div_mod::lemma_div_decreases(-n, -d);
                } else {
                    vstd::arithmetic::div_mod::lemma_div_basics(-n);
                }
            } else {
                vstd::arithmetic::div_mod::lemma_div_of0(d);
            }
        }
    }

    proof fn lemma_add_commutes(x: isize, y: isize) {}

    proof fn lemma_mul_commutes(x: isize, y: isize) {
        vstd::arithmetic::mul::lemma_mul_is_commutative(x as int, y as int);
    }

    proof fn lemma_operators_specified() {
    }

    proof fn lemma_sub_undoes_add(x: isize, y: isize) {
    }

    proof fn lemma_not_involutive(x: isize) {
        assert(!(!x) == x) by (bit_vector);
    }
}

} // verus!
