use numeric_array::black_box;
use numeric_array::NumericArray;

#[test]
fn new_keeps_elements_in_order() {
    let a = NumericArray::new([1i32, 2, 3, 4]);
    assert_eq!(a.len(), 4);
    assert_eq!(a[0], 1);
    assert_eq!(a[3], 4);
    assert_eq!(&a[..], &[1, 2, 3, 4][..]);
}

#[test]
fn debug_prints_like_a_tuple_struct() {
    let a = NumericArray::new([1i32, 2, 3, 4]);
    assert_eq!(format!("{:?}", a), "NumericArray([1, 2, 3, 4])");
}

#[test]
fn shorten_drops_the_last_element() {
    let a = NumericArray::new([1i32, 2, 3, 4]);
    let b = NumericArray::new([1i32, 2, 3]);
    assert_eq!(a.shorten::<3>(), b);
}

#[test]
fn lengthen_appends_the_given_element() {
    let a = NumericArray::new([1i32, 2, 3, 4]);
    let b = NumericArray::new([1i32, 2, 3]);
    assert_eq!(a, b.lengthen::<4>(4));
}

#[test]
fn shorten_undoes_lengthen() {
    let a = NumericArray::new([7u32, 8, 9]);
    let longer: NumericArray<u32, 4> = a.clone().lengthen(10);
    assert_eq!(longer[3], 10);
    let back: NumericArray<u32, 3> = longer.shorten();
    assert_eq!(back, a);
}

#[test]
fn lengthen_undoes_shorten() {
    let a = NumericArray::new([7u32, 8, 9]);
    let last = a[2];
    let shorter: NumericArray<u32, 2> = a.clone().shorten();
    let back: NumericArray<u32, 3> = shorter.lengthen(last);
    assert_eq!(back, a);
}

#[test]
fn shorten_to_empty() {
    let a = NumericArray::new([5i32]);
    let e: NumericArray<i32, 0> = a.shorten();
    assert_eq!(e.len(), 0);
    let one: NumericArray<i32, 1> = e.lengthen(6);
    assert_eq!(one, NumericArray::new([6]));
}

#[test]
fn map_by_reference() {
    let a = NumericArray::new([1i32, 2, 3]);
    let b = a.map(|x: &i32| *x * 10);
    assert_eq!(b, NumericArray::new([10, 20, 30]));
    assert_eq!(a, NumericArray::new([1, 2, 3]));
}

#[test]
fn map_changes_the_element_type() {
    let a = NumericArray::new([1i32, -2, 3]);
    let b = a.map(|x: &i32| *x > 0);
    assert_eq!(b, NumericArray::new([true, false, true]));
}

#[test]
fn map_move_consumes_elements() {
    let a = NumericArray::new([String::from("a"), String::from("bc")]);
    let b = a.map_move(|s: String| s.len());
    assert_eq!(b, NumericArray::new([1usize, 2]));
}

#[test]
fn zip_by_reference() {
    let a = NumericArray::new([1i32, 2, 3]);
    let b = NumericArray::new([10i32, 20, 30]);
    let c = a.zip(&b, |x: &i32, y: &i32| *y - *x);
    assert_eq!(c, NumericArray::new([9, 18, 27]));
}

#[test]
fn zip_move_moves_left_side() {
    let a = NumericArray::new([String::from("x"), String::from("y")]);
    let b = NumericArray::new([String::from("1"), String::from("2")]);
    let c = a.zip_move(&b, |mut s: String, t: &String| {
        s.push_str(t);
        s
    });
    assert_eq!(c, NumericArray::new([String::from("x1"), String::from("y2")]));
}

#[test]
fn zip_move_both_moves_both_sides() {
    let a = NumericArray::new([String::from("x"), String::from("y")]);
    let b = NumericArray::new([String::from("1"), String::from("2")]);
    let c = a.zip_move_both(b, |s: String, t: String| s + &t);
    assert_eq!(c, NumericArray::new([String::from("x1"), String::from("y2")]));
}

#[test]
fn operators_on_arrays() {
    let a = NumericArray::new([10i32, 20, 30, -7]);
    let b = NumericArray::new([1i32, 2, 3, 2]);
    assert_eq!(a.clone() + b.clone(), NumericArray::new([11, 22, 33, -5]));
    assert_eq!(a.clone() - b.clone(), NumericArray::new([9, 18, 27, -9]));
    assert_eq!(a.clone() * b.clone(), NumericArray::new([10, 40, 90, -14]));
    assert_eq!(a.clone() / b.clone(), NumericArray::new([10, 10, 10, -3]));
    assert_eq!(a % b, NumericArray::new([0, 0, 0, -1]));
}

#[test]
fn operators_with_a_scalar() {
    let a = NumericArray::new([10u32, 21, 32]);
    assert_eq!(a.clone() + 5, NumericArray::new([15, 26, 37]));
    assert_eq!(a.clone() - 10, NumericArray::new([0, 11, 22]));
    assert_eq!(a.clone() * 3, NumericArray::new([30, 63, 96]));
    assert_eq!(a.clone() / 10, NumericArray::new([1, 2, 3]));
    assert_eq!(a % 10, NumericArray::new([0, 1, 2]));
}

#[test]
fn unary_operators() {
    let a = NumericArray::new([1i32, -2, 0]);
    assert_eq!(-a, NumericArray::new([-1, 2, 0]));
    let b = NumericArray::new([true, false]);
    assert_eq!(!b, NumericArray::new([false, true]));
    let c = NumericArray::new([0u8, 0xf0]);
    assert_eq!(!c, NumericArray::new([0xff, 0x0f]));
}

#[test]
fn compound_assignment_with_arrays() {
    let b = NumericArray::new([1i32, 2, 3]);
    let mut a = NumericArray::new([10i32, 20, 30]);
    a += b.clone();
    assert_eq!(a, NumericArray::new([11, 22, 33]));
    a -= b.clone();
    assert_eq!(a, NumericArray::new([10, 20, 30]));
    a *= b.clone();
    assert_eq!(a, NumericArray::new([10, 40, 90]));
    a /= b.clone();
    assert_eq!(a, NumericArray::new([10, 20, 30]));
    a %= NumericArray::new([3, 7, 7]);
    assert_eq!(a, NumericArray::new([1, 6, 2]));
}

#[test]
fn compound_assignment_with_a_scalar() {
    let mut a = NumericArray::new([10i64, 20, 30]);
    a += 5;
    assert_eq!(a, NumericArray::new([15, 25, 35]));
    a -= 5;
    assert_eq!(a, NumericArray::new([10, 20, 30]));
    a *= 2;
    assert_eq!(a, NumericArray::new([20, 40, 60]));
    a /= 4;
    assert_eq!(a, NumericArray::new([5, 10, 15]));
    a %= 4;
    assert_eq!(a, NumericArray::new([1, 2, 3]));
}

#[test]
fn compound_assignment_matches_the_operator() {
    let a = NumericArray::new([3i32, -4, 5]);
    let b = NumericArray::new([6i32, 7, -8]);
    let mut c = a.clone();
    c += b.clone();
    assert_eq!(c, a + b);
}

#[test]
fn checked_add_i32() {
    let a = NumericArray::new([1i32, 2, 3]);
    let b = NumericArray::new([4i32, 5, 6]);
    assert_eq!(a.checked_add(&b), Some(NumericArray::new([5, 7, 9])));
    let big = NumericArray::new([1i32, i32::MAX, 3]);
    assert_eq!(big.checked_add(&b), None);
}

#[test]
fn checked_sub_i32() {
    let a = NumericArray::new([1i32, 2, 3]);
    let b = NumericArray::new([4i32, 5, 6]);
    assert_eq!(a.checked_sub(&b), Some(NumericArray::new([-3, -3, -3])));
    let low = NumericArray::new([i32::MIN, 0, 0]);
    assert_eq!(low.checked_sub(&b), None);
}

#[test]
fn checked_mul_i32() {
    let a = NumericArray::new([1i32, -2, 3]);
    let b = NumericArray::new([4i32, 5, 6]);
    assert_eq!(a.checked_mul(&b), Some(NumericArray::new([4, -10, 18])));
    let big = NumericArray::new([0i32, 0, i32::MAX / 2]);
    assert_eq!(big.checked_mul(&b), None);
}

#[test]
fn checked_div_i32() {
    let a = NumericArray::new([9i32, -9, 7]);
    let b = NumericArray::new([2i32, 2, -2]);
    assert_eq!(a.checked_div(&b), Some(NumericArray::new([4, -4, -3])));
    let zero = NumericArray::new([1i32, 0, 1]);
    assert_eq!(a.checked_div(&zero), None);
    let min = NumericArray::new([i32::MIN, 1, 1]);
    let minus_one = NumericArray::new([-1i32, 1, 1]);
    assert_eq!(min.checked_div(&minus_one), None);
}

#[test]
fn checked_ops_u32() {
    let a = NumericArray::new([5u32, 6]);
    let b = NumericArray::new([2u32, 3]);
    assert_eq!(a.checked_add(&b), Some(NumericArray::new([7, 9])));
    assert_eq!(a.checked_sub(&b), Some(NumericArray::new([3, 3])));
    assert_eq!(b.checked_sub(&a), None);
    assert_eq!(a.checked_mul(&b), Some(NumericArray::new([10, 18])));
    assert_eq!(a.checked_div(&b), Some(NumericArray::new([2, 2])));
    assert_eq!(a.checked_div(&NumericArray::new([0, 1])), None);
    let big = NumericArray::new([u32::MAX, 0]);
    assert_eq!(big.checked_add(&b), None);
    assert_eq!(big.checked_mul(&b), None);
}

#[test]
fn wrapping_ops_i32() {
    let a = NumericArray::new([i32::MAX, i32::MIN, 3]);
    let b = NumericArray::new([1i32, 1, 4]);
    assert_eq!(a.wrapping_add(&b), NumericArray::new([i32::MIN, i32::MIN + 1, 7]));
    assert_eq!(a.wrapping_sub(&b), NumericArray::new([i32::MAX - 1, i32::MAX, -1]));
    let c = NumericArray::new([0x4000_0000i32, -1, 3]);
    let d = NumericArray::new([4i32, i32::MIN, 4]);
    assert_eq!(c.wrapping_mul(&d), NumericArray::new([0, i32::MIN, 12]));
}

#[test]
fn wrapping_ops_u32() {
    let a = NumericArray::new([u32::MAX, 0, 3]);
    let b = NumericArray::new([1u32, 1, 4]);
    assert_eq!(a.wrapping_add(&b), NumericArray::new([0, 1, 7]));
    assert_eq!(a.wrapping_sub(&b), NumericArray::new([u32::MAX - 1, u32::MAX, u32::MAX]));
    assert_eq!(a.wrapping_mul(&NumericArray::new([2, 5, 6])), NumericArray::new([u32::MAX - 1, 0, 18]));
}

#[test]
fn saturating_ops_i32() {
    let a = NumericArray::new([i32::MAX, i32::MIN, 3]);
    let b = NumericArray::new([1i32, 1, 4]);
    assert_eq!(a.clone().saturating_add(b.clone()), NumericArray::new([i32::MAX, i32::MIN + 1, 7]));
    assert_eq!(a.saturating_sub(b), NumericArray::new([i32::MAX - 1, i32::MIN, -1]));
}

#[test]
fn saturating_ops_u32() {
    let a = NumericArray::new([u32::MAX, 0, 3]);
    let b = NumericArray::new([1u32, 1, 4]);
    assert_eq!(a.clone().saturating_add(b.clone()), NumericArray::new([u32::MAX, 1, 7]));
    assert_eq!(a.saturating_sub(b), NumericArray::new([u32::MAX - 1, 0, 0]));
}

#[test]
fn forms_agree_where_the_operator_is_defined() {
    let a = NumericArray::new([100i32, -200, 300]);
    let b = NumericArray::new([7i32, 8, -9]);
    let sum = a.clone() + b.clone();
    assert_eq!(a.checked_add(&b), Some(sum.clone()));
    assert_eq!(a.wrapping_add(&b), sum.clone());
    assert_eq!(a.saturating_add(b), sum);
}

#[test]
fn black_box_is_identity() {
    assert_eq!(black_box(42u8), 42);
    let a = NumericArray::new([1i32, 2]);
    assert_eq!(black_box(a.clone()), a);
}

#[test]
fn slices_and_iteration() {
    let mut a = NumericArray::new([1i32, 2, 3, 4]);
    assert_eq!(a.as_ref(), &[1, 2, 3, 4][..]);
    assert_eq!(&a[1..3], &[2, 3][..]);
    assert_eq!(&a[0..2], &[1, 2][..]);
    assert_eq!(&a[2..4], &[3, 4][..]);
    assert_eq!(&a.as_ref()[..2], &[1, 2][..]);
    assert_eq!(&a.as_ref()[2..], &[3, 4][..]);
    let total: i32 = (&a).into_iter().sum();
    assert_eq!(total, 10);
    a[1] = 20;
    a.as_mut()[2] = 30;
    for x in &mut a {
        *x += 1;
    }
    assert_eq!(a, NumericArray::new([2, 21, 31, 5]));
    let s: &[i32] = std::borrow::Borrow::borrow(&a);
    assert_eq!(s, &[2, 21, 31, 5][..]);
}

#[test]
fn empty_arrays() {
    let a: NumericArray<i32, 0> = NumericArray::new([]);
    let b: NumericArray<i32, 0> = NumericArray::new([]);
    assert_eq!(a.checked_add(&b), Some(NumericArray::new([])));
    assert_eq!((a + b).len(), 0);
}

#[test]
fn checked_ops_i64() {
    let a = NumericArray::new([7i64, -8]);
    let b = NumericArray::new([2i64, 3]);
    assert_eq!(a.checked_add(&b), Some(NumericArray::new([9, -5])));
    assert_eq!(a.checked_sub(&b), Some(NumericArray::new([5, -11])));
    assert_eq!(a.checked_mul(&b), Some(NumericArray::new([14, -24])));
    assert_eq!(a.checked_div(&b), Some(NumericArray::new([3, -2])));
    let edge = NumericArray::new([i64::MAX, i64::MIN]);
    assert_eq!(edge.checked_add(&b), None);
    assert_eq!(edge.checked_sub(&b), None);
    assert_eq!(edge.checked_mul(&b), None);
    assert_eq!(a.checked_div(&NumericArray::new([1, 0])), None);
    assert_eq!(NumericArray::new([i64::MIN, 1]).checked_div(&NumericArray::new([-1, 1])), None);
}

#[test]
fn wrapping_and_saturating_ops_i64() {
    let a = NumericArray::new([i64::MAX, i64::MIN, 5]);
    let b = NumericArray::new([1i64, 1, 3]);
    assert_eq!(a.wrapping_add(&b), NumericArray::new([i64::MIN, i64::MIN + 1, 8]));
    assert_eq!(a.wrapping_sub(&b), NumericArray::new([i64::MAX - 1, i64::MAX, 2]));
    assert_eq!(a.wrapping_mul(&NumericArray::new([2, 2, 3])), NumericArray::new([-2, 0, 15]));
    assert_eq!(a.clone().saturating_add(b.clone()), NumericArray::new([i64::MAX, i64::MIN + 1, 8]));
    assert_eq!(a.saturating_sub(b), NumericArray::new([i64::MAX - 1, i64::MIN, 2]));
}

#[test]
fn checked_ops_u64() {
    let a = NumericArray::new([7u64, 8]);
    let b = NumericArray::new([2u64, 3]);
    assert_eq!(a.checked_add(&b), Some(NumericArray::new([9, 11])));
    assert_eq!(a.checked_sub(&b), Some(NumericArray::new([5, 5])));
    assert_eq!(b.checked_sub(&a), None);
    assert_eq!(a.checked_mul(&b), Some(NumericArray::new([14, 24])));
    assert_eq!(a.checked_div(&b), Some(NumericArray::new([3, 2])));
    assert_eq!(a.checked_div(&NumericArray::new([0, 3])), None);
    let big = NumericArray::new([u64::MAX, 1]);
    assert_eq!(big.checked_add(&b), None);
    assert_eq!(big.checked_mul(&b), None);
}

#[test]
fn wrapping_and_saturating_ops_u64() {
    let a = NumericArray::new([u64::MAX, 0, 5]);
    let b = NumericArray::new([1u64, 1, 3]);
    assert_eq!(a.wrapping_add(&b), NumericArray::new([0, 1, 8]));
    assert_eq!(a.wrapping_sub(&b), NumericArray::new([u64::MAX - 1, u64::MAX, 2]));
    assert_eq!(a.wrapping_mul(&NumericArray::new([2, 9, 3])), NumericArray::new([u64::MAX - 1, 0, 15]));
    assert_eq!(a.clone().saturating_add(b.clone()), NumericArray::new([u64::MAX, 1, 8]));
    assert_eq!(a.saturating_sub(b), NumericArray::new([u64::MAX - 1, 0, 2]));
}

#[test]
fn checked_fails_exactly_where_the_operator_would_overflow() {
    let a = NumericArray::new([u32::MAX - 1, 3]);
    let fits = NumericArray::new([1u32, 4]);
    let overflows = NumericArray::new([2u32, 4]);
    assert_eq!(a.checked_add(&fits), Some(a.clone() + fits));
    assert_eq!(a.checked_add(&overflows), None);
    assert_eq!(a.wrapping_add(&overflows), NumericArray::new([0, 7]));
    assert_eq!(a.saturating_add(overflows), NumericArray::new([u32::MAX, 7]));
}

#[test]
fn division_forms_agree() {
    let a = NumericArray::new([-7i32, 7, -8]);
    let b = NumericArray::new([2i32, -2, -3]);
    assert_eq!(a.checked_div(&b), Some(a.clone() / b.clone()));
    assert_eq!(a / b, NumericArray::new([-3, -3, 2]));
}

#[test]
fn checked_ops_u8() {
    let a = NumericArray::new([1u8, 250]);
    let b = NumericArray::new([2u8, 10]);
    assert_eq!(a.checked_add(&b), None);
    assert_eq!(NumericArray::new([1u8, 2]).checked_add(&NumericArray::new([3, 4])), Some(NumericArray::new([4, 6])));
    assert_eq!(NumericArray::new([5u8, 1]).checked_sub(&NumericArray::new([3, 2])), None);
    assert_eq!(NumericArray::new([2u8, 16]).checked_mul(&NumericArray::new([4, 16])), None);
    assert_eq!(NumericArray::new([2u8, 3]).checked_mul(&NumericArray::new([4, 5])), Some(NumericArray::new([8, 15])));
}

#[test]
fn wrapping_and_saturating_ops_u8() {
    let a = NumericArray::new([250u8, 1]);
    let b = NumericArray::new([10u8, 2]);
    assert_eq!(a.wrapping_add(&b), NumericArray::new([4, 3]));
    assert_eq!(a.clone().saturating_add(b.clone()), NumericArray::new([255, 3]));
    assert_eq!(NumericArray::new([5u8, 1]).saturating_sub(NumericArray::new([3, 2])), NumericArray::new([2, 0]));
    assert_eq!(NumericArray::new([16u8, 3]).wrapping_mul(&NumericArray::new([16, 5])), NumericArray::new([0, 15]));
    assert_eq!(NumericArray::new([0u8, 5]).wrapping_sub(&NumericArray::new([1, 2])), NumericArray::new([255, 3]));
}

#[test]
fn checked_div_i8() {
    let a = NumericArray::new([4i8, -128]);
    let b = NumericArray::new([2i8, -1]);
    assert_eq!(a.checked_div(&b), None);
    assert_eq!(NumericArray::new([4i8, -128]).checked_div(&NumericArray::new([2, 2])), Some(NumericArray::new([2, -64])));
}

#[test]
fn saturating_ops_i8_and_i16() {
    let a = NumericArray::new([120i8, -120]);
    let b = NumericArray::new([10i8, 10]);
    assert_eq!(a.clone().saturating_add(b.clone()), NumericArray::new([127, -110]));
    assert_eq!(a.saturating_sub(b), NumericArray::new([110, -128]));
    let c = NumericArray::new([i16::MAX, 0]);
    assert_eq!(c.wrapping_add(&NumericArray::new([1, 1])), NumericArray::new([i16::MIN, 1]));
}

#[test]
fn other_integer_widths() {
    let a = NumericArray::new([u16::MAX, 1]);
    assert_eq!(a.checked_add(&NumericArray::new([1, 1])), None);
    let b = NumericArray::new([usize::MAX, 2]);
    assert_eq!(b.wrapping_add(&NumericArray::new([1, 2])), NumericArray::new([0, 4]));
    let c = NumericArray::new([isize::MIN, 3]);
    assert_eq!(c.checked_div(&NumericArray::new([-1, 1])), None);
    let d = NumericArray::new([u128::MAX, 7]);
    assert_eq!(d.saturating_add(NumericArray::new([1, 1])), NumericArray::new([u128::MAX, 8]));
    let e = NumericArray::new([i128::MIN, 7]);
    assert_eq!(e.checked_sub(&NumericArray::new([1, 1])), None);
    assert_eq!(NumericArray::new([3i128, 7]).checked_mul(&NumericArray::new([-2, 2])), Some(NumericArray::new([-6, 14])));
}

#[test]
fn checked_add_commutes() {
    let a = NumericArray::new([1u8, 200]);
    let b = NumericArray::new([2u8, 100]);
    assert_eq!(a.checked_add(&b), b.checked_add(&a));
    let c = NumericArray::new([1u8, 20]);
    assert_eq!(a.checked_add(&c), c.checked_add(&a));
    assert_eq!(a.checked_add(&c), Some(NumericArray::new([2, 220])));
}

#[test]
fn equality_is_element_wise() {
    let a = NumericArray::new([1i32, 2, 3]);
    let b = NumericArray::new([1i32, 2, 4]);
    let c = NumericArray::new([1i32, 2, 3]);
    assert!(!(a == b));
    assert!(a == c);
    assert!(a != b);
    assert!(!(a != c));
}

#[test]
fn clone_copies_every_element() {
    let a = NumericArray::new([9u16, 8, 7]);
    let b = a.clone();
    assert_eq!(b, a);
    assert_eq!(b[2], 7);
}

#[test]
fn checked_sub_undoes_checked_add() {
    let a = NumericArray::new([100u8, 7, 0]);
    let b = NumericArray::new([55u8, 200, 255]);
    let c = a.checked_add(&b).unwrap();
    assert_eq!(c.checked_sub(&b), Some(a));
}

#[test]
fn sub_undoes_add() {
    let a = NumericArray::new([-5i16, 300, 0]);
    let b = NumericArray::new([9i16, -301, 1]);
    assert_eq!((a.clone() + b.clone()) - b, a);
}

#[test]
fn not_twice_gives_back_the_array() {
    let a = NumericArray::new([0x12u8, 0xff, 0]);
    assert_eq!(!!a.clone(), a);
    let b = NumericArray::new([true, false]);
    assert_eq!(!!b.clone(), b);
}

#[test]
fn map_agrees_with_map_move() {
    let a = NumericArray::new([1i32, -2, 3]);
    assert_eq!(a.map(|x: &i32| x * 3), a.clone().map_move(|x: i32| x * 3));
}

#[test]
fn zip_agrees_with_zip_move_both() {
    let a = NumericArray::new([1i32, -2, 3]);
    let b = NumericArray::new([4i32, 5, -6]);
    assert_eq!(a.zip(&b, |x: &i32, y: &i32| x * y), a.clone().zip_move_both(b.clone(), |x: i32, y: i32| x * y));
}

#[test]
fn map_move_composes() {
    let a = NumericArray::new([1i32, -2, 3]);
    let twice = a.clone().map_move(|x: i32| x + 1).map_move(|y: i32| y * 2);
    let once = a.map_move(|x: i32| (x + 1) * 2);
    assert_eq!(twice, once);
}

#[test]
fn compound_assignment_matches_each_operator() {
    let a = NumericArray::new([30u32, 20, 10]);
    let b = NumericArray::new([3u32, 4, 5]);
    let mut x = a.clone();
    x -= b.clone();
    assert_eq!(x, a.clone() - b.clone());
    let mut y = a.clone();
    y *= b.clone();
    assert_eq!(y, a.clone() * b.clone());
    let mut z = a.clone();
    z /= b.clone();
    assert_eq!(z, a / b);
}
