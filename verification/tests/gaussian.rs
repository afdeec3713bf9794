use farey::gaussian::Gaussian;
use farey::gcd::Gcd;
use farey::zero::Zero;

#[test]
fn gaussian_integers_can_be_added() {
    let expected: Gaussian<i32> = (1, 1).into();
    let left: Gaussian<i32> = (1, 0).into();
    let right: Gaussian<i32> = (0, 1).into();

    let actual = left + right;

    assert_eq!(actual, expected);
}

#[test]
fn gaussian_integers_can_be_multiplied() {
    let expected: Gaussian<i32> = (-5, 10).into();
    let left: Gaussian<i32> = (1, 2).into();
    let right: Gaussian<i32> = (3, 4).into();

    let actual = left * right;

    assert_eq!(actual, expected);
}

#[test]
fn gaussian_integers_can_be_divided() {
    let expected: Gaussian<i64> = (2, 1).into();
    let left: Gaussian<i64> = 5i64.into();
    let right: Gaussian<i64> = (2, -1).into();

    let actual = left / right;

    assert_eq!(actual, expected);
}

#[test]
fn gaussian_integers_have_gcd() {
    let expected: Gaussian<i64> = (2, 1).into();
    let left: Gaussian<i64> = 5i64.into();
    let right: Gaussian<i64> = (2, 1).into();

    let actual = left.gcd(right);

    assert_eq!(actual, expected);
}

#[test]
fn gaussian_keeps_its_parts_as_given() {
    let g = Gaussian::new(-3i16, 4i16);
    assert_eq!(g.real, -3);
    assert_eq!(g.complex, 4);
}

#[test]
fn gaussian_from_a_single_value_has_no_imaginary_part() {
    assert_eq!(Gaussian::<i8>::from(7), Gaussian::new(7i8, 0i8));
    assert_eq!(Gaussian::<i16>::from(7), Gaussian::new(7i16, 0i16));
    assert_eq!(Gaussian::<i32>::from(7), Gaussian::new(7i32, 0i32));
    assert_eq!(Gaussian::<i64>::from(7), Gaussian::new(7i64, 0i64));
    assert_eq!(Gaussian::<i128>::from(7), Gaussian::new(7i128, 0i128));
    assert_eq!(Gaussian::<u8>::from(7), Gaussian::new(7u8, 0u8));
    assert_eq!(Gaussian::<u16>::from(7), Gaussian::new(7u16, 0u16));
    assert_eq!(Gaussian::<u32>::from(7), Gaussian::new(7u32, 0u32));
    assert_eq!(Gaussian::<u64>::from(7), Gaussian::new(7u64, 0u64));
    assert_eq!(Gaussian::<u128>::from(7), Gaussian::new(7u128, 0u128));
}

#[test]
fn gaussian_from_a_tuple_of_every_width() {
    assert_eq!(Gaussian::<i8>::from((1, 2)), Gaussian::new(1i8, 2i8));
    assert_eq!(Gaussian::<i16>::from((1, 2)), Gaussian::new(1i16, 2i16));
    assert_eq!(Gaussian::<i32>::from((1, 2)), Gaussian::new(1i32, 2i32));
    assert_eq!(Gaussian::<i64>::from((1, 2)), Gaussian::new(1i64, 2i64));
    assert_eq!(Gaussian::<i128>::from((1, 2)), Gaussian::new(1i128, 2i128));
    assert_eq!(Gaussian::<u8>::from((1, 2)), Gaussian::new(1u8, 2u8));
    assert_eq!(Gaussian::<u16>::from((1, 2)), Gaussian::new(1u16, 2u16));
    assert_eq!(Gaussian::<u32>::from((1, 2)), Gaussian::new(1u32, 2u32));
    assert_eq!(Gaussian::<u64>::from((1, 2)), Gaussian::new(1u64, 2u64));
    assert_eq!(Gaussian::<u128>::from((1, 2)), Gaussian::new(1u128, 2u128));
}

#[test]
fn gaussian_norm_is_the_sum_of_squares() {
    assert_eq!(Gaussian::new(3i32, 4i32).norm(), 25);
    assert_eq!(Gaussian::new(-3i32, -4i32).norm(), 25);
    assert_eq!(Gaussian::new(0u8, 0u8).norm(), 0);
    assert_eq!(Gaussian::new(2i64, -1i64).norm(), 5);
    assert_eq!(Gaussian::new(10u8, 11u8).norm(), 221);
}

#[test]
fn gaussian_negation_and_subtraction() {
    let a: Gaussian<i32> = (1, 2).into();
    let b: Gaussian<i32> = (3, -4).into();
    assert_eq!(-a, Gaussian::new(-1, -2));
    assert_eq!(a - b, Gaussian::new(-2, 6));
    assert_eq!(b - a, Gaussian::new(2, -6));
    assert_eq!(a - a, Gaussian::new(0, 0));
}

#[test]
fn gaussian_multiplication_by_i_turns_a_quarter() {
    let i: Gaussian<i64> = (0, 1).into();
    let a: Gaussian<i64> = (3, 4).into();
    assert_eq!(a * i, Gaussian::new(-4, 3));
    assert_eq!(i * i, Gaussian::new(-1, 0));
}

#[test]
fn gaussian_quotient_and_remainder() {
    let a: Gaussian<i64> = (5, 0).into();
    let b: Gaussian<i64> = (2, -1).into();
    assert_eq!(a.quo_rem(b), (Gaussian::new(2, 1), Gaussian::new(0, 0)));
    let c: Gaussian<i64> = (7, 3).into();
    let d: Gaussian<i64> = (2, 1).into();
    assert_eq!(c.quo_rem(d), (Gaussian::new(3, 0), Gaussian::new(2, -1)));
    assert_eq!(c / d, Gaussian::new(3, 0));
    assert_eq!(c % d, Gaussian::new(2, -1));
}

#[test]
fn gaussian_quotient_rounds_toward_zero() {
    let a: Gaussian<i32> = (-7, 0).into();
    let b: Gaussian<i32> = (2, 0).into();
    assert_eq!(a / b, Gaussian::new(-3, 0));
    assert_eq!(a % b, Gaussian::new(-2, 0));
}

#[test]
fn gaussian_zero_and_zero_test() {
    let z: Gaussian<i32> = Gaussian::zero();
    assert_eq!(z, Gaussian::new(0, 0));
    assert!(z.is_zero());
    assert!(!Gaussian::new(0i32, 1i32).is_zero());
    assert!(!Gaussian::new(1i32, 0i32).is_zero());
    assert!(!Gaussian::new(-1i32, -1i32).is_zero());
    let zu: Gaussian<u128> = Gaussian::zero();
    assert_eq!(zu, Gaussian::new(0, 0));
}

#[test]
fn gaussian_gcd_with_zero_second_argument_is_the_first() {
    let a: Gaussian<i64> = (3, -4).into();
    let z: Gaussian<i64> = (0, 0).into();
    assert_eq!(a.gcd(z), a);
    assert_eq!(z.gcd(z), z);
}

#[test]
fn gaussian_gcd_takes_the_remainder_of_the_recursion() {
    let a: Gaussian<i64> = (-6, -5).into();
    let b: Gaussian<i64> = (-2, 0).into();
    // (-6 - 5i) % -2 is (12 % 4) + (10 % 4) i, and -2 % 2i is zero.
    assert_eq!(a % b, Gaussian::new(0, 2));
    assert_eq!(b % Gaussian::new(0, 2), Gaussian::new(0, 0));
    assert_eq!(a.gcd(b), Gaussian::new(0, 2));
}

#[test]
fn gaussian_text_has_three_forms() {
    assert_eq!(Gaussian::new(5i32, 0i32).to_string(), "5");
    assert_eq!(Gaussian::new(0i32, 0i32).to_string(), "0");
    assert_eq!(Gaussian::new(-5i32, 0i32).to_string(), "-5");
    assert_eq!(Gaussian::new(0i32, 7i32).to_string(), "7i");
    assert_eq!(Gaussian::new(0i32, -7i32).to_string(), "-7i");
    assert_eq!(Gaussian::new(3i32, 4i32).to_string(), "3+4i");
    assert_eq!(Gaussian::new(3i32, -2i32).to_string(), "3+-2i");
    assert_eq!(Gaussian::new(-3i32, -2i32).to_string(), "-3+-2i");
    assert_eq!(Gaussian::new(12u64, 34u64).to_string(), "12+34i");
}

#[test]
fn gaussian_text_tells_the_pairs_apart() {
    let mut seen: Vec<(String, (i8, i8))> = Vec::new();
    for re in -12i8..=12 {
        for im in -12i8..=12 {
            let text = Gaussian::new(re, im).to_string();
            for (other, pair) in seen.iter() {
                assert!(*other != text || *pair == (re, im));
            }
            seen.push((text, (re, im)));
        }
    }
}
