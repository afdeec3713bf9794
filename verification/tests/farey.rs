use farey::farey::Fraction;

#[test]
fn fraction_can_be_created_from_a_tuple_i32() {
    let expected = Fraction::new(1, 2);

    let actual: Fraction<i32> = (1, 2).into();

    assert_eq!(expected, actual);
}

#[test]
fn fraction_can_be_created_from_a_tuple_i64() {
    let expected: Fraction<i64> = Fraction::new(1, 2);

    let actual: Fraction<i64> = (1, 2).into();

    assert_eq!(expected, actual);
}

#[test]
fn fractions_can_be_added() {
    let expected: Fraction<u64> = (5, 6).into();
    let left: Fraction<u64> = (1, 2).into();
    let right: Fraction<u64> = (1, 3).into();

    let actual = left + right;

    assert_eq!(expected, actual);
}

#[test]
fn fractions_can_be_multiplied() {
    let expected: Fraction<u8> = (10, 21).into();
    let left: Fraction<u8> = (2, 3).into();
    let right: Fraction<u8> = (5, 7).into();

    let actual = left * right;

    assert_eq!(expected, actual);
}

#[test]
fn fractions_have_mediant() {
    let expected: Fraction<i8> = (2, 5).into();
    let left: Fraction<i8> = (1, 2).into();
    let right: Fraction<i8> = (1, 3).into();

    let actual = left.mediant(right);

    assert_eq!(expected, actual);
}

#[test]
fn plain_fraction_equality_is_structural() {
    assert_ne!(Fraction::new(1u32, 2u32), Fraction::new(2u32, 4u32));
    assert_eq!(Fraction::new(2u32, 4u32), Fraction::new(2u32, 4u32));
    assert_ne!(Fraction::new(1i32, 2i32), Fraction::new(-1i32, -2i32));
}

#[test]
fn plain_fraction_keeps_its_fields_as_given() {
    let f = Fraction::new(6i16, -4i16);
    assert_eq!(f.numerator, 6);
    assert_eq!(f.denominator, -4);
    let z = Fraction::new(3u8, 0u8);
    assert_eq!(z.denominator, 0);
}

#[test]
fn plain_fraction_from_a_tuple_of_every_width() {
    assert_eq!(Fraction::<i8>::from((1, 2)), Fraction::new(1i8, 2i8));
    assert_eq!(Fraction::<i16>::from((1, 2)), Fraction::new(1i16, 2i16));
    assert_eq!(Fraction::<i32>::from((1, 2)), Fraction::new(1i32, 2i32));
    assert_eq!(Fraction::<i64>::from((1, 2)), Fraction::new(1i64, 2i64));
    assert_eq!(Fraction::<i128>::from((1, 2)), Fraction::new(1i128, 2i128));
    assert_eq!(Fraction::<u8>::from((1, 2)), Fraction::new(1u8, 2u8));
    assert_eq!(Fraction::<u16>::from((1, 2)), Fraction::new(1u16, 2u16));
    assert_eq!(Fraction::<u32>::from((1, 2)), Fraction::new(1u32, 2u32));
    assert_eq!(Fraction::<u64>::from((1, 2)), Fraction::new(1u64, 2u64));
    assert_eq!(Fraction::<u128>::from((1, 2)), Fraction::new(1u128, 2u128));
}

#[test]
fn plain_fraction_sum_and_product_are_not_reduced() {
    let half: Fraction<u32> = (1, 2).into();
    let other_half: Fraction<u32> = (1, 2).into();
    assert_eq!(half + other_half, Fraction::new(4, 4));
    let a: Fraction<i32> = (2, 4).into();
    let b: Fraction<i32> = (-3, 6).into();
    assert_eq!(a * b, Fraction::new(-6, 24));
}

#[test]
fn plain_fraction_mediant_of_zero_and_one_is_a_half() {
    let zero: Fraction<u64> = (0, 1).into();
    let one: Fraction<u64> = (1, 1).into();
    assert_eq!(zero.mediant(one), Fraction::new(1, 2));
}
