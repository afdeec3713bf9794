use farey::fraction::{mediants, Fraction};
use farey::gaussian::Gaussian;

#[test]
fn mod_fraction_can_be_created_from_a_tuple_i32() {
    let expected = Fraction::new(1, 2);

    let actual: Fraction<i32> = (1, 2).into();

    assert_eq!(expected, actual);
}

#[test]
fn mod_fraction_can_be_created_from_a_tuple_i64() {
    let expected: Fraction<i64> = Fraction::new(1, 2);

    let actual: Fraction<i64> = (1, 2).into();

    assert_eq!(expected, actual);
}

#[test]
fn mod_fractions_can_be_added() {
    let expected: Fraction<u64> = (5, 6).into();
    let left: Fraction<u64> = (1, 2).into();
    let right: Fraction<u64> = (1, 3).into();

    let actual = left + right;

    assert_eq!(expected, actual);
}

#[test]
fn mod_fractions_can_be_multiplied() {
    let expected: Fraction<u8> = (10, 21).into();
    let left: Fraction<u8> = (2, 3).into();
    let right: Fraction<u8> = (5, 7).into();

    let actual = left * right;

    assert_eq!(expected, actual);
}

#[test]
fn mod_fractions_have_mediant() {
    let expected: Fraction<i8> = (2, 5).into();
    let left: Fraction<i8> = (1, 2).into();
    let right: Fraction<i8> = (1, 3).into();

    let actual = left.mediant(right);

    assert_eq!(expected, actual);
}

#[test]
fn fraction_equality_is_structural() {
    assert_ne!(Fraction::new(1, 2), Fraction::new(2, 4));
    assert_eq!(Fraction::new(2u8, 4u8), Fraction::new(2u8, 4u8));
}

#[test]
fn fraction_from_a_tuple_of_every_width() {
    assert_eq!(Fraction::<i8>::from((1, 2)), Fraction::new(1i8, 2i8));
    assert_eq!(Fraction::<i16>::from((1, 2)), Fraction::new(1i16, 2i16));
    assert_eq!(Fraction::<i32>::from((1, 2)), Fraction::new(1i32, 2i32));
    assert_eq!(Fraction::<i64>::from((1, 2)), Fraction::new(1i64, 2i64));
    assert_eq!(Fraction::<i128>::from((1, 2)), Fraction::new(1i128, 2i128));
    assert_eq!(Fraction::<u8>::from((1, 2)), Fraction::new(1u8, 2u8));
    assert_eq!(Fraction::<u16>::from((1, 2)), Fraction::new(1u16, 2u16));
    assert_eq!(Fraction::<u32>::from((1, 2)), Fraction::new(1u32, 2u32));
    assert_eq!(Fraction::<u64>::from((1, 2)), Fraction::new(1u64, 2u64));
    assert_eq!(Fraction::<u128>::from((1, 2)), Fraction::new(1u128, 2u128));
}

#[test]
fn fraction_mediant_of_zero_and_one_is_a_half() {
    let zero: Fraction<u64> = (0, 1).into();
    let one: Fraction<u64> = (1, 1).into();
    assert_eq!(zero.mediant(one), Fraction::new(1, 2));
}

#[test]
fn fraction_negation_changes_the_numerator_only() {
    let f: Fraction<i32> = (3, -4).into();
    assert_eq!(-f, Fraction::new(-3, -4));
    let z: Fraction<i32> = (0, 5).into();
    assert_eq!(-z, Fraction::new(0, 5));
}

#[test]
fn fraction_subtraction_adds_the_negation() {
    let left: Fraction<i64> = (1, 2).into();
    let right: Fraction<i64> = (1, 3).into();
    assert_eq!(left - right, Fraction::new(1, 6));
    assert_eq!(right - left, Fraction::new(-1, 6));
    assert_eq!(left - left, Fraction::new(0, 4));
}

#[test]
fn fraction_clone_and_copy_keep_both_fields() {
    let f: Fraction<u16> = (7, 9).into();
    let c = f.clone();
    let d = f;
    assert_eq!(c, Fraction::new(7, 9));
    assert_eq!(d, f);
}

#[test]
fn fraction_text_is_numerator_slash_denominator() {
    assert_eq!(Fraction::new(1u64, 2u64).to_string(), "1/2");
    assert_eq!(Fraction::new(-3i32, 4i32).to_string(), "-3/4");
    assert_eq!(Fraction::new(3i32, -4i32).to_string(), "3/-4");
    assert_eq!(Fraction::new(2u8, 4u8).to_string(), "2/4");
    assert_eq!(Fraction::new(5i8, 0i8).to_string(), "5/0");
}

#[test]
fn fraction_of_gaussians_text() {
    let one: Gaussian<i64> = (1, 0).into();
    let i: Gaussian<i64> = (0, 1).into();
    assert_eq!(Fraction::new(one, one).to_string(), "1/1");
    assert_eq!(Fraction::new(i, one).to_string(), "1i/1");
    assert_eq!(Fraction::new(one, one).mediant(Fraction::new(i, one)).to_string(), "1+1i/2");
}

#[test]
fn mediants_of_a_single_fraction_is_that_fraction() {
    let only: Vec<Fraction<u64>> = vec![(3, 7).into()];
    assert_eq!(mediants(only), vec![Fraction::new(3, 7)]);
}

#[test]
fn mediants_inserts_between_neighbours() {
    let start: Vec<Fraction<u64>> = vec![(0, 1).into(), (1, 1).into()];
    let once = mediants(start);
    assert_eq!(once, vec![Fraction::new(0, 1), Fraction::new(1, 2), Fraction::new(1, 1)]);
    let twice = mediants(once);
    assert_eq!(
        twice,
        vec![
            Fraction::new(0, 1),
            Fraction::new(1, 3),
            Fraction::new(1, 2),
            Fraction::new(2, 3),
            Fraction::new(1, 1),
        ]
    );
}

#[test]
fn five_rounds_of_mediants_give_the_stern_brocot_sequence() {
    let mut current: Vec<Fraction<u64>> = vec![(0, 1).into(), (1, 1).into()];
    for _ in 0..5 {
        current = mediants(current);
    }
    let expected: Vec<(u64, u64)> = vec![
        (0, 1),
        (1, 6),
        (1, 5),
        (2, 9),
        (1, 4),
        (3, 11),
        (2, 7),
        (3, 10),
        (1, 3),
        (4, 11),
        (3, 8),
        (5, 13),
        (2, 5),
        (5, 12),
        (3, 7),
        (4, 9),
        (1, 2),
        (5, 9),
        (4, 7),
        (7, 12),
        (3, 5),
        (8, 13),
        (5, 8),
        (7, 11),
        (2, 3),
        (7, 10),
        (5, 7),
        (8, 11),
        (3, 4),
        (7, 9),
        (4, 5),
        (5, 6),
        (1, 1),
    ];
    assert_eq!(current.len(), 33);
    for (got, want) in current.iter().zip(expected.iter()) {
        assert_eq!(*got, Fraction::new(want.0, want.1));
    }
    for pair in current.windows(2) {
        let (a, b) = (pair[0], pair[1]);
        assert!(a.numerator * b.denominator < b.numerator * a.denominator);
        assert_eq!(b.numerator * a.denominator - a.numerator * b.denominator, 1);
    }
}

#[test]
fn mediants_over_gaussian_fractions() {
    let one: Gaussian<i64> = (1, 0).into();
    let i: Gaussian<i64> = (0, 1).into();
    let start = vec![Fraction::new(one, one), Fraction::new(i, one)];
    let next = mediants(start);
    assert_eq!(
        next,
        vec![
            Fraction::new(one, one),
            Fraction::new(Gaussian::new(1, 1), Gaussian::new(2, 0)),
            Fraction::new(i, one),
        ]
    );
}
