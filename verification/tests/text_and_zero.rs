use farey::text::{decimal_of_i128, decimal_of_u128, Text};
use farey::zero::Zero;

#[test]
fn decimal_of_small_naturals() {
    assert_eq!(decimal_of_u128(0), "0");
    assert_eq!(decimal_of_u128(7), "7");
    assert_eq!(decimal_of_u128(9), "9");
    assert_eq!(decimal_of_u128(10), "10");
    assert_eq!(decimal_of_u128(1234567890), "1234567890");
    assert_eq!(decimal_of_u128(u128::MAX), "340282366920938463463374607431768211455");
}

#[test]
fn decimal_of_signed_values() {
    assert_eq!(decimal_of_i128(0), "0");
    assert_eq!(decimal_of_i128(-1), "-1");
    assert_eq!(decimal_of_i128(-10), "-10");
    assert_eq!(decimal_of_i128(42), "42");
    assert_eq!(decimal_of_i128(i128::MAX), "170141183460469231731687303715884105727");
    assert_eq!(decimal_of_i128(i128::MIN), "-170141183460469231731687303715884105728");
}

#[test]
fn text_of_every_width_is_the_decimal_numeral() {
    assert_eq!(u8::MAX.to_text(), "255");
    assert_eq!(u16::MAX.to_text(), "65535");
    assert_eq!(u32::MAX.to_text(), "4294967295");
    assert_eq!(u64::MAX.to_text(), "18446744073709551615");
    assert_eq!(u128::MAX.to_text(), "340282366920938463463374607431768211455");
    assert_eq!(i8::MIN.to_text(), "-128");
    assert_eq!(i16::MIN.to_text(), "-32768");
    assert_eq!(i32::MIN.to_text(), "-2147483648");
    assert_eq!(i64::MIN.to_text(), "-9223372036854775808");
    assert_eq!(i128::MIN.to_text(), "-170141183460469231731687303715884105728");
    assert_eq!(i8::MAX.to_text(), "127");
    assert_eq!(i64::MAX.to_text(), "9223372036854775807");
}

#[test]
fn text_agrees_with_the_standard_formatting() {
    for x in i16::MIN..=i16::MAX {
        assert_eq!(x.to_text(), format!("{}", x));
    }
    for x in 0u16..=u16::MAX {
        assert_eq!(x.to_text(), format!("{}", x));
    }
    for k in 0..64u32 {
        let u: u64 = 1u64 << k;
        assert_eq!(u.to_text(), format!("{}", u));
        assert_eq!((u - 1).to_text(), format!("{}", u - 1));
        let s: i64 = (u as i64).wrapping_neg();
        assert_eq!(s.to_text(), format!("{}", s));
    }
}

#[test]
fn zero_of_every_width() {
    assert_eq!(<u8 as Zero>::zero(), 0);
    assert_eq!(<u16 as Zero>::zero(), 0);
    assert_eq!(<u32 as Zero>::zero(), 0);
    assert_eq!(<u64 as Zero>::zero(), 0);
    assert_eq!(<u128 as Zero>::zero(), 0);
    assert_eq!(<i8 as Zero>::zero(), 0);
    assert_eq!(<i16 as Zero>::zero(), 0);
    assert_eq!(<i32 as Zero>::zero(), 0);
    assert_eq!(<i64 as Zero>::zero(), 0);
    assert_eq!(<i128 as Zero>::zero(), 0);
}

#[test]
fn zero_test_of_every_width() {
    assert!(Zero::is_zero(&0u8) && !Zero::is_zero(&1u8) && !Zero::is_zero(&u8::MAX));
    assert!(Zero::is_zero(&0u16) && !Zero::is_zero(&1u16) && !Zero::is_zero(&u16::MAX));
    assert!(Zero::is_zero(&0u32) && !Zero::is_zero(&1u32) && !Zero::is_zero(&u32::MAX));
    assert!(Zero::is_zero(&0u64) && !Zero::is_zero(&1u64) && !Zero::is_zero(&u64::MAX));
    assert!(Zero::is_zero(&0u128) && !Zero::is_zero(&1u128) && !Zero::is_zero(&u128::MAX));
    assert!(Zero::is_zero(&0i8) && !Zero::is_zero(&1i8) && !Zero::is_zero(&i8::MIN));
    assert!(Zero::is_zero(&0i16) && !Zero::is_zero(&-1i16) && !Zero::is_zero(&i16::MIN));
    assert!(Zero::is_zero(&0i32) && !Zero::is_zero(&-1i32) && !Zero::is_zero(&i32::MIN));
    assert!(Zero::is_zero(&0i64) && !Zero::is_zero(&-1i64) && !Zero::is_zero(&i64::MIN));
    assert!(Zero::is_zero(&0i128) && !Zero::is_zero(&-1i128) && !Zero::is_zero(&i128::MIN));
}
