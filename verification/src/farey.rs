//! Fractions over any base type with addition and multiplication, and the
//! Farey mediant on them. Numerator and denominator are kept exactly as
//! given and as computed, never reduced.

use std::ops::{Add, Mul};
use vstd::prelude::*;
use vstd::std_specs::ops::{AddSpec, MulSpec};

verus! {

/// The fraction `numerator / denominator`, compared field by field: `1/2`
/// and `2/4` are different values.
#[derive(Debug, PartialEq, Structural)]
pub struct Fraction<T> {
    pub numerator: T,
    pub denominator: T,
}

impl<T> Fraction<T> {
    /// The fraction with the given numerator and denominator, unchecked and
    /// unreduced.
    pub fn new(numerator: T, denominator: T) -> (f: Fraction<T>)
        ensures
            f == (Fraction { numerator, denominator }),
    {
        Fraction { numerator, denominator }
    }
}

impl<T> Fraction<T> where T: Add<Output = T> {
    /// Where the mediant is defined: both sums are.
    pub open spec fn mediant_req(self, rhs: Self) -> bool {
        self.numerator.add_req(rhs.numerator) && self.denominator.add_req(rhs.denominator)
    }

    /// The mediant: numerator plus numerator over denominator plus
    /// denominator.
    pub open spec fn mediant_spec(self, rhs: Self) -> Self {
        Fraction {
            numerator: self.numerator.add_spec(rhs.numerator),
            denominator: self.denominator.add_spec(rhs.denominator),
        }
    }

    /// The Farey mediant of two fractions.
    pub fn mediant(self, rhs: Self) -> (m: Self)
        requires
            self.mediant_req(rhs),
        ensures
            T::obeys_add_spec() ==> m == self.mediant_spec(rhs),
    {
        Fraction::new(self.numerator + rhs.numerator, self.denominator + rhs.denominator)
    }
}

impl<T> vstd::std_specs::ops::AddSpecImpl for Fraction<T> where T: Add<Output = T> + Mul<Output = T> + Copy {
    open spec fn obeys_add_spec() -> bool {
        T::obeys_add_spec() && T::obeys_mul_spec()
    }

    open spec fn add_req(self, rhs: Self) -> bool {
        &&& T::obeys_mul_spec()
        &&& self.numerator.mul_req(rhs.denominator)
        &&& self.denominator.mul_req(rhs.numerator)
        &&& self.numerator.mul_spec(rhs.denominator).add_req(
            self.denominator.mul_spec(rhs.numerator),
        )
        &&& self.denominator.mul_req(rhs.denominator)
    }

    open spec fn add_spec(self, rhs: Self) -> Self {
        Fraction {
            numerator: self.numerator.mul_spec(rhs.denominator).add_spec(
                self.denominator.mul_spec(rhs.numerator),
            ),
            denominator: self.denominator.mul_spec(rhs.denominator),
        }
    }
}

impl<T> Add for Fraction<T> where T: Add<Output = T> + Mul<Output = T> + Copy {
    type Output = Self;

    fn add(self, rhs: Self) -> Self::Output {
        Fraction::new(
            (self.numerator * rhs.denominator) + (self.denominator * rhs.numerator),
            self.denominator * rhs.denominator,
        )
    }
}

impl<T> vstd::std_specs::ops::MulSpecImpl for Fraction<T> where T: Mul<Output = T> {
    open spec fn obeys_mul_spec() -> bool {
        T::obeys_mul_spec()
    }

    open spec fn mul_req(self, rhs: Self) -> bool {
        self.numerator.mul_req(rhs.numerator) && self.denominator.mul_req(rhs.denominator)
    }

    open spec fn mul_spec(self, rhs: Self) -> Self {
        Fraction {
            numerator: self.numerator.mul_spec(rhs.numerator),
            denominator: self.denominator.mul_spec(rhs.denominator),
        }
    }
}

impl<T> Mul for Fraction<T> where T: Mul<Output = T> {
    type Output = Self;

    fn mul(self, rhs: Self) -> Self::Output {
        Fraction::new(self.numerator * rhs.numerator, self.denominator * rhs.denominator)
    }
}

impl vstd::std_specs::convert::FromSpecImpl<(i8, i8)> for Fraction<i8> {
    open spec fn obeys_from_spec() -> bool {
        true
    }

    open spec fn from_spec(t: (i8, i8)) -> Self {
        Fraction { numerator: t.0, denominator: t.1 }
    }
}

impl From<(i8, i8)> for Fraction<i8> {
    fn from(t: (i8, i8)) -> (f: Self) {
        Fraction::new(t.0, t.1)
    }
}

impl vstd::std_specs::convert::FromSpecImpl<(i16, i16)> for Fraction<i16> {
    open spec fn obeys_from_spec() -> bool {
        true
    }

    open spec fn from_spec(t: (i16, i16)) -> Self {
        Fraction { numerator: t.0, denominator: t.1 }
    }
}

impl From<(i16, i16)> for Fraction<i16> {
    fn from(t: (i16, i16)) -> (f: Self) {
        Fraction::new(t.0, t.1)
    }
}

impl vstd::std_specs::convert::FromSpecImpl<(i32, i32)> for Fraction<i32> {
    open spec fn obeys_from_spec() -> bool {
        true
    }

    open spec fn from_spec(t: (i32, i32)) -> Self {
        Fraction { numerator: t.0, denominator: t.1 }
    }
}

impl From<(i32, i32)> for Fraction<i32> {
    fn from(t: (i32, i32)) -> (f: Self) {
        Fraction::new(t.0, t.1)
    }
}

impl vstd::std_specs::convert::FromSpecImpl<(i64, i64)> for Fraction<i64> {
    open spec fn obeys_from_spec() -> bool {
        true
    }

    open spec fn from_spec(t: (i64, i64)) -> Self {
        Fraction { numerator: t.0, denominator: t.1 }
    }
}

impl From<(i64, i64)> for Fraction<i64> {
    fn from(t: (i64, i64)) -> (f: Self) {
        Fraction::new(t.0, t.1)
    }
}

impl vstd::std_specs::convert::FromSpecImpl<(i128, i128)> for Fraction<i128> {
    open spec fn obeys_from_spec() -> bool {
        true
    }

    open spec fn from_spec(t: (i128, i128)) -> Self {
        Fraction { numerator: t.0, denominator: t.1 }
    }
}

impl From<(i128, i128)> for Fraction<i128> {
    fn from(t: (i128, i128)) -> (f: Self) {
        Fraction::new(t.0, t.1)
    }
}

impl vstd::std_specs::convert::FromSpecImpl<(u8, u8)> for Fraction<u8> {
    open spec fn obeys_from_spec() -> bool {
        true
    }

    open spec fn from_spec(t: (u8, u8)) -> Self {
        Fraction { numerator: t.0, denominator: t.1 }
    }
}

impl From<(u8, u8)> for Fraction<u8> {
    fn from(t: (u8, u8)) -> (f: Self) {
        Fraction::new(t.0, t.1)
    }
}

impl vstd::std_specs::convert::FromSpecImpl<(u16, u16)> for Fraction<u16> {
    open spec fn obeys_from_spec() -> bool {
        true
    }

    open spec fn from_spec(t: (u16, u16)) -> Self {
        Fraction { numerator: t.0, denominator: t.1 }
    }
}

impl From<(u16, u16)> for Fraction<u16> {
    fn from(t: (u16, u16)) -> (f: Self) {
        Fraction::new(t.0, t.1)
    }
}

impl vstd::std_specs::convert::FromSpecImpl<(u32, u32)> for Fraction<u32> {
    open spec fn obeys_from_spec() -> bool {
        true
    }

    open spec fn from_spec(t: (u32, u32)) -> Self {
        Fraction { numerator: t.0, denominator: t.1 }
    }
}

impl From<(u32, u32)> for Fraction<u32> {
    fn from(t: (u32, u32)) -> (f: Self) {
        Fraction::new(t.0, t.1)
    }
}

impl vstd::std_specs::convert::FromSpecImpl<(u64, u64)> for Fraction<u64> {
    open spec fn obeys_from_spec() -> bool {
        true
    }

    open spec fn from_spec(t: (u64, u64)) -> Self {
        Fraction { numerator: t.0, denominator: t.1 }
    }
}

impl From<(u64, u64)> for Fraction<u64> {
    fn from(t: (u64, u64)) -> (f: Self) {
        Fraction::new(t.0, t.1)
    }
}

impl vstd::std_specs::convert::FromSpecImpl<(u128, u128)> for Fraction<u128> {
    open spec fn obeys_from_spec() -> bool {
        true
    }

    open spec fn from_spec(t: (u128, u128)) -> Self {
        Fraction { numerator: t.0, denominator: t.1 }
    }
}

impl From<(u128, u128)> for Fraction<u128> {
    fn from(t: (u128, u128)) -> (f: Self) {
        Fraction::new(t.0, t.1)
    }
}

} // verus!
