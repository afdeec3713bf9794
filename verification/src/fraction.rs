//! Fractions over a base type that can take greatest common divisors:
//! numerator and denominator are kept exactly as given and as computed,
//! never reduced, and a zero or negative denominator is allowed.

use std::ops::{Add, Mul, Neg, Sub};
use vstd::prelude::*;
use vstd::std_specs::ops::{AddSpec, MulSpec, NegSpec, SubSpec};
use vstd::string::*;

use crate::gcd::Gcd;
use crate::text::Text;

verus! {

/// The fraction `numerator / denominator`, compared field by field: `1/2`
/// and `2/4` are different values.
#[derive(Debug, PartialEq, Eq, Structural)]
pub struct Fraction<T> {
    pub numerator: T,
    pub denominator: T,
}

impl<T> Fraction<T> where T: Gcd {
    /// The fraction with the given numerator and denominator, unchecked and
    /// unreduced.
    pub fn new(numerator: T, denominator: T) -> (f: Fraction<T>)
        ensures
            f == (Fraction { numerator, denominator }),
    {
        Fraction { numerator, denominator }
    }
}

impl<T> Fraction<T> where T: Add<Output = T> + Gcd {
    /// Where the mediant is defined: both sums are.
    pub open spec fn mediant_req(self, rhs: Self) -> bool {
        self.numerator.add_req(rhs.numerator) && self.denominator.add_req(rhs.denominator)
    }

    /// The mediant: numerator plus numerator over denominator plus
    /// denominator.
    pub open spec fn mediant_spec(self, rhs: Self) -> Self {
        Fraction {
            numerator: self.numerator.add_spec(rhs.numerator),
            denominator: self.denominator.add_spec(rhs.denominator),
        }
    }

    /// The Farey mediant of two fractions.
    pub fn mediant(self, rhs: Self) -> (m: Self)
        requires
            self.mediant_req(rhs),
        ensures
            T::obeys_add_spec() ==> m == self.mediant_spec(rhs),
    {
        Fraction::new(self.numerator + rhs.numerator, self.denominator + rhs.denominator)
    }
}

impl<T> vstd::std_specs::ops::AddSpecImpl for Fraction<T> where T: Add<Output = T> + Mul<Output = T> + Gcd + Copy {
    open spec fn obeys_add_spec() -> bool {
        T::obeys_add_spec() && T::obeys_mul_spec()
    }

    open spec fn add_req(self, rhs: Self) -> bool {
        &&& T::obeys_mul_spec()
        &&& self.numerator.mul_req(rhs.denominator)
        &&& self.denominator.mul_req(rhs.numerator)
        &&& self.numerator.mul_spec(rhs.denominator).add_req(
            self.denominator.mul_spec(rhs.numerator),
        )
        &&& self.denominator.mul_req(rhs.denominator)
    }

    open spec fn add_spec(self, rhs: Self) -> Self {
        Fraction {
            numerator: self.numerator.mul_spec(rhs.denominator).add_spec(
                self.denominator.mul_spec(rhs.numerator),
            ),
            denominator: self.denominator.mul_spec(rhs.denominator),
        }
    }
}

impl<T> Add for Fraction<T> where T: Add<Output = T> + Mul<Output = T> + Gcd + Copy {
    type Output = Self;

    fn add(self, rhs: Self) -> Self::Output {
        Fraction::new(
            (self.numerator * rhs.denominator) + (self.denominator * rhs.numerator),
            self.denominator * rhs.denominator,
        )
    }
}

impl<T> vstd::std_specs::ops::MulSpecImpl for Fraction<T> where T: Mul<Output = T> + Gcd {
    open spec fn obeys_mul_spec() -> bool {
        T::obeys_mul_spec()
    }

    open spec fn mul_req(self, rhs: Self) -> bool {
        self.numerator.mul_req(rhs.numerator) && self.denominator.mul_req(rhs.denominator)
    }

    open spec fn mul_spec(self, rhs: Self) -> Self {
        Fraction {
            numerator: self.numerator.mul_spec(rhs.numerator),
            denominator: self.denominator.mul_spec(rhs.denominator),
        }
    }
}

impl<T> Mul for Fraction<T> where T: Mul<Output = T> + Gcd {
    type Output = Self;

    fn mul(self, rhs: Self) -> Self::Output {
        Fraction::new(self.numerator * rhs.numerator, self.denominator * rhs.denominator)
    }
}

impl<T> vstd::std_specs::ops::NegSpecImpl for Fraction<T> where T: Neg<Output = T> + Gcd {
    open spec fn obeys_neg_spec() -> bool {
        T::obeys_neg_spec()
    }

    open spec fn neg_req(self) -> bool {
        self.numerator.neg_req()
    }

    open spec fn neg_spec(self) -> Self {
        Fraction { numerator: self.numerator.neg_spec(), denominator: self.denominator }
    }
}

impl<T> Neg for Fraction<T> where T: Neg<Output = T> + Gcd {
    type Output = Self;

    fn neg(self) -> Self::Output {
        Self::new(self.numerator.neg(), self.denominator)
    }
}

impl<T> vstd::std_specs::ops::SubSpecImpl for Fraction<T> where T: Neg<Output = T> + Add<Output = T> + Mul<Output = T> + Copy + Gcd {
    open spec fn obeys_sub_spec() -> bool {
        T::obeys_neg_spec() && T::obeys_add_spec() && T::obeys_mul_spec()
    }

    open spec fn sub_req(self, rhs: Self) -> bool {
        &&& T::obeys_neg_spec()
        &&& rhs.neg_req()
        &&& self.add_req(rhs.neg_spec())
    }

    open spec fn sub_spec(self, rhs: Self) -> Self {
        self.add_spec(rhs.neg_spec())
    }
}

impl<T> Sub for Fraction<T> where T: Neg<Output = T> + Add<Output = T> + Mul<Output = T> + Copy + Gcd {
    type Output = Self;

    fn sub(self, rhs: Self) -> Self::Output {
        self + rhs.neg()
    }
}

impl<T> Clone for Fraction<T> where T: Clone {
    fn clone(&self) -> (c: Self)
        ensures
            cloned::<T>(self.numerator, c.numerator),
            cloned::<T>(self.denominator, c.denominator),
    {
        Self { numerator: self.numerator.clone(), denominator: self.denominator.clone() }
    }
}

impl<T> Copy for Fraction<T> where T: Copy + Clone {

}

impl<T> Text for Fraction<T> where T: Text {
    /// The numerator, `/`, the denominator, each in the base type's own
    /// textual form.
    open spec fn text(&self) -> Seq<char> {
        self.numerator.text().push('/') + self.denominator.text()
    }

    fn to_text(&self) -> (s: String) {
        let mut s = self.numerator.to_text();
        let d = self.denominator.to_text();
        s.append("/");
        s.append(d.as_str());
        proof {
            reveal_strlit("/");
            assert(s@ =~= self.text());
        }
        s
    }
}

impl<T> Fraction<T> where T: Text {
    /// The textual form as an owned string.
    pub fn to_string(&self) -> (s: String)
        ensures
            s@ == self.text(),
    {
        self.to_text()
    }
}

/// The mediant lies strictly between its two fractions: for `p/q < r/s` with
/// positive denominators, `p/q < (p + r)/(q + s) < r/s`, each comparison
/// taken by cross-multiplication.
pub proof fn lemma_mediant_between(p: int, q: int, r: int, s: int)
    requires
        q > 0,
        s > 0,
        p * s < r * q,
    ensures
        p * (q + s) < (p + r) * q,
        (p + r) * s < r * (q + s),
{
    assert(p * (q + s) == p * q + p * s) by (nonlinear_arith);
    assert((p + r) * q == p * q + r * q) by (nonlinear_arith);
    assert((p + r) * s == p * s + r * s) by (nonlinear_arith);
    assert(r * (q + s) == r * q + r * s) by (nonlinear_arith);
}

/// Neighbours stay neighbours: if `p/q` and `r/s` satisfy `q * r - p * s == 1`,
/// then so do `p/q` with the mediant and the mediant with `r/s`. Repeated
/// mediant insertion therefore never needs a reduction.
pub proof fn lemma_mediant_keeps_neighbours(p: int, q: int, r: int, s: int)
    requires
        q * r - p * s == 1,
    ensures
        q * (p + r) - p * (q + s) == 1,
        (q + s) * r - (p + r) * s == 1,
{
    assert(q * (p + r) - p * (q + s) == q * r - p * s) by (nonlinear_arith);
    assert((q + s) * r - (p + r) * s == q * r - p * s) by (nonlinear_arith);
}

/// One round of mediant insertion: between every two neighbours of
/// `sequence` stands their mediant, and nothing else changes.
pub fn mediants<T>(sequence: Vec<Fraction<T>>) -> (result: Vec<Fraction<T>>) where
    T: Add<Output = T> + Gcd + Copy,

    requires
        sequence.len() >= 1,
        forall|i: int|
            0 <= i < sequence.len() - 1 ==> (#[trigger] sequence[i]).mediant_req(sequence[i + 1]),
    ensures
        result.len() == 2 * sequence.len() - 1,
        forall|i: int| 0 <= i < sequence.len() ==> result[2 * i] == #[trigger] sequence[i],
        T::obeys_add_spec() ==> forall|i: int|
            0 <= i < sequence.len() - 1 ==> result[2 * i + 1] == (#[trigger] sequence[i]).mediant_spec(
                sequence[i + 1],
            ),
{
    let mut result: Vec<Fraction<T>> = Vec::new();
    let n: usize = sequence.len();
    let mut index: usize = 0;
    while index < n - 1
        invariant
            n == sequence.len(),
            n >= 1,
            index <= n - 1,
            result.len() == 2 * index,
            forall|i: int|
                0 <= i < sequence.len() - 1 ==> (#[trigger] sequence[i]).mediant_req(
                    sequence[i + 1],
                ),
            forall|i: int| 0 <= i < index ==> result[2 * i] == #[trigger] sequence[i],
            T::obeys_add_spec() ==> forall|i: int|
                0 <= i < index ==> result[2 * i + 1] == (#[trigger] sequence[i]).mediant_spec(
                    sequence[i + 1],
                ),
        decreases n - index,
    {
        let first = sequence[index];
        let second = sequence[index + 1];

        result.push(first);
        result.push(first.mediant(second));
        index = index + 1;
    }
    result.push(sequence[n - 1]);

    result
}

/// Two fractions `p/q` and `r/s` over the unsigned 64-bit integers are
/// neighbours when `q * r - p * s == 1`, taken over the mathematical
/// integers.
pub open spec fn neighbours(a: Fraction<u64>, b: Fraction<u64>) -> bool {
    a.denominator * b.numerator - a.numerator * b.denominator == 1
}

/// A round of mediant insertion keeps a sequence of neighbours a sequence of
/// neighbours: if every two adjacent fractions of `sequence` are neighbours
/// and `result` is what `mediants` returns for it, then every two adjacent
/// fractions of `result` are neighbours too. With positive denominators the
/// sequence therefore stays strictly increasing.
pub proof fn lemma_mediants_keep_neighbours(
    sequence: Seq<Fraction<u64>>,
    result: Seq<Fraction<u64>>,
)
    requires
        sequence.len() >= 1,
        forall|i: int|
            0 <= i < sequence.len() - 1 ==> (#[trigger] sequence[i]).mediant_req(sequence[i + 1])
                && neighbours(sequence[i], sequence[i + 1]),
        result.len() == 2 * sequence.len() - 1,
        forall|i: int| 0 <= i < sequence.len() ==> result[2 * i] == #[trigger] sequence[i],
        forall|i: int|
            0 <= i < sequence.len() - 1 ==> result[2 * i + 1] == (#[trigger] sequence[i]).mediant_spec(
                sequence[i + 1],
            ),
    ensures
        forall|j: int| 0 <= j < result.len() - 1 ==> neighbours(#[trigger] result[j], result[j + 1]),
{
    assert forall|j: int| 0 <= j < result.len() - 1 implies neighbours(
        #[trigger] result[j],
        result[j + 1],
    ) by {
        let i = j / 2;
        let a = sequence[i];
        let b = sequence[i + 1];
        assert(a.mediant_req(b) && neighbours(a, b));
        assert(result[2 * i] == a);
        assert(result[2 * (i + 1)] == b);
        assert(result[2 * i + 1] == a.mediant_spec(b));
        lemma_mediant_keeps_neighbours(
            a.numerator as int,
            a.denominator as int,
            b.numerator as int,
            b.denominator as int,
        );
    }
}

impl vstd::std_specs::convert::FromSpecImpl<(i8, i8)> for Fraction<i8> {
    open spec fn obeys_from_spec() -> bool {
        true
    }

    open spec fn from_spec(t: (i8, i8)) -> Self {
        Fraction { numerator: t.0, denominator: t.1 }
    }
}

impl From<(i8, i8)> for Fraction<i8> {
    fn from(t: (i8, i8)) -> (f: Self) {
        Fraction::new(t.0, t.1)
    }
}

impl vstd::std_specs::convert::FromSpecImpl<(i16, i16)> for Fraction<i16> {
    open spec fn obeys_from_spec() -> bool {
        true
    }

    open spec fn from_spec(t: (i16, i16)) -> Self {
        Fraction { numerator: t.0, denominator: t.1 }
    }
}

impl From<(i16, i16)> for Fraction<i16> {
    fn from(t: (i16, i16)) -> (f: Self) {
        Fraction::new(t.0, t.1)
    }
}

impl vstd::std_specs::convert::FromSpecImpl<(i32, i32)> for Fraction<i32> {
    open spec fn obeys_from_spec() -> bool {
        true
    }

    open spec fn from_spec(t: (i32, i32)) -> Self {
        Fraction { numerator: t.0, denominator: t.1 }
    }
}

impl From<(i32, i32)> for Fraction<i32> {
    fn from(t: (i32, i32)) -> (f: Self) {
        Fraction::new(t.0, t.1)
    }
}

impl vstd::std_specs::convert::FromSpecImpl<(i64, i64)> for Fraction<i64> {
    open spec fn obeys_from_spec() -> bool {
        true
    }

    open spec fn from_spec(t: (i64, i64)) -> Self {
        Fraction { numerator: t.0, denominator: t.1 }
    }
}

impl From<(i64, i64)> for Fraction<i64> {
    fn from(t: (i64, i64)) -> (f: Self) {
        Fraction::new(t.0, t.1)
    }
}

impl vstd::std_specs::convert::FromSpecImpl<(i128, i128)> for Fraction<i128> {
    open spec fn obeys_from_spec() -> bool {
        true
    }

    open spec fn from_spec(t: (i128, i128)) -> Self {
        Fraction { numerator: t.0, denominator: t.1 }
    }
}

impl From<(i128, i128)> for Fraction<i128> {
    fn from(t: (i128, i128)) -> (f: Self) {
        Fraction::new(t.0, t.1)
    }
}

impl vstd::std_specs::convert::FromSpecImpl<(u8, u8)> for Fraction<u8> {
    open spec fn obeys_from_spec() -> bool {
        true
    }

    open spec fn from_spec(t: (u8, u8)) -> Self {
        Fraction { numerator: t.0, denominator: t.1 }
    }
}

impl From<(u8, u8)> for Fraction<u8> {
    fn from(t: (u8, u8)) -> (f: Self) {
        Fraction::new(t.0, t.1)
    }
}

impl vstd::std_specs::convert::FromSpecImpl<(u16, u16)> for Fraction<u16> {
    open spec fn obeys_from_spec() -> bool {
        true
    }

    open spec fn from_spec(t: (u16, u16)) -> Self {
        Fraction { numerator: t.0, denominator: t.1 }
    }
}

impl From<(u16, u16)> for Fraction<u16> {
    fn from(t: (u16, u16)) -> (f: Self) {
        Fraction::new(t.0, t.1)
    }
}

impl vstd::std_specs::convert::FromSpecImpl<(u32, u32)> for Fraction<u32> {
    open spec fn obeys_from_spec() -> bool {
        true
    }

    open spec fn from_spec(t: (u32, u32)) -> Self {
        Fraction { numerator: t.0, denominator: t.1 }
    }
}

impl From<(u32, u32)> for Fraction<u32> {
    fn from(t: (u32, u32)) -> (f: Self) {
        Fraction::new(t.0, t.1)
    }
}

impl vstd::std_specs::convert::FromSpecImpl<(u64, u64)> for Fraction<u64> {
    open spec fn obeys_from_spec() -> bool {
        true
    }

    open spec fn from_spec(t: (u64, u64)) -> Self {
        Fraction { numerator: t.0, denominator: t.1 }
    }
}

impl From<(u64, u64)> for Fraction<u64> {
    fn from(t: (u64, u64)) -> (f: Self) {
        Fraction::new(t.0, t.1)
    }
}

impl vstd::std_specs::convert::FromSpecImpl<(u128, u128)> for Fraction<u128> {
    open spec fn obeys_from_spec() -> bool {
        true
    }

    open spec fn from_spec(t: (u128, u128)) -> Self {
        Fraction { numerator: t.0, denominator: t.1 }
    }
}

impl From<(u128, u128)> for Fraction<u128> {
    fn from(t: (u128, u128)) -> (f: Self) {
        Fraction::new(t.0, t.1)
    }
}

} // verus!
