//! Gaussian integers: pairs of integers read as `real + complex * i`, with
//! the ring operations, a division with remainder and the Euclidean
//! recursion built on it.
//!
//! Every operation is stated over the base type's own operators: where they
//! are defined (`add_req`, `mul_req`, ...) and what they yield (`add_spec`,
//! `mul_spec`, ...). For the fixed-width integers these say that the result
//! fits the width and is the mathematical one.

use std::ops::{Add, Div, Mul, Neg, Rem, Sub};
use vstd::prelude::*;
use vstd::std_specs::ops::{AddSpec, DivSpec, MulSpec, NegSpec, RemSpec, SubSpec};
use vstd::string::*;

use crate::gcd::Gcd;
use crate::text::{decimal, lemma_decimal_injective, lemma_decimal_shape, Text};
use crate::zero::Zero;

verus! {

/// The Gaussian integer `real + complex * i`.
#[derive(Debug, PartialEq, Eq, Structural, Copy, Clone)]
pub struct Gaussian<T> {
    pub real: T,
    pub complex: T,
}

impl<T> Gaussian<T> {
    /// The Gaussian integer with the given real and imaginary part.
    pub fn new(re: T, im: T) -> (g: Self)
        ensures
            g == (Gaussian { real: re, complex: im }),
    {
        Self { real: re, complex: im }
    }
}

impl<T> Gaussian<T> where T: Add<Output = T> + Mul<Output = T> + Copy {
    /// Where the norm is defined: both squares and their sum are.
    pub open spec fn norm_req(&self) -> bool {
        &&& T::obeys_mul_spec()
        &&& self.real.mul_req(self.real)
        &&& self.complex.mul_req(self.complex)
        &&& self.real.mul_spec(self.real).add_req(self.complex.mul_spec(self.complex))
    }

    /// The norm `real * real + complex * complex`.
    pub open spec fn norm_spec(&self) -> T {
        self.real.mul_spec(self.real).add_spec(self.complex.mul_spec(self.complex))
    }

    /// The norm, by the base type's own multiplication and addition.
    pub fn norm(&self) -> (n: T)
        requires
            self.norm_req(),
        ensures
            T::obeys_add_spec() ==> n == self.norm_spec(),
    {
        self.real * self.real + self.complex * self.complex
    }
}

impl<T> vstd::std_specs::ops::AddSpecImpl for Gaussian<T> where T: Add<T, Output = T> {
    open spec fn obeys_add_spec() -> bool {
        T::obeys_add_spec()
    }

    open spec fn add_req(self, rhs: Self) -> bool {
        self.real.add_req(rhs.real) && self.complex.add_req(rhs.complex)
    }

    open spec fn add_spec(self, rhs: Self) -> Self {
        Gaussian { real: self.real.add_spec(rhs.real), complex: self.complex.add_spec(rhs.complex) }
    }
}

impl<T> Add for Gaussian<T> where T: Add<T, Output = T> {
    type Output = Self;

    fn add(self, rhs: Self) -> Self::Output {
        Self::new(self.real + rhs.real, self.complex + rhs.complex)
    }
}

impl<T> vstd::std_specs::ops::MulSpecImpl for Gaussian<T> where
    T: Mul<T, Output = T> + Add<Output = T> + Sub<Output = T> + Copy,
 {
    open spec fn obeys_mul_spec() -> bool {
        T::obeys_mul_spec() && T::obeys_add_spec() && T::obeys_sub_spec()
    }

    open spec fn mul_req(self, rhs: Self) -> bool {
        &&& T::obeys_mul_spec()
        &&& self.real.mul_req(rhs.real)
        &&& self.complex.mul_req(rhs.complex)
        &&& self.real.mul_spec(rhs.real).sub_req(self.complex.mul_spec(rhs.complex))
        &&& self.real.mul_req(rhs.complex)
        &&& self.complex.mul_req(rhs.real)
        &&& self.real.mul_spec(rhs.complex).add_req(self.complex.mul_spec(rhs.real))
    }

    open spec fn mul_spec(self, rhs: Self) -> Self {
        Gaussian {
            real: self.real.mul_spec(rhs.real).sub_spec(self.complex.mul_spec(rhs.complex)),
            complex: self.real.mul_spec(rhs.complex).add_spec(self.complex.mul_spec(rhs.real)),
        }
    }
}

impl<T> Mul for Gaussian<T> where
    T: Mul<T, Output = T> + Add<Output = T> + Sub<Output = T> + Copy,
 {
    type Output = Self;

    fn mul(self, rhs: Self) -> Self::Output {
        Self::new(
            self.real * rhs.real - self.complex * rhs.complex,
            self.real * rhs.complex + self.complex * rhs.real,
        )
    }
}

impl<T> vstd::std_specs::ops::NegSpecImpl for Gaussian<T> where T: Neg<Output = T> {
    open spec fn obeys_neg_spec() -> bool {
        T::obeys_neg_spec()
    }

    open spec fn neg_req(self) -> bool {
        self.real.neg_req() && self.complex.neg_req()
    }

    open spec fn neg_spec(self) -> Self {
        Gaussian { real: self.real.neg_spec(), complex: self.complex.neg_spec() }
    }
}

impl<T> Neg for Gaussian<T> where T: Neg<Output = T> {
    type Output = Self;

    fn neg(self) -> Self::Output {
        Self::new(self.real.neg(), self.complex.neg())
    }
}

impl<T> vstd::std_specs::ops::SubSpecImpl for Gaussian<T> where T: Neg<Output = T> + Add<Output = T> {
    open spec fn obeys_sub_spec() -> bool {
        T::obeys_neg_spec() && T::obeys_add_spec()
    }

    open spec fn sub_req(self, rhs: Self) -> bool {
        &&& T::obeys_neg_spec()
        &&& rhs.neg_req()
        &&& self.add_req(rhs.neg_spec())
    }

    open spec fn sub_spec(self, rhs: Self) -> Self {
        self.add_spec(rhs.neg_spec())
    }
}

impl<T> Sub for Gaussian<T> where T: Neg<Output = T> + Add<Output = T> {
    type Output = Self;

    fn sub(self, rhs: Self) -> Self::Output {
        self + rhs.neg()
    }
}

impl<T> Gaussian<T> where
    T: Add<Output = T> + Mul<Output = T> + Sub<Output = T> + Div<Output = T> + Rem<Output = T> + Neg<
        Output = T,
    > + Copy,
 {
    /// Real part of `self` times the conjugate of `rhs`:
    /// `self.real * rhs.real + self.complex * rhs.complex`.
    pub open spec fn conj_real(self, rhs: Self) -> T {
        self.real.mul_spec(rhs.real).add_spec(self.complex.mul_spec(rhs.complex))
    }

    /// Imaginary part of `self` times the conjugate of `rhs`:
    /// `self.complex * rhs.real - self.real * rhs.complex`.
    pub open spec fn conj_complex(self, rhs: Self) -> T {
        self.complex.mul_spec(rhs.real).sub_spec(self.real.mul_spec(rhs.complex))
    }

    /// Where the division with remainder is defined: the norm of the divisor
    /// and both parts of `self` times its conjugate are, and each part can be
    /// divided by that norm. For the fixed-width integers this leaves out a
    /// zero divisor and every overflow.
    pub open spec fn quo_rem_req(self, rhs: Self) -> bool {
        &&& T::obeys_mul_spec()
        &&& T::obeys_add_spec()
        &&& T::obeys_sub_spec()
        &&& rhs.norm_req()
        &&& self.real.mul_req(rhs.real)
        &&& self.complex.mul_req(rhs.complex)
        &&& self.real.mul_spec(rhs.real).add_req(self.complex.mul_spec(rhs.complex))
        &&& self.complex.mul_req(rhs.real)
        &&& self.real.mul_req(rhs.complex)
        &&& self.complex.mul_spec(rhs.real).sub_req(self.real.mul_spec(rhs.complex))
        &&& self.conj_real(rhs).div_req(rhs.norm_spec())
        &&& self.conj_complex(rhs).div_req(rhs.norm_spec())
        &&& self.conj_real(rhs).rem_req(rhs.norm_spec())
        &&& self.conj_complex(rhs).rem_req(rhs.norm_spec())
    }

    /// The quotient: each part of `self` times the conjugate of `rhs`,
    /// divided by the norm of `rhs` with the base type's own division.
    pub open spec fn quotient(self, rhs: Self) -> Self {
        Gaussian {
            real: self.conj_real(rhs).div_spec(rhs.norm_spec()),
            complex: self.conj_complex(rhs).div_spec(rhs.norm_spec()),
        }
    }

    /// The remainder: each part of `self` times the conjugate of `rhs`,
    /// reduced by the norm of `rhs` with the base type's own remainder.
    pub open spec fn remainder(self, rhs: Self) -> Self {
        Gaussian {
            real: self.conj_real(rhs).rem_spec(rhs.norm_spec()),
            complex: self.conj_complex(rhs).rem_spec(rhs.norm_spec()),
        }
    }

    /// Division with remainder: the pair of quotient and remainder.
    pub fn quo_rem(self, rhs: Self) -> (qr: (Self, Self))
        requires
            self.quo_rem_req(rhs),
        ensures
            T::obeys_div_spec() ==> qr.0 == self.quotient(rhs),
            T::obeys_rem_spec() ==> qr.1 == self.remainder(rhs),
    {
        let n = rhs.norm();
        let a = self.real * rhs.real + self.complex * rhs.complex;
        let b = self.complex * rhs.real - self.real * rhs.complex;

        let q = Self::new(a / n, b / n);
        let r = Self::new(a % n, b % n);

        (q, r)
    }
}

impl<T> vstd::std_specs::ops::DivSpecImpl for Gaussian<T> where
    T: Add<Output = T> + Mul<Output = T> + Sub<Output = T> + Div<Output = T> + Rem<Output = T> + Neg<
        Output = T,
    > + Copy,
 {
    open spec fn obeys_div_spec() -> bool {
        T::obeys_div_spec()
    }

    open spec fn div_req(self, rhs: Self) -> bool {
        self.quo_rem_req(rhs)
    }

    open spec fn div_spec(self, rhs: Self) -> Self {
        self.quotient(rhs)
    }
}

impl<T> Div for Gaussian<T> where
    T: Add<Output = T> + Mul<Output = T> + Sub<Output = T> + Div<Output = T> + Rem<Output = T> + Neg<
        Output = T,
    > + Copy,
 {
    type Output = Gaussian<T>;

    fn div(self, rhs: Self) -> Self::Output {
        let (q, _) = self.quo_rem(rhs);

        q
    }
}

impl<T> vstd::std_specs::ops::RemSpecImpl for Gaussian<T> where
    T: Add<Output = T> + Mul<Output = T> + Sub<Output = T> + Div<Output = T> + Rem<Output = T> + Neg<
        Output = T,
    > + Copy,
 {
    open spec fn obeys_rem_spec() -> bool {
        T::obeys_rem_spec()
    }

    open spec fn rem_req(self, rhs: Self) -> bool {
        self.quo_rem_req(rhs)
    }

    open spec fn rem_spec(self, rhs: Self) -> Self {
        self.remainder(rhs)
    }
}

impl<T> Rem for Gaussian<T> where
    T: Add<Output = T> + Mul<Output = T> + Sub<Output = T> + Div<Output = T> + Rem<Output = T> + Neg<
        Output = T,
    > + Copy,
 {
    type Output = Gaussian<T>;

    fn rem(self, rhs: Self) -> Self::Output {
        let (_, r) = self.quo_rem(rhs);

        r
    }
}

impl<T> Zero for Gaussian<T> where T: Zero {
    open spec fn zero_spec() -> Self {
        Gaussian { real: T::zero_spec(), complex: T::zero_spec() }
    }

    open spec fn is_zero_spec(&self) -> bool {
        self.real.is_zero_spec() && self.complex.is_zero_spec()
    }

    fn zero() -> (z: Self) {
        Self::new(T::zero(), T::zero())
    }

    fn is_zero(&self) -> (b: bool) {
        self.real.is_zero() && self.complex.is_zero()
    }
}

impl<T> Gaussian<T> where
    T: Add<Output = T> + Mul<Output = T> + Sub<Output = T> + Div<Output = T> + Rem<Output = T> + Neg<
        Output = T,
    > + Zero + Copy,
 {
    /// The Euclidean recursion on `(self, rhs)` reaches a zero second
    /// component after at most `k` remainders, each of them defined.
    pub open spec fn euclid_ends_within(self, rhs: Self, k: nat) -> bool
        decreases k,
    {
        rhs.is_zero_spec() || (k > 0 && self.quo_rem_req(rhs) && rhs.euclid_ends_within(
            self.remainder(rhs),
            (k - 1) as nat,
        ))
    }

    /// The first component after the Euclidean recursion has taken `k`
    /// remainders, or fewer if the second component became zero before.
    pub open spec fn euclid_after(self, rhs: Self, k: nat) -> Self
        decreases k,
    {
        if rhs.is_zero_spec() || k == 0 {
            self
        } else {
            rhs.euclid_after(self.remainder(rhs), (k - 1) as nat)
        }
    }

    /// Once the recursion has ended, further steps change nothing: any two
    /// bounds within which it ends give the same result.
    pub proof fn lemma_euclid_after_stable(self, rhs: Self, j: nat, k: nat)
        requires
            self.euclid_ends_within(rhs, j),
            self.euclid_ends_within(rhs, k),
        ensures
            self.euclid_after(rhs, j) == self.euclid_after(rhs, k),
        decreases j,
    {
        if !rhs.is_zero_spec() {
            rhs.lemma_euclid_after_stable(self.remainder(rhs), (j - 1) as nat, (k - 1) as nat);
        }
    }
}

impl<T> Gcd for Gaussian<T> where
    T: Add<Output = T> + Mul<Output = T> + Sub<Output = T> + Div<Output = T> + Rem<Output = T> + Neg<
        Output = T,
    > + Zero + Copy,
 {
    /// The base type's remainder is specified, and the recursion ends after
    /// finitely many remainders, each of them defined.
    open spec fn gcd_req(self, rhs: Self) -> bool {
        T::obeys_rem_spec() && exists|k: nat| self.euclid_ends_within(rhs, k)
    }

    open spec fn gcd_spec(self, rhs: Self) -> Self {
        self.euclid_after(rhs, choose|k: nat| self.euclid_ends_within(rhs, k))
    }

    /// Runs the Euclidean recursion with the remainder of `quo_rem` until
    /// the second component is zero, and returns the first.
    fn gcd(self, rhs: Self) -> (g: Self)
        ensures
            rhs.is_zero_spec() ==> g == self,
            forall|k: nat| self.euclid_ends_within(rhs, k) ==> g == self.euclid_after(rhs, k),
    {
        let ghost k0: nat = choose|k: nat| self.euclid_ends_within(rhs, k);
        let ghost mut k: nat = k0;
        let mut a = self;
        let mut b = rhs;
        while !b.is_zero()
            invariant
                T::obeys_rem_spec(),
                a.euclid_ends_within(b, k),
                a.euclid_after(b, k) == self.euclid_after(rhs, k0),
            decreases k,
        {
            let r = a % b;
            a = b;
            b = r;
            proof {
                k = (k - 1) as nat;
            }
        }
        proof {
            assert forall|j: nat| self.euclid_ends_within(rhs, j) implies a == self.euclid_after(
                rhs,
                j,
            ) by {
                self.lemma_euclid_after_stable(rhs, j, k0);
            }
        }
        a
    }
}

impl<T> Text for Gaussian<T> where T: Text + Zero {
    /// The real part alone when the imaginary part is zero; the imaginary
    /// part followed by `i` when the real part is zero; otherwise the real
    /// part, `+`, the imaginary part and `i`. A negative imaginary part keeps
    /// its own sign after the `+`.
    open spec fn text(&self) -> Seq<char> {
        if self.complex.is_zero_spec() {
            self.real.text()
        } else if self.real.is_zero_spec() {
            self.complex.text().push('i')
        } else {
            self.real.text().push('+') + self.complex.text().push('i')
        }
    }

    fn to_text(&self) -> (s: String) {
        if self.complex.is_zero() {
            self.real.to_text()
        } else if self.real.is_zero() {
            let mut s = self.complex.to_text();
            s.append("i");
            proof {
                reveal_strlit("i");
                assert(s@ =~= self.text());
            }
            s
        } else {
            let mut s = self.real.to_text();
            let im = self.complex.to_text();
            s.append("+");
            s.append(im.as_str());
            s.append("i");
            proof {
                reveal_strlit("+");
                reveal_strlit("i");
                assert(s@ =~= self.text());
            }
            s
        }
    }
}

impl<T> Gaussian<T> where T: Text + Zero {
    /// The textual form as an owned string.
    pub fn to_string(&self) -> (s: String)
        ensures
            s@ == self.text(),
    {
        self.to_text()
    }
}

/// The textual form of a Gaussian integer over any of the fixed-width
/// integers, stated on the mathematical values of its parts: what
/// `Gaussian::text` is when the base type renders itself in decimal and
/// tests for zero by comparing with `0`.
pub open spec fn integer_text(re: int, im: int) -> Seq<char> {
    if im == 0 {
        decimal(re)
    } else if re == 0 {
        decimal(im).push('i')
    } else {
        decimal(re).push('+') + decimal(im).push('i')
    }
}

/// The textual form determines the pair: two Gaussian integers with the same
/// text have the same real part and the same imaginary part, so the text can
/// be read back without loss in each of its three forms.
pub proof fn lemma_integer_text_injective(re_a: int, im_a: int, re_b: int, im_b: int)
    requires
        integer_text(re_a, im_a) == integer_text(re_b, im_b),
    ensures
        re_a == re_b,
        im_a == im_b,
{
    let ta = integer_text(re_a, im_a);
    let tb = integer_text(re_b, im_b);
    lemma_integer_text_shape(re_a, im_a);
    lemma_integer_text_shape(re_b, im_b);
    lemma_decimal_shape(re_a);
    lemma_decimal_shape(re_b);
    lemma_decimal_shape(im_a);
    lemma_decimal_shape(im_b);
    if im_a == 0 {
        lemma_decimal_injective(re_a, re_b);
    } else if re_a == 0 {
        assert(ta.drop_last() =~= decimal(im_a));
        assert(tb.drop_last() =~= decimal(im_b));
        lemma_decimal_injective(im_a, im_b);
    } else {
        let ka = decimal(re_a).len() as int;
        let kb = decimal(re_b).len() as int;
        assert(ta[ka] == '+');
        assert(tb[kb] == '+');
        if ka < kb {
            assert(tb[ka] == decimal(re_b)[ka]);
        } else if kb < ka {
            assert(ta[kb] == decimal(re_a)[kb]);
        }
        assert(ta.subrange(0, ka) =~= decimal(re_a));
        assert(tb.subrange(0, kb) =~= decimal(re_b));
        lemma_decimal_injective(re_a, re_b);
        assert(ta.subrange(ka + 1, ta.len() - 1) =~= decimal(im_a));
        assert(tb.subrange(kb + 1, tb.len() - 1) =~= decimal(im_b));
        lemma_decimal_injective(im_a, im_b);
    }
}

/// Which of its three forms a text has can be read off it: it ends in `i`
/// exactly when the imaginary part is not zero, and it holds a `+` exactly
/// when neither part is zero.
pub proof fn lemma_integer_text_shape(re: int, im: int)
    ensures
        integer_text(re, im).len() >= 1,
        im != 0 <==> integer_text(re, im).last() == 'i',
        (re != 0 && im != 0) <==> exists|k: int|
            0 <= k < integer_text(re, im).len() && #[trigger] integer_text(re, im)[k] == '+',
{
    let t = integer_text(re, im);
    lemma_decimal_shape(re);
    lemma_decimal_shape(im);
    if im == 0 {
    } else if re == 0 {
        assert forall|k: int| 0 <= k < t.len() implies #[trigger] t[k] != '+' by {
            if k < decimal(im).len() {
                assert(t[k] == decimal(im)[k]);
            }
        }
    } else {
        assert(t[decimal(re).len() as int] == '+');
    }
}

/// The norm of a pair of integers is never negative, and it is zero for the
/// zero pair alone: division by a nonzero Gaussian integer never divides by
/// zero.
pub proof fn lemma_norm_zero_iff_zero(re: int, im: int)
    ensures
        re * re + im * im >= 0,
        re * re + im * im == 0 <==> (re == 0 && im == 0),
{
    assert(re * re >= 0 && (re * re == 0 <==> re == 0)) by (nonlinear_arith);
    assert(im * im >= 0 && (im * im == 0 <==> im == 0)) by (nonlinear_arith);
}

impl vstd::std_specs::convert::FromSpecImpl<(i8, i8)> for Gaussian<i8> {
    open spec fn obeys_from_spec() -> bool {
        true
    }

    open spec fn from_spec(t: (i8, i8)) -> Self {
        Gaussian { real: t.0, complex: t.1 }
    }
}

impl From<(i8, i8)> for Gaussian<i8> {
    fn from(t: (i8, i8)) -> (g: Self) {
        Gaussian::new(t.0, t.1)
    }
}

impl vstd::std_specs::convert::FromSpecImpl<(i16, i16)> for Gaussian<i16> {
    open spec fn obeys_from_spec() -> bool {
        true
    }

    open spec fn from_spec(t: (i16, i16)) -> Self {
        Gaussian { real: t.0, complex: t.1 }
    }
}

impl From<(i16, i16)> for Gaussian<i16> {
    fn from(t: (i16, i16)) -> (g: Self) {
        Gaussian::new(t.0, t.1)
    }
}

impl vstd::std_specs::convert::FromSpecImpl<(i32, i32)> for Gaussian<i32> {
    open spec fn obeys_from_spec() -> bool {
        true
    }

    open spec fn from_spec(t: (i32, i32)) -> Self {
        Gaussian { real: t.0, complex: t.1 }
    }
}

impl From<(i32, i32)> for Gaussian<i32> {
    fn from(t: (i32, i32)) -> (g: Self) {
        Gaussian::new(t.0, t.1)
    }
}

impl vstd::std_specs::convert::FromSpecImpl<(i64, i64)> for Gaussian<i64> {
    open spec fn obeys_from_spec() -> bool {
        true
    }

    open spec fn from_spec(t: (i64, i64)) -> Self {
        Gaussian { real: t.0, complex: t.1 }
    }
}

impl From<(i64, i64)> for Gaussian<i64> {
    fn from(t: (i64, i64)) -> (g: Self) {
        Gaussian::new(t.0, t.1)
    }
}

impl vstd::std_specs::convert::FromSpecImpl<(i128, i128)> for Gaussian<i128> {
    open spec fn obeys_from_spec() -> bool {
        true
    }

    open spec fn from_spec(t: (i128, i128)) -> Self {
        Gaussian { real: t.0, complex: t.1 }
    }
}

impl From<(i128, i128)> for Gaussian<i128> {
    fn from(t: (i128, i128)) -> (g: Self) {
        Gaussian::new(t.0, t.1)
    }
}

impl vstd::std_specs::convert::FromSpecImpl<(u8, u8)> for Gaussian<u8> {
    open spec fn obeys_from_spec() -> bool {
        true
    }

    open spec fn from_spec(t: (u8, u8)) -> Self {
        Gaussian { real: t.0, complex: t.1 }
    }
}

impl From<(u8, u8)> for Gaussian<u8> {
    fn from(t: (u8, u8)) -> (g: Self) {
        Gaussian::new(t.0, t.1)
    }
}

impl vstd::std_specs::convert::FromSpecImpl<(u16, u16)> for Gaussian<u16> {
    open spec fn obeys_from_spec() -> bool {
        true
    }

    open spec fn from_spec(t: (u16, u16)) -> Self {
        Gaussian { real: t.0, complex: t.1 }
    }
}

impl From<(u16, u16)> for Gaussian<u16> {
    fn from(t: (u16, u16)) -> (g: Self) {
        Gaussian::new(t.0, t.1)
    }
}

impl vstd::std_specs::convert::FromSpecImpl<(u32, u32)> for Gaussian<u32> {
    open spec fn obeys_from_spec() -> bool {
        true
    }

    open spec fn from_spec(t: (u32, u32)) -> Self {
        Gaussian { real: t.0, complex: t.1 }
    }
}

impl From<(u32, u32)> for Gaussian<u32> {
    fn from(t: (u32, u32)) -> (g: Self) {
        Gaussian::new(t.0, t.1)
    }
}

impl vstd::std_specs::convert::FromSpecImpl<(u64, u64)> for Gaussian<u64> {
    open spec fn obeys_from_spec() -> bool {
        true
    }

    open spec fn from_spec(t: (u64, u64)) -> Self {
        Gaussian { real: t.0, complex: t.1 }
    }
}

impl From<(u64, u64)> for Gaussian<u64> {
    fn from(t: (u64, u64)) -> (g: Self) {
        Gaussian::new(t.0, t.1)
    }
}

impl vstd::std_specs::convert::FromSpecImpl<(u128, u128)> for Gaussian<u128> {
    open spec fn obeys_from_spec() -> bool {
        true
    }

    open spec fn from_spec(t: (u128, u128)) -> Self {
        Gaussian { real: t.0, complex: t.1 }
    }
}

impl From<(u128, u128)> for Gaussian<u128> {
    fn from(t: (u128, u128)) -> (g: Self) {
        Gaussian::new(t.0, t.1)
    }
}

impl vstd::std_specs::convert::FromSpecImpl<i8> for Gaussian<i8> {
    open spec fn obeys_from_spec() -> bool {
        true
    }

    open spec fn from_spec(t: i8) -> Self {
        Gaussian { real: t, complex: 0 }
    }
}

impl From<i8> for Gaussian<i8> {
    fn from(t: i8) -> (g: Self) {
        Gaussian::new(t, 0)
    }
}

impl vstd::std_specs::convert::FromSpecImpl<i16> for Gaussian<i16> {
    open spec fn obeys_from_spec() -> bool {
        true
    }

    open spec fn from_spec(t: i16) -> Self {
        Gaussian { real: t, complex: 0 }
    }
}

impl From<i16> for Gaussian<i16> {
    fn from(t: i16) -> (g: Self) {
        Gaussian::new(t, 0)
    }
}

impl vstd::std_specs::convert::FromSpecImpl<i32> for Gaussian<i32> {
    open spec fn obeys_from_spec() -> bool {
        true
    }

    open spec fn from_spec(t: i32) -> Self {
        Gaussian { real: t, complex: 0 }
    }
}

impl From<i32> for Gaussian<i32> {
    fn from(t: i32) -> (g: Self) {
        Gaussian::new(t, 0)
    }
}

impl vstd::std_specs::convert::FromSpecImpl<i64> for Gaussian<i64> {
    open spec fn obeys_from_spec() -> bool {
        true
    }

    open spec fn from_spec(t: i64) -> Self {
        Gaussian { real: t, complex: 0 }
    }
}

impl From<i64> for Gaussian<i64> {
    fn from(t: i64) -> (g: Self) {
        Gaussian::new(t, 0)
    }
}

impl vstd::std_specs::convert::FromSpecImpl<i128> for Gaussian<i128> {
    open spec fn obeys_from_spec() -> bool {
        true
    }

    open spec fn from_spec(t: i128) -> Self {
        Gaussian { real: t, complex: 0 }
    }
}

impl From<i128> for Gaussian<i128> {
    fn from(t: i128) -> (g: Self) {
        Gaussian::new(t, 0)
    }
}

impl vstd::std_specs::convert::FromSpecImpl<u8> for Gaussian<u8> {
    open spec fn obeys_from_spec() -> bool {
        true
    }

    open spec fn from_spec(t: u8) -> Self {
        Gaussian { real: t, complex: 0 }
    }
}

impl From<u8> for Gaussian<u8> {
    fn from(t: u8) -> (g: Self) {
        Gaussian::new(t, 0)
    }
}

impl vstd::std_specs::convert::FromSpecImpl<u16> for Gaussian<u16> {
    open spec fn obeys_from_spec() -> bool {
        true
    }

    open spec fn from_spec(t: u16) -> Self {
        Gaussian { real: t, complex: 0 }
    }
}

impl From<u16> for Gaussian<u16> {
    fn from(t: u16) -> (g: Self) {
        Gaussian::new(t, 0)
    }
}

impl vstd::std_specs::convert::FromSpecImpl<u32> for Gaussian<u32> {
    open spec fn obeys_from_spec() -> bool {
        true
    }

    open spec fn from_spec(t: u32) -> Self {
        Gaussian { real: t, complex: 0 }
    }
}

impl From<u32> for Gaussian<u32> {
    fn from(t: u32) -> (g: Self) {
        Gaussian::new(t, 0)
    }
}

impl vstd::std_specs::convert::FromSpecImpl<u64> for Gaussian<u64> {
    open spec fn obeys_from_spec() -> bool {
        true
    }

    open spec fn from_spec(t: u64) -> Self {
        Gaussian { real: t, complex: 0 }
    }
}

impl From<u64> for Gaussian<u64> {
    fn from(t: u64) -> (g: Self) {
        Gaussian::new(t, 0)
    }
}

impl vstd::std_specs::convert::FromSpecImpl<u128> for Gaussian<u128> {
    open spec fn obeys_from_spec() -> bool {
        true
    }

    open spec fn from_spec(t: u128) -> Self {
        Gaussian { real: t, complex: 0 }
    }
}

impl From<u128> for Gaussian<u128> {
    fn from(t: u128) -> (g: Self) {
        Gaussian::new(t, 0)
    }
}

} // verus!
