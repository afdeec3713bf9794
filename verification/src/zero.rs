//! The additive identity and the test for it, taken from `num`'s instances
//! for the fixed-width integers.

use vstd::prelude::*;

verus! {

/// A type with a zero value and a test for it.
pub trait Zero: Sized {
    /// The zero of the type.
    spec fn zero_spec() -> Self;

    /// Whether a value counts as zero.
    spec fn is_zero_spec(&self) -> bool;

    fn zero() -> (z: Self)
        ensures
            z == Self::zero_spec(),
    ;

    fn is_zero(&self) -> (b: bool)
        ensures
            b == self.is_zero_spec(),
    ;
}

/// `<u8 as num::Zero>::zero`, which returns the literal `0`.
#[verifier::external_body]
fn u8_zero() -> (z: u8)
    ensures
        z == 0,
{
    num::Zero::zero()
}

/// `<u8 as num::Zero>::is_zero`, which compares the value with `0`.
#[verifier::external_body]
fn u8_is_zero(x: &u8) -> (b: bool)
    ensures
        b == (*x == 0),
{
    num::Zero::is_zero(x)
}

impl Zero for u8 {
    open spec fn zero_spec() -> Self {
        0
    }

    open spec fn is_zero_spec(&self) -> bool {
        *self == 0
    }

    fn zero() -> (z: Self) {
        u8_zero()
    }

    fn is_zero(&self) -> (b: bool) {
        u8_is_zero(self)
    }
}

/// `<u16 as num::Zero>::zero`, which returns the literal `0`.
#[verifier::external_body]
fn u16_zero() -> (z: u16)
    ensures
        z == 0,
{
    num::Zero::zero()
}

/// `<u16 as num::Zero>::is_zero`, which compares the value with `0`.
#[verifier::external_body]
fn u16_is_zero(x: &u16) -> (b: bool)
    ensures
        b == (*x == 0),
{
    num::Zero::is_zero(x)
}

impl Zero for u16 {
    open spec fn zero_spec() -> Self {
        0
    }

    open spec fn is_zero_spec(&self) -> bool {
        *self == 0
    }

    fn zero() -> (z: Self) {
        u16_zero()
    }

    fn is_zero(&self) -> (b: bool) {
        u16_is_zero(self)
    }
}

/// `<u32 as num::Zero>::zero`, which returns the literal `0`.
#[verifier::external_body]
fn u32_zero() -> (z: u32)
    ensures
        z == 0,
{
    num::Zero::zero()
}

/// `<u32 as num::Zero>::is_zero`, which compares the value with `0`.
#[verifier::external_body]
fn u32_is_zero(x: &u32) -> (b: bool)
    ensures
        b == (*x == 0),
{
    num::Zero::is_zero(x)
}

impl Zero for u32 {
    open spec fn zero_spec() -> Self {
        0
    }

    open spec fn is_zero_spec(&self) -> bool {
        *self == 0
    }

    fn zero() -> (z: Self) {
        u32_zero()
    }

    fn is_zero(&self) -> (b: bool) {
        u32_is_zero(self)
    }
}

/// `<u64 as num::Zero>::zero`, which returns the literal `0`.
#[verifier::external_body]
fn u64_zero() -> (z: u64)
    ensures
        z == 0,
{
    num::Zero::zero()
}

/// `<u64 as num::Zero>::is_zero`, which compares the value with `0`.
#[verifier::external_body]
fn u64_is_zero(x: &u64) -> (b: bool)
    ensures
        b == (*x == 0),
{
    num::Zero::is_zero(x)
}

impl Zero for u64 {
    open spec fn zero_spec() -> Self {
        0
    }

    open spec fn is_zero_spec(&self) -> bool {
        *self == 0
    }

    fn zero() -> (z: Self) {
        u64_zero()
    }

    fn is_zero(&self) -> (b: bool) {
        u64_is_zero(self)
    }
}

/// `<u128 as num::Zero>::zero`, which returns the literal `0`.
#[verifier::external_body]
fn u128_zero() -> (z: u128)
    ensures
        z == 0,
{
    num::Zero::zero()
}

/// `<u128 as num::Zero>::is_zero`, which compares the value with `0`.
#[verifier::external_body]
fn u128_is_zero(x: &u128) -> (b: bool)
    ensures
        b == (*x == 0),
{
    num::Zero::is_zero(x)
}

impl Zero for u128 {
    open spec fn zero_spec() -> Self {
        0
    }

    open spec fn is_zero_spec(&self) -> bool {
        *self == 0
    }

    fn zero() -> (z: Self) {
        u128_zero()
    }

    fn is_zero(&self) -> (b: bool) {
        u128_is_zero(self)
    }
}

/// `<i8 as num::Zero>::zero`, which returns the literal `0`.
#[verifier::external_body]
fn i8_zero() -> (z: i8)
    ensures
        z == 0,
{
    num::Zero::zero()
}

/// `<i8 as num::Zero>::is_zero`, which compares the value with `0`.
#[verifier::external_body]
fn i8_is_zero(x: &i8) -> (b: bool)
    ensures
        b == (*x == 0),
{
    num::Zero::is_zero(x)
}

impl Zero for i8 {
    open spec fn zero_spec() -> Self {
        0
    }

    open spec fn is_zero_spec(&self) -> bool {
        *self == 0
    }

    fn zero() -> (z: Self) {
        i8_zero()
    }

    fn is_zero(&self) -> (b: bool) {
        i8_is_zero(self)
    }
}

/// `<i16 as num::Zero>::zero`, which returns the literal `0`.
#[verifier::external_body]
fn i16_zero() -> (z: i16)
    ensures
        z == 0,
{
    num::Zero::zero()
}

/// `<i16 as num::Zero>::is_zero`, which compares the value with `0`.
#[verifier::external_body]
fn i16_is_zero(x: &i16) -> (b: bool)
    ensures
        b == (*x == 0),
{
    num::Zero::is_zero(x)
}

impl Zero for i16 {
    open spec fn zero_spec() -> Self {
        0
    }

    open spec fn is_zero_spec(&self) -> bool {
        *self == 0
    }

    fn zero() -> (z: Self) {
        i16_zero()
    }

    fn is_zero(&self) -> (b: bool) {
        i16_is_zero(self)
    }
}

/// `<i32 as num::Zero>::zero`, which returns the literal `0`.
#[verifier::external_body]
fn i32_zero() -> (z: i32)
    ensures
        z == 0,
{
    num::Zero::zero()
}

/// `<i32 as num::Zero>::is_zero`, which compares the value with `0`.
#[verifier::external_body]
fn i32_is_zero(x: &i32) -> (b: bool)
    ensures
        b == (*x == 0),
{
    num::Zero::is_zero(x)
}

impl Zero for i32 {
    open spec fn zero_spec() -> Self {
        0
    }

    open spec fn is_zero_spec(&self) -> bool {
        *self == 0
    }

    fn zero() -> (z: Self) {
        i32_zero()
    }

    fn is_zero(&self) -> (b: bool) {
        i32_is_zero(self)
    }
}

/// `<i64 as num::Zero>::zero`, which returns the literal `0`.
#[verifier::external_body]
fn i64_zero() -> (z: i64)
    ensures
        z == 0,
{
    num::Zero::zero()
}

/// `<i64 as num::Zero>::is_zero`, which compares the value with `0`.
#[verifier::external_body]
fn i64_is_zero(x: &i64) -> (b: bool)
    ensures
        b == (*x == 0),
{
    num::Zero::is_zero(x)
}

impl Zero for i64 {
    open spec fn zero_spec() -> Self {
        0
    }

    open spec fn is_zero_spec(&self) -> bool {
        *self == 0
    }

    fn zero() -> (z: Self) {
        i64_zero()
    }

    fn is_zero(&self) -> (b: bool) {
        i64_is_zero(self)
    }
}

/// `<i128 as num::Zero>::zero`, which returns the literal `0`.
#[verifier::external_body]
fn i128_zero() -> (z: i128)
    ensures
        z == 0,
{
    num::Zero::zero()
}

/// `<i128 as num::Zero>::is_zero`, which compares the value with `0`.
#[verifier::external_body]
fn i128_is_zero(x: &i128) -> (b: bool)
    ensures
        b == (*x == 0),
{
    num::Zero::is_zero(x)
}

impl Zero for i128 {
    open spec fn zero_spec() -> Self {
        0
    }

    open spec fn is_zero_spec(&self) -> bool {
        *self == 0
    }

    fn zero() -> (z: Self) {
        i128_zero()
    }

    fn is_zero(&self) -> (b: bool) {
        i128_is_zero(self)
    }
}

} // verus!
