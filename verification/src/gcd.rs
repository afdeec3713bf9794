//! The greatest-common-divisor capability and its instances for the
//! fixed-width integers.

use vstd::prelude::*;

verus! {

/// Absolute value of a mathematical integer.
pub open spec fn magnitude(a: int) -> int {
    if a < 0 {
        -a
    } else {
        a
    }
}

/// Remainder of the division that rounds toward zero: its sign follows the
/// dividend, and its magnitude is below that of the divisor.
pub open spec fn trunc_rem(a: int, b: int) -> int {
    if a >= 0 {
        a % b
    } else {
        -((-a) % b)
    }
}

/// Quotient of the division that rounds toward zero.
pub open spec fn trunc_div(a: int, b: int) -> int {
    if a >= 0 {
        a / b
    } else {
        -((-a) / b)
    }
}

/// The Euclidean recursion: `euclid(a, 0) = a`, and
/// `euclid(a, b) = euclid(b, a rem b)` for `b != 0`.
pub open spec fn euclid(a: int, b: int) -> int
    decreases magnitude(b),
{
    if b == 0 {
        a
    } else {
        euclid(b, trunc_rem(a, b))
    }
}

/// `d` divides `a`: some multiple of `d` is `a`.
pub open spec fn divides(d: int, a: int) -> bool {
    exists|k: int| a == #[trigger] (k * d)
}

/// The capability of taking a greatest common divisor by the Euclidean
/// recursion. Each instance says on which pairs the recursion is defined
/// (`gcd_req`) and what it yields there (`gcd_spec`).
pub trait Gcd: Sized {
    /// The pairs on which the recursion runs to its end.
    spec fn gcd_req(self, rhs: Self) -> bool;

    /// What the recursion yields on such a pair.
    spec fn gcd_spec(self, rhs: Self) -> Self;

    /// The greatest common divisor of `self` and `rhs` by the recursion.
    fn gcd(self, rhs: Self) -> (g: Self)
        requires
            self.gcd_req(rhs),
        ensures
            g == self.gcd_spec(rhs),
    ;
}

/// A multiple of `d` that lies in `0 .. |d|` is zero.
proof fn lemma_small_multiple(t: int, d: int, m: int)
    requires
        t * d == m,
        0 <= m < magnitude(d),
    ensures
        m == 0,
{
    if t >= 1 {
        if d > 0 {
            assert(t * d >= d) by (nonlinear_arith)
                requires
                    t >= 1,
                    d > 0,
            ;
        } else {
            assert(t * d <= 0) by (nonlinear_arith)
                requires
                    t >= 1,
                    d <= 0,
            ;
        }
    } else if t <= -1 {
        if d > 0 {
            assert(t * d <= 0) by (nonlinear_arith)
                requires
                    t <= -1,
                    d > 0,
            ;
        } else {
            assert(t * d >= -d) by (nonlinear_arith)
                requires
                    t <= -1,
                    d <= 0,
            ;
        }
    } else {
        assert(t * d == 0) by (nonlinear_arith)
            requires
                t == 0,
        ;
    }
}

/// A multiple of a nonzero `d` leaves remainder zero when divided by `d`,
/// whatever the sign of `d`.
proof fn lemma_mod_of_multiple(k: int, d: int)
    requires
        d != 0,
    ensures
        (k * d) % d == 0,
{
    let x = k * d;
    let q = x / d;
    let m = x % d;
    assert(x == q * d + m && 0 <= m < magnitude(d)) by (nonlinear_arith)
        requires
            d != 0,
            q == x / d,
            m == x % d,
    ;
    assert((k - q) * d == m) by (nonlinear_arith)
        requires
            x == k * d,
            x == q * d + m,
    ;
    lemma_small_multiple(k - q, d, m);
}

/// Truncating division splits the dividend into quotient times divisor plus
/// remainder, and the remainder is smaller in magnitude than the divisor and
/// never of the opposite sign to the dividend.
pub proof fn lemma_trunc_div_rem(a: int, b: int)
    requires
        b != 0,
    ensures
        a == trunc_div(a, b) * b + trunc_rem(a, b),
        magnitude(trunc_rem(a, b)) < magnitude(b),
        a >= 0 ==> trunc_rem(a, b) >= 0,
        a <= 0 ==> trunc_rem(a, b) <= 0,
{
    if a >= 0 {
        assert(a == (a / b) * b + a % b && 0 <= a % b < magnitude(b)) by (nonlinear_arith)
            requires
                b != 0,
        ;
        if a == 0 {
            lemma_mod_of_multiple(0, b);
            assert(0 * b == 0);
        }
    } else {
        let n = -a;
        assert(n == (n / b) * b + n % b && 0 <= n % b < magnitude(b)) by (nonlinear_arith)
            requires
                b != 0,
        ;
        assert(a == (-(n / b)) * b + (-(n % b))) by (nonlinear_arith)
            requires
                n == (n / b) * b + n % b,
                a == -n,
        ;
    }
}

/// A multiple of `d` plus a multiple of `d` is a multiple of `d`.
proof fn lemma_divides_combine(d: int, q: int, x: int, y: int)
    requires
        divides(d, x),
        divides(d, y),
    ensures
        divides(d, q * x + y),
{
    let kx = choose|k: int| x == #[trigger] (k * d);
    let ky = choose|k: int| y == #[trigger] (k * d);
    assert(q * x + y == (q * kx + ky) * d) by (nonlinear_arith)
        requires
            x == kx * d,
            y == ky * d,
    ;
}

/// The result of the Euclidean recursion divides both of its arguments.
pub proof fn lemma_euclid_divides(a: int, b: int)
    ensures
        divides(euclid(a, b), a),
        divides(euclid(a, b), b),
    decreases magnitude(b),
{
    let g = euclid(a, b);
    if b == 0 {
        assert(a == 1 * g);
        assert(b == 0 * g);
    } else {
        let r = trunc_rem(a, b);
        lemma_trunc_div_rem(a, b);
        lemma_euclid_divides(b, r);
        lemma_divides_combine(g, trunc_div(a, b), b, r);
    }
}

/// Every common divisor of the two arguments divides the result of the
/// Euclidean recursion: the result is a greatest common divisor.
pub proof fn lemma_euclid_greatest(a: int, b: int, d: int)
    requires
        divides(d, a),
        divides(d, b),
    ensures
        divides(d, euclid(a, b)),
    decreases magnitude(b),
{
    if b != 0 {
        let r = trunc_rem(a, b);
        let q = trunc_div(a, b);
        lemma_trunc_div_rem(a, b);
        lemma_divides_combine(d, -q, b, a);
        assert((-q) * b + a == r) by (nonlinear_arith)
            requires
                a == q * b + r,
        ;
        lemma_euclid_greatest(b, r, d);
    }
}

/// The recursion yields zero only on the pair of zeros.
pub proof fn lemma_euclid_zero(a: int, b: int)
    ensures
        euclid(a, b) == 0 <==> (a == 0 && b == 0),
    decreases magnitude(b),
{
    if b != 0 {
        lemma_trunc_div_rem(a, b);
        lemma_euclid_zero(b, trunc_rem(a, b));
    }
}

/// A nonzero divisor leaves remainder zero.
pub proof fn lemma_divides_rem_zero(d: int, a: int)
    requires
        d != 0,
        divides(d, a),
    ensures
        a % d == 0,
        trunc_rem(a, d) == 0,
{
    let k = choose|k: int| a == #[trigger] (k * d);
    lemma_mod_of_multiple(k, d);
    lemma_mod_of_multiple(-k, d);
    assert((-k) * d == -(k * d)) by (nonlinear_arith);
}

/// Stated for every pair of integers: the result of the Euclidean recursion
/// divides both arguments with remainder zero, is zero only when both are,
/// and is the first argument when the second is zero.
pub proof fn lemma_euclid_is_common_divisor(a: int, b: int)
    ensures
        euclid(a, 0) == a,
        euclid(a, b) == 0 <==> (a == 0 && b == 0),
        euclid(a, b) != 0 ==> a % euclid(a, b) == 0 && b % euclid(a, b) == 0,
        euclid(a, b) != 0 ==> trunc_rem(a, euclid(a, b)) == 0 && trunc_rem(b, euclid(a, b)) == 0,
{
    lemma_euclid_zero(a, b);
    lemma_euclid_divides(a, b);
    if euclid(a, b) != 0 {
        lemma_divides_rem_zero(euclid(a, b), a);
        lemma_divides_rem_zero(euclid(a, b), b);
    }
}

impl Gcd for u8 {
    open spec fn gcd_req(self, rhs: Self) -> bool {
        true
    }

    open spec fn gcd_spec(self, rhs: Self) -> Self {
        euclid(self as int, rhs as int) as u8
    }

    /// Defined on every pair. The result divides both arguments and is zero
    /// only when both are.
    fn gcd(self, rhs: Self) -> (g: Self)
        ensures
            g == euclid(self as int, rhs as int),
            rhs == 0 ==> g == self,
            g == 0 <==> (self == 0 && rhs == 0),
            g != 0 ==> self as int % g as int == 0 && rhs as int % g as int == 0,
    {
        let mut a: u8 = self;
        let mut b: u8 = rhs;
        while b != 0
            invariant
                euclid(a as int, b as int) == euclid(self as int, rhs as int),
            decreases b,
        {
            let r: u8 = a % b;
            a = b;
            b = r;
        }
        proof {
            lemma_euclid_is_common_divisor(self as int, rhs as int);
        }
        a
    }
}

impl Gcd for u16 {
    open spec fn gcd_req(self, rhs: Self) -> bool {
        true
    }

    open spec fn gcd_spec(self, rhs: Self) -> Self {
        euclid(self as int, rhs as int) as u16
    }

    /// Defined on every pair. The result divides both arguments and is zero
    /// only when both are.
    fn gcd(self, rhs: Self) -> (g: Self)
        ensures
            g == euclid(self as int, rhs as int),
            rhs == 0 ==> g == self,
            g == 0 <==> (self == 0 && rhs == 0),
            g != 0 ==> self as int % g as int == 0 && rhs as int % g as int == 0,
    {
        let mut a: u16 = self;
        let mut b: u16 = rhs;
        while b != 0
            invariant
                euclid(a as int, b as int) == euclid(self as int, rhs as int),
            decreases b,
        {
            let r: u16 = a % b;
            a = b;
            b = r;
        }
        proof {
            lemma_euclid_is_common_divisor(self as int, rhs as int);
        }
        a
    }
}

impl Gcd for u32 {
    open spec fn gcd_req(self, rhs: Self) -> bool {
        true
    }

    open spec fn gcd_spec(self, rhs: Self) -> Self {
        euclid(self as int, rhs as int) as u32
    }

    /// Defined on every pair. The result divides both arguments and is zero
    /// only when both are.
    fn gcd(self, rhs: Self) -> (g: Self)
        ensures
            g == euclid(self as int, rhs as int),
            rhs == 0 ==> g == self,
            g == 0 <==> (self == 0 && rhs == 0),
            g != 0 ==> self as int % g as int == 0 && rhs as int % g as int == 0,
    {
        let mut a: u32 = self;
        let mut b: u32 = rhs;
        while b != 0
            invariant
                euclid(a as int, b as int) == euclid(self as int, rhs as int),
            decreases b,
        {
            let r: u32 = a % b;
            a = b;
            b = r;
        }
        proof {
            lemma_euclid_is_common_divisor(self as int, rhs as int);
        }
        a
    }
}

impl Gcd for u64 {
    open spec fn gcd_req(self, rhs: Self) -> bool {
        true
    }

    open spec fn gcd_spec(self, rhs: Self) -> Self {
        euclid(self as int, rhs as int) as u64
    }

    /// Defined on every pair. The result divides both arguments and is zero
    /// only when both are.
    fn gcd(self, rhs: Self) -> (g: Self)
        ensures
            g == euclid(self as int, rhs as int),
            rhs == 0 ==> g == self,
            g == 0 <==> (self == 0 && rhs == 0),
            g != 0 ==> self as int % g as int == 0 && rhs as int % g as int == 0,
    {
        let mut a: u64 = self;
        let mut b: u64 = rhs;
        while b != 0
            invariant
                euclid(a as int, b as int) == euclid(self as int, rhs as int),
            decreases b,
        {
            let r: u64 = a % b;
            a = b;
            b = r;
        }
        proof {
            lemma_euclid_is_common_divisor(self as int, rhs as int);
        }
        a
    }
}

impl Gcd for u128 {
    open spec fn gcd_req(self, rhs: Self) -> bool {
        true
    }

    open spec fn gcd_spec(self, rhs: Self) -> Self {
        euclid(self as int, rhs as int) as u128
    }

    /// Defined on every pair. The result divides both arguments and is zero
    /// only when both are.
    fn gcd(self, rhs: Self) -> (g: Self)
        ensures
            g == euclid(self as int, rhs as int),
            rhs == 0 ==> g == self,
            g == 0 <==> (self == 0 && rhs == 0),
            g != 0 ==> self as int % g as int == 0 && rhs as int % g as int == 0,
    {
        let mut a: u128 = self;
        let mut b: u128 = rhs;
        while b != 0
            invariant
                euclid(a as int, b as int) == euclid(self as int, rhs as int),
            decreases b,
        {
            let r: u128 = a % b;
            a = b;
            b = r;
        }
        proof {
            lemma_euclid_is_common_divisor(self as int, rhs as int);
        }
        a
    }
}

impl Gcd for i8 {
    open spec fn gcd_req(self, rhs: Self) -> bool {
        true
    }

    open spec fn gcd_spec(self, rhs: Self) -> Self {
        euclid(self as int, rhs as int) as i8
    }

    /// Defined on every pair. The result divides both arguments and is zero
    /// only when both are.
    fn gcd(self, rhs: Self) -> (g: Self)
        ensures
            g == euclid(self as int, rhs as int),
            rhs == 0 ==> g == self,
            g == 0 <==> (self == 0 && rhs == 0),
            g != 0 ==> self as int % g as int == 0 && rhs as int % g as int == 0,
    {
        let mut a: i8 = self;
        let mut b: i8 = rhs;
        while b != 0
            invariant
                euclid(a as int, b as int) == euclid(self as int, rhs as int),
            decreases magnitude(b as int),
        {
            proof {
                lemma_trunc_div_rem(a as int, b as int);
            }
            let r: i8 = if b == -1 {
                0
            } else {
                a % b
            };
            a = b;
            b = r;
        }
        proof {
            lemma_euclid_is_common_divisor(self as int, rhs as int);
        }
        a
    }
}

impl Gcd for i16 {
    open spec fn gcd_req(self, rhs: Self) -> bool {
        true
    }

    open spec fn gcd_spec(self, rhs: Self) -> Self {
        euclid(self as int, rhs as int) as i16
    }

    /// Defined on every pair. The result divides both arguments and is zero
    /// only when both are.
    fn gcd(self, rhs: Self) -> (g: Self)
        ensures
            g == euclid(self as int, rhs as int),
            rhs == 0 ==> g == self,
            g == 0 <==> (self == 0 && rhs == 0),
            g != 0 ==> self as int % g as int == 0 && rhs as int % g as int == 0,
    {
        let mut a: i16 = self;
        let mut b: i16 = rhs;
        while b != 0
            invariant
                euclid(a as int, b as int) == euclid(self as int, rhs as int),
            decreases magnitude(b as int),
        {
            proof {
                lemma_trunc_div_rem(a as int, b as int);
            }
            let r: i16 = if b == -1 {
                0
            } else {
                a % b
            };
            a = b;
            b = r;
        }
        proof {
            lemma_euclid_is_common_divisor(self as int, rhs as int);
        }
        a
    }
}

impl Gcd for i32 {
    open spec fn gcd_req(self, rhs: Self) -> bool {
        true
    }

    open spec fn gcd_spec(self, rhs: Self) -> Self {
        euclid(self as int, rhs as int) as i32
    }

    /// Defined on every pair. The result divides both arguments and is zero
    /// only when both are.
    fn gcd(self, rhs: Self) -> (g: Self)
        ensures
            g == euclid(self as int, rhs as int),
            rhs == 0 ==> g == self,
            g == 0 <==> (self == 0 && rhs == 0),
            g != 0 ==> self as int % g as int == 0 && rhs as int % g as int == 0,
    {
        let mut a: i32 = self;
        let mut b: i32 = rhs;
        while b != 0
            invariant
                euclid(a as int, b as int) == euclid(self as int, rhs as int),
            decreases magnitude(b as int),
        {
            proof {
                lemma_trunc_div_rem(a as int, b as int);
            }
            let r: i32 = if b == -1 {
                0
            } else {
                a % b
            };
            a = b;
            b = r;
        }
        proof {
            lemma_euclid_is_common_divisor(self as int, rhs as int);
        }
        a
    }
}

impl Gcd for i64 {
    open spec fn gcd_req(self, rhs: Self) -> bool {
        true
    }

    open spec fn gcd_spec(self, rhs: Self) -> Self {
        euclid(self as int, rhs as int) as i64
    }

    /// Defined on every pair. The result divides both arguments and is zero
    /// only when both are.
    fn gcd(self, rhs: Self) -> (g: Self)
        ensures
            g == euclid(self as int, rhs as int),
            rhs == 0 ==> g == self,
            g == 0 <==> (self == 0 && rhs == 0),
            g != 0 ==> self as int % g as int == 0 && rhs as int % g as int == 0,
    {
        let mut a: i64 = self;
        let mut b: i64 = rhs;
        while b != 0
            invariant
                euclid(a as int, b as int) == euclid(self as int, rhs as int),
            decreases magnitude(b as int),
        {
            proof {
                lemma_trunc_div_rem(a as int, b as int);
            }
            let r: i64 = if b == -1 {
                0
            } else {
                a % b
            };
            a = b;
            b = r;
        }
        proof {
            lemma_euclid_is_common_divisor(self as int, rhs as int);
        }
        a
    }
}

impl Gcd for i128 {
    open spec fn gcd_req(self, rhs: Self) -> bool {
        true
    }

    open spec fn gcd_spec(self, rhs: Self) -> Self {
        euclid(self as int, rhs as int) as i128
    }

    /// Defined on every pair. The result divides both arguments and is zero
    /// only when both are.
    fn gcd(self, rhs: Self) -> (g: Self)
        ensures
            g == euclid(self as int, rhs as int),
            rhs == 0 ==> g == self,
            g == 0 <==> (self == 0 && rhs == 0),
            g != 0 ==> self as int % g as int == 0 && rhs as int % g as int == 0,
    {
        let mut a: i128 = self;
        let mut b: i128 = rhs;
        while b != 0
            invariant
                euclid(a as int, b as int) == euclid(self as int, rhs as int),
            decreases magnitude(b as int),
        {
            proof {
                lemma_trunc_div_rem(a as int, b as int);
            }
            let r: i128 = if b == -1 {
                0
            } else {
                a % b
            };
            a = b;
            b = r;
        }
        proof {
            lemma_euclid_is_common_divisor(self as int, rhs as int);
        }
        a
    }
}

} // verus!
