//! Textual forms: the decimal numeral of an integer, and the capability of
//! rendering a value as text.

use vstd::prelude::*;
use vstd::string::*;

verus! {

/// A type whose values have a textual form.
pub trait Text {
    /// The characters of the textual form.
    spec fn text(&self) -> Seq<char>;

    fn to_text(&self) -> (s: String)
        ensures
            s@ == self.text(),
    ;
}

/// The character of a decimal digit.
pub open spec fn digit_char(d: int) -> char {
    if d == 0 {
        '0'
    } else if d == 1 {
        '1'
    } else if d == 2 {
        '2'
    } else if d == 3 {
        '3'
    } else if d == 4 {
        '4'
    } else if d == 5 {
        '5'
    } else if d == 6 {
        '6'
    } else if d == 7 {
        '7'
    } else if d == 8 {
        '8'
    } else {
        '9'
    }
}

/// The decimal numeral of a natural number, most significant digit first,
/// without leading zeros.
pub open spec fn decimal_nat(n: nat) -> Seq<char>
    decreases n,
{
    if n < 10 {
        seq![digit_char(n as int)]
    } else {
        decimal_nat(n / 10).push(digit_char((n % 10) as int))
    }
}

/// The decimal numeral of an integer: a minus sign before the numeral of the
/// magnitude when the integer is negative.
pub open spec fn decimal(x: int) -> Seq<char> {
    if x < 0 {
        seq!['-'] + decimal_nat((-x) as nat)
    } else {
        decimal_nat(x as nat)
    }
}

/// Whether a character is one of the ten decimal digits.
pub open spec fn is_digit(c: char) -> bool {
    c == '0' || c == '1' || c == '2' || c == '3' || c == '4' || c == '5' || c == '6' || c == '7'
        || c == '8' || c == '9'
}

/// The numeral of a natural number is never empty, has one character
/// exactly when the number is below ten, and holds digits only.
pub proof fn lemma_decimal_nat_shape(n: nat)
    ensures
        decimal_nat(n).len() >= 1,
        n < 10 <==> decimal_nat(n).len() == 1,
        forall|k: int| 0 <= k < decimal_nat(n).len() ==> is_digit(#[trigger] decimal_nat(n)[k]),
    decreases n,
{
    if n >= 10 {
        lemma_decimal_nat_shape(n / 10);
        let head = decimal_nat(n / 10);
        assert forall|k: int| 0 <= k < decimal_nat(n).len() implies is_digit(
            #[trigger] decimal_nat(n)[k],
        ) by {
            if k < head.len() {
                assert(decimal_nat(n)[k] == head[k]);
            }
        }
    }
}

/// Two natural numbers with the same numeral are the same number.
pub proof fn lemma_decimal_nat_injective(a: nat, b: nat)
    requires
        decimal_nat(a) == decimal_nat(b),
    ensures
        a == b,
    decreases a,
{
    lemma_decimal_nat_shape(a);
    lemma_decimal_nat_shape(b);
    if a < 10 {
        assert(decimal_nat(a)[0] == digit_char(a as int));
        assert(decimal_nat(b)[0] == digit_char(b as int));
    } else {
        let head_a = decimal_nat(a / 10);
        let head_b = decimal_nat(b / 10);
        assert(decimal_nat(a).drop_last() =~= head_a);
        assert(decimal_nat(b).drop_last() =~= head_b);
        assert(decimal_nat(a).last() == digit_char((a % 10) as int));
        assert(decimal_nat(b).last() == digit_char((b % 10) as int));
        lemma_decimal_nat_injective(a / 10, b / 10);
    }
}

/// The numeral of an integer is never empty, holds digits and at most a
/// leading minus sign, which it has exactly when the integer is negative,
/// and ends in a digit.
pub proof fn lemma_decimal_shape(x: int)
    ensures
        decimal(x).len() >= 1,
        x < 0 <==> decimal(x)[0] == '-',
        is_digit(decimal(x).last()),
        forall|k: int|
            0 <= k < decimal(x).len() ==> is_digit(#[trigger] decimal(x)[k]) || decimal(x)[k]
                == '-',
{
    if x < 0 {
        let digits = decimal_nat((-x) as nat);
        lemma_decimal_nat_shape((-x) as nat);
        assert(decimal(x)[0] == '-');
        assert(decimal(x).last() == digits.last());
        assert forall|k: int| 0 <= k < decimal(x).len() implies is_digit(
            #[trigger] decimal(x)[k],
        ) || decimal(x)[k] == '-' by {
            if k >= 1 {
                assert(decimal(x)[k] == digits[k - 1]);
            }
        }
    } else {
        lemma_decimal_nat_shape(x as nat);
    }
}

/// Two integers with the same numeral are the same integer.
pub proof fn lemma_decimal_injective(x: int, y: int)
    requires
        decimal(x) == decimal(y),
    ensures
        x == y,
{
    lemma_decimal_shape(x);
    lemma_decimal_shape(y);
    if x < 0 {
        let dx = decimal_nat((-x) as nat);
        let dy = decimal_nat((-y) as nat);
        assert(decimal(x).subrange(1, decimal(x).len() as int) =~= dx);
        assert(decimal(y).subrange(1, decimal(y).len() as int) =~= dy);
        lemma_decimal_nat_injective((-x) as nat, (-y) as nat);
    } else {
        lemma_decimal_nat_injective(x as nat, y as nat);
    }
}

/// The one-character text of a digit.
fn digit_str(d: u128) -> (s: &'static str)
    requires
        d < 10,
    ensures
        s@ == seq![digit_char(d as int)],
{
    proof {
        reveal_strlit("0");
        reveal_strlit("1");
        reveal_strlit("2");
        reveal_strlit("3");
        reveal_strlit("4");
        reveal_strlit("5");
        reveal_strlit("6");
        reveal_strlit("7");
        reveal_strlit("8");
        reveal_strlit("9");
    }
    let s = if d == 0 {
        "0"
    } else if d == 1 {
        "1"
    } else if d == 2 {
        "2"
    } else if d == 3 {
        "3"
    } else if d == 4 {
        "4"
    } else if d == 5 {
        "5"
    } else if d == 6 {
        "6"
    } else if d == 7 {
        "7"
    } else if d == 8 {
        "8"
    } else {
        "9"
    };
    assert(s@ =~= seq![digit_char(d as int)]);
    s
}

/// Renders a natural number in decimal.
pub fn decimal_of_u128(n: u128) -> (s: String)
    ensures
        s@ == decimal_nat(n as nat),
    decreases n,
{
    if n < 10 {
        String::from_str(digit_str(n))
    } else {
        let mut s = decimal_of_u128(n / 10);
        s.append(digit_str(n % 10));
        assert(s@ =~= decimal_nat(n as nat));
        s
    }
}

/// Renders an integer in decimal.
pub fn decimal_of_i128(x: i128) -> (s: String)
    ensures
        s@ == decimal(x as int),
{
    if x < 0 {
        let m: u128 = ((-(x + 1)) as u128) + 1;
        let mut s = String::from_str("-");
        let digits = decimal_of_u128(m);
        s.append(digits.as_str());
        proof {
            reveal_strlit("-");
            assert(s@ =~= decimal(x as int));
        }
        s
    } else {
        decimal_of_u128(x as u128)
    }
}

impl Text for u8 {
    open spec fn text(&self) -> Seq<char> {
        decimal(*self as int)
    }

    fn to_text(&self) -> (s: String) {
        decimal_of_u128(*self as u128)
    }
}

impl Text for u16 {
    open spec fn text(&self) -> Seq<char> {
        decimal(*self as int)
    }

    fn to_text(&self) -> (s: String) {
        decimal_of_u128(*self as u128)
    }
}

impl Text for u32 {
    open spec fn text(&self) -> Seq<char> {
        decimal(*self as int)
    }

    fn to_text(&self) -> (s: String) {
        decimal_of_u128(*self as u128)
    }
}

impl Text for u64 {
    open spec fn text(&self) -> Seq<char> {
        decimal(*self as int)
    }

    fn to_text(&self) -> (s: String) {
        decimal_of_u128(*self as u128)
    }
}

impl Text for u128 {
    open spec fn text(&self) -> Seq<char> {
        decimal(*self as int)
    }

    fn to_text(&self) -> (s: String) {
        decimal_of_u128(*self)
    }
}

impl Text for i8 {
    open spec fn text(&self) -> Seq<char> {
        decimal(*self as int)
    }

    fn to_text(&self) -> (s: String) {
        decimal_of_i128(*self as i128)
    }
}

impl Text for i16 {
    open spec fn text(&self) -> Seq<char> {
        decimal(*self as int)
    }

    fn to_text(&self) -> (s: String) {
        decimal_of_i128(*self as i128)
    }
}

impl Text for i32 {
    open spec fn text(&self) -> Seq<char> {
        decimal(*self as int)
    }

    fn to_text(&self) -> (s: String) {
        decimal_of_i128(*self as i128)
    }
}

impl Text for i64 {
    open spec fn text(&self) -> Seq<char> {
        decimal(*self as int)
    }

    fn to_text(&self) -> (s: String) {
        decimal_of_i128(*self as i128)
    }
}

impl Text for i128 {
    open spec fn text(&self) -> Seq<char> {
        decimal(*self as int)
    }

    fn to_text(&self) -> (s: String) {
        decimal_of_i128(*self)
    }
}

} // verus!
