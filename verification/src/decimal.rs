//! Decimal numbers of any size, held as numerals.

use vstd::prelude::*;
use crate::engine::int_to_decimal;
use crate::text::{chars_of, digit, digits_between, digits_end, digits_value, is_digit};

verus! {

/// Where the digits of the numeral `s` begin: behind its minus sign, if it
/// has one.
pub open spec fn digits_start(s: Seq<char>) -> int {
    if s.len() > 0 && s[0] == '-' {
        1
    } else {
        0
    }
}

/// Whether `s` is a decimal numeral in plain notation: an optional minus
/// sign, one or more digits and, optionally, a point followed by one or more
/// digits.
pub open spec fn is_plain_decimal(s: Seq<char>) -> bool {
    ||| digits_between(s, digits_start(s), s.len() as int)
    ||| exists|point: int|
        digits_between(s, digits_start(s), point) && #[trigger] s[point] == '.' && digits_between(
            s,
            point + 1,
            s.len() as int,
        )
}

/// The whole part of the plain numeral `s`: the number that its digits
/// before the point spell, with the sign of the numeral.
pub open spec fn whole_part(s: Seq<char>) -> int {
    let start = digits_start(s);
    let magnitude = digits_value(s, start, digits_end(s, start));
    if start == 1 {
        -magnitude
    } else {
        magnitude
    }
}

/// The 64-bit integer that the decimal with the plain numeral `s` is read
/// as: its whole part, and zero where that is no 64-bit integer.
pub open spec fn decimal_as_int(s: Seq<char>) -> int {
    if i64::MIN <= whole_part(s) <= i64::MAX {
        whole_part(s)
    } else {
        0
    }
}

/// The character that stands for the digit `d`.
pub open spec fn digit_char(d: int) -> char {
    if d == 0 {
        '0'
    } else if d == 1 {
        '1'
    } else if d == 2 {
        '2'
    } else if d == 3 {
        '3'
    } else if d == 4 {
        '4'
    } else if d == 5 {
        '5'
    } else if d == 6 {
        '6'
    } else if d == 7 {
        '7'
    } else if d == 8 {
        '8'
    } else {
        '9'
    }
}

/// The numeral of the natural number `n`: its decimal digits, the highest
/// first, without leading zeros.
pub open spec fn nat_numeral(n: nat) -> Seq<char>
    decreases n,
{
    if n < 10 {
        seq![digit_char(n as int)]
    } else {
        nat_numeral(n / 10).push(digit_char((n % 10) as int))
    }
}

/// The numeral of the integer `v`: that of its magnitude, after a minus sign
/// where `v` is negative.
pub open spec fn int_numeral(v: int) -> Seq<char> {
    if v < 0 {
        seq!['-'] + nat_numeral((-v) as nat)
    } else {
        nat_numeral(v as nat)
    }
}

/// The numeral of a natural number is made of digits, at least one.
pub proof fn lemma_nat_numeral_digits(n: nat)
    ensures
        digits_between(nat_numeral(n), 0, nat_numeral(n).len() as int),
    decreases n,
{
    if n >= 10 {
        lemma_nat_numeral_digits(n / 10);
    }
}

/// The numeral of an integer is a decimal numeral in plain notation.
pub proof fn lemma_int_numeral_plain(v: int)
    ensures
        is_plain_decimal(int_numeral(v)),
{
    let s = int_numeral(v);
    if v < 0 {
        let digits = nat_numeral((-v) as nat);
        lemma_nat_numeral_digits((-v) as nat);
        assert(s[0] == '-');
        assert forall|i: int| 1 <= i < s.len() implies is_digit(#[trigger] s[i]) by {
            assert(s[i] == digits[i - 1]);
        }
        assert(digits_between(s, 1, s.len() as int));
    } else {
        lemma_nat_numeral_digits(v as nat);
        assert(is_digit(s[0]));
    }
}

/// A decimal number, as its numeral in plain notation.
#[derive(Debug)]
pub struct Decimal {
    text: String,
}

impl View for Decimal {
    type V = Seq<char>;

    closed spec fn view(&self) -> Seq<char> {
        self.text@
    }
}

impl Clone for Decimal {
    fn clone(&self) -> (r: Decimal)
        ensures
            r == *self,
    {
        proof {
            use_type_invariant(self);
        }
        Decimal { text: self.text.clone() }
    }
}

/// The first place from `from` on at which `chars` holds no digit.
fn skip_digits(chars: &Vec<char>, from: usize) -> (to: usize)
    requires
        from <= chars.len(),
    ensures
        from <= to <= chars.len(),
        forall|i: int| from <= i < to ==> is_digit(#[trigger] chars@[i]),
        to < chars.len() ==> !is_digit(chars@[to as int]),
{
    let mut to = from;
    while to < chars.len() && digit(chars[to])
        invariant
            from <= to <= chars.len(),
            forall|i: int| from <= i < to ==> is_digit(#[trigger] chars@[i]),
        decreases chars.len() - to,
    {
        to += 1;
    }
    to
}

/// Whether `chars` spell a decimal numeral in plain notation.
pub fn plain_decimal(chars: &Vec<char>) -> (b: bool)
    ensures
        b == is_plain_decimal(chars@),
{
    let n = chars.len();
    let start: usize = if n > 0 && chars[0] == '-' { 1 } else { 0 };
    let whole_end = skip_digits(chars, start);
    if whole_end == start {
        assert(!is_plain_decimal(chars@)) by {
            if start < n {
                assert(!is_digit(chars@[start as int]));
            }
        }
        return false;
    }
    if whole_end == n {
        return true;
    }
    assert(!digits_between(chars@, start as int, n as int)) by {
        assert(!is_digit(chars@[whole_end as int]));
    }
    assert forall|point: int|
        digits_between(chars@, start as int, point) && #[trigger] chars@[point]
            == '.' implies point == whole_end by {
        if point < whole_end {
            assert(is_digit(chars@[point]));
        }
        if point > whole_end {
            assert(is_digit(chars@[whole_end as int]));
        }
    }
    if chars[whole_end] != '.' {
        return false;
    }
    let fraction_end = skip_digits(chars, whole_end + 1);
    if fraction_end == whole_end + 1 {
        assert(!is_plain_decimal(chars@)) by {
            if whole_end + 1 < n {
                assert(!is_digit(chars@[whole_end + 1]));
            }
        }
        return false;
    }
    if fraction_end < n {
        assert(!is_plain_decimal(chars@)) by {
            assert(!is_digit(chars@[fraction_end as int]));
        }
        return false;
    }
    assert(chars@[whole_end as int] == '.');
    true
}

impl Decimal {
    #[verifier::type_invariant]
    spec fn plain(&self) -> bool {
        is_plain_decimal(self.text@)
    }

    /// The decimal that `text` spells, where `text` is a numeral in plain
    /// notation.
    pub fn parse(text: &str) -> (r: Option<Decimal>)
        ensures
            match r {
                Some(decimal) => is_plain_decimal(text@) && decimal@ == text@,
                None => !is_plain_decimal(text@),
            },
    {
        let chars = chars_of(text);
        if plain_decimal(&chars) {
            Some(Decimal { text: text.to_owned() })
        } else {
            None
        }
    }

    /// The decimal without a fractional part that equals `v`.
    pub fn from_int(v: i64) -> (r: Decimal)
        ensures
            r@ == int_numeral(v as int),
    {
        let text = int_to_decimal(v);
        proof {
            lemma_int_numeral_plain(v as int);
        }
        Decimal { text }
    }

    /// The numeral.
    pub fn as_str(&self) -> (text: &str)
        ensures
            text@ == self@,
            is_plain_decimal(text@),
    {
        proof {
            use_type_invariant(self);
        }
        self.text.as_str()
    }
}

} // verus!
