//! Reading a text character by character.

use vstd::prelude::*;

verus! {

/// Whether `c` is one of the ten decimal digits.
pub open spec fn is_digit(c: char) -> bool {
    '0' <= c && c <= '9'
}

/// The number that the digit `c` stands for.
pub open spec fn digit_value(c: char) -> int {
    c as int - '0' as int
}

/// Whether `s` holds a digit at every place from `from` up to, not
/// including, `to`, and at least one such place.
pub open spec fn digits_between(s: Seq<char>, from: int, to: int) -> bool {
    &&& 0 <= from < to <= s.len()
    &&& forall|i: int| from <= i < to ==> is_digit(#[trigger] s[i])
}

/// Whether `s` holds `c` at place `i`.
pub open spec fn has_char(s: Seq<char>, i: int, c: char) -> bool {
    0 <= i < s.len() && s[i] == c
}

/// The first place from `from` on at which `s` holds no digit.
pub open spec fn digits_end(s: Seq<char>, from: int) -> int
    decreases s.len() - from,
{
    if 0 <= from < s.len() && is_digit(s[from]) {
        digits_end(s, from + 1)
    } else {
        from
    }
}

/// The number that the digits of `s` from `from` up to, not including, `to`
/// spell.
pub open spec fn digits_value(s: Seq<char>, from: int, to: int) -> int
    decreases to - from,
{
    if to <= from {
        0
    } else {
        digits_value(s, from, to - 1) * 10 + digit_value(s[to - 1])
    }
}

/// A run of digits ends within the text.
pub proof fn lemma_digits_end_bounds(s: Seq<char>, from: int)
    requires
        0 <= from <= s.len(),
    ensures
        from <= digits_end(s, from) <= s.len(),
    decreases s.len() - from,
{
    if from < s.len() && is_digit(s[from]) {
        lemma_digits_end_bounds(s, from + 1);
    }
}

/// What digits spell is not negative.
pub proof fn lemma_digits_value_nonnegative(s: Seq<char>, from: int, to: int)
    requires
        0 <= from <= to <= s.len(),
        to == digits_end(s, from),
    ensures
        digits_value(s, from, to) >= 0,
{
    lemma_run_is_digits(s, from, from);
    lemma_value_of_digits(s, from, to);
}

/// Every place before the end of a run holds a digit.
pub proof fn lemma_run_is_digits(s: Seq<char>, from: int, at: int)
    requires
        0 <= from <= at <= s.len(),
        forall|i: int| from <= i < at ==> is_digit(#[trigger] s[i]),
        digits_end(s, at) == digits_end(s, from),
    ensures
        forall|i: int| from <= i < digits_end(s, from) ==> is_digit(#[trigger] s[i]),
    decreases s.len() - at,
{
    if at < s.len() && is_digit(s[at]) {
        lemma_run_is_digits(s, from, at + 1);
    }
}

/// Digits spell a number that is not negative.
pub proof fn lemma_value_of_digits(s: Seq<char>, from: int, to: int)
    requires
        0 <= from <= to <= s.len(),
        forall|i: int| from <= i < to ==> is_digit(#[trigger] s[i]),
    ensures
        digits_value(s, from, to) >= 0,
    decreases to - from,
{
    if from < to {
        lemma_value_of_digits(s, from, to - 1);
    }
}

/// Spelling one digit more multiplies by ten and adds the digit.
pub proof fn lemma_digits_value_grows(s: Seq<char>, from: int, to: int)
    requires
        0 <= from <= to < s.len(),
        forall|i: int| from <= i <= to ==> is_digit(#[trigger] s[i]),
    ensures
        digits_value(s, from, to) >= 0,
        digits_value(s, from, to + 1) >= digits_value(s, from, to),
    decreases to - from,
{
    if from < to {
        lemma_digits_value_grows(s, from, to - 1);
    }
}

/// The end of a run of digits is where the first character that is no digit
/// stands.
pub proof fn lemma_digits_end(s: Seq<char>, from: int, to: int)
    requires
        0 <= from <= to <= s.len(),
        forall|i: int| from <= i < to ==> is_digit(#[trigger] s[i]),
        to < s.len() ==> !is_digit(s[to]),
    ensures
        digits_end(s, from) == to,
    decreases to - from,
{
    if from < to {
        lemma_digits_end(s, from + 1, to);
    }
}

/// The characters of `text`, in order.
pub fn chars_of(text: &str) -> (chars: Vec<char>)
    ensures
        chars@ == text@,
{
    let mut chars: Vec<char> = Vec::new();
    for c in it: text.chars()
        invariant
            it.seq() == text@,
            chars@ == text@.take(it.index()),
    {
        chars.push(c);
        assert(text@.take(it.index() + 1) =~= text@.take(it.index()).push(c));
    }
    assert(text@.take(text@.len() as int) =~= text@);
    chars
}

/// Whether `c` is a decimal digit.
pub fn digit(c: char) -> (b: bool)
    ensures
        b == is_digit(c),
{
    '0' <= c && c <= '9'
}

/// Whether `chars` hold `c` at place `i`.
pub(crate) fn char_at(chars: &Vec<char>, i: usize, c: char) -> (b: bool)
    ensures
        b == has_char(chars@, i as int, c),
{
    i < chars.len() && chars[i] == c
}

/// The number that the digit `c` stands for.
pub(crate) fn digit_number(c: char) -> (v: u32)
    requires
        is_digit(c),
    ensures
        v == digit_value(c),
        v <= 9,
{
    (c as u32) - ('0' as u32)
}

/// The run of digits from place `from` on: the place behind it and, unless
/// it is more than `limit`, the number that the digits spell.
pub fn digits_at(chars: &Vec<char>, from: usize, limit: u64) -> (r: (usize, Option<u64>))
    requires
        from <= chars.len(),
    ensures
        r.0 == digits_end(chars@, from as int),
        from <= r.0 <= chars.len(),
        forall|i: int| from <= i < r.0 ==> is_digit(#[trigger] chars@[i]),
        digits_value(chars@, from as int, r.0 as int) >= 0,
        match r.1 {
            Some(v) => v == digits_value(chars@, from as int, r.0 as int) && v <= limit,
            None => digits_value(chars@, from as int, r.0 as int) > limit,
        },
{
    let mut to: usize = from;
    let mut value: u64 = 0;
    let mut over: bool = false;
    while to < chars.len() && digit(chars[to])
        invariant
            from <= to <= chars.len(),
            forall|i: int| from <= i < to ==> is_digit(#[trigger] chars@[i]),
            digits_value(chars@, from as int, to as int) >= 0,
            !over ==> value == digits_value(chars@, from as int, to as int) && value <= limit,
            over ==> digits_value(chars@, from as int, to as int) > limit,
        decreases chars.len() - to,
    {
        proof {
            lemma_digits_value_grows(chars@, from as int, to as int);
        }
        if !over {
            let next: u128 = (value as u128) * 10 + (digit_number(chars[to]) as u128);
            if next > limit as u128 {
                over = true;
            } else {
                value = next as u64;
            }
        }
        to += 1;
    }
    proof {
        lemma_digits_end(chars@, from as int, to as int);
    }
    if over {
        (to, None)
    } else {
        (to, Some(value))
    }
}

} // verus!
