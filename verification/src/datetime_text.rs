//! Which texts the database's datetime reader can be handed.
//!
//! The reader knows three forms, each a prefix of the text: a date
//! (`2012-04-23`, with an optional sign before the year), a date and a time
//! with a zone (`2012-04-23T18:25:43Z`, `...43+02:00`), and the same with a
//! fraction of a second (`...43.5631Z`). It tries the longest form first. It
//! takes the fields by their digits and checks the calendar only afterwards,
//! and there it stops the program on a date, an hour, a fraction or a zone
//! that does not exist. This module tells beforehand.

use vstd::prelude::*;
use crate::text::{
    char_at,
    digit,
    digit_number,
    digit_value,
    digits_at,
    digits_end,
    digits_value,
    has_char,
    is_digit,
};

verus! {

/// The number that the two digits at places `i` and `i + 1` spell, where
/// there are two digits.
pub open spec fn two_digits(s: Seq<char>, i: int) -> Option<int> {
    if 0 <= i && i + 2 <= s.len() && is_digit(s[i]) && is_digit(s[i + 1]) {
        Some(digit_value(s[i]) * 10 + digit_value(s[i + 1]))
    } else {
        None
    }
}

/// The number that the two digits at place `i` spell, where it lies from
/// `low` to `high`.
pub open spec fn field(s: Seq<char>, i: int, low: int, high: int) -> Option<int> {
    match two_digits(s, i) {
        Some(v) => if low <= v <= high {
            Some(v)
        } else {
            None
        },
        None => None,
    }
}

/// The number that the four digits from place `i` on spell, where there are
/// four digits.
pub open spec fn four_digits(s: Seq<char>, i: int) -> Option<int> {
    match (two_digits(s, i), two_digits(s, i + 2)) {
        (Some(high), Some(low)) => Some(high * 100 + low),
        _ => None,
    }
}

/// The length of the sign with which `s` begins: one or none.
pub open spec fn sign_len(s: Seq<char>) -> int {
    if has_char(s, 0, '-') || has_char(s, 0, '+') {
        1
    } else {
        0
    }
}

/// The year (without its sign), month and day with which `s` begins, where it
/// begins with a date: four digits, a hyphen, a month from 01 to 12, a
/// hyphen and a day from 01 to 31.
pub open spec fn date_of(s: Seq<char>) -> Option<(int, int, int)> {
    let p = sign_len(s);
    match (four_digits(s, p), field(s, p + 5, 1, 12), field(s, p + 8, 1, 31)) {
        (Some(year), Some(month), Some(day)) => if has_char(s, p + 4, '-') && has_char(
            s,
            p + 7,
            '-',
        ) {
            Some((year, month, day))
        } else {
            None
        },
        _ => None,
    }
}

/// The place behind the date with which `s` begins.
pub open spec fn date_end(s: Seq<char>) -> int {
    sign_len(s) + 10
}

/// Whether `year` is a leap year. A year before the year zero is one where
/// the year with the same number after it is.
pub open spec fn is_leap(year: int) -> bool {
    (year % 4 == 0 && year % 100 != 0) || year % 400 == 0
}

/// The number of days of the month `month` of the year `year`.
pub open spec fn month_days(year: int, month: int) -> int {
    if month == 2 {
        if is_leap(year) {
            29
        } else {
            28
        }
    } else if month == 4 || month == 6 || month == 9 || month == 11 {
        30
    } else {
        31
    }
}

/// The hour and the second of the time that stands at place `q`: the letter
/// `T`, an hour from 00 to 24, a colon, a minute, a colon and a second, both
/// from 00 to 59.
pub open spec fn clock_of(s: Seq<char>, q: int) -> Option<(int, int)> {
    match (field(s, q + 1, 0, 24), field(s, q + 4, 0, 59), field(s, q + 7, 0, 59)) {
        (Some(hour), Some(_), Some(second)) => if has_char(s, q, 'T') && has_char(s, q + 3, ':')
            && has_char(s, q + 6, ':') {
            Some((hour, second))
        } else {
            None
        },
        _ => None,
    }
}

/// The hour of the zone that stands at place `z`: none for the letter `Z`,
/// and the hour from 00 to 24 of a sign, an hour, a colon and a minute from
/// 00 to 59.
pub open spec fn zone_hour(s: Seq<char>, z: int) -> Option<int> {
    if has_char(s, z, 'Z') {
        Some(0)
    } else if has_char(s, z, '+') || has_char(s, z, '-') {
        match (field(s, z + 1, 0, 24), field(s, z + 4, 0, 59)) {
            (Some(hour), Some(_)) => if has_char(s, z + 3, ':') {
                Some(hour)
            } else {
                None
            },
            _ => None,
        }
    } else {
        None
    }
}

/// The fraction of a second that stands at place `r`: a point and one or
/// more digits that spell a number of at most 32 bits. Given are that number
/// and the place behind the digits.
pub open spec fn fraction_of(s: Seq<char>, r: int) -> Option<(int, int)> {
    let end = digits_end(s, r + 1);
    if has_char(s, r, '.') && end > r + 1 && digits_value(s, r + 1, end) <= u32::MAX {
        Some((digits_value(s, r + 1, end), end))
    } else {
        None
    }
}

/// Whether a fraction of `count` digits that spell `value` is one that a
/// second can have. Up to eight digits are scaled to less than a second;
/// nine or more are taken as nanoseconds, of which a second has less than a
/// thousand million, and the last second of a minute less than two.
pub open spec fn fraction_fits(value: int, count: int, second: int) -> bool {
    count <= 8 || value < 1_000_000_000 || (value < 2_000_000_000 && second == 59)
}

/// Whether the time of day that stands behind the date can be handed over,
/// where `r` is the place behind its seconds.
pub open spec fn time_is_safe(s: Seq<char>, r: int, hour: int, second: int) -> bool {
    match fraction_of(s, r) {
        Some((value, end)) => match zone_hour(s, end) {
            Some(zone) => hour < 24 && zone < 24 && fraction_fits(value, end - (r + 1), second),
            None => true,
        },
        None => match zone_hour(s, r) {
            Some(zone) => hour < 24 && zone < 24,
            None => true,
        },
    }
}

/// Whether the database's datetime reader takes `s` as a datetime. Any other
/// text it answers with the current time.
pub open spec fn is_datetime_text(s: Seq<char>) -> bool {
    date_of(s) is Some
}

/// Whether `s` can be handed to the database's datetime reader: it is no
/// datetime at all, or its date exists and so does the time, if one was
/// read.
pub open spec fn datetime_text_safe(s: Seq<char>) -> bool {
    match date_of(s) {
        None => true,
        Some((year, month, day)) => day <= month_days(year, month) && match clock_of(
            s,
            date_end(s),
        ) {
            None => true,
            Some((hour, second)) => time_is_safe(s, date_end(s) + 9, hour, second),
        },
    }
}

/// Whether `found` is the number `wanted`, or both are none.
pub open spec fn same(found: Option<u32>, wanted: Option<int>) -> bool {
    match (found, wanted) {
        (Some(a), Some(b)) => a as int == b,
        (None, None) => true,
        _ => false,
    }
}

fn two_digits_at(chars: &Vec<char>, i: usize) -> (r: Option<u32>)
    ensures
        same(r, two_digits(chars@, i as int)),
        r is Some ==> r->Some_0 <= 99,
{
    if i < chars.len() && chars.len() - i >= 2 && digit(chars[i]) && digit(chars[i + 1]) {
        Some(digit_number(chars[i]) * 10 + digit_number(chars[i + 1]))
    } else {
        None
    }
}

fn field_at(chars: &Vec<char>, i: usize, low: u32, high: u32) -> (r: Option<u32>)
    ensures
        same(r, field(chars@, i as int, low as int, high as int)),
        r is Some ==> r->Some_0 <= 99,
{
    match two_digits_at(chars, i) {
        Some(v) => if low <= v && v <= high {
            Some(v)
        } else {
            None
        },
        None => None,
    }
}

fn four_digits_at(chars: &Vec<char>, i: usize) -> (r: Option<u32>)
    requires
        i <= 1,
    ensures
        same(r, four_digits(chars@, i as int)),
        r is Some ==> r->Some_0 <= 9999,
{
    match two_digits_at(chars, i) {
        Some(high) => match two_digits_at(chars, i + 2) {
            Some(low) => Some(high * 100 + low),
            None => None,
        },
        None => None,
    }
}

fn sign_len_of(chars: &Vec<char>) -> (p: usize)
    ensures
        p == sign_len(chars@),
{
    if char_at(chars, 0, '-') || char_at(chars, 0, '+') {
        1
    } else {
        0
    }
}

fn days_of_month(year: u32, month: u32) -> (days: u32)
    ensures
        days == month_days(year as int, month as int),
{
    if month == 2 {
        if (year % 4 == 0 && year % 100 != 0) || year % 400 == 0 {
            29
        } else {
            28
        }
    } else if month == 4 || month == 6 || month == 9 || month == 11 {
        30
    } else {
        31
    }
}

/// Whether the date with which `chars` begin exists, where they begin with
/// one.
fn date_exists(chars: &Vec<char>) -> (r: Option<bool>)
    ensures
        match r {
            Some(exists) => date_of(chars@) is Some && exists == (date_of(chars@)->Some_0.2
                <= month_days(date_of(chars@)->Some_0.0, date_of(chars@)->Some_0.1)),
            None => date_of(chars@) is None,
        },
{
    let p: usize = sign_len_of(chars);
    let year = four_digits_at(chars, p);
    let month = field_at(chars, p + 5, 1, 12);
    let day = field_at(chars, p + 8, 1, 31);
    match (year, month, day) {
        (Some(year), Some(month), Some(day)) => {
            if char_at(chars, p + 4, '-') && char_at(chars, p + 7, '-') {
                Some(day <= days_of_month(year, month))
            } else {
                None
            }
        },
        _ => None,
    }
}

/// The hour and the second of the time at place `q`, where there is one.
fn clock_at(chars: &Vec<char>, q: usize) -> (r: Option<(u32, u32)>)
    requires
        q <= 11,
    ensures
        match r {
            Some((hour, second)) => clock_of(chars@, q as int) == Some(
                (hour as int, second as int),
            ),
            None => clock_of(chars@, q as int) is None,
        },
{
    let hour = field_at(chars, q + 1, 0, 24);
    let minute = field_at(chars, q + 4, 0, 59);
    let second = field_at(chars, q + 7, 0, 59);
    match (hour, minute, second) {
        (Some(hour), Some(_), Some(second)) => {
            if char_at(chars, q, 'T') && char_at(chars, q + 3, ':') && char_at(chars, q + 6, ':') {
                Some((hour, second))
            } else {
                None
            }
        },
        _ => None,
    }
}

/// The hour of the zone at place `z`, where there is a zone.
fn zone_hour_at(chars: &Vec<char>, z: usize) -> (r: Option<u32>)
    requires
        z <= chars.len(),
    ensures
        same(r, zone_hour(chars@, z as int)),
{
    if char_at(chars, z, 'Z') {
        Some(0)
    } else if char_at(chars, z, '+') || char_at(chars, z, '-') {
        let hour = field_at(chars, z + 1, 0, 24);
        if chars.len() - z < 6 {
            assert(field(chars@, z + 4, 0, 59) is None);
            return None;
        }
        let minute = field_at(chars, z + 4, 0, 59);
        match (hour, minute) {
            (Some(hour), Some(_)) => if char_at(chars, z + 3, ':') {
                Some(hour)
            } else {
                None
            },
            _ => None,
        }
    } else {
        None
    }
}

/// Whether the time of day behind the date can be handed over, where `r` is
/// the place behind its seconds.
fn time_safe(chars: &Vec<char>, r: usize, hour: u32, second: u32) -> (b: bool)
    requires
        r <= 20,
    ensures
        b == time_is_safe(chars@, r as int, hour as int, second as int),
{
    if char_at(chars, r, '.') {
        let (end, value) = digits_at(chars, r + 1, 0xffff_ffff);
        if end > r + 1 {
            if let Some(value) = value {
                return match zone_hour_at(chars, end) {
                    Some(zone) => hour < 24 && zone < 24 && (end - (r + 1) <= 8 || value
                        < 1_000_000_000 || (value < 2_000_000_000 && second == 59)),
                    None => true,
                };
            }
        }
    }
    if r > chars.len() {
        return true;
    }
    match zone_hour_at(chars, r) {
        Some(zone) => hour < 24 && zone < 24,
        None => true,
    }
}

/// Whether `chars` can be handed to the database's datetime reader.
pub fn datetime_safe(chars: &Vec<char>) -> (b: bool)
    ensures
        b == datetime_text_safe(chars@),
{
    match date_exists(chars) {
        None => true,
        Some(false) => false,
        Some(true) => {
            let q: usize = sign_len_of(chars) + 10;
            match clock_at(chars, q) {
                None => true,
                Some((hour, second)) => time_safe(chars, q + 9, hour, second),
            }
        },
    }
}

} // verus!
