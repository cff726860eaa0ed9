//! Which texts the database's duration reader can be handed.
//!
//! The reader takes a duration as one or more parts, each a number and a
//! unit (`1h30m`, `500ms`), and adds the parts up. It stops the program where
//! a part or the sum is more than it can hold. This module tells beforehand.

use vstd::prelude::*;
use crate::text::{
    char_at,
    digits_at,
    digits_end,
    digits_value,
    has_char,
    lemma_digits_end_bounds,
    lemma_digits_value_nonnegative,
};

verus! {

/// A unit of time that a part of a duration can have.
#[derive(Clone, Copy, Debug, PartialEq, Eq, Structural)]
pub enum Unit {
    Nanos,
    Micros,
    Millis,
    Secs,
    Mins,
    Hours,
    Days,
    Weeks,
    Years,
}

/// The nanoseconds of one second.
pub const NANOS_PER_SEC: u64 = 1_000_000_000;

/// The first number of nanoseconds that is more than a duration can hold:
/// two to the sixty-fourth seconds.
pub open spec fn nanos_limit() -> int {
    0x1_0000_0000_0000_0000 * NANOS_PER_SEC as int
}

impl Unit {
    /// The number of characters of the unit's name.
    pub open spec fn len(self) -> int {
        match self {
            Unit::Nanos | Unit::Micros | Unit::Millis => 2,
            _ => 1,
        }
    }

    /// The seconds of the unit, for a unit of whole seconds; a year has 365
    /// days.
    pub open spec fn seconds(self) -> int {
        match self {
            Unit::Mins => 60,
            Unit::Hours => 3_600,
            Unit::Days => 86_400,
            Unit::Weeks => 604_800,
            Unit::Years => 31_536_000,
            _ => 1,
        }
    }

    /// The nanoseconds of the unit.
    pub open spec fn nanos(self) -> int {
        match self {
            Unit::Nanos => 1,
            Unit::Micros => 1_000,
            Unit::Millis => 1_000_000,
            _ => self.seconds() * NANOS_PER_SEC as int,
        }
    }

    /// The number of characters of the unit's name.
    fn len_of(self) -> (n: usize)
        ensures
            n == self.len(),
    {
        match self {
            Unit::Nanos | Unit::Micros | Unit::Millis => 2,
            _ => 1,
        }
    }

    /// Whether `count` of this unit can be held. The reader counts minutes
    /// and longer units in whole seconds, of which it holds less than two to
    /// the sixty-fourth.
    pub open spec fn holds(self, count: int) -> bool {
        count * self.seconds() <= u64::MAX
    }
}

/// The unit whose name stands at place `i`. Of two names that fit, the one
/// of two letters is meant.
pub open spec fn unit_of(s: Seq<char>, i: int) -> Option<Unit> {
    if has_char(s, i, 'n') && has_char(s, i + 1, 's') {
        Some(Unit::Nanos)
    } else if has_char(s, i, 'µ') && has_char(s, i + 1, 's') {
        Some(Unit::Micros)
    } else if has_char(s, i, 'm') && has_char(s, i + 1, 's') {
        Some(Unit::Millis)
    } else if has_char(s, i, 's') {
        Some(Unit::Secs)
    } else if has_char(s, i, 'm') {
        Some(Unit::Mins)
    } else if has_char(s, i, 'h') {
        Some(Unit::Hours)
    } else if has_char(s, i, 'd') {
        Some(Unit::Days)
    } else if has_char(s, i, 'w') {
        Some(Unit::Weeks)
    } else if has_char(s, i, 'y') {
        Some(Unit::Years)
    } else {
        None
    }
}

/// The part that stands at place `i`: one or more digits that spell a number
/// of at most 64 bits, and a unit. Given are the unit, the number and the
/// place behind the part.
pub open spec fn part_of(s: Seq<char>, i: int) -> Option<(Unit, int, int)> {
    let end = digits_end(s, i);
    let count = digits_value(s, i, end);
    match unit_of(s, end) {
        Some(unit) => if end > i && count <= u64::MAX {
            Some((unit, count, end + unit.len()))
        } else {
            None
        },
        None => None,
    }
}

/// Whether each of the parts that stand one behind the other from place `i`
/// on can be held.
pub open spec fn parts_hold(s: Seq<char>, i: int) -> bool
    decreases s.len() - i,
{
    match part_of(s, i) {
        Some((unit, count, end)) => unit.holds(count) && if i < end <= s.len() {
            parts_hold(s, end)
        } else {
            true
        },
        None => true,
    }
}

/// The nanoseconds that the parts from place `i` on come to.
pub open spec fn parts_nanos(s: Seq<char>, i: int) -> int
    decreases s.len() - i,
{
    match part_of(s, i) {
        Some((unit, count, end)) => count * unit.nanos() + if i < end <= s.len() {
            parts_nanos(s, end)
        } else {
            0
        },
        None => 0,
    }
}

/// Whether `s` can be handed to the database's duration reader: each of the
/// parts with which it begins can be held, and so can their sum.
pub open spec fn duration_text_safe(s: Seq<char>) -> bool {
    parts_hold(s, 0) && parts_nanos(s, 0) < nanos_limit()
}

/// A part lies within the text, and ends behind where it begins.
pub proof fn lemma_part_bounds(s: Seq<char>, i: int)
    requires
        0 <= i <= s.len(),
        part_of(s, i) is Some,
    ensures
        i < part_of(s, i)->Some_0.2 <= s.len(),
        part_of(s, i)->Some_0.1 >= 0,
{
    lemma_digits_end_bounds(s, i);
    lemma_digits_value_nonnegative(s, i, digits_end(s, i));
}

/// The parts from any place on come to no less than nothing.
pub proof fn lemma_parts_nanos_nonnegative(s: Seq<char>, i: int)
    requires
        0 <= i <= s.len(),
    ensures
        parts_nanos(s, i) >= 0,
    decreases s.len() - i,
{
    if part_of(s, i) is Some {
        lemma_part_bounds(s, i);
        let (unit, count, end) = part_of(s, i)->Some_0;
        lemma_parts_nanos_nonnegative(s, end);
        assert(count * unit.nanos() >= 0) by (nonlinear_arith)
            requires
                count >= 0,
                unit.nanos() >= 0,
        ;
    }
}

/// The unit whose name stands at place `i`.
fn unit_at(chars: &Vec<char>, i: usize) -> (r: Option<Unit>)
    requires
        i <= chars.len(),
    ensures
        r == unit_of(chars@, i as int),
{
    let followed: bool = i < chars.len() && char_at(chars, i + 1, 's');
    if char_at(chars, i, 'n') && followed {
        Some(Unit::Nanos)
    } else if char_at(chars, i, 'µ') && followed {
        Some(Unit::Micros)
    } else if char_at(chars, i, 'm') && followed {
        Some(Unit::Millis)
    } else if char_at(chars, i, 's') {
        Some(Unit::Secs)
    } else if char_at(chars, i, 'm') {
        Some(Unit::Mins)
    } else if char_at(chars, i, 'h') {
        Some(Unit::Hours)
    } else if char_at(chars, i, 'd') {
        Some(Unit::Days)
    } else if char_at(chars, i, 'w') {
        Some(Unit::Weeks)
    } else if char_at(chars, i, 'y') {
        Some(Unit::Years)
    } else {
        None
    }
}

/// The whole seconds and the nanoseconds beyond them that `count` of `unit`
/// come to, where that can be held.
fn part_span(unit: Unit, count: u64) -> (r: Option<(u64, u64)>)
    ensures
        match r {
            Some((secs, nanos)) => unit.holds(count as int) && nanos < NANOS_PER_SEC && secs
                * NANOS_PER_SEC + nanos == count * unit.nanos(),
            None => !unit.holds(count as int),
        },
{
    let seconds: u64 = match unit {
        Unit::Nanos => {
            return Some((count / NANOS_PER_SEC, count % NANOS_PER_SEC));
        },
        Unit::Micros => {
            return Some((count / 1_000_000, (count % 1_000_000) * 1_000));
        },
        Unit::Millis => {
            return Some((count / 1_000, (count % 1_000) * 1_000_000));
        },
        Unit::Secs => 1,
        Unit::Mins => 60,
        Unit::Hours => 3_600,
        Unit::Days => 86_400,
        Unit::Weeks => 604_800,
        Unit::Years => 31_536_000,
    };
    if count > u64::MAX / seconds {
        assert(count * seconds > u64::MAX) by (nonlinear_arith)
            requires
                count > u64::MAX / seconds,
                seconds > 0,
        ;
        None
    } else {
        assert(count * seconds <= u64::MAX) by (nonlinear_arith)
            requires
                count <= u64::MAX / seconds,
                seconds > 0,
        ;
        assert(count * seconds * NANOS_PER_SEC == count * (seconds * NANOS_PER_SEC))
            by (nonlinear_arith);
        Some((count * seconds, 0))
    }
}

/// Whether `chars` can be handed to the database's duration reader.
pub fn duration_safe(chars: &Vec<char>) -> (b: bool)
    ensures
        b == duration_text_safe(chars@),
{
    let mut i: usize = 0;
    let mut secs: u64 = 0;
    let mut nanos: u64 = 0;
    loop
        invariant
            i <= chars.len(),
            nanos < NANOS_PER_SEC,
            duration_text_safe(chars@) == (parts_hold(chars@, i as int) && secs * NANOS_PER_SEC
                + nanos + parts_nanos(chars@, i as int) < nanos_limit()),
        decreases chars.len() - i,
    {
        let (end, count) = digits_at(chars, i, u64::MAX);
        let unit = unit_at(chars, end);
        let (unit, count) = match (unit, count) {
            (Some(unit), Some(count)) => (unit, count),
            _ => {
                return true;
            },
        };
        if end == i {
            return true;
        }
        proof {
            lemma_part_bounds(chars@, i as int);
            lemma_parts_nanos_nonnegative(chars@, part_of(chars@, i as int)->Some_0.2);
        }
        let (more_secs, more_nanos) = match part_span(unit, count) {
            Some(span) => span,
            None => {
                return false;
            },
        };
        if more_secs > u64::MAX - secs {
            return false;
        }
        secs = secs + more_secs;
        nanos = nanos + more_nanos;
        if nanos >= NANOS_PER_SEC {
            if secs == u64::MAX {
                return false;
            }
            secs = secs + 1;
            nanos = nanos - NANOS_PER_SEC;
        }
        i = if unit.len_of() == 2 {
            end + 2
        } else {
            end + 1
        };
    }
}

} // verus!
