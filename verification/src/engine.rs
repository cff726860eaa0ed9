//! The conversions that are left to the database's own code and to the
//! crates it builds on. What is stated of them here is taken on trust.

use std::str::FromStr;
use vstd::prelude::*;
use crate::datetime_text::{datetime_text_safe, is_datetime_text};
use crate::decimal::{decimal_as_int, int_numeral, is_plain_decimal};
use crate::duration_text::duration_text_safe;
use crate::value::{Datetime, Duration, Uuid};

verus! {

/// The number of the UUID that `text` spells, for a text that spells one.
pub uninterp spec fn uuid_of_text(text: Seq<char>) -> Option<u128>;

/// The point in time that the database reads from the datetime `text`: its
/// seconds since the epoch and the nanoseconds beyond them.
pub uninterp spec fn datetime_of_text(text: Seq<char>) -> (i64, u32);

/// The duration that the database reads from `text`: its whole seconds and
/// the nanoseconds beyond them.
pub uninterp spec fn duration_of_text(text: Seq<char>) -> (u64, u32);

/// `uuid::Uuid::from_str`, which reads a UUID from its text, in any of the
/// forms that the `uuid` crate knows, and fails on any other text. The result
/// depends on the text alone.
#[verifier::external_body]
pub(crate) fn parse_uuid(text: &str) -> (r: Option<Uuid>)
    ensures
        r == match uuid_of_text(text@) {
            Some(bits) => Some(Uuid { bits }),
            None => None,
        },
{
    match uuid::Uuid::from_str(text) {
        Ok(id) => Some(Uuid { bits: id.as_u128() }),
        Err(_) => None,
    }
}

/// `surrealdb::sql::Number::as_int` on a decimal number, which is
/// `bigdecimal`'s `to_i64` with zero in place of a failure. The decimal is
/// read from its numeral by `Number::from`. `to_i64` drops the digits behind
/// the point and fails where what is left is no 64-bit integer. Left out are
/// numerals in other than plain notation: with an exponent, reading or
/// scaling one can stop the program.
#[verifier::external_body]
pub(crate) fn decimal_to_int(text: &str) -> (r: i64)
    requires
        is_plain_decimal(text@),
    ensures
        r == decimal_as_int(text@),
{
    surrealdb::sql::Number::from(text).as_int()
}

/// `surrealdb::sql::Number::as_decimal` on an integer, which is `bigdecimal`'s
/// `from_i64`: the decimal with that integer as its digits and no fractional
/// part. It is handed back as the numeral that `to_string` makes of it: the
/// integer's digits, after a minus sign where it is negative.
#[verifier::external_body]
pub(crate) fn int_to_decimal(v: i64) -> (r: String)
    ensures
        r@ == int_numeral(v as int),
{
    surrealdb::sql::Number::Int(v).as_decimal().to_string()
}

/// `surrealdb::sql::Id::to_raw` on a number, which writes the number as std
/// writes an integer: its digits, after a minus sign where it is negative.
#[verifier::external_body]
pub(crate) fn number_id_text(v: i64) -> (r: String)
    ensures
        r@ == int_numeral(v as int),
{
    surrealdb::sql::Id::Number(v).to_raw()
}

/// `surrealdb::sql::Datetime::from`, for a text, which is what
/// `Value::as_datetime` does with a string. Where the text begins with a
/// datetime, the result is that datetime and depends on the text alone. Any
/// other text gives the time at which the call is made, of which nothing is
/// stated. The point in time is handed back by `chrono`'s `timestamp` and
/// `timestamp_subsec_nanos`. Left out are the texts on which the reader stops
/// the program: those whose date, hour, fraction or zone does not exist.
#[verifier::external_body]
pub(crate) fn parse_datetime(text: &str) -> (r: Datetime)
    requires
        datetime_text_safe(text@),
    ensures
        is_datetime_text(text@) ==> (r.secs, r.nanos) == datetime_of_text(text@),
{
    let read = surrealdb::sql::Datetime::from(text);
    Datetime { secs: read.0.timestamp(), nanos: read.0.timestamp_subsec_nanos() }
}

/// `surrealdb::sql::Duration::from`, for a text, which is what
/// `Value::as_duration` does with a string: the sum of the parts that the
/// text is made of, and no time at all for a text that is no duration. The
/// result depends on the text alone. It is handed back by std's `as_secs` and
/// `subsec_nanos`. Left out are the texts on which the reader stops the
/// program: those with a part or a sum beyond what a duration holds.
#[verifier::external_body]
pub(crate) fn parse_duration(text: &str) -> (r: Duration)
    requires
        duration_text_safe(text@),
    ensures
        (r.secs, r.nanos) == duration_of_text(text@),
{
    let read = surrealdb::sql::Duration::from(text);
    Duration { secs: read.0.as_secs(), nanos: read.0.subsec_nanos() }
}

} // verus!
