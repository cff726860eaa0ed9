//! Casting values to the types an application expects.

use vstd::prelude::*;
use crate::datetime_text::{datetime_safe, datetime_text_safe, is_datetime_text};
use crate::decimal::{decimal_as_int, int_numeral, Decimal};
use crate::duration_text::{duration_safe, duration_text_safe};
use crate::engine::{
    datetime_of_text,
    decimal_to_int,
    duration_of_text,
    parse_datetime,
    parse_duration,
    parse_uuid,
    uuid_of_text,
};
use crate::error::DbError;
use crate::float::{float_to_int, truncate};
use crate::text::chars_of;
use crate::value::{Datetime, Duration, Id, Number, Tag, Thing, Uuid, Value};

verus! {

/// A type that a value can be cast to.
pub trait FromValue: Sized {
    /// Whether a cast of `value` to this type succeeds.
    spec fn accepts(value: Value) -> bool;

    /// Whether `out` is what a cast of `value` to this type gives.
    spec fn yields(value: Value, out: Self) -> bool;

    /// Casts `value` to this type. Where the value does not fit, the cast
    /// fails with `CastFailed`, and with nothing else.
    fn from_value(value: Value) -> (r: Result<Self, DbError>)
        ensures
            match r {
                Ok(out) => Self::accepts(value) && Self::yields(value, out),
                Err(e) => !Self::accepts(value) && e == DbError::CastFailed,
            },
    ;
}

/// A value that can be cast to any type that has `FromValue`.
pub trait ValueCast {
    /// Casts this value to `T`.
    fn cast<T: FromValue>(self) -> Result<T, DbError>;
}

impl ValueCast for Value {
    /// Casts this value to `T`, as `T::from_value` does.
    fn cast<T: FromValue>(self) -> (r: Result<T, DbError>)
        ensures
            match r {
                Ok(out) => T::accepts(self) && T::yields(self, out),
                Err(e) => !T::accepts(self) && e == DbError::CastFailed,
            },
    {
        T::from_value(self)
    }
}

impl FromValue for String {
    /// A string is taken, and nothing else.
    open spec fn accepts(value: Value) -> bool {
        value is Strand
    }

    /// The string comes back as it is.
    open spec fn yields(value: Value, out: String) -> bool {
        value == Value::Strand(out)
    }

    fn from_value(value: Value) -> (r: Result<String, DbError>) {
        match value {
            Value::Strand(text) => Ok(text),
            _ => Err(DbError::CastFailed),
        }
    }
}

impl FromValue for bool {
    /// The two truth values are taken, and nothing else.
    open spec fn accepts(value: Value) -> bool {
        value is True || value is False
    }

    /// The truth value that the value stands for.
    open spec fn yields(value: Value, out: bool) -> bool {
        out == (value is True)
    }

    fn from_value(value: Value) -> (r: Result<bool, DbError>) {
        match value {
            Value::True => Ok(true),
            Value::False => Ok(false),
            _ => Err(DbError::CastFailed),
        }
    }
}

/// The signed 64-bit integer with the same bit pattern as the unsigned
/// `secs`.
pub open spec fn wrapped(secs: u64) -> int {
    if secs <= i64::MAX {
        secs as int
    } else {
        secs - 0x1_0000_0000_0000_0000
    }
}

/// The integer that the number `n` is read as: itself, the floating-point
/// number without its fractional part, or the whole part of the decimal.
pub open spec fn number_as_int(n: Number) -> int {
    match n {
        Number::Int(v) => v as int,
        Number::Float(f) => float_to_int(f.bits),
        Number::Decimal(d) => decimal_as_int(d@),
    }
}

/// The integer that `value` is read as: a number as `number_as_int` says, a
/// duration as its whole seconds, and a point in time as its seconds since
/// the epoch.
pub open spec fn value_as_int(value: Value) -> int {
    match value {
        Value::Number(n) => number_as_int(n),
        Value::Duration(d) => wrapped(d.secs),
        Value::Datetime(t) => t.secs as int,
        _ => 0,
    }
}

/// The signed integer with the bit pattern of `secs`.
fn wrap(secs: u64) -> (r: i64)
    ensures
        r == wrapped(secs),
{
    if secs <= 0x7fff_ffff_ffff_ffff {
        secs as i64
    } else {
        ((secs - 0x8000_0000_0000_0000) as i64) + i64::MIN
    }
}

impl FromValue for i64 {
    /// A number, a duration and a point in time are taken, and nothing
    /// else.
    open spec fn accepts(value: Value) -> bool {
        value is Number || value is Duration || value is Datetime
    }

    /// The integer that the value is read as.
    open spec fn yields(value: Value, out: i64) -> bool {
        out == value_as_int(value)
    }

    fn from_value(value: Value) -> (r: Result<i64, DbError>) {
        match value {
            Value::Number(Number::Int(v)) => Ok(v),
            Value::Number(Number::Float(f)) => Ok(truncate(f.bits)),
            Value::Number(Number::Decimal(d)) => Ok(decimal_to_int(d.as_str())),
            Value::Duration(d) => Ok(wrap(d.secs)),
            Value::Datetime(t) => Ok(t.secs),
            _ => Err(DbError::CastFailed),
        }
    }
}

/// The numeral of the decimal that the number `n` is read as.
pub open spec fn number_as_decimal(n: Number) -> Seq<char> {
    match n {
        Number::Int(v) => int_numeral(v as int),
        Number::Float(f) => f.decimal@,
        Number::Decimal(d) => d@,
    }
}

impl FromValue for Decimal {
    /// A number is taken, and nothing else.
    open spec fn accepts(value: Value) -> bool {
        value is Number
    }

    /// The decimal that the number is read as.
    open spec fn yields(value: Value, out: Decimal) -> bool {
        out@ == number_as_decimal(value->Number_0)
    }

    fn from_value(value: Value) -> (r: Result<Decimal, DbError>) {
        match value {
            Value::Number(Number::Int(v)) => Ok(Decimal::from_int(v)),
            Value::Number(Number::Float(f)) => Ok(f.decimal),
            Value::Number(Number::Decimal(d)) => Ok(d),
            _ => Err(DbError::CastFailed),
        }
    }
}

impl FromValue for Datetime {
    /// A point in time is taken as it is. A string is handed to the
    /// database's datetime reader, unless the reader would stop the program
    /// on it.
    open spec fn accepts(value: Value) -> bool {
        value is Datetime || (value is Strand && datetime_text_safe(value->Strand_0@))
    }

    /// A string that begins with a datetime gives that datetime. Any other
    /// string gives the time at which it is read.
    open spec fn yields(value: Value, out: Datetime) -> bool {
        match value {
            Value::Datetime(at) => out == at,
            Value::Strand(text) => is_datetime_text(text@) ==> (out.secs, out.nanos)
                == datetime_of_text(text@),
            _ => true,
        }
    }

    fn from_value(value: Value) -> (r: Result<Datetime, DbError>) {
        match value {
            Value::Datetime(at) => Ok(at),
            Value::Strand(text) => {
                let chars = chars_of(text.as_str());
                if datetime_safe(&chars) {
                    Ok(parse_datetime(text.as_str()))
                } else {
                    Err(DbError::CastFailed)
                }
            },
            _ => Err(DbError::CastFailed),
        }
    }
}

impl FromValue for Duration {
    /// A duration is taken as it is. A string is handed to the database's
    /// duration reader, unless the reader would stop the program on it.
    open spec fn accepts(value: Value) -> bool {
        value is Duration || (value is Strand && duration_text_safe(value->Strand_0@))
    }

    /// A string gives what the database's duration reader makes of it.
    open spec fn yields(value: Value, out: Duration) -> bool {
        match value {
            Value::Duration(span) => out == span,
            Value::Strand(text) => (out.secs, out.nanos) == duration_of_text(text@),
            _ => true,
        }
    }

    fn from_value(value: Value) -> (r: Result<Duration, DbError>) {
        match value {
            Value::Duration(span) => Ok(span),
            Value::Strand(text) => {
                let chars = chars_of(text.as_str());
                if duration_safe(&chars) {
                    Ok(parse_duration(text.as_str()))
                } else {
                    Err(DbError::CastFailed)
                }
            },
            _ => Err(DbError::CastFailed),
        }
    }
}

/// What a floating-point number can be read from: a number, a duration or a
/// point in time.
#[derive(Clone, Debug)]
pub enum FloatSource {
    Number(Number),
    Duration(Duration),
    Datetime(Datetime),
}

impl FromValue for FloatSource {
    /// A number, a duration and a point in time are taken, and nothing
    /// else.
    open spec fn accepts(value: Value) -> bool {
        value is Number || value is Duration || value is Datetime
    }

    /// What was taken comes back as it is.
    open spec fn yields(value: Value, out: FloatSource) -> bool {
        match out {
            FloatSource::Number(n) => value == Value::Number(n),
            FloatSource::Duration(span) => value == Value::Duration(span),
            FloatSource::Datetime(at) => value == Value::Datetime(at),
        }
    }

    fn from_value(value: Value) -> (r: Result<FloatSource, DbError>) {
        match value {
            Value::Number(n) => Ok(FloatSource::Number(n)),
            Value::Duration(span) => Ok(FloatSource::Duration(span)),
            Value::Datetime(at) => Ok(FloatSource::Datetime(at)),
            _ => Err(DbError::CastFailed),
        }
    }
}

/// The text of `value` in which a UUID is looked for: a string itself, and
/// the identifier of a record reference.
pub open spec fn uuid_text(value: Value) -> Option<Seq<char>> {
    match value {
        Value::Strand(text) => Some(text@),
        Value::Thing(thing) => Some(thing.id.raw()),
        _ => None,
    }
}

/// The outcome of a cast to a UUID, given what reading the value's text gave.
pub fn uuid_from_parsed(parsed: Option<Uuid>) -> (r: Result<Uuid, DbError>)
    ensures
        r == match parsed {
            Some(id) => Ok::<Uuid, DbError>(id),
            None => Err::<Uuid, DbError>(DbError::CastFailed),
        },
{
    match parsed {
        Some(id) => Ok(id),
        None => Err(DbError::CastFailed),
    }
}

impl FromValue for Uuid {
    /// A UUID is taken, and so are a string and a record reference whose
    /// text spells a UUID. Nothing else is.
    open spec fn accepts(value: Value) -> bool {
        ||| value is Uuid
        ||| uuid_text(value) is Some && uuid_of_text(uuid_text(value)->Some_0) is Some
    }

    /// A UUID comes back as it is, and a text gives the UUID that it spells.
    open spec fn yields(value: Value, out: Uuid) -> bool {
        match value {
            Value::Uuid(id) => out == id,
            _ => Some(out.bits) == uuid_of_text(uuid_text(value)->Some_0),
        }
    }

    fn from_value(value: Value) -> (r: Result<Uuid, DbError>) {
        match value {
            Value::Strand(text) => uuid_from_parsed(parse_uuid(text.as_str())),
            Value::Uuid(id) => Ok(id),
            Value::Thing(thing) => {
                let text = thing.id.to_raw();
                uuid_from_parsed(parse_uuid(text.as_str()))
            },
            _ => Err(DbError::CastFailed),
        }
    }
}

impl<T: FromValue> FromValue for Option<T> {
    /// The absent and the null value are taken, and whatever `T` takes.
    open spec fn accepts(value: Value) -> bool {
        value is Absent || value is Null || T::accepts(value)
    }

    /// The absent and the null value give nothing, and any other value what
    /// a cast to `T` gives.
    open spec fn yields(value: Value, out: Option<T>) -> bool {
        if value is Absent || value is Null {
            out is None
        } else {
            out is Some && T::yields(value, out->Some_0)
        }
    }

    fn from_value(value: Value) -> (r: Result<Option<T>, DbError>) {
        match value {
            Value::Absent | Value::Null => Ok(None),
            _ => match T::from_value(value) {
                Ok(out) => Ok(Some(out)),
                Err(e) => Err(e),
            },
        }
    }
}

/// The types that a value can be cast to.
#[derive(Clone, Copy, Debug, PartialEq, Eq, Structural)]
pub enum Target {
    Text,
    Boolean,
    Datetime,
    Integer,
    Float,
    Decimal,
    Duration,
    Uuid,
}

impl Target {
    /// Whether a value of the shape `tag` is one that a cast to this type
    /// takes.
    pub open spec fn admits(self, tag: Tag) -> bool {
        match self {
            Target::Text => tag == Tag::Strand,
            Target::Boolean => tag == Tag::True || tag == Tag::False,
            Target::Datetime => tag == Tag::Datetime || tag == Tag::Strand,
            Target::Integer | Target::Float => tag == Tag::Number || tag == Tag::Duration || tag
                == Tag::Datetime,
            Target::Decimal => tag == Tag::Number,
            Target::Duration => tag == Tag::Strand || tag == Tag::Duration,
            Target::Uuid => tag == Tag::Strand || tag == Tag::Uuid || tag == Tag::Thing,
        }
    }

    /// Whether a value of the shape `tag` is one that a cast to this type
    /// takes.
    pub fn takes(self, tag: Tag) -> (b: bool)
        ensures
            b == self.admits(tag),
    {
        match self {
            Target::Text => tag == Tag::Strand,
            Target::Boolean => tag == Tag::True || tag == Tag::False,
            Target::Datetime => tag == Tag::Datetime || tag == Tag::Strand,
            Target::Integer | Target::Float => tag == Tag::Number || tag == Tag::Duration || tag
                == Tag::Datetime,
            Target::Decimal => tag == Tag::Number,
            Target::Duration => tag == Tag::Strand || tag == Tag::Duration,
            Target::Uuid => tag == Tag::Strand || tag == Tag::Uuid || tag == Tag::Thing,
        }
    }
}

/// The value that stands for the truth value `b`.
pub open spec fn truth(b: bool) -> Value {
    if b {
        Value::True
    } else {
        Value::False
    }
}

/// A value of a shape that a type takes is cast to that type, and a value
/// that was made of a string, a truth value, an integer, a decimal, a
/// duration, a datetime or a UUID comes back as what it was made of. A string
/// is cast to a datetime or to a duration unless the database's reader would
/// stop the program on it, and a string or a record reference to a UUID where
/// its text spells one.
pub proof fn law_fitting_values_are_cast(value: Value)
    ensures
        Target::Text.admits(value.tag()) ==> String::accepts(value),
        Target::Boolean.admits(value.tag()) ==> bool::accepts(value),
        Target::Integer.admits(value.tag()) ==> i64::accepts(value),
        Target::Float.admits(value.tag()) ==> FloatSource::accepts(value),
        Target::Decimal.admits(value.tag()) ==> Decimal::accepts(value),
        Target::Datetime.admits(value.tag()) && (value is Strand ==> datetime_text_safe(
            value->Strand_0@,
        )) ==> Datetime::accepts(value),
        Target::Duration.admits(value.tag()) && (value is Strand ==> duration_text_safe(
            value->Strand_0@,
        )) ==> Duration::accepts(value),
        Target::Uuid.admits(value.tag()) && (uuid_text(value) is Some ==> uuid_of_text(
            uuid_text(value)->Some_0,
        ) is Some) ==> Uuid::accepts(value),
        forall|out: String| String::yields(value, out) ==> value == Value::Strand(out),
        forall|b: bool, out: bool| value == truth(b) && bool::yields(value, out) ==> out == b,
        forall|v: i64, out: i64|
            value == Value::Number(Number::Int(v)) && i64::yields(value, out) ==> out == v,
        forall|d: Decimal, out: Decimal|
            value == Value::Number(Number::Decimal(d)) && Decimal::yields(value, out) ==> out@
                == d@,
        forall|span: Duration, out: Duration|
            value == Value::Duration(span) && Duration::yields(value, out) ==> out == span,
        forall|at: Datetime, out: Datetime|
            value == Value::Datetime(at) && Datetime::yields(value, out) ==> out == at,
        forall|id: Uuid, out: Uuid|
            value == Value::Uuid(id) && Uuid::yields(value, out) ==> out == id,
{
}

/// A value of a shape that a type does not take is not cast to that type:
/// the cast fails, and `from_value` says that it then fails with
/// `CastFailed`.
pub proof fn law_other_values_are_refused(value: Value)
    ensures
        !Target::Text.admits(value.tag()) ==> !String::accepts(value),
        !Target::Boolean.admits(value.tag()) ==> !bool::accepts(value),
        !Target::Integer.admits(value.tag()) ==> !i64::accepts(value),
        !Target::Float.admits(value.tag()) ==> !FloatSource::accepts(value),
        !Target::Decimal.admits(value.tag()) ==> !Decimal::accepts(value),
        !Target::Datetime.admits(value.tag()) ==> !Datetime::accepts(value),
        !Target::Duration.admits(value.tag()) ==> !Duration::accepts(value),
        !Target::Uuid.admits(value.tag()) ==> !Uuid::accepts(value),
{
}

/// A cast of the absent or the null value to an optional type succeeds and
/// gives nothing. A cast of any other value to an optional type succeeds
/// where the cast to the type itself does, and gives what that gives.
pub proof fn law_optional_casts<T: FromValue>(value: Value, out: Option<T>)
    ensures
        value is Absent || value is Null ==> Option::<T>::accepts(value) && (Option::<T>::yields(
            value,
            out,
        ) <==> out is None),
        !(value is Absent || value is Null) ==> (Option::<T>::accepts(value) <==> T::accepts(
            value,
        )) && (Option::<T>::yields(value, out) <==> out is Some && T::yields(
            value,
            out->Some_0,
        )),
{
}

/// A record reference is cast to a UUID where its identifier spells one,
/// and to that UUID; where it spells none, the cast fails. The identifier is
/// read as it is: a name with all its characters, hyphens among them.
pub proof fn law_record_reference_as_uuid(tb: String, id: Id, out: Uuid)
    ensures
        Uuid::accepts(Value::Thing(Thing { tb, id })) <==> uuid_of_text(id.raw()) is Some,
        Uuid::yields(Value::Thing(Thing { tb, id }), out) <==> Some(out.bits) == uuid_of_text(
            id.raw(),
        ),
        id is Name ==> id.raw() == id->Name_0@,
{
}

} // verus!
