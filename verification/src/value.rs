//! The values that travel between an application and the database.

use vstd::prelude::*;
use vstd::std_specs::convert::FromSpecImpl;
use crate::decimal::{int_numeral, Decimal};
use crate::engine::number_id_text;
use crate::object::Object;

verus! {

/// A span of time: whole seconds and the nanoseconds beyond them.
#[derive(Clone, Copy, Debug, PartialEq, Eq, Structural)]
pub struct Duration {
    pub secs: u64,
    pub nanos: u32,
}

/// A point in time: seconds since the Unix epoch, in UTC, and the
/// nanoseconds beyond them.
#[derive(Clone, Copy, Debug, PartialEq, Eq, Structural)]
pub struct Datetime {
    pub secs: i64,
    pub nanos: u32,
}

/// A UUID, as the 128-bit number that its sixteen bytes spell, first byte
/// highest.
#[derive(Clone, Copy, Debug, PartialEq, Eq, Structural)]
pub struct Uuid {
    pub bits: u128,
}

/// The identifier of a stored record within its table.
#[derive(Debug)]
pub enum Id {
    /// A number.
    Number(i64),
    /// A name.
    Name(String),
    /// An identifier of any other kind, as the database prints it.
    Other(String),
}

/// A reference to a stored record: its table and its identifier.
#[derive(Debug)]
pub struct Thing {
    pub tb: String,
    pub id: Id,
}

impl Id {
    /// The identifier itself, as text: a number as its numeral, a name as it
    /// is, and any other identifier as the database prints it.
    pub open spec fn raw(self) -> Seq<char> {
        match self {
            Id::Number(v) => int_numeral(v as int),
            Id::Name(name) => name@,
            Id::Other(text) => text@,
        }
    }

    /// The identifier itself, as text.
    pub fn to_raw(&self) -> (text: String)
        ensures
            text@ == self.raw(),
    {
        match self {
            Id::Number(v) => number_id_text(*v),
            Id::Name(name) => name.clone(),
            Id::Other(text) => text.clone(),
        }
    }
}

/// A binary floating-point number of 64 bits: its bit pattern, and the
/// decimal that the database makes of it.
#[derive(Debug)]
pub struct Float {
    pub bits: u64,
    pub decimal: Decimal,
}

/// A number, in one of the three forms that the database knows.
#[derive(Debug)]
pub enum Number {
    Int(i64),
    Float(Float),
    Decimal(Decimal),
}

/// The shape of a value.
#[derive(Clone, Copy, Debug, PartialEq, Eq, Structural)]
pub enum Tag {
    Absent,
    Null,
    False,
    True,
    Number,
    Strand,
    Duration,
    Datetime,
    Uuid,
    Array,
    Object,
    Thing,
    Other,
}

/// A database value.
#[derive(Debug)]
pub enum Value {
    /// No value at all (the database's NONE).
    Absent,
    /// The null value.
    Null,
    False,
    True,
    Number(Number),
    Strand(String),
    Duration(Duration),
    Datetime(Datetime),
    Uuid(Uuid),
    Array(Vec<Value>),
    Object(Object),
    Thing(Thing),
    /// Any other shape, in the text form in which the database prints it.
    Other(String),
}

impl Clone for Id {
    fn clone(&self) -> (copy: Id)
        ensures
            copy == *self,
    {
        match self {
            Id::Number(v) => Id::Number(*v),
            Id::Name(name) => Id::Name(name.clone()),
            Id::Other(text) => Id::Other(text.clone()),
        }
    }
}

impl Clone for Thing {
    fn clone(&self) -> (copy: Thing)
        ensures
            copy == *self,
    {
        Thing { tb: self.tb.clone(), id: self.id.clone() }
    }
}

impl Clone for Float {
    fn clone(&self) -> (copy: Float)
        ensures
            copy == *self,
    {
        Float { bits: self.bits, decimal: self.decimal.clone() }
    }
}

impl Clone for Number {
    fn clone(&self) -> (copy: Number)
        ensures
            copy == *self,
    {
        match self {
            Number::Int(v) => Number::Int(*v),
            Number::Float(f) => Number::Float(f.clone()),
            Number::Decimal(d) => Number::Decimal(d.clone()),
        }
    }
}

/// Whether `a` and `b` hold the same as far as `depth` levels down: arrays
/// of one length whose elements do so one level less far, objects with the
/// same names whose values do so one level less far, and values of any other
/// shape that are equal.
pub open spec fn alike_to(a: Value, b: Value, depth: nat) -> bool
    decreases depth,
{
    if depth == 0 {
        true
    } else {
        match (a, b) {
            (Value::Array(x), Value::Array(y)) => {
                &&& x@.len() == y@.len()
                &&& forall|i: int|
                    0 <= i < x@.len() ==> alike_to(#[trigger] x@[i], y@[i], (depth - 1) as nat)
            },
            (Value::Object(x), Value::Object(y)) => {
                &&& x@.dom() == y@.dom()
                &&& forall|key: Seq<char>|
                    x@.contains_key(key) ==> alike_to(
                        #[trigger] x@[key],
                        y@[key],
                        (depth - 1) as nat,
                    )
            },
            (Value::Array(_), _) | (Value::Object(_), _) => false,
            _ => a == b,
        }
    }
}

impl Clone for Value {
    /// A copy of this value, which holds what this value holds.
    fn clone(&self) -> (copy: Value)
        ensures
            self.alike(copy),
        decreases self,
    {
        let copy = match self {
            Value::Absent => Value::Absent,
            Value::Null => Value::Null,
            Value::False => Value::False,
            Value::True => Value::True,
            Value::Number(number) => Value::Number(number.clone()),
            Value::Strand(text) => Value::Strand(text.clone()),
            Value::Duration(span) => Value::Duration(*span),
            Value::Datetime(at) => Value::Datetime(*at),
            Value::Uuid(id) => Value::Uuid(*id),
            Value::Array(items) => {
                let mut copies: Vec<Value> = Vec::new();
                let mut i: usize = 0;
                while i < items.len()
                    invariant
                        i <= items.len(),
                        copies.len() == i,
                        *self == Value::Array(*items),
                        forall|j: int| 0 <= j < i ==> (#[trigger] items@[j]).alike(copies@[j]),
                    decreases items.len() - i,
                {
                    proof {
                        assert(self->Array_0 == *items);
                        vstd::std_specs::vec::axiom_vec_index_decreases(self->Array_0, i as int);
                        assert(decreases_to!(*self => self->Array_0));
                    }
                    copies.push(items[i].clone());
                    i += 1;
                }
                Value::Array(copies)
            },
            Value::Object(object) => Value::Object(object.clone()),
            Value::Thing(thing) => Value::Thing(thing.clone()),
            Value::Other(text) => Value::Other(text.clone()),
        };
        proof {
            assert forall|depth: nat| alike_to(*self, copy, depth) by {
                if depth > 0 {
                    match (*self, copy) {
                        (Value::Array(x), Value::Array(y)) => {
                            assert forall|i: int| 0 <= i < x@.len() implies alike_to(
                                #[trigger] x@[i],
                                y@[i],
                                (depth - 1) as nat,
                            ) by {
                                assert(x@[i].alike(y@[i]));
                            }
                        },
                        (Value::Object(x), Value::Object(y)) => {
                            assert forall|key: Seq<char>| x@.contains_key(key) implies alike_to(
                                #[trigger] x@[key],
                                y@[key],
                                (depth - 1) as nat,
                            ) by {
                                assert(x@[key].alike(y@[key]));
                            }
                        },
                        _ => {},
                    }
                }
            }
        }
        copy
    }
}

impl From<bool> for Value {
    /// The value that stands for the truth value `v`.
    fn from(v: bool) -> (value: Value) {
        if v {
            Value::True
        } else {
            Value::False
        }
    }
}

impl FromSpecImpl<bool> for Value {
    open spec fn obeys_from_spec() -> bool {
        true
    }

    open spec fn from_spec(v: bool) -> Value {
        if v {
            Value::True
        } else {
            Value::False
        }
    }
}

impl From<i64> for Value {
    /// The integer number `v`.
    fn from(v: i64) -> (value: Value) {
        Value::Number(Number::Int(v))
    }
}

impl FromSpecImpl<i64> for Value {
    open spec fn obeys_from_spec() -> bool {
        true
    }

    open spec fn from_spec(v: i64) -> Value {
        Value::Number(Number::Int(v))
    }
}

impl From<String> for Value {
    /// The string `v`.
    fn from(v: String) -> (value: Value) {
        Value::Strand(v)
    }
}

impl FromSpecImpl<String> for Value {
    open spec fn obeys_from_spec() -> bool {
        true
    }

    open spec fn from_spec(v: String) -> Value {
        Value::Strand(v)
    }
}

impl From<Number> for Value {
    /// The number `v`.
    fn from(v: Number) -> (value: Value) {
        Value::Number(v)
    }
}

impl FromSpecImpl<Number> for Value {
    open spec fn obeys_from_spec() -> bool {
        true
    }

    open spec fn from_spec(v: Number) -> Value {
        Value::Number(v)
    }
}

impl From<Decimal> for Value {
    /// The decimal number `v`.
    fn from(v: Decimal) -> (value: Value) {
        Value::Number(Number::Decimal(v))
    }
}

impl FromSpecImpl<Decimal> for Value {
    open spec fn obeys_from_spec() -> bool {
        true
    }

    open spec fn from_spec(v: Decimal) -> Value {
        Value::Number(Number::Decimal(v))
    }
}

impl From<Duration> for Value {
    /// The span of time `v`.
    fn from(v: Duration) -> (value: Value) {
        Value::Duration(v)
    }
}

impl FromSpecImpl<Duration> for Value {
    open spec fn obeys_from_spec() -> bool {
        true
    }

    open spec fn from_spec(v: Duration) -> Value {
        Value::Duration(v)
    }
}

impl From<Datetime> for Value {
    /// The point in time `v`.
    fn from(v: Datetime) -> (value: Value) {
        Value::Datetime(v)
    }
}

impl FromSpecImpl<Datetime> for Value {
    open spec fn obeys_from_spec() -> bool {
        true
    }

    open spec fn from_spec(v: Datetime) -> Value {
        Value::Datetime(v)
    }
}

impl From<Uuid> for Value {
    /// The UUID `v`.
    fn from(v: Uuid) -> (value: Value) {
        Value::Uuid(v)
    }
}

impl FromSpecImpl<Uuid> for Value {
    open spec fn obeys_from_spec() -> bool {
        true
    }

    open spec fn from_spec(v: Uuid) -> Value {
        Value::Uuid(v)
    }
}

impl From<Thing> for Value {
    /// The record reference `v`.
    fn from(v: Thing) -> (value: Value) {
        Value::Thing(v)
    }
}

impl FromSpecImpl<Thing> for Value {
    open spec fn obeys_from_spec() -> bool {
        true
    }

    open spec fn from_spec(v: Thing) -> Value {
        Value::Thing(v)
    }
}

impl From<Object> for Value {
    /// The object `v`.
    fn from(v: Object) -> (value: Value) {
        Value::Object(v)
    }
}

impl FromSpecImpl<Object> for Value {
    open spec fn obeys_from_spec() -> bool {
        true
    }

    open spec fn from_spec(v: Object) -> Value {
        Value::Object(v)
    }
}

impl From<Vec<Value>> for Value {
    /// The array of the values `v`.
    fn from(v: Vec<Value>) -> (value: Value) {
        Value::Array(v)
    }
}

impl FromSpecImpl<Vec<Value>> for Value {
    open spec fn obeys_from_spec() -> bool {
        true
    }

    open spec fn from_spec(v: Vec<Value>) -> Value {
        Value::Array(v)
    }
}

impl Value {
    /// Whether `other` holds what this value holds, all the way down.
    pub open spec fn alike(self, other: Value) -> bool {
        forall|depth: nat| alike_to(self, other, depth)
    }

    /// The string with the characters of `text`.
    pub fn text(text: &str) -> (value: Value)
        ensures
            value is Strand,
            value->Strand_0@ == text@,
    {
        Value::Strand(text.to_owned())
    }

    /// The shape of this value.
    pub open spec fn spec_tag(&self) -> Tag {
        match self {
            Value::Absent => Tag::Absent,
            Value::Null => Tag::Null,
            Value::False => Tag::False,
            Value::True => Tag::True,
            Value::Number(_) => Tag::Number,
            Value::Strand(_) => Tag::Strand,
            Value::Duration(_) => Tag::Duration,
            Value::Datetime(_) => Tag::Datetime,
            Value::Uuid(_) => Tag::Uuid,
            Value::Array(_) => Tag::Array,
            Value::Object(_) => Tag::Object,
            Value::Thing(_) => Tag::Thing,
            Value::Other(_) => Tag::Other,
        }
    }

    /// The shape of this value.
    #[verifier::when_used_as_spec(spec_tag)]
    pub fn tag(&self) -> (tag: Tag)
        ensures
            tag == self.spec_tag(),
    {
        match self {
            Value::Absent => Tag::Absent,
            Value::Null => Tag::Null,
            Value::False => Tag::False,
            Value::True => Tag::True,
            Value::Number(_) => Tag::Number,
            Value::Strand(_) => Tag::Strand,
            Value::Duration(_) => Tag::Duration,
            Value::Datetime(_) => Tag::Datetime,
            Value::Uuid(_) => Tag::Uuid,
            Value::Array(_) => Tag::Array,
            Value::Object(_) => Tag::Object,
            Value::Thing(_) => Tag::Thing,
            Value::Other(_) => Tag::Other,
        }
    }
}

} // verus!
