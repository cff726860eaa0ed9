//! Records: the rows that a query hands back, and how a statement's result
//! becomes a sequence of them.

use vstd::prelude::*;
use crate::error::DbError;
use crate::object::Object;
use crate::value::Value;

verus! {

/// Taking the field `key` out of `fields`: the value that was stored there,
/// if any, and the fields that are left.
pub open spec fn take_field(fields: Map<Seq<char>, Value>, key: Seq<char>) -> (
    Option<Value>,
    Map<Seq<char>, Value>,
) {
    if fields.contains_key(key) {
        (Some(fields[key]), fields.remove(key))
    } else {
        (None, fields)
    }
}

/// The fields of the object-shaped values among `items`, in their order.
/// Values of any other shape are passed over.
pub open spec fn object_rows(items: Seq<Value>) -> Seq<Map<Seq<char>, Value>>
    decreases items.len(),
{
    if items.len() == 0 {
        Seq::empty()
    } else {
        let front = object_rows(items.drop_last());
        match items.last() {
            Value::Object(fields) => front.push(fields@),
            _ => front,
        }
    }
}

/// The rows that a statement's result stands for: an object is one row, an
/// array is its object-shaped elements, and anything else is no row at all.
pub open spec fn rows_of(result: Value) -> Seq<Map<Seq<char>, Value>> {
    match result {
        Value::Object(fields) => seq![fields@],
        Value::Array(items) => object_rows(items@),
        _ => Seq::empty(),
    }
}

/// The outcome of the statement that counts among `outcomes`, which are the
/// outcomes of a query's statements in their order: the first, if there is
/// one.
pub open spec fn deciding<E>(outcomes: Seq<Result<Value, E>>) -> Option<Result<Value, E>> {
    if outcomes.len() == 0 {
        None
    } else {
        Some(outcomes[0])
    }
}

/// The fields of each record of `records`.
pub open spec fn fields_of(records: Seq<Record>) -> Seq<Map<Seq<char>, Value>> {
    records.map_values(|record: Record| record@)
}

/// One returned row, whose fields are taken out one by one.
#[derive(Debug)]
pub struct Record {
    fields: Object,
}

impl View for Record {
    type V = Map<Seq<char>, Value>;

    closed spec fn view(&self) -> Map<Seq<char>, Value> {
        self.fields@
    }
}

impl Clone for Record {
    /// A record with the same names, each with a copy of its value, which
    /// holds what the value holds.
    fn clone(&self) -> (copy: Record)
        ensures
            copy@.dom() == self@.dom(),
            forall|key: Seq<char>|
                self@.contains_key(key) ==> (#[trigger] self@[key]).alike(copy@[key]),
    {
        Record { fields: self.fields.clone() }
    }
}

impl Default for Record {
    /// A record without fields.
    fn default() -> (r: Record)
        ensures
            r@ == Map::<Seq<char>, Value>::empty(),
    {
        Record { fields: Object::new() }
    }
}

impl Record {
    /// The record whose fields are those of `fields`.
    pub fn new(fields: Object) -> (r: Record)
        ensures
            r@ == fields@,
    {
        Record { fields }
    }

    /// The fields that are left in the record, as an object.
    pub fn into_object(self) -> (fields: Object)
        ensures
            fields@ == self@,
    {
        self.fields
    }

    /// Takes the field `k` out of the record and returns its value. A record
    /// without such a field is left as it is and `InvalidKey(k)` is returned.
    pub fn remove(&mut self, k: &'static str) -> (r: Result<Value, DbError>)
        ensures
            match r {
                Ok(value) => (Some(value), final(self)@) == take_field(old(self)@, k@),
                Err(e) => (None::<Value>, final(self)@) == take_field(old(self)@, k@)
                    && e == DbError::InvalidKey(k),
            },
    {
        match self.fields.remove(k) {
            Some(value) => Ok(value),
            None => Err(DbError::InvalidKey(k)),
        }
    }

    /// The records that the result of a statement stands for: one for an
    /// object, one for each object-shaped element of an array, in the array's
    /// order, and none for any other value.
    pub fn from_result(result: Value) -> (records: Vec<Record>)
        ensures
            fields_of(records@) == rows_of(result),
    {
        let mut records: Vec<Record> = Vec::new();
        match result {
            Value::Object(fields) => {
                records.push(Record::new(fields));
                assert(fields_of(records@) =~= rows_of(result));
            },
            Value::Array(items) => {
                let ghost all = items@;
                assert(fields_of(records@) =~= object_rows(all.take(0)));
                for item in it: items
                    invariant
                        it.seq() == all,
                        fields_of(records@) == object_rows(all.take(it.index())),
                {
                    let ghost seen = it.index();
                    assert(all.take(seen + 1).drop_last() =~= all.take(seen));
                    assert(all.take(seen + 1).last() == item);
                    match item {
                        Value::Object(fields) => {
                            let ghost before = records@;
                            records.push(Record::new(fields));
                            assert(fields_of(records@) =~= fields_of(before).push(fields@));
                        },
                        _ => {},
                    }
                }
                assert(all.take(all.len() as int) =~= all);
            },
            _ => {
                assert(fields_of(records@) =~= rows_of(result));
            },
        }
        records
    }

    /// What a query yields, given the outcomes of its statements in their
    /// order. Only the first statement counts: a query without statements
    /// yields nothing, and what the later statements gave is dropped.
    pub fn from_outcomes(outcomes: Vec<Result<Value, surrealdb::Error>>) -> (r: Result<
        Vec<Record>,
        DbError,
    >)
        ensures
            match deciding(outcomes@) {
                None => r is Ok && r->Ok_0@.len() == 0,
                Some(Ok(result)) => r is Ok && fields_of(r->Ok_0@) == rows_of(result),
                Some(Err(e)) => r == Err::<Vec<Record>, DbError>(DbError::Surrealdb(e)),
            },
    {
        let mut outcomes = outcomes;
        if outcomes.len() == 0 {
            Record::from_outcome(None)
        } else {
            let first = outcomes.swap_remove(0);
            Record::from_outcome(Some(first))
        }
    }

    /// What a query yields, given the engine's answer to it. Where the engine
    /// failed to answer, its error is passed on; where it answered with the
    /// outcomes of the query's statements, the query yields what
    /// `from_outcomes` says.
    pub fn from_answer(
        answer: Result<Vec<Result<Value, surrealdb::Error>>, surrealdb::Error>,
    ) -> (r: Result<Vec<Record>, DbError>)
        ensures
            match answer {
                Err(e) => r == Err::<Vec<Record>, DbError>(DbError::Surrealdb(e)),
                Ok(outcomes) => match deciding(outcomes@) {
                    None => r is Ok && r->Ok_0@.len() == 0,
                    Some(Ok(result)) => r is Ok && fields_of(r->Ok_0@) == rows_of(result),
                    Some(Err(e)) => r == Err::<Vec<Record>, DbError>(DbError::Surrealdb(e)),
                },
            },
    {
        match answer {
            Err(e) => Err(DbError::Surrealdb(e)),
            Ok(outcomes) => Record::from_outcomes(outcomes),
        }
    }

    /// What a query yields, given the outcome of its first statement:
    /// nothing where no statement ran, the records of the statement's result
    /// where it succeeded, and the engine's own error where it failed.
    pub fn from_outcome(outcome: Option<Result<Value, surrealdb::Error>>) -> (r: Result<
        Vec<Record>,
        DbError,
    >)
        ensures
            match outcome {
                None => r is Ok && r->Ok_0@.len() == 0,
                Some(Ok(result)) => r is Ok && fields_of(r->Ok_0@) == rows_of(result),
                Some(Err(e)) => r == Err::<Vec<Record>, DbError>(DbError::Surrealdb(e)),
            },
    {
        match outcome {
            None => Ok(Vec::new()),
            Some(Ok(result)) => Ok(Record::from_result(result)),
            Some(Err(e)) => Err(DbError::Surrealdb(e)),
        }
    }
}

/// A field is taken out once: taking it out gives its value where the record
/// has it and nothing where it has not, and after that the record has it no
/// more, so that taking it out again gives nothing.
pub proof fn law_field_is_taken_once(fields: Map<Seq<char>, Value>, key: Seq<char>)
    ensures
        take_field(fields, key).0 is Some <==> fields.contains_key(key),
        take_field(fields, key).0 is Some ==> take_field(fields, key).0 == Some(fields[key]),
        !take_field(fields, key).1.contains_key(key),
        take_field(take_field(fields, key).1, key).0 is None,
        take_field(take_field(fields, key).1, key).1 == take_field(fields, key).1,
{
}

/// An object is one row, with its fields. A value that is neither an object
/// nor an array is no row.
pub proof fn law_rows_by_shape(result: Value)
    ensures
        result is Object ==> rows_of(result) == seq![result->Object_0@],
        !(result is Object) && !(result is Array) ==> rows_of(result).len() == 0,
        result is Array ==> rows_of(result) == object_rows(result->Array_0@),
{
}

/// The rows of an array are those of its object-shaped elements, in the
/// array's order: one element more adds one row behind the others where it
/// is an object, and none where it is not. There are never more rows than
/// elements.
pub proof fn law_rows_of_an_array(items: Seq<Value>, next: Value)
    ensures
        object_rows(Seq::<Value>::empty()).len() == 0,
        next is Object ==> object_rows(items.push(next)) == object_rows(items).push(
            next->Object_0@,
        ),
        !(next is Object) ==> object_rows(items.push(next)) == object_rows(items),
        object_rows(items).len() <= items.len(),
    decreases items.len(),
{
    assert(items.push(next).drop_last() =~= items);
    if items.len() > 0 {
        law_rows_of_an_array(items.drop_last(), items.last());
    }
}

} // verus!
