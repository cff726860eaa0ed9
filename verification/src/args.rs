//! Named query arguments, which may nest.

use vstd::prelude::*;
use vstd::std_specs::convert::FromSpecImpl;
use crate::object::Object;
use crate::value::Value;

verus! {

/// Collects the arguments of one query: a value for each parameter name,
/// where the last value given for a name is the one that counts.
#[derive(Debug)]
pub struct ArgsBuilder {
    vars: Object,
}

impl View for ArgsBuilder {
    type V = Map<Seq<char>, Value>;

    closed spec fn view(&self) -> Map<Seq<char>, Value> {
        self.vars@
    }
}

impl Clone for ArgsBuilder {
    /// A builder with the same parameters, each with a copy of its value,
    /// which holds what the value holds.
    fn clone(&self) -> (copy: ArgsBuilder)
        ensures
            copy@.dom() == self@.dom(),
            forall|key: Seq<char>|
                self@.contains_key(key) ==> (#[trigger] self@[key]).alike(copy@[key]),
    {
        ArgsBuilder { vars: self.vars.clone() }
    }
}

impl Default for ArgsBuilder {
    /// A builder without arguments.
    fn default() -> (r: ArgsBuilder)
        ensures
            r@ == Map::<Seq<char>, Value>::empty(),
    {
        ArgsBuilder { vars: Object::new() }
    }
}

impl ArgsBuilder {
    /// The object-shaped value that holds the arguments collected so far.
    pub closed spec fn as_value(self) -> Value {
        Value::Object(self.vars)
    }

    /// The value of `as_value` is an object whose fields are the arguments.
    pub broadcast proof fn lemma_as_value(self)
        ensures
            #[trigger] self.as_value() is Object,
            self.as_value()->Object_0@ == self@,
    {
    }

    /// Binds `value` to the parameter `key`, in place of any value bound to
    /// it before.
    pub fn arg(&mut self, key: &str, value: Value) -> (ret: &mut Self)
        ensures
            ret@ == old(self)@.insert(key@, value),
            *final(self) == *final(ret),
    {
        self.vars.insert(key.to_owned(), value);
        self
    }

    /// Binds to the parameter `key` the arguments that `sub` has collected,
    /// as one object-shaped value.
    pub fn nest(&mut self, key: &str, sub: ArgsBuilder) -> (ret: &mut Self)
        ensures
            ret@ == old(self)@.insert(key@, sub.as_value()),
            *final(self) == *final(ret),
    {
        self.vars.insert(key.to_owned(), sub.into_value());
        self
    }

    /// Hands a fresh builder to `f`, and binds to the parameter `key` what
    /// `f` has collected in it, as one object-shaped value.
    pub fn sub_args<F: FnOnce(&mut ArgsBuilder)>(&mut self, key: &str, f: F) -> (ret: &mut Self)
        requires
            forall|sub: &mut ArgsBuilder| sub@ == Map::<Seq<char>, Value>::empty()
                ==> call_requires(f, (sub,)),
        ensures
            exists|sub: &mut ArgsBuilder|
                sub@ == Map::<Seq<char>, Value>::empty() && call_ensures(f, (sub,), ())
                    && ret@ == old(self)@.insert(key@, #[trigger] final(sub).as_value()),
            *final(self) == *final(ret),
    {
        let mut sub = ArgsBuilder::default();
        f(&mut sub);
        self.nest(key, sub)
    }

    /// The arguments as an object.
    pub fn into_object(self) -> (object: Object)
        ensures
            object@ == self@,
            Value::Object(object) == self.as_value(),
    {
        self.vars
    }

    /// The arguments as one object-shaped value.
    pub fn into_value(self) -> (value: Value)
        ensures
            value == self.as_value(),
    {
        Value::Object(self.vars)
    }
}

impl From<ArgsBuilder> for Value {
    /// The arguments that `value` has collected, as one object-shaped value.
    fn from(value: ArgsBuilder) -> (r: Value) {
        value.into_value()
    }
}

impl FromSpecImpl<ArgsBuilder> for Value {
    open spec fn obeys_from_spec() -> bool {
        true
    }

    open spec fn from_spec(value: ArgsBuilder) -> Value {
        value.as_value()
    }
}

/// Of two values bound to one parameter, the second is the one that counts:
/// the arguments are what they would be had the first never been bound.
pub proof fn law_last_binding_counts(
    args: Map<Seq<char>, Value>,
    key: Seq<char>,
    first: Value,
    second: Value,
)
    ensures
        args.insert(key, first).insert(key, second) == args.insert(key, second),
        args.insert(key, first).insert(key, second)[key] == second,
{
    assert(args.insert(key, first).insert(key, second) =~= args.insert(key, second));
}

/// Arguments that were nested under a parameter are found there as an
/// object, whose fields are those arguments. The other parameters keep what
/// was bound to them.
pub proof fn law_nested_arguments_are_an_object(
    args: Map<Seq<char>, Value>,
    key: Seq<char>,
    sub: ArgsBuilder,
    other: Seq<char>,
)
    ensures
        args.insert(key, sub.as_value())[key] is Object,
        args.insert(key, sub.as_value())[key]->Object_0@ == sub@,
        other != key && args.contains_key(other) ==> args.insert(key, sub.as_value())[other]
            == args[other],
{
    sub.lemma_as_value();
}

} // verus!
