//! A mapping from field names to values.

use vstd::prelude::*;
use crate::value::Value;

verus! {

/// Whether no two entries of `entries` have the same key.
pub open spec fn distinct_keys(entries: Seq<(String, Value)>) -> bool {
    forall|i: int, j: int| 0 <= i < j < entries.len() ==> entries[i].0@ != entries[j].0@
}

/// Whether entry `i` of `entries` has the key `key`.
pub open spec fn keyed_at(entries: Seq<(String, Value)>, key: Seq<char>, i: int) -> bool {
    0 <= i < entries.len() && entries[i].0@ == key
}

/// The mapping that sends each key of `entries` to the value stored with it.
pub open spec fn entries_map(entries: Seq<(String, Value)>) -> Map<Seq<char>, Value> {
    Map::new(
        |key: Seq<char>| exists|i: int| keyed_at(entries, key, i),
        |key: Seq<char>| entries[choose|i: int| keyed_at(entries, key, i)].1,
    )
}

/// An object-shaped value: named fields, each name at most once.
#[derive(Debug)]
pub struct Object {
    entries: Vec<(String, Value)>,
}

impl View for Object {
    type V = Map<Seq<char>, Value>;

    closed spec fn view(&self) -> Map<Seq<char>, Value> {
        entries_map(self.entries@)
    }
}

impl Clone for Object {
    /// An object with the same names, each with a copy of its value, which
    /// holds what the value holds.
    fn clone(&self) -> (copy: Object)
        ensures
            copy@.dom() == self@.dom(),
            forall|key: Seq<char>|
                self@.contains_key(key) ==> (#[trigger] self@[key]).alike(copy@[key]),
        decreases self,
    {
        proof {
            use_type_invariant(self);
        }
        let mut entries: Vec<(String, Value)> = Vec::new();
        let mut i: usize = 0;
        while i < self.entries.len()
            invariant
                i <= self.entries.len(),
                entries.len() == i,
                distinct_keys(self.entries@),
                forall|j: int| 0 <= j < i ==> entries@[j].0@ == self.entries@[j].0@,
                forall|j: int| 0 <= j < i ==> (#[trigger] self.entries@[j]).1.alike(entries@[j].1),
            decreases self.entries.len() - i,
        {
            let key = self.entries[i].0.clone();
            let value = self.entries[i].1.clone();
            entries.push((key, value));
            i += 1;
        }
        let copy = Object { entries };
        proof {
            assert forall|key: Seq<char>| copy@.contains_key(key) <==> self@.contains_key(
                key,
            ) by {
                if copy@.contains_key(key) {
                    let j = choose|j: int| keyed_at(copy.entries@, key, j);
                    assert(keyed_at(self.entries@, key, j));
                }
                if self@.contains_key(key) {
                    let j = choose|j: int| keyed_at(self.entries@, key, j);
                    assert(keyed_at(copy.entries@, key, j));
                }
            }
            assert(copy@.dom() =~= self@.dom());
            assert forall|key: Seq<char>| self@.contains_key(key) implies (#[trigger] self@[key]).alike(
                copy@[key],
            ) by {
                let j = choose|j: int| keyed_at(self.entries@, key, j);
                lemma_entries_map_at(self.entries@, j);
                lemma_entries_map_at(copy.entries@, j);
            }
        }
        copy
    }
}

impl Default for Object {
    /// An object without fields.
    fn default() -> (r: Object)
        ensures
            r@ == Map::<Seq<char>, Value>::empty(),
    {
        Object::new()
    }
}

impl Object {
    #[verifier::type_invariant]
    spec fn distinct(&self) -> bool {
        distinct_keys(self.entries@)
    }

    /// An object without fields.
    pub fn new() -> (r: Object)
        ensures
            r@ == Map::<Seq<char>, Value>::empty(),
    {
        let r = Object { entries: Vec::new() };
        assert(r@ =~= Map::<Seq<char>, Value>::empty());
        r
    }

    /// The number of fields.
    pub fn len(&self) -> (n: usize)
        ensures
            n == self@.len(),
            self@.dom().finite(),
    {
        proof {
            use_type_invariant(self);
            lemma_entries_map_len(self.entries@);
        }
        self.entries.len()
    }

    fn position(&self, key: &str) -> (r: Option<usize>)
        ensures
            match r {
                Some(i) => keyed_at(self.entries@, key@, i as int),
                None => forall|i: int| !keyed_at(self.entries@, key@, i),
            },
    {
        let wanted = key.to_owned();
        let mut i: usize = 0;
        while i < self.entries.len()
            invariant
                i <= self.entries.len(),
                wanted@ == key@,
                forall|j: int| 0 <= j < i ==> self.entries@[j].0@ != key@,
            decreases self.entries.len() - i,
        {
            if self.entries[i].0 == wanted {
                return Some(i);
            }
            i += 1;
        }
        None
    }

    /// The value stored under `key`, if there is one.
    pub fn get(&self, key: &str) -> (r: Option<&Value>)
        ensures
            match r {
                Some(value) => self@.contains_key(key@) && *value == self@[key@],
                None => !self@.contains_key(key@),
            },
    {
        proof {
            use_type_invariant(self);
        }
        match self.position(key) {
            Some(i) => {
                proof {
                    lemma_entries_map_at(self.entries@, i as int);
                }
                Some(&self.entries[i].1)
            },
            None => None,
        }
    }

    /// Stores `value` under `key`, in place of what was stored there, and
    /// returns what was.
    pub fn insert(&mut self, key: String, value: Value) -> (previous: Option<Value>)
        ensures
            final(self)@ == old(self)@.insert(key@, value),
            previous == (if old(self)@.contains_key(key@) {
                Some(old(self)@[key@])
            } else {
                None::<Value>
            }),
    {
        proof {
            use_type_invariant(&*self);
        }
        let found = self.position(key.as_str());
        let mut entries: Vec<(String, Value)> = Vec::new();
        core::mem::swap(&mut self.entries, &mut entries);
        let ghost before = entries@;
        let previous = match found {
            Some(i) => {
                proof {
                    lemma_entries_map_at(before, i as int);
                    lemma_entries_map_remove(before, i as int);
                }
                let (_, was) = entries.remove(i);
                Some(was)
            },
            None => None,
        };
        proof {
            lemma_entries_map_push(entries@, key, value);
        }
        entries.push((key, value));
        core::mem::swap(&mut self.entries, &mut entries);
        assert(self@ =~= old(self)@.insert(key@, value));
        previous
    }

    /// The fields, each name with its value, in no order in particular.
    pub fn into_entries(self) -> (entries: Vec<(String, Value)>)
        ensures
            distinct_keys(entries@),
            entries_map(entries@) == self@,
    {
        proof {
            use_type_invariant(&self);
        }
        self.entries
    }

    /// Takes out the field `key` and returns its value, if there is one.
    pub fn remove(&mut self, key: &str) -> (r: Option<Value>)
        ensures
            final(self)@ == old(self)@.remove(key@),
            r == (if old(self)@.contains_key(key@) {
                Some(old(self)@[key@])
            } else {
                None::<Value>
            }),
    {
        proof {
            use_type_invariant(&*self);
        }
        match self.position(key) {
            Some(i) => {
                let mut entries: Vec<(String, Value)> = Vec::new();
                core::mem::swap(&mut self.entries, &mut entries);
                proof {
                    lemma_entries_map_at(entries@, i as int);
                    lemma_entries_map_remove(entries@, i as int);
                }
                let (_, was) = entries.remove(i);
                core::mem::swap(&mut self.entries, &mut entries);
                Some(was)
            },
            None => {
                assert(old(self)@.remove(key@) =~= old(self)@);
                None
            },
        }
    }
}

/// With distinct keys, the mapping holds each entry under its key.
pub proof fn lemma_entries_map_at(entries: Seq<(String, Value)>, i: int)
    requires
        distinct_keys(entries),
        0 <= i < entries.len(),
    ensures
        entries_map(entries).contains_key(entries[i].0@),
        entries_map(entries)[entries[i].0@] == entries[i].1,
{
    let key = entries[i].0@;
    assert(keyed_at(entries, key, i));
    let j = choose|j: int| keyed_at(entries, key, j);
    assert(j == i);
}

/// Taking one entry out takes its key out of the mapping, and keeps the keys
/// distinct.
pub proof fn lemma_entries_map_remove(entries: Seq<(String, Value)>, i: int)
    requires
        distinct_keys(entries),
        0 <= i < entries.len(),
    ensures
        distinct_keys(entries.remove(i)),
        entries_map(entries.remove(i)) == entries_map(entries).remove(entries[i].0@),
        forall|j: int| !keyed_at(entries.remove(i), entries[i].0@, j),
{
    let rest = entries.remove(i);
    let key = entries[i].0@;
    assert forall|a: int, b: int| 0 <= a < b < rest.len() implies rest[a].0@ != rest[b].0@ by {
        let a0 = if a < i { a } else { a + 1 };
        let b0 = if b < i { b } else { b + 1 };
        assert(rest[a] == entries[a0]);
        assert(rest[b] == entries[b0]);
    }
    assert forall|j: int| !keyed_at(rest, key, j) by {
        if 0 <= j < rest.len() {
            let j0 = if j < i { j } else { j + 1 };
            assert(rest[j] == entries[j0]);
        }
    }
    let lhs = entries_map(rest);
    let rhs = entries_map(entries).remove(key);
    assert forall|k: Seq<char>| lhs.contains_key(k) <==> rhs.contains_key(k) by {
        if lhs.contains_key(k) {
            let j = choose|j: int| keyed_at(rest, k, j);
            let j0 = if j < i { j } else { j + 1 };
            assert(rest[j] == entries[j0]);
            assert(keyed_at(entries, k, j0));
        }
        if rhs.contains_key(k) {
            let j0 = choose|j: int| keyed_at(entries, k, j);
            assert(j0 != i);
            let j = if j0 < i { j0 } else { j0 - 1 };
            assert(rest[j] == entries[j0]);
            assert(keyed_at(rest, k, j));
        }
    }
    assert forall|k: Seq<char>| lhs.contains_key(k) implies lhs[k] == rhs[k] by {
        let j = choose|j: int| keyed_at(rest, k, j);
        let j0 = if j < i { j } else { j + 1 };
        assert(rest[j] == entries[j0]);
        lemma_entries_map_at(rest, j);
        lemma_entries_map_at(entries, j0);
    }
    assert(lhs =~= rhs);
}

/// Adding an entry under a new key adds it to the mapping, and keeps the keys
/// distinct.
pub proof fn lemma_entries_map_push(entries: Seq<(String, Value)>, key: String, value: Value)
    requires
        distinct_keys(entries),
        forall|j: int| !keyed_at(entries, key@, j),
    ensures
        distinct_keys(entries.push((key, value))),
        entries_map(entries.push((key, value))) == entries_map(entries).insert(key@, value),
{
    let more = entries.push((key, value));
    assert forall|a: int, b: int| 0 <= a < b < more.len() implies more[a].0@ != more[b].0@ by {
        assert(more[a] == entries[a]);
        assert(!keyed_at(entries, key@, a));
        if b < entries.len() {
            assert(more[b] == entries[b]);
        }
    }
    let lhs = entries_map(more);
    let rhs = entries_map(entries).insert(key@, value);
    assert forall|k: Seq<char>| lhs.contains_key(k) <==> rhs.contains_key(k) by {
        if lhs.contains_key(k) {
            let j = choose|j: int| keyed_at(more, k, j);
            if j < entries.len() {
                assert(more[j] == entries[j]);
                assert(keyed_at(entries, k, j));
            }
        }
        if rhs.contains_key(k) {
            if k == key@ {
                assert(keyed_at(more, k, entries.len() as int));
            } else {
                let j = choose|j: int| keyed_at(entries, k, j);
                assert(more[j] == entries[j]);
                assert(keyed_at(more, k, j));
            }
        }
    }
    assert forall|k: Seq<char>| lhs.contains_key(k) implies lhs[k] == rhs[k] by {
        let j = choose|j: int| keyed_at(more, k, j);
        lemma_entries_map_at(more, j);
        if j < entries.len() {
            assert(more[j] == entries[j]);
            lemma_entries_map_at(entries, j);
        }
    }
    assert(lhs =~= rhs);
}

/// With distinct keys, the mapping has as many keys as there are entries.
pub proof fn lemma_entries_map_len(entries: Seq<(String, Value)>)
    requires
        distinct_keys(entries),
    ensures
        entries_map(entries).dom().finite(),
        entries_map(entries).len() == entries.len(),
    decreases entries.len(),
{
    if entries.len() == 0 {
        assert(entries_map(entries) =~= Map::<Seq<char>, Value>::empty());
    } else {
        let last = entries.len() - 1;
        let front = entries.remove(last);
        lemma_entries_map_remove(entries, last);
        lemma_entries_map_len(front);
        lemma_entries_map_at(entries, last);
        let key = entries[last].0@;
        assert(entries_map(entries) =~= entries_map(front).insert(key, entries[last].1));
    }
}

} // verus!
