//! A JSON value as the library reads and builds it: the link records that the
//! API answers with, and the bodies it is sent.

use vstd::prelude::*;

use crate::text::{str_eq, to_owned_string};

verus! {

/// A JSON value. Integers that fit in an `i64` are held as such; any other
/// number keeps its textual form.
pub enum JsonValue {
    Null,
    Bool(bool),
    Integer(i64),
    OtherNumber(String),
    String(String),
    Array(Vec<JsonValue>),
    Object(Vec<(String, JsonValue)>),
}

/// What the library's contracts see of one JSON value: scalars in full,
/// arrays and objects only as such.
pub enum JsonScalar {
    Null,
    Bool(bool),
    Integer(i64),
    OtherNumber(Seq<char>),
    Str(Seq<char>),
    Array,
    Object,
}

pub open spec fn scalar_of(v: JsonValue) -> JsonScalar {
    match v {
        JsonValue::Null => JsonScalar::Null,
        JsonValue::Bool(b) => JsonScalar::Bool(b),
        JsonValue::Integer(n) => JsonScalar::Integer(n),
        JsonValue::OtherNumber(s) => JsonScalar::OtherNumber(s@),
        JsonValue::String(s) => JsonScalar::Str(s@),
        JsonValue::Array(_) => JsonScalar::Array,
        JsonValue::Object(_) => JsonScalar::Object,
    }
}

/// The entries of an object as (key, scalar) pairs, in order.
pub open spec fn entries_view(es: Seq<(String, JsonValue)>) -> Seq<(Seq<char>, JsonScalar)> {
    es.map_values(|e: (String, JsonValue)| (e.0@, scalar_of(e.1)))
}

/// The value of the first entry whose key is `key`.
pub open spec fn first_entry(es: Seq<(String, JsonValue)>, key: Seq<char>) -> Option<JsonValue>
    decreases es.len(),
{
    if es.len() == 0 {
        None
    } else if es[0].0@ == key {
        Some(es[0].1)
    } else {
        first_entry(es.drop_first(), key)
    }
}

/// Same as [`first_entry`], over the (key, scalar) view.
pub open spec fn lookup(es: Seq<(Seq<char>, JsonScalar)>, key: Seq<char>) -> Option<JsonScalar>
    decreases es.len(),
{
    if es.len() == 0 {
        None
    } else if es[0].0 == key {
        Some(es[0].1)
    } else {
        lookup(es.drop_first(), key)
    }
}

/// `value[key]` for an object `value`; `None` otherwise.
pub open spec fn get_spec(v: JsonValue, key: Seq<char>) -> Option<JsonValue> {
    match v {
        JsonValue::Object(es) => first_entry(es@, key),
        _ => None,
    }
}

/// The string at `key`, if there is one.
pub open spec fn str_at(v: JsonValue, key: Seq<char>) -> Option<Seq<char>> {
    match get_spec(v, key) {
        Some(JsonValue::String(s)) => Some(s@),
        _ => None,
    }
}

/// The integer at `key`, if there is one that fits in an `i64`.
pub open spec fn i64_at(v: JsonValue, key: Seq<char>) -> Option<i64> {
    match get_spec(v, key) {
        Some(JsonValue::Integer(n)) => Some(n),
        _ => None,
    }
}

/// The boolean at `key`, if there is one.
pub open spec fn bool_at(v: JsonValue, key: Seq<char>) -> Option<bool> {
    match get_spec(v, key) {
        Some(JsonValue::Bool(b)) => Some(b),
        _ => None,
    }
}

proof fn lemma_first_entry_skip(es: Seq<(String, JsonValue)>, key: Seq<char>, i: int)
    requires
        0 <= i < es.len(),
        es[i].0@ != key,
    ensures
        first_entry(es.skip(i), key) == first_entry(es.skip(i + 1), key),
{
    assert(es.skip(i).drop_first() == es.skip(i + 1));
}

/// Looking a key up in the view gives the view of looking it up in the value.
pub proof fn lemma_lookup_view(es: Seq<(String, JsonValue)>, key: Seq<char>)
    ensures
        lookup(entries_view(es), key) == (match first_entry(es, key) {
            Some(v) => Some(scalar_of(v)),
            None => None,
        }),
    decreases es.len(),
{
    if es.len() > 0 {
        assert(entries_view(es).drop_first() == entries_view(es.drop_first()));
        lemma_lookup_view(es.drop_first(), key);
    }
}

impl JsonValue {
    /// `value.get(key)`: the value under `key` when `self` is an object.
    pub fn get(&self, key: &str) -> (r: Option<&JsonValue>)
        ensures
            r matches Some(x) ==> get_spec(*self, key@) == Some(*x),
            r is None ==> get_spec(*self, key@) is None,
    {
        match self {
            JsonValue::Object(es) => {
                let mut i: usize = 0;
                assert(es@.skip(0) == es@);
                while i < es.len()
                    invariant
                        i <= es@.len(),
                        get_spec(*self, key@) == first_entry(es@, key@),
                        first_entry(es@, key@) == first_entry(es@.skip(i as int), key@),
                    decreases es.len() - i,
                {
                    if str_eq(es[i].0.as_str(), key) {
                        assert(es@.skip(i as int)[0] == es@[i as int]);
                        assert(es@.skip(i as int).len() > 0);
                        assert(first_entry(es@.skip(i as int), key@) == Some(es@[i as int].1));
                        return Some(&es[i].1);
                    }
                    proof {
                        lemma_first_entry_skip(es@, key@, i as int);
                    }
                    i = i + 1;
                }
                None
            },
            _ => None,
        }
    }

    /// `value.as_i64()`.
    pub fn as_i64(&self) -> (r: Option<i64>)
        ensures
            r == (match *self {
                JsonValue::Integer(n) => Some(n),
                _ => None,
            }),
    {
        match self {
            JsonValue::Integer(n) => Some(*n),
            _ => None,
        }
    }

    /// `value.as_bool()`.
    pub fn as_bool(&self) -> (r: Option<bool>)
        ensures
            r == (match *self {
                JsonValue::Bool(b) => Some(b),
                _ => None,
            }),
    {
        match self {
            JsonValue::Bool(b) => Some(*b),
            _ => None,
        }
    }

    /// `value.as_str()`.
    pub fn as_str(&self) -> (r: Option<&str>)
        ensures
            r matches Some(s) ==> (*self matches JsonValue::String(t) && t@ == s@),
            r is None ==> !(*self is String),
    {
        match self {
            JsonValue::String(s) => Some(s.as_str()),
            _ => None,
        }
    }

    /// The string under `key`, if there is one.
    pub fn str_field(&self, key: &str) -> (r: Option<String>)
        ensures
            r.deep_view() == str_at(*self, key@),
    {
        match self.get(key) {
            Some(v) => match v.as_str() {
                Some(s) => Some(to_owned_string(s)),
                None => None,
            },
            None => None,
        }
    }

    /// The integer under `key`, if there is one.
    pub fn i64_field(&self, key: &str) -> (r: Option<i64>)
        ensures
            r == i64_at(*self, key@),
    {
        match self.get(key) {
            Some(v) => v.as_i64(),
            None => None,
        }
    }

    /// The boolean under `key`, if there is one.
    pub fn bool_field(&self, key: &str) -> (r: Option<bool>)
        ensures
            r == bool_at(*self, key@),
    {
        match self.get(key) {
            Some(v) => v.as_bool(),
            None => None,
        }
    }

    /// The number of entries of an object (0 for anything else).
    pub fn object_len(&self) -> (r: usize)
        ensures
            r == (match *self {
                JsonValue::Object(es) => es.len(),
                _ => 0,
            }),
    {
        match self {
            JsonValue::Object(es) => es.len(),
            _ => 0,
        }
    }
}

/// The object key `key`.
pub fn json_key(key: &str) -> (r: String)
    ensures
        r@ == key@,
{
    to_owned_string(key)
}

/// The entry `key: value`.
pub fn json_field(key: &str, value: JsonValue) -> (r: (String, JsonValue))
    ensures
        r.0@ == key@,
        r.1 == value,
{
    (to_owned_string(key), value)
}

} // verus!
