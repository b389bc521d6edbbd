//! A plain model of a parsed JSON document, with the lookups that the
//! descriptor logic performs on it.
use vstd::prelude::*;

verus! {

/// A parsed JSON value. Numbers keep what the descriptor logic reads of them:
/// a non-negative integer, a negative integer, or any other number.
#[derive(Debug)]
pub enum JsonValue {
    Null,
    Bool(bool),
    UInt(u64),
    NegInt(i64),
    OtherNumber,
    Str(String),
    Array(Vec<JsonValue>),
    Object(Vec<JsonMember>),
}

/// One key/value entry of a JSON object, in document order.
#[derive(Debug)]
pub struct JsonMember {
    pub key: String,
    pub value: JsonValue,
}

/// The value stored under `key` among `members`: the first entry with that key.
pub open spec fn lookup(members: Seq<JsonMember>, key: Seq<char>) -> Option<JsonValue>
    decreases members.len(),
{
    if members.len() == 0 {
        None
    } else if members[0].key@ == key {
        Some(members[0].value)
    } else {
        lookup(members.drop_first(), key)
    }
}

/// `value[key]` when `value` is an object holding `key`.
pub open spec fn spec_get(value: JsonValue, key: Seq<char>) -> Option<JsonValue> {
    match value {
        JsonValue::Object(members) => lookup(members@, key),
        _ => None,
    }
}

pub open spec fn spec_as_str(value: JsonValue) -> Option<Seq<char>> {
    match value {
        JsonValue::Str(s) => Some(s@),
        _ => None,
    }
}

pub open spec fn spec_as_u64(value: JsonValue) -> Option<u64> {
    match value {
        JsonValue::UInt(n) => Some(n),
        _ => None,
    }
}

pub open spec fn spec_as_bool(value: JsonValue) -> Option<bool> {
    match value {
        JsonValue::Bool(b) => Some(b),
        _ => None,
    }
}

pub open spec fn spec_as_array(value: JsonValue) -> Option<Seq<JsonValue>> {
    match value {
        JsonValue::Array(items) => Some(items@),
        _ => None,
    }
}

/// The string stored under `key`, if the entry exists and is a string.
pub open spec fn spec_get_str(value: JsonValue, key: Seq<char>) -> Option<Seq<char>> {
    match spec_get(value, key) {
        Some(v) => spec_as_str(v),
        None => None,
    }
}

/// The array stored under `key`, if the entry exists and is an array.
pub open spec fn spec_get_array(value: JsonValue, key: Seq<char>) -> Option<Seq<JsonValue>> {
    match spec_get(value, key) {
        Some(v) => spec_as_array(v),
        None => None,
    }
}

/// A value found by a key lookup is structurally smaller than the object.
pub proof fn lemma_get_decreases(value: JsonValue, key: Seq<char>)
    ensures
        spec_get(value, key) is Some ==> decreases_to!(value => spec_get(value, key)->0),
{
    if let JsonValue::Object(members) = value {
        assert(members@.subrange(0, members@.len() as int) == members@);
        lemma_lookup_decreases(members, members@, key, 0);
    }
}

proof fn lemma_lookup_decreases(members: Vec<JsonMember>, rest: Seq<JsonMember>, key: Seq<char>, start: int)
    requires
        0 <= start <= members@.len(),
        rest == members@.subrange(start, members@.len() as int),
    ensures
        lookup(rest, key) is Some ==> decreases_to!(members => lookup(rest, key)->0),
    decreases rest.len(),
{
    broadcast use vstd::std_specs::vec::group_vec_axioms;
    if rest.len() > 0 {
        if rest[0].key@ == key {
            assert(rest[0] == members@[start]);
            assert(decreases_to!(members => members[start]));
        } else {
            assert(rest.drop_first() == members@.subrange(start + 1, members@.len() as int));
            lemma_lookup_decreases(members, rest.drop_first(), key, start + 1);
        }
    }
}

/// Elements of an array are structurally smaller than the array.
pub proof fn lemma_array_item_decreases(value: JsonValue, i: int)
    requires
        spec_as_array(value) is Some,
        0 <= i < spec_as_array(value)->0.len(),
    ensures
        decreases_to!(value => spec_as_array(value)->0[i]),
{
    broadcast use vstd::std_specs::vec::group_vec_axioms;
    if let JsonValue::Array(items) = value {
        assert(decreases_to!(items => items[i]));
    }
}

/// Whether a string equals a literal, compared character by character.
pub fn string_is(s: &String, literal: &str) -> (r: bool)
    ensures
        r == (s@ == literal@),
{
    let owned = literal.to_owned();
    *s == owned
}

impl JsonValue {
    pub fn as_str(&self) -> (r: Option<&String>)
        ensures
            r is Some <==> spec_as_str(*self) is Some,
            r matches Some(x) ==> spec_as_str(*self) == Some(x@),
    {
        match self {
            JsonValue::Str(s) => Some(s),
            _ => None,
        }
    }

    pub fn as_u64(&self) -> (r: Option<u64>)
        ensures
            r == spec_as_u64(*self),
    {
        match self {
            JsonValue::UInt(n) => Some(*n),
            _ => None,
        }
    }

    pub fn as_bool(&self) -> (r: Option<bool>)
        ensures
            r == spec_as_bool(*self),
    {
        match self {
            JsonValue::Bool(b) => Some(*b),
            _ => None,
        }
    }

    pub fn as_array(&self) -> (r: Option<&Vec<JsonValue>>)
        ensures
            r is Some <==> spec_as_array(*self) is Some,
            r matches Some(x) ==> spec_as_array(*self) == Some(x@),
    {
        match self {
            JsonValue::Array(items) => Some(items),
            _ => None,
        }
    }

    pub fn as_object(&self) -> (r: Option<&Vec<JsonMember>>)
        ensures
            r is Some <==> self is Object,
            r matches Some(x) ==> *self == JsonValue::Object(*x),
    {
        match self {
            JsonValue::Object(members) => Some(members),
            _ => None,
        }
    }

    /// The string under `key`, if present and a string.
    pub fn get_str(&self, key: &str) -> (r: Option<&String>)
        ensures
            r is Some <==> spec_get_str(*self, key@) is Some,
            r matches Some(x) ==> spec_get_str(*self, key@) == Some(x@),
    {
        match self.get(key) {
            Some(v) => v.as_str(),
            None => None,
        }
    }

    /// The array under `key`, if present and an array.
    pub fn get_array(&self, key: &str) -> (r: Option<&Vec<JsonValue>>)
        ensures
            r is Some <==> spec_get_array(*self, key@) is Some,
            r matches Some(x) ==> spec_get_array(*self, key@) == Some(x@),
    {
        match self.get(key) {
            Some(v) => v.as_array(),
            None => None,
        }
    }

    /// Looks up `key` in an object; `None` for a missing key or a non-object.
    pub fn get(&self, key: &str) -> (r: Option<&JsonValue>)
        ensures
            r is Some <==> spec_get(*self, key@) is Some,
            r matches Some(x) ==> spec_get(*self, key@) == Some(*x),
    {
        match self {
            JsonValue::Object(members) => {
                let wanted = key.to_owned();
                let mut i: usize = 0;
                assert(members@.skip(0) == members@);
                while i < members.len()
                    invariant
                        0 <= i <= members@.len(),
                        wanted@ == key@,
                        spec_get(*self, key@) == lookup(members@, key@),
                        lookup(members@, key@) == lookup(members@.skip(i as int), key@),
                    decreases members@.len() - i,
                {
                    assert(members@.skip(i as int).drop_first() == members@.skip(i + 1));
                    assert(members@.skip(i as int)[0] == members@[i as int]);
                    if members[i].key == wanted {
                        return Some(&members[i].value);
                    }
                    i = i + 1;
                }
                None
            },
            _ => None,
        }
    }
}

} // verus!
