//! A JSON document as the devloop payload parsers read it.
//!
//! Numbers carry the readings the parsers use: the value as an `i64`
//! or a `u64` when it is an integer that fits, and the value as an
//! `f64` (its IEEE-754 bit pattern) when it has one. Object members keep the
//! order they arrived in; keys are unique, and a lookup takes the first
//! member with the key.

use vstd::prelude::*;
use crate::text::str_eq;

verus! {

/// A JSON number, by the readings the parsers take of it.
#[derive(Copy, Clone, Debug)]
pub struct JsonNumber {
    /// The number as an `i64`, when it is an integer within range.
    pub as_i64: Option<i64>,
    /// The number as a `u64`, when it is a non-negative integer within range.
    pub as_u64: Option<u64>,
    /// The number as an `f64` bit pattern.
    pub as_f64_bits: Option<u64>,
}

/// A JSON value.
#[derive(Debug)]
pub enum JsonValue {
    Null,
    Bool(bool),
    Number(JsonNumber),
    String(String),
    Array(Vec<JsonValue>),
    Object(Vec<(String, JsonValue)>),
}

/// The first member of `members` whose key is `key`.
pub open spec fn member(members: Seq<(String, JsonValue)>, key: Seq<char>) -> Option<JsonValue>
    decreases members.len(),
{
    if members.len() == 0 {
        None
    } else if members[0].0@ == key {
        Some(members[0].1)
    } else {
        member(members.drop_first(), key)
    }
}

/// The text of a value that is a JSON string.
pub open spec fn str_of(v: Option<JsonValue>) -> Option<Seq<char>> {
    match v {
        Some(JsonValue::String(s)) => Some(s@),
        _ => None,
    }
}

/// The `f64` reading of a value that is a JSON number.
pub open spec fn f64_of(v: Option<JsonValue>) -> Option<u64> {
    match v {
        Some(JsonValue::Number(n)) => n.as_f64_bits,
        _ => None,
    }
}

/// The `i64` reading of a value that is a JSON number.
pub open spec fn i64_of(v: Option<JsonValue>) -> Option<i64> {
    match v {
        Some(JsonValue::Number(n)) => n.as_i64,
        _ => None,
    }
}

/// The `u64` reading of a value that is a JSON number.
pub open spec fn u64_of(v: Option<JsonValue>) -> Option<u64> {
    match v {
        Some(JsonValue::Number(n)) => n.as_u64,
        _ => None,
    }
}

/// The `bool` of a value that is a JSON boolean.
pub open spec fn bool_of(v: Option<JsonValue>) -> Option<bool> {
    match v {
        Some(JsonValue::Bool(b)) => Some(b),
        _ => None,
    }
}

/// Whether a member is present and not `null`.
pub open spec fn present(v: Option<JsonValue>) -> bool {
    match v {
        Some(JsonValue::Null) => false,
        Some(_) => true,
        None => false,
    }
}

/// An optional borrowed value, as a value.
pub open spec fn opt_value(v: Option<&JsonValue>) -> Option<JsonValue> {
    match v {
        Some(x) => Some(*x),
        None => None,
    }
}

/// Look up the first member named `key`.
pub fn get_member<'a>(members: &'a Vec<(String, JsonValue)>, key: &str) -> (r: Option<&'a JsonValue>)
    ensures
        match r {
            Some(v) => member(members@, key@) == Some(*v),
            None => member(members@, key@) is None,
        },
{
    let n = members.len();
    let mut i: usize = 0;
    assert(members@.skip(0) =~= members@);
    while i < n
        invariant
            n == members@.len(),
            i <= n,
            member(members@, key@) == member(members@.skip(i as int), key@),
        decreases n - i,
    {
        assert(members@.skip(i as int).drop_first() =~= members@.skip(i + 1));
        if str_eq(members[i].0.as_str(), key) {
            return Some(&members[i].1);
        }
        i = i + 1;
    }
    None
}

/// The text of a value that is a JSON string.
pub fn as_str(v: Option<&JsonValue>) -> (r: Option<&str>)
    ensures
        match r {
            Some(s) => str_of(opt_value(v)) == Some(s@),
            None => str_of(opt_value(v)) is None,
        },
{
    match v {
        Some(JsonValue::String(s)) => Some(s.as_str()),
        _ => None,
    }
}

/// The `f64` reading of a value that is a JSON number.
pub fn as_f64_bits(v: Option<&JsonValue>) -> (r: Option<u64>)
    ensures
        r == f64_of(opt_value(v)),
{
    match v {
        Some(JsonValue::Number(n)) => n.as_f64_bits,
        _ => None,
    }
}

/// The `i64` reading of a value that is a JSON number.
pub fn as_i64(v: Option<&JsonValue>) -> (r: Option<i64>)
    ensures
        r == i64_of(opt_value(v)),
{
    match v {
        Some(JsonValue::Number(n)) => n.as_i64,
        _ => None,
    }
}

/// The `u64` reading of a value that is a JSON number.
pub fn as_u64(v: Option<&JsonValue>) -> (r: Option<u64>)
    ensures
        r == u64_of(opt_value(v)),
{
    match v {
        Some(JsonValue::Number(n)) => n.as_u64,
        _ => None,
    }
}

/// The `bool` of a value that is a JSON boolean.
pub fn as_bool(v: Option<&JsonValue>) -> (r: Option<bool>)
    ensures
        r == bool_of(opt_value(v)),
{
    match v {
        Some(JsonValue::Bool(b)) => Some(*b),
        _ => None,
    }
}

/// Whether a member is present and not `null`.
pub fn is_present(v: Option<&JsonValue>) -> (r: bool)
    ensures
        r == present(opt_value(v)),
{
    match v {
        Some(JsonValue::Null) => false,
        Some(_) => true,
        None => false,
    }
}

} // verus!
