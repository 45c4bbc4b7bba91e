//! A JSON document as plain values, for the responses and push payloads
//! the client reads. Text is turned into a [`Json`] (and back) by the
//! caller; here it is only read.

use vstd::prelude::*;

use crate::text::{self, decimal};

verus! {

/// A JSON number as `serde_json` keeps it: a non-negative integer, a
/// negative integer, or a float (whose value is never read here).
#[derive(Clone, Debug, PartialEq)]
pub enum JsonNumber {
    PosInt(u64),
    NegInt(i64),
    Float,
}

/// A JSON value; an object keeps its members in document order.
#[derive(Debug)]
pub enum Json {
    Null,
    Bool(bool),
    Number(JsonNumber),
    Str(String),
    Array(Vec<Json>),
    Object(Vec<(String, Json)>),
}

/// The first member named `key`.
pub open spec fn member_of(members: Seq<(String, Json)>, key: Seq<char>) -> Option<Json>
    decreases members.len(),
{
    if members.len() == 0 {
        None
    } else if members[0].0@ == key {
        Some(members[0].1)
    } else {
        member_of(members.drop_first(), key)
    }
}

impl Json {
    /// `value.get(key)`: the member `key` of an object.
    pub open spec fn field(self, key: Seq<char>) -> Option<Json> {
        match self {
            Json::Object(m) => member_of(m@, key),
            _ => None,
        }
    }

    pub open spec fn str_value(self) -> Option<Seq<char>> {
        match self {
            Json::Str(s) => Some(s@),
            _ => None,
        }
    }

    /// `as_u64`: a non-negative integer.
    pub open spec fn u64_value(self) -> Option<u64> {
        match self {
            Json::Number(JsonNumber::PosInt(n)) => Some(n),
            _ => None,
        }
    }

    /// `as_i64`: an integer that fits in an `i64`.
    pub open spec fn i64_value(self) -> Option<i64> {
        match self {
            Json::Number(JsonNumber::PosInt(n)) => if n <= i64::MAX {
                Some(n as i64)
            } else {
                None
            },
            Json::Number(JsonNumber::NegInt(i)) => Some(i),
            _ => None,
        }
    }

    pub open spec fn array_value(self) -> Option<Seq<Json>> {
        match self {
            Json::Array(a) => Some(a@),
            _ => None,
        }
    }

    pub open spec fn bool_value(self) -> Option<bool> {
        match self {
            Json::Bool(b) => Some(b),
            _ => None,
        }
    }

    /// The member `key` of an object.
    pub fn get(&self, key: &str) -> (r: Option<&Json>)
        ensures
            match r {
                Some(v) => self.field(key@) == Some(*v),
                None => self.field(key@) is None,
            },
    {
        match self {
            Json::Object(members) => {
                let mut i: usize = 0;
                assert(members@.skip(0) =~= members@);
                while i < members.len()
                    invariant
                        i <= members.len(),
                        self.field(key@) == member_of(members@, key@),
                        member_of(members@, key@) == member_of(members@.skip(i as int), key@),
                    decreases members.len() - i,
                {
                    assert(members@.skip(i as int)[0] == members@[i as int]);
                    if text::str_is(members[i].0.as_str(), key) {
                        return Some(&members[i].1);
                    }
                    assert(members@.skip(i as int).drop_first() =~= members@.skip(i + 1));
                    i = i + 1;
                }
                None
            },
            _ => None,
        }
    }

    pub fn as_str(&self) -> (r: Option<&str>)
        ensures
            match r {
                Some(s) => self.str_value() == Some(s@),
                None => self.str_value() is None,
            },
    {
        match self {
            Json::Str(s) => Some(s.as_str()),
            _ => None,
        }
    }

    pub fn as_u64(&self) -> (r: Option<u64>)
        ensures
            r == self.u64_value(),
    {
        match self {
            Json::Number(JsonNumber::PosInt(n)) => Some(*n),
            _ => None,
        }
    }

    pub fn as_i64(&self) -> (r: Option<i64>)
        ensures
            r == self.i64_value(),
    {
        match self {
            Json::Number(JsonNumber::PosInt(n)) => if *n <= 9223372036854775807u64 {
                Some(*n as i64)
            } else {
                None
            },
            Json::Number(JsonNumber::NegInt(i)) => Some(*i),
            _ => None,
        }
    }

    pub fn as_array(&self) -> (r: Option<&Vec<Json>>)
        ensures
            match r {
                Some(a) => self.array_value() == Some(a@),
                None => self.array_value() is None,
            },
    {
        match self {
            Json::Array(a) => Some(a),
            _ => None,
        }
    }

    pub fn as_bool(&self) -> (r: Option<bool>)
        ensures
            r == self.bool_value(),
    {
        match self {
            Json::Bool(b) => Some(*b),
            _ => None,
        }
    }
}

/// `value.get(key).and_then(|v| v.as_str())`.
pub open spec fn str_field(v: Json, key: Seq<char>) -> Option<Seq<char>> {
    match v.field(key) {
        Some(f) => f.str_value(),
        None => None,
    }
}

/// `value.get(key).and_then(|v| v.as_u64())`.
pub open spec fn u64_field(v: Json, key: Seq<char>) -> Option<u64> {
    match v.field(key) {
        Some(f) => f.u64_value(),
        None => None,
    }
}

/// `value.get(key).and_then(|v| v.as_i64())`.
pub open spec fn i64_field(v: Json, key: Seq<char>) -> Option<i64> {
    match v.field(key) {
        Some(f) => f.i64_value(),
        None => None,
    }
}

/// `value.get(key).and_then(|v| v.as_bool())`.
pub open spec fn bool_field(v: Json, key: Seq<char>) -> Option<bool> {
    match v.field(key) {
        Some(f) => f.bool_value(),
        None => None,
    }
}

/// The integer member `key` of an object, when it fits an `i64`.
pub fn get_i64(v: &Json, key: &str) -> (r: Option<i64>)
    ensures
        r == i64_field(*v, key@),
{
    match v.get(key) {
        Some(f) => f.as_i64(),
        None => None,
    }
}

/// The boolean member `key` of an object.
pub fn get_bool(v: &Json, key: &str) -> (r: Option<bool>)
    ensures
        r == bool_field(*v, key@),
{
    match v.get(key) {
        Some(f) => f.as_bool(),
        None => None,
    }
}

/// The string member `key` of an object, copied.
pub fn get_str(v: &Json, key: &str) -> (r: Option<String>)
    ensures
        text::opt_str(r) == str_field(*v, key@),
{
    match v.get(key) {
        Some(f) => match f.as_str() {
            Some(s) => Some(s.to_owned()),
            None => None,
        },
        None => None,
    }
}

/// The non-negative integer member `key` of an object.
pub fn get_u64(v: &Json, key: &str) -> (r: Option<u64>)
    ensures
        r == u64_field(*v, key@),
{
    match v.get(key) {
        Some(f) => f.as_u64(),
        None => None,
    }
}

/// A string, or a non-negative integer written in decimal.
pub open spec fn scalar_text(v: Json) -> Option<Seq<char>> {
    match v {
        Json::Str(s) => Some(s@),
        Json::Number(JsonNumber::PosInt(n)) => Some(decimal(n as nat)),
        _ => None,
    }
}

/// Depth-first search for the member `key`: at an object, its own member
/// `key` when that is a string or a non-negative integer, else the first
/// hit among its members' values in order; at an array, the first hit
/// among its elements.
pub open spec fn find_field(v: Json, key: Seq<char>) -> Option<Seq<char>>
    decreases v,
{
    match v {
        Json::Object(m) => match member_of(m@, key) {
            Some(f) if scalar_text(f) is Some => scalar_text(f),
            _ => find_in_members(m@, key),
        },
        Json::Array(a) => find_in_items(a@, key),
        _ => None,
    }
}

pub open spec fn find_in_members(m: Seq<(String, Json)>, key: Seq<char>) -> Option<Seq<char>>
    decreases m,
{
    if m.len() == 0 {
        None
    } else {
        match find_field(m[0].1, key) {
            Some(s) => Some(s),
            None => find_in_members(m.drop_first(), key),
        }
    }
}

pub open spec fn find_in_items(a: Seq<Json>, key: Seq<char>) -> Option<Seq<char>>
    decreases a,
{
    if a.len() == 0 {
        None
    } else {
        match find_field(a[0], key) {
            Some(s) => Some(s),
            None => find_in_items(a.drop_first(), key),
        }
    }
}


/// A string value, copied.
pub fn get_str_value(v: &Json) -> (r: Option<String>)
    ensures
        text::opt_str(r) == v.str_value(),
{
    match v.as_str() {
        Some(s) => Some(s.to_owned()),
        None => None,
    }
}

} // verus!
