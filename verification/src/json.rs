//! A JSON document held as plain data, with the lookups the handler needs:
//! the first element of an array, the member of an object under a key, and
//! the characters of a string.

use vstd::prelude::*;

verus! {

/// A JSON document. An object keeps its members in order; a number keeps its
/// decimal text.
#[derive(Debug, PartialEq, Eq)]
pub enum Json {
    Null,
    Bool(bool),
    Num(String),
    Str(String),
    Arr(Vec<Json>),
    Obj(Vec<(String, Json)>),
}

/// The value under the first occurrence of `key` in `pairs`, searching from
/// position `i` on.
pub open spec fn lookup_from(pairs: Seq<(String, Json)>, key: Seq<char>, i: int) -> Option<Json>
    decreases pairs.len() - i,
{
    if i < 0 || i >= pairs.len() {
        None
    } else if pairs[i].0@ == key {
        Some(pairs[i].1)
    } else {
        lookup_from(pairs, key, i + 1)
    }
}

/// The value under the first occurrence of `key` in `pairs`, if any.
pub open spec fn obj_lookup(pairs: Seq<(String, Json)>, key: Seq<char>) -> Option<Json> {
    lookup_from(pairs, key, 0)
}

/// The first element of a JSON array; a non-array or an empty array has none.
pub open spec fn first_of(j: Json) -> Option<Json> {
    match j {
        Json::Arr(items) => if items@.len() > 0 {
            Some(items@[0])
        } else {
            None
        },
        _ => None,
    }
}

/// The member of a JSON object under `key`; a non-object has none.
pub open spec fn member_of(j: Json, key: Seq<char>) -> Option<Json> {
    match j {
        Json::Obj(pairs) => obj_lookup(pairs@, key),
        _ => None,
    }
}

/// The characters of a JSON string; a non-string has none.
pub open spec fn text_of(j: Json) -> Option<Seq<char>> {
    match j {
        Json::Str(s) => Some(s@),
        _ => None,
    }
}

impl Json {
    /// The first element of an array, if there is one.
    pub fn first(&self) -> (r: Option<&Json>)
        ensures
            match first_of(*self) {
                Some(j) => r matches Some(rj) && *rj == j,
                None => r is None,
            },
    {
        match self {
            Json::Arr(items) => if items.len() > 0 {
                Some(&items[0])
            } else {
                None
            },
            _ => None,
        }
    }

    /// The member under the first occurrence of `key`, if there is one.
    pub fn get<'a>(&'a self, key: &str) -> (r: Option<&'a Json>)
        ensures
            match member_of(*self, key@) {
                Some(j) => r matches Some(rj) && *rj == j,
                None => r is None,
            },
    {
        match self {
            Json::Obj(pairs) => {
                let k: String = key.to_owned();
                let mut i: usize = 0;
                while i < pairs.len()
                    invariant
                        i <= pairs@.len(),
                        k@ == key@,
                        *self == Json::Obj(*pairs),
                        member_of(*self, key@) == lookup_from(pairs@, key@, i as int),
                    decreases pairs@.len() - i,
                {
                    if pairs[i].0 == k {
                        return Some(&pairs[i].1);
                    }
                    i = i + 1;
                }
                None
            },
            _ => None,
        }
    }

    /// The text of a string value, if this is one.
    pub fn as_text(&self) -> (r: Option<&String>)
        ensures
            match text_of(*self) {
                Some(t) => r matches Some(s) && s@ == t,
                None => r is None,
            },
    {
        match self {
            Json::Str(s) => Some(s),
            _ => None,
        }
    }
}

#[verifier::external_type_specification]
#[verifier::external_body]
pub struct ExValue(serde_json::Value);

/// What a text parses to, or the description of why it does not.
pub uninterp spec fn json_parse(s: Seq<char>) -> Result<Json, Seq<char>>;

/// Relies on serde_json::from_str::<serde_json::Value>: what a text parses
/// to, and the error's description when it does not, are functions of the
/// text alone.
#[verifier::external_body]
pub(crate) fn parse_json(body: &str) -> (r: Result<Json, String>)
    ensures
        match json_parse(body@) {
            Ok(j) => r matches Ok(rj) && rj == j,
            Err(m) => r matches Err(e) && e@ == m,
        },
{
    match serde_json::from_str::<serde_json::Value>(body) {
        Ok(v) => Ok(from_value(v)),
        Err(e) => Err(e.to_string()),
    }
}

/// Relies on serde_json::Value's variants: each is carried over one for one,
/// a number as its decimal text.
#[verifier::external_body]
fn from_value(v: serde_json::Value) -> Json {
    match v {
        serde_json::Value::Null => Json::Null,
        serde_json::Value::Bool(b) => Json::Bool(b),
        serde_json::Value::Number(n) => Json::Num(n.to_string()),
        serde_json::Value::String(s) => Json::Str(s),
        serde_json::Value::Array(items) => Json::Arr(items.into_iter().map(from_value).collect()),
        serde_json::Value::Object(members) => Json::Obj(
            members.into_iter().map(|(k, m)| (k, from_value(m))).collect(),
        ),
    }
}

} // verus!
