//! The JSON documents exchanged with the catalog, as a tree of plain values,
//! with the lookups that the decoders are built from.

use serde_json::{Number, Value};
use vstd::prelude::*;

use crate::text::strings_view;

verus! {

#[verifier::external_type_specification]
#[verifier::external_body]
pub struct ExJsonValue(Value);

/// A JSON number: its value where it is an integer that fits an `i64`, and
/// its text.
#[derive(Debug, Clone, PartialEq, Eq)]
pub struct JsonNumber {
    pub int: Option<i64>,
    pub text: String,
}

/// A JSON value. An object keeps its members in the order the parser gave
/// them, each key once.
#[derive(Debug, PartialEq, Eq)]
pub enum Json {
    Null,
    Bool(bool),
    Number(JsonNumber),
    Str(String),
    Array(Vec<Json>),
    Object(Vec<(String, Json)>),
}

/// What serde_json reads from a text: `None` where the text is not JSON.
pub uninterp spec fn json_parse(s: Seq<char>) -> Option<Json>;

/// The compact text that serde_json writes for a value.
pub uninterp spec fn json_text(v: Json) -> Seq<char>;

/// Relies on `serde_json::from_str::<serde_json::Value>`: the value that a
/// JSON text denotes, or an error where the text is not JSON.
#[verifier::external_body]
pub(crate) fn parse_json(s: &str) -> (r: Option<Json>)
    ensures
        r == json_parse(s@),
{
    serde_json::from_str::<Value>(s).ok().map(|v| json_from_value(&v))
}

/// Relies on `Display` for `serde_json::Value`: the compact JSON text of a
/// value.
#[verifier::external_body]
pub(crate) fn json_to_string(v: &Json) -> (r: String)
    ensures
        r@ == json_text(*v),
{
    json_into_value(v).to_string()
}

/// The JSON string literal that serde_json writes for a text.
pub uninterp spec fn json_quoted(s: Seq<char>) -> Seq<char>;

/// Relies on `serde_json::to_string` on a `str`: the text as a JSON string
/// literal, quoted and escaped. Serialising a `str` does not fail.
#[verifier::external_body]
pub(crate) fn quote_json(s: &str) -> (r: String)
    ensures
        r@ == json_quoted(s@),
{
    serde_json::to_string(s).unwrap_or_default()
}

/// Moves a `serde_json::Value` into the library's tree, node for node; only
/// `parse_json` uses it.
#[verifier::external_body]
fn json_from_value(v: &Value) -> Json {
    match v {
        Value::Null => Json::Null,
        Value::Bool(b) => Json::Bool(*b),
        Value::Number(n) => Json::Number(JsonNumber { int: n.as_i64(), text: n.to_string() }),
        Value::String(s) => Json::Str(s.clone()),
        Value::Array(a) => Json::Array(a.iter().map(json_from_value).collect()),
        Value::Object(o) => Json::Object(o.iter().map(|(k, x)| (k.clone(), json_from_value(x))).collect()),
    }
}

/// Moves the library's tree into a `serde_json::Value`, node for node; only
/// `json_to_string` uses it.
#[verifier::external_body]
fn json_into_value(v: &Json) -> Value {
    match v {
        Json::Null => Value::Null,
        Json::Bool(b) => Value::Bool(*b),
        Json::Number(n) => n.text.parse::<Number>().map_or(Value::Null, Value::Number),
        Json::Str(s) => Value::String(s.clone()),
        Json::Array(a) => Value::Array(a.iter().map(json_into_value).collect()),
        Json::Object(o) => Value::Object(o.iter().map(|(k, x)| (k.clone(), json_into_value(x))).collect()),
    }
}

/// The value of the first member named `key`.
pub open spec fn lookup(members: Seq<(String, Json)>, key: Seq<char>) -> Option<Json>
    decreases members.len(),
{
    if members.len() == 0 {
        None
    } else if members[0].0@ == key {
        Some(members[0].1)
    } else {
        lookup(members.drop_first(), key)
    }
}

/// The member `key` of an object; `None` for a missing member or a value
/// that is not an object.
pub open spec fn field(j: Json, key: Seq<char>) -> Option<Json> {
    match j {
        Json::Object(m) => lookup(m@, key),
        _ => None,
    }
}

/// The integer that a value is, where it is one that fits an `i64`.
pub open spec fn int_value(j: Json) -> Option<i64> {
    match j {
        Json::Number(n) => n.int,
        _ => None,
    }
}

/// A member that is a string, the string itself.
pub open spec fn string_member(j: Json, key: Seq<char>) -> Option<String> {
    match field(j, key) {
        Some(Json::Str(s)) => Some(s),
        _ => None,
    }
}

/// A member that may be left out: `Some(None)` where it is absent or `null`,
/// `Some(Some(s))` where it is the string `s`, `None` for anything else.
pub open spec fn optional_string_member(j: Json, key: Seq<char>) -> Option<Option<String>> {
    match field(j, key) {
        None => Some(None),
        Some(Json::Null) => Some(None),
        Some(Json::Str(s)) => Some(Some(s)),
        _ => None,
    }
}

/// The items of an array.
pub open spec fn items(j: Json) -> Option<Seq<Json>> {
    match j {
        Json::Array(a) => Some(a@),
        _ => None,
    }
}

/// The keys of an object's members, in order.
pub open spec fn keys(j: Json) -> Option<Seq<Seq<char>>> {
    match j {
        Json::Object(m) => Some(m@.map_values(|e: (String, Json)| e.0@)),
        _ => None,
    }
}

/// Whether `j` is an object.
pub open spec fn is_object(j: Json) -> bool {
    j is Object
}

/// A member that is an array, its items.
pub open spec fn array_member(j: Json, key: Seq<char>) -> Option<Seq<Json>> {
    match field(j, key) {
        Some(Json::Array(a)) => Some(a@),
        _ => None,
    }
}

/// A member that may be left out: `Some(None)` where it is absent or `null`,
/// `Some(Some(items))` where it is an array, `None` for anything else.
pub open spec fn optional_array_member(j: Json, key: Seq<char>) -> Option<Option<Seq<Json>>> {
    match field(j, key) {
        None => Some(None),
        Some(Json::Null) => Some(None),
        Some(Json::Array(a)) => Some(Some(a@)),
        _ => None,
    }
}

/// A member that may be left out: `Some(None)` where it is absent or `null`,
/// `Some(Some(n))` where it is an integer that fits an `i64`, `None` for
/// anything else.
pub open spec fn optional_int_member(j: Json, key: Seq<char>) -> Option<Option<i64>> {
    match field(j, key) {
        None => Some(None),
        Some(Json::Null) => Some(None),
        Some(v) => match int_value(v) {
            Some(n) => Some(Some(n)),
            None => None,
        },
    }
}

/// The view of an optional string.
pub open spec fn opt_str_view(o: Option<String>) -> Option<Seq<char>> {
    match o {
        Some(s) => Some(s@),
        None => None,
    }
}

/// The member `key` of `j`, if `j` is an object that has one.
pub fn get_field<'a>(j: &'a Json, key: &str) -> (r: Option<&'a Json>)
    ensures
        r matches Some(v) ==> field(*j, key@) == Some(*v),
        r is None ==> field(*j, key@) is None,
{
    match j {
        Json::Object(members) => {
            let k = String::from_str(key);
            let mut i: usize = 0;
            proof {
                assert(members@.skip(0) =~= members@);
            }
            while i < members.len()
                invariant
                    i <= members.len(),
                    k@ == key@,
                    *j == Json::Object(*members),
                    lookup(members@, key@) == lookup(members@.skip(i as int), key@),
                decreases members.len() - i,
            {
                proof {
                    assert(members@.skip(i as int).drop_first() =~= members@.skip(i + 1));
                    assert(members@.skip(i as int)[0] == members@[i as int]);
                }
                if members[i].0 == k {
                    assert(lookup(members@.skip(i as int), key@) == Some(members@[i as int].1));
                    return Some(&members[i].1);
                }
                i = i + 1;
            }
            None
        },
        _ => None,
    }
}

/// The member `key` of `j` where it is a string, the string itself.
pub fn get_string(j: &Json, key: &str) -> (r: Option<String>)
    ensures
        r == string_member(*j, key@),
{
    match get_field(j, key) {
        Some(Json::Str(s)) => Some(s.clone()),
        _ => None,
    }
}

/// The member `key` of `j` where it is a string, absent or `null`.
pub fn get_optional_string(j: &Json, key: &str) -> (r: Option<Option<String>>)
    ensures
        r == optional_string_member(*j, key@),
{
    match get_field(j, key) {
        None => Some(None),
        Some(Json::Null) => Some(None),
        Some(Json::Str(s)) => Some(Some(s.clone())),
        _ => None,
    }
}

/// The member `key` of `j` where it is an integer, absent or `null`.
pub fn get_optional_int(j: &Json, key: &str) -> (r: Option<Option<i64>>)
    ensures
        r == optional_int_member(*j, key@),
{
    match get_field(j, key) {
        None => Some(None),
        Some(Json::Null) => Some(None),
        Some(Json::Number(n)) => match n.int {
            Some(k) => Some(Some(k)),
            None => None,
        },
        Some(_) => None,
    }
}

/// Whether two texts are equal.
pub fn same_text(s: &String, t: &str) -> (r: bool)
    ensures
        r == (s@ == t@),
{
    let u = String::from_str(t);
    *s == u
}

/// The keys of an object's members, in order.
pub fn object_keys(j: &Json) -> (r: Option<Vec<String>>)
    ensures
        r matches Some(v) ==> keys(*j) == Some(strings_view(v@)),
        r is None ==> keys(*j) is None,
{
    match j {
        Json::Object(members) => {
            let mut v: Vec<String> = Vec::new();
            let mut i: usize = 0;
            while i < members.len()
                invariant
                    i <= members.len(),
                    v@.len() == i,
                    forall|k: int| 0 <= k < i ==> #[trigger] v@[k]@ == members@[k].0@,
                decreases members.len() - i,
            {
                v.push(members[i].0.clone());
                i = i + 1;
            }
            assert(strings_view(v@) =~= members@.map_values(|e: (String, Json)| e.0@));
            Some(v)
        },
        _ => None,
    }
}

} // verus!
