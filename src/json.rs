//! The JSON documents exchanged with the service, as serde_json parses them,
//! and the model that the decoders are specified against.
use serde_json::Value;
use vstd::prelude::*;

verus! {

/// What a JSON value holds. Integers are the numbers that the parser keeps
/// exactly (those that fit in an `i64` or a `u64`); any other number is
/// `NonInteger`. Object members appear once each, in the parser's order.
pub enum Json {
    Null,
    Bool(bool),
    Int(int),
    NonInteger,
    Str(Seq<char>),
    Array(Seq<Json>),
    Object(Seq<(Seq<char>, Json)>),
}

/// The member of an object under `key`, if there is one.
pub open spec fn object_get(members: Seq<(Seq<char>, Json)>, key: Seq<char>) -> Option<Json>
    decreases members.len(),
{
    if members.len() == 0 {
        None
    } else if members[0].0 == key {
        Some(members[0].1)
    } else {
        object_get(members.drop_first(), key)
    }
}

/// The member of `j` under `key`; absent when `j` is not an object.
pub open spec fn member_of(j: Json, key: Seq<char>) -> Option<Json> {
    match j {
        Json::Object(members) => object_get(members, key),
        _ => None,
    }
}

/// Strict lexicographic order on keys, character by character.
pub open spec fn key_less(a: Seq<char>, b: Seq<char>) -> bool
    decreases a.len(),
{
    if b.len() == 0 {
        false
    } else if a.len() == 0 {
        true
    } else if a[0] != b[0] {
        (a[0] as u32) < (b[0] as u32)
    } else {
        key_less(a.drop_first(), b.drop_first())
    }
}

/// Keys in strictly ascending order, so each occurs once.
pub open spec fn keys_ascending<T>(members: Seq<(Seq<char>, T)>) -> bool {
    forall|i: int, j: int| 0 <= i < j < members.len() ==> key_less(#[trigger] members[i].0, #[trigger] members[j].0)
}

#[verifier::external_type_specification]
#[verifier::external_body]
pub struct ExValue(serde_json::Value);

#[verifier::external_type_specification]
#[verifier::external_body]
pub struct ExError(serde_json::Error);

/// The contents of a parsed JSON tree.
pub uninterp spec fn json_model(v: Value) -> Json;

/// The document that a text holds, if it is JSON.
pub uninterp spec fn json_text(text: Seq<char>) -> Option<Json>;

pub open spec fn hex_digit(d: int) -> char {
    seq!['0', '1', '2', '3', '4', '5', '6', '7', '8', '9', 'a', 'b', 'c', 'd', 'e', 'f'][d]
}

/// How a character is written inside a JSON string: the quote and the
/// backslash escaped, the control characters with a short escape where JSON
/// has one and as `\u00xx` otherwise, every other character as itself.
pub open spec fn escaped_char(c: char) -> Seq<char> {
    let n = c as u32;
    if c == '"' {
        seq!['\\', '"']
    } else if c == '\\' {
        seq!['\\', '\\']
    } else if n == 8 {
        seq!['\\', 'b']
    } else if n == 9 {
        seq!['\\', 't']
    } else if n == 10 {
        seq!['\\', 'n']
    } else if n == 12 {
        seq!['\\', 'f']
    } else if n == 13 {
        seq!['\\', 'r']
    } else if n < 32 {
        seq!['\\', 'u', '0', '0', hex_digit(n as int / 16), hex_digit(n as int % 16)]
    } else {
        seq![c]
    }
}

/// A text with each character escaped.
pub open spec fn escaped_text(s: Seq<char>) -> Seq<char>
    decreases s.len(),
{
    if s.len() == 0 {
        seq![]
    } else {
        escaped_text(s.drop_last()) + escaped_char(s.last())
    }
}

/// The JSON string literal that encodes a text: its escaped characters
/// between double quotes.
pub open spec fn json_quoted(s: Seq<char>) -> Seq<char> {
    seq!['"'] + escaped_text(s) + seq!['"']
}

pub assume_specification[ Value::is_null ](v: &Value) -> (r: bool)
    ensures
        r == (json_model(*v) is Null),
;

pub assume_specification[ Value::as_bool ](v: &Value) -> (r: Option<bool>)
    ensures
        r == (match json_model(*v) {
            Json::Bool(b) => Some(b),
            _ => None,
        }),
;

pub assume_specification[ Value::as_u64 ](v: &Value) -> (r: Option<u64>)
    ensures
        r == (match json_model(*v) {
            Json::Int(n) => if 0 <= n <= u64::MAX {
                Some(n as u64)
            } else {
                None
            },
            _ => None,
        }),
;

pub assume_specification[ Value::as_i64 ](v: &Value) -> (r: Option<i64>)
    ensures
        r == (match json_model(*v) {
            Json::Int(n) => if i64::MIN <= n <= i64::MAX {
                Some(n as i64)
            } else {
                None
            },
            _ => None,
        }),
;

pub assume_specification<'a>[ Value::as_str ](v: &'a Value) -> (r: Option<&'a str>)
    ensures
        match json_model(*v) {
            Json::Str(s) => r matches Some(t) && t@ == s,
            _ => r is None,
        },
;

pub assume_specification<'a>[ Value::as_array ](v: &'a Value) -> (r: Option<&'a Vec<Value>>)
    ensures
        match json_model(*v) {
            Json::Array(s) => r matches Some(a) && a@.len() == s.len() && forall|i: int|
                0 <= i < s.len() ==> json_model(#[trigger] a@[i]) == s[i],
            _ => r is None,
        },
;

/// Relies on `serde_json::from_str` into a `Value`: it succeeds exactly on
/// JSON texts, and what it returns depends on the text alone.
#[verifier::external_body]
pub fn parse_value(text: &str) -> (r: Result<Value, serde_json::Error>)
    ensures
        match json_text(text@) {
            Some(j) => r matches Ok(v) && json_model(v) == j,
            None => r is Err,
        },
{
    serde_json::from_str(text)
}

/// Relies on `Display` of `serde_json::Error`: the parser's message.
#[verifier::external_body]
pub fn error_message(e: &serde_json::Error) -> (r: String) {
    e.to_string()
}

/// Relies on `serde_json::Value::get` with a string key: the member of an
/// object, and nothing for any other value.
#[verifier::external_body]
pub fn member<'a>(v: &'a Value, key: &str) -> (r: Option<&'a Value>)
    ensures
        match member_of(json_model(*v), key@) {
            Some(j) => r matches Some(x) && json_model(*x) == j,
            None => r is None,
        },
{
    v.get(key)
}

/// Relies on iterating a `serde_json::Map`: backed by a `BTreeMap`, it yields
/// each member once, keys ascending.
#[verifier::external_body]
pub fn members<'a>(v: &'a Value) -> (r: Option<Vec<(String, &'a Value)>>)
    ensures
        match json_model(*v) {
            Json::Object(ms) => r matches Some(es) && keys_ascending(ms) && es@.len() == ms.len()
                && forall|i: int|
                0 <= i < ms.len() ==> (#[trigger] es@[i]).0@ == ms[i].0 && json_model(*es@[i].1)
                    == ms[i].1,
            _ => r is None,
        },
{
    v.as_object().map(|m| m.iter().map(|(k, x)| (k.clone(), x)).collect())
}

/// Relies on `serde_json::to_string` of a `str`: the JSON string literal that
/// encodes it, with the escapes of its `ESCAPE` table. Writing into memory, it
/// cannot fail.
#[verifier::external_body]
pub fn quote(s: &str) -> (r: String)
    ensures
        r@ == json_quoted(s@),
{
    serde_json::to_string(s).unwrap()
}

} // verus!
