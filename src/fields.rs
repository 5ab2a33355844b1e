//! Reading the members of a response object, with the service's rules for
//! members that are missing: a required member must be there, and an optional
//! one that is missing reads as `null`.
use crate::errors::{DecodeError, Expected};
use crate::json::{json_model, member, member_of, Json};
use crate::serialization::{
    bool_from_int, bool_from_int_spec, bool_from_int_string, bool_from_int_string_spec,
    bool_from_optional_str, bool_from_optional_str_spec, deserialize, from_str, from_str_spec,
    option_mime_from_string, option_mime_from_string_spec, option_string_date_format,
    option_string_date_format_spec, option_string_date_spec,
    option_string_date_unix_timestamp_format, optional_list_spec, optional_vec_from_map,
    list_spec, media_view, same_link, string_date_spec, vec_from_map, try_url_from_string, try_url_from_string_spec, url_from_string,
    url_from_string_spec, MediaType, PocketUrl, Timestamp,
};
use serde_json::Value;
use vstd::prelude::*;

verus! {

/// A type that a JSON value decodes to.
pub trait FromJson: Sized {
    /// Whether `j` decodes to a value of this type.
    spec fn decodable(j: Json) -> bool;

    /// Whether `j` decodes to `r`.
    spec fn decodes_to(j: Json, r: Self) -> bool;

    fn from_json(v: &Value) -> (r: Result<Self, DecodeError>)
        ensures
            r is Ok <==> Self::decodable(json_model(*v)),
            r matches Ok(x) ==> Self::decodes_to(json_model(*v), x),
    ;
}

pub open spec fn all_decodable<T: FromJson>(s: Seq<Json>) -> bool {
    forall|i: int| 0 <= i < s.len() ==> T::decodable(#[trigger] s[i])
}

pub open spec fn all_decode_to<T: FromJson>(s: Seq<Json>, xs: Seq<T>) -> bool {
    xs.len() == s.len() && forall|i: int| 0 <= i < s.len() ==> T::decodes_to(#[trigger] s[i], xs[i])
}

/// Decodes each value of a list; the first that does not decode fails the whole.
pub fn decode_all<T: FromJson>(vs: &Vec<&Value>) -> (r: Result<Vec<T>, DecodeError>)
    ensures
        r is Ok <==> all_decodable::<T>(vs@.map_values(|v: &Value| json_model(*v))),
        r matches Ok(xs) ==> all_decode_to::<T>(vs@.map_values(|v: &Value| json_model(*v)), xs@),
{
    let ghost s = vs@.map_values(|v: &Value| json_model(*v));
    let mut out: Vec<T> = Vec::new();
    let mut i: usize = 0;
    while i < vs.len()
        invariant
            i <= vs@.len(),
            s == vs@.map_values(|v: &Value| json_model(*v)),
            out@.len() == i,
            forall|k: int| 0 <= k < i ==> T::decodes_to(#[trigger] s[k], out@[k]),
            forall|k: int| 0 <= k < i ==> T::decodable(#[trigger] s[k]),
        decreases vs.len() - i,
    {
        match T::from_json(vs[i]) {
            Ok(x) => out.push(x),
            Err(e) => {
                assert(!T::decodable(s[i as int]));
                return Err(e);
            },
        }
        i = i + 1;
    }
    Ok(out)
}

/// The member under `key`, with a missing one read as `null`.
pub open spec fn at(j: Json, key: Seq<char>) -> Json {
    match member_of(j, key) {
        Some(x) => x,
        None => Json::Null,
    }
}

pub open spec fn has(j: Json, key: Seq<char>) -> bool {
    member_of(j, key) is Some
}

/// A required member decoded with `d`.
pub open spec fn required<A>(j: Json, key: Seq<char>, d: Result<A, Expected>) -> Result<A, Expected> {
    if has(j, key) {
        d
    } else {
        Err(Expected::Present)
    }
}

/// Whether a decoding result agrees with the spec's.
pub open spec fn agrees<A>(r: Result<A, DecodeError>, s: Result<A, Expected>) -> bool {
    match s {
        Ok(x) => r matches Ok(y) && y == x,
        Err(_) => r is Err,
    }
}

pub(crate) fn field_error(key: &str, e: Expected) -> (r: DecodeError)
    ensures
        r matches DecodeError::Field(k, x) && k@ == key@ && x == e,
{
    DecodeError::Field(String::from_str(key), e)
}

pub(crate) fn required_member<'a>(obj: &'a Value, key: &str) -> (r: Result<&'a Value, DecodeError>)
    ensures
        match member_of(json_model(*obj), key@) {
            Some(x) => r matches Ok(v) && json_model(*v) == x,
            None => r is Err,
        },
{
    match member(obj, key) {
        Some(v) => Ok(v),
        None => Err(field_error(key, Expected::Present)),
    }
}

pub open spec fn numeral_field_spec(j: Json, key: Seq<char>, max: int) -> Result<u64, Expected> {
    required(j, key, from_str_spec(at(j, key), max))
}

/// A required numeral sent as a string, at most `max`.
pub fn numeral_field(obj: &Value, key: &str, max: u64) -> (r: Result<u64, DecodeError>)
    ensures
        agrees(r, numeral_field_spec(json_model(*obj), key@, max as int)),
        r matches Ok(n) ==> n <= max,
{
    let v = required_member(obj, key)?;
    match from_str(v, max) {
        Ok(n) => Ok(n),
        Err(e) => Err(field_error(key, e)),
    }
}

pub open spec fn integer_spec(j: Json, max: int) -> Result<u64, Expected> {
    match j {
        Json::Int(n) => if 0 <= n <= max {
            Ok(n as u64)
        } else {
            Err(Expected::Integer)
        },
        _ => Err(Expected::Integer),
    }
}

pub open spec fn integer_field_spec(j: Json, key: Seq<char>, max: int) -> Result<u64, Expected> {
    required(j, key, integer_spec(at(j, key), max))
}

/// A required JSON integer between zero and `max`.
pub fn integer_field(obj: &Value, key: &str, max: u64) -> (r: Result<u64, DecodeError>)
    ensures
        agrees(r, integer_field_spec(json_model(*obj), key@, max as int)),
        r matches Ok(n) ==> n <= max,
{
    let v = required_member(obj, key)?;
    match v.as_u64() {
        Some(n) => if n <= max {
            Ok(n)
        } else {
            Err(field_error(key, Expected::Integer))
        },
        None => Err(field_error(key, Expected::Integer)),
    }
}

pub open spec fn optional_integer_field_spec(j: Json, key: Seq<char>) -> Result<Option<u64>, Expected> {
    if at(j, key) is Null {
        Ok(None)
    } else {
        match integer_spec(at(j, key), u64::MAX as int) {
            Ok(n) => Ok(Some(n)),
            Err(e) => Err(e),
        }
    }
}

/// An optional JSON integer: missing and `null` are absent.
pub fn optional_integer_field(obj: &Value, key: &str) -> (r: Result<Option<u64>, DecodeError>)
    ensures
        agrees(r, optional_integer_field_spec(json_model(*obj), key@)),
{
    match member(obj, key) {
        None => Ok(None),
        Some(v) => if v.is_null() {
            Ok(None)
        } else {
            match v.as_u64() {
                Some(n) => Ok(Some(n)),
                None => Err(field_error(key, Expected::Integer)),
            }
        },
    }
}

pub open spec fn text_spec(j: Json) -> Result<Seq<char>, Expected> {
    match j {
        Json::Str(s) => Ok(s),
        _ => Err(Expected::Text),
    }
}

pub open spec fn text_field_spec(j: Json, key: Seq<char>) -> Result<Seq<char>, Expected> {
    required(j, key, text_spec(at(j, key)))
}

/// A required JSON string.
pub fn text_field(obj: &Value, key: &str) -> (r: Result<String, DecodeError>)
    ensures
        match text_field_spec(json_model(*obj), key@) {
            Ok(s) => r matches Ok(t) && t@ == s,
            Err(_) => r is Err,
        },
{
    let v = required_member(obj, key)?;
    match v.as_str() {
        Some(s) => Ok(String::from_str(s)),
        None => Err(field_error(key, Expected::Text)),
    }
}

pub open spec fn optional_text_field_spec(j: Json, key: Seq<char>) -> Result<Option<Seq<char>>, Expected> {
    match at(j, key) {
        Json::Null => Ok(None),
        Json::Str(s) => Ok(Some(s)),
        _ => Err(Expected::Text),
    }
}

pub open spec fn text_view(o: Option<String>) -> Option<Seq<char>> {
    match o {
        Some(s) => Some(s@),
        None => None,
    }
}

/// An optional JSON string: missing and `null` are absent.
pub fn optional_text_field(obj: &Value, key: &str) -> (r: Result<Option<String>, DecodeError>)
    ensures
        match optional_text_field_spec(json_model(*obj), key@) {
            Ok(o) => r matches Ok(t) && text_view(t) == o,
            Err(_) => r is Err,
        },
{
    match member(obj, key) {
        None => Ok(None),
        Some(v) => if v.is_null() {
            Ok(None)
        } else {
            match v.as_str() {
                Some(s) => Ok(Some(String::from_str(s))),
                None => Err(field_error(key, Expected::Text)),
            }
        },
    }
}

pub open spec fn flag_field_spec(j: Json, key: Seq<char>) -> Result<bool, Expected> {
    required(j, key, bool_from_int_string_spec(at(j, key)))
}

/// A required flag sent as `"0"` or `"1"`.
pub fn flag_field(obj: &Value, key: &str) -> (r: Result<bool, DecodeError>)
    ensures
        agrees(r, flag_field_spec(json_model(*obj), key@)),
{
    let v = required_member(obj, key)?;
    match bool_from_int_string(v) {
        Ok(b) => Ok(b),
        Err(e) => Err(field_error(key, e)),
    }
}

pub open spec fn int_flag_field_spec(j: Json, key: Seq<char>) -> Result<bool, Expected> {
    required(j, key, bool_from_int_spec(at(j, key)))
}

/// A required flag sent as the number `0` or `1`.
pub fn int_flag_field(obj: &Value, key: &str) -> (r: Result<bool, DecodeError>)
    ensures
        agrees(r, int_flag_field_spec(json_model(*obj), key@)),
{
    let v = required_member(obj, key)?;
    match bool_from_int(v) {
        Ok(b) => Ok(b),
        Err(e) => Err(field_error(key, e)),
    }
}

pub open spec fn optional_flag_field_spec(j: Json, key: Seq<char>) -> Result<bool, Expected> {
    bool_from_optional_str_spec(at(j, key))
}

/// A flag sent as `"0"` or `"1"`, false when missing or `null`.
pub fn optional_flag_field(obj: &Value, key: &str) -> (r: Result<bool, DecodeError>)
    ensures
        agrees(r, optional_flag_field_spec(json_model(*obj), key@)),
{
    match member(obj, key) {
        None => Ok(false),
        Some(v) => match bool_from_optional_str(v) {
            Ok(b) => Ok(b),
            Err(e) => Err(field_error(key, e)),
        },
    }
}

pub open spec fn link_field_spec(j: Json, key: Seq<char>, needed: bool) -> Result<Option<Seq<char>>, Expected> {
    if needed {
        required(j, key, try_url_from_string_spec(at(j, key)))
    } else {
        try_url_from_string_spec(at(j, key))
    }
}

/// An optional link, where a text that is not a URL is absent. When `needed`,
/// the member must be there (possibly `null`); otherwise a missing one is absent.
pub fn link_field(obj: &Value, key: &str, needed: bool) -> (r: Result<Option<PocketUrl>, DecodeError>)
    ensures
        match link_field_spec(json_model(*obj), key@, needed) {
            Ok(t) => r matches Ok(x) && same_link(x, t),
            Err(_) => r is Err,
        },
{
    match member(obj, key) {
        None => if needed {
            Err(field_error(key, Expected::Present))
        } else {
            Ok(None)
        },
        Some(v) => match try_url_from_string(v) {
            Ok(u) => Ok(u),
            Err(e) => Err(field_error(key, e)),
        },
    }
}

pub open spec fn url_field_spec(j: Json, key: Seq<char>) -> Result<Seq<char>, Expected> {
    required(j, key, url_from_string_spec(at(j, key)))
}

/// A required link that must be a URL.
pub fn url_field(obj: &Value, key: &str) -> (r: Result<PocketUrl, DecodeError>)
    ensures
        match url_field_spec(json_model(*obj), key@) {
            Ok(t) => r matches Ok(u) && u@ == t,
            Err(_) => r is Err,
        },
{
    let v = required_member(obj, key)?;
    match url_from_string(v) {
        Ok(u) => Ok(u),
        Err(e) => Err(field_error(key, e)),
    }
}

pub open spec fn media_field_spec(j: Json, key: Seq<char>) -> Result<Option<Seq<char>>, Expected> {
    required(j, key, option_mime_from_string_spec(at(j, key)))
}

/// A required member holding an optional media type.
pub fn media_field(obj: &Value, key: &str) -> (r: Result<Option<MediaType>, DecodeError>)
    ensures
        match media_field_spec(json_model(*obj), key@) {
            Ok(t) => r matches Ok(m) && media_view(m) == t,
            Err(_) => r is Err,
        },
{
    let v = required_member(obj, key)?;
    match option_mime_from_string(v) {
        Ok(m) => Ok(m),
        Err(e) => Err(field_error(key, e)),
    }
}

pub open spec fn time_field_spec(j: Json, key: Seq<char>) -> Result<Timestamp, Expected> {
    required(j, key, string_date_spec(at(j, key)))
}

/// A required time sent as a numeral string of seconds.
pub fn time_field(obj: &Value, key: &str) -> (r: Result<Timestamp, DecodeError>)
    ensures
        agrees(r, time_field_spec(json_model(*obj), key@)),
{
    let v = required_member(obj, key)?;
    match deserialize(v) {
        Ok(t) => Ok(t),
        Err(e) => Err(field_error(key, e)),
    }
}

pub open spec fn optional_time_field_spec(j: Json, key: Seq<char>) -> Result<Option<Timestamp>, Expected> {
    required(j, key, option_string_date_spec(at(j, key)))
}

/// A required member holding an optional time: `null` and `"0"` are absent.
pub fn optional_time_field(obj: &Value, key: &str) -> (r: Result<Option<Timestamp>, DecodeError>)
    ensures
        agrees(r, optional_time_field_spec(json_model(*obj), key@)),
{
    let v = required_member(obj, key)?;
    match option_string_date_unix_timestamp_format(v) {
        Ok(t) => Ok(t),
        Err(e) => Err(field_error(key, e)),
    }
}

pub open spec fn date_field_spec(j: Json, key: Seq<char>) -> Result<Option<Timestamp>, Expected> {
    required(j, key, option_string_date_format_spec(at(j, key)))
}

/// A required date written `YYYY-MM-DD HH:MM:SS`, or the no-date sentinel.
pub fn date_field(obj: &Value, key: &str) -> (r: Result<Option<Timestamp>, DecodeError>)
    ensures
        agrees(r, date_field_spec(json_model(*obj), key@)),
{
    let v = required_member(obj, key)?;
    match option_string_date_format(v) {
        Ok(t) => Ok(t),
        Err(e) => Err(field_error(key, e)),
    }
}

pub open spec fn list_field_spec(j: Json, key: Seq<char>) -> Result<Option<Seq<Json>>, Expected> {
    optional_list_spec(at(j, key))
}

/// Whether an optional list decodes, element by element.
pub open spec fn list_decodable<T: FromJson>(j: Json, key: Seq<char>) -> bool {
    match list_field_spec(j, key) {
        Ok(Some(s)) => all_decodable::<T>(s),
        Ok(None) => true,
        Err(_) => false,
    }
}

/// Whether an optional list decodes to `r`.
pub open spec fn list_decodes_to<T: FromJson>(j: Json, key: Seq<char>, r: Option<Vec<T>>) -> bool {
    match list_field_spec(j, key) {
        Ok(Some(s)) => r matches Some(xs) && all_decode_to::<T>(s, xs@),
        Ok(None) => r is None,
        Err(_) => false,
    }
}

/// An optional list of records, sent as an array or as an index-keyed object.
pub fn list_field<T: FromJson>(obj: &Value, key: &str) -> (r: Result<Option<Vec<T>>, DecodeError>)
    ensures
        r is Ok <==> list_decodable::<T>(json_model(*obj), key@),
        r matches Ok(x) ==> list_decodes_to::<T>(json_model(*obj), key@, x),
{
    let v = match member(obj, key) {
        None => {
            return Ok(None);
        },
        Some(v) => v,
    };
    match optional_vec_from_map(v) {
        Ok(None) => Ok(None),
        Ok(Some(vs)) => {
            assert(vs@.map_values(|v: &Value| json_model(*v)) =~= list_field_spec(
                json_model(*obj),
                key@,
            )->Ok_0->Some_0);
            match decode_all::<T>(&vs) {
                Ok(xs) => Ok(Some(xs)),
                Err(e) => Err(e),
            }
        },
        Err(e) => Err(field_error(key, e)),
    }
}

/// Whether an optional record decodes.
pub open spec fn record_decodable<T: FromJson>(j: Json, key: Seq<char>) -> bool {
    at(j, key) is Null || T::decodable(at(j, key))
}

/// Whether an optional record decodes to `r`.
pub open spec fn record_decodes_to<T: FromJson>(j: Json, key: Seq<char>, r: Option<T>) -> bool {
    if at(j, key) is Null {
        r is None
    } else {
        r matches Some(x) && T::decodes_to(at(j, key), x)
    }
}

/// An optional nested record: missing and `null` are absent.
pub fn record_field<T: FromJson>(obj: &Value, key: &str) -> (r: Result<Option<T>, DecodeError>)
    ensures
        r is Ok <==> record_decodable::<T>(json_model(*obj), key@),
        r matches Ok(x) ==> record_decodes_to::<T>(json_model(*obj), key@, x),
{
    match member(obj, key) {
        None => Ok(None),
        Some(v) => if v.is_null() {
            Ok(None)
        } else {
            match T::from_json(v) {
                Ok(x) => Ok(Some(x)),
                Err(e) => Err(e),
            }
        },
    }
}

/// Whether a required list decodes, element by element.
pub open spec fn required_list_decodable<T: FromJson>(j: Json, key: Seq<char>) -> bool {
    has(j, key) && match list_spec(at(j, key)) {
        Ok(s) => all_decodable::<T>(s),
        Err(_) => false,
    }
}

/// Whether a required list decodes to `r`.
pub open spec fn required_list_decodes_to<T: FromJson>(j: Json, key: Seq<char>, r: Vec<T>) -> bool {
    has(j, key) && match list_spec(at(j, key)) {
        Ok(s) => all_decode_to::<T>(s, r@),
        Err(_) => false,
    }
}

/// A required list of records, sent as an array or as an index-keyed object.
pub fn required_list_field<T: FromJson>(obj: &Value, key: &str) -> (r: Result<Vec<T>, DecodeError>)
    ensures
        r is Ok <==> required_list_decodable::<T>(json_model(*obj), key@),
        r matches Ok(x) ==> required_list_decodes_to::<T>(json_model(*obj), key@, x),
{
    let v = required_member(obj, key)?;
    match vec_from_map(v) {
        Ok(vs) => {
            assert(vs@.map_values(|v: &Value| json_model(*v)) =~= list_spec(
                at(json_model(*obj), key@),
            )->Ok_0);
            decode_all::<T>(&vs)
        },
        Err(e) => Err(field_error(key, e)),
    }
}

/// A required nested record.
pub fn required_record_field<T: FromJson>(obj: &Value, key: &str) -> (r: Result<T, DecodeError>)
    ensures
        r is Ok <==> has(json_model(*obj), key@) && T::decodable(at(json_model(*obj), key@)),
        r matches Ok(x) ==> T::decodes_to(at(json_model(*obj), key@), x),
{
    let v = required_member(obj, key)?;
    T::from_json(v)
}

/// Whether a required JSON array decodes, element by element.
pub open spec fn array_decodable<T: FromJson>(j: Json, key: Seq<char>) -> bool {
    at(j, key) matches Json::Array(s) && all_decodable::<T>(s)
}

/// Whether a required JSON array decodes to `r`.
pub open spec fn array_decodes_to<T: FromJson>(j: Json, key: Seq<char>, r: Vec<T>) -> bool {
    at(j, key) matches Json::Array(s) && all_decode_to::<T>(s, r@)
}

/// A required member that must be a JSON array of records.
pub fn array_field<T: FromJson>(obj: &Value, key: &str) -> (r: Result<Vec<T>, DecodeError>)
    ensures
        r is Ok <==> array_decodable::<T>(json_model(*obj), key@),
        r matches Ok(x) ==> array_decodes_to::<T>(json_model(*obj), key@, x),
{
    let v = required_member(obj, key)?;
    let a = match v.as_array() {
        Some(a) => a,
        None => {
            return Err(field_error(key, Expected::ListOrMap));
        },
    };
    let mut vs: Vec<&Value> = Vec::new();
    let mut i: usize = 0;
    while i < a.len()
        invariant
            i <= a@.len(),
            vs@.len() == i,
            forall|k: int| 0 <= k < i ==> #[trigger] vs@[k] == &a@[k],
        decreases a.len() - i,
    {
        vs.push(&a[i]);
        i = i + 1;
    }
    assert(vs@.map_values(|v: &Value| json_model(*v)) =~= at(json_model(*obj), key@)->Array_0);
    decode_all::<T>(&vs)
}

impl<T: FromJson> FromJson for Option<T> {
    open spec fn decodable(j: Json) -> bool {
        j is Null || T::decodable(j)
    }

    open spec fn decodes_to(j: Json, r: Self) -> bool {
        if j is Null {
            r is None
        } else {
            r matches Some(x) && T::decodes_to(j, x)
        }
    }

    fn from_json(v: &Value) -> (r: Result<Self, DecodeError>) {
        if v.is_null() {
            Ok(None)
        } else {
            match T::from_json(v) {
                Ok(x) => Ok(Some(x)),
                Err(e) => Err(e),
            }
        }
    }
}

} // verus!
