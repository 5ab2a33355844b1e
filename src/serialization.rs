//! The coercions between the service's loosely typed wire values and the
//! library's typed values: numerals in strings, `"0"`/`"1"` flags, sentinel
//! dates, optional links and media types, and lists sent as arrays or maps.
use crate::errors::Expected;
use crate::json::{json_model, keys_ascending, members, Json};
use crate::wire::pairs_view;
use crate::text::{
    bounded_numeral, decimal, i64_numeral, i64_to_decimal, join_texts, joined, parse_bounded,
    parse_i64, same_text, signed_decimal, u64_to_decimal,
};
use serde_json::Value;
use vstd::prelude::*;

verus! {

/// The layout of the service's human-readable dates.
pub const FORMAT: &'static str = "%Y-%m-%d %H:%M:%S";

/// The date the service sends for "no date".
pub const NO_DATE: &'static str = "0000-00-00 00:00:00";

/// The tag filter value that selects items without tags.
pub const UNTAGGED: &'static str = "_untagged_";

/// A point in time, in whole seconds since the Unix epoch (UTC).
#[derive(Debug, Clone, Copy, PartialEq, Eq, Structural)]
pub struct Timestamp {
    pub seconds: i64,
}

/// A URL in the normal form that the `url` crate gives it.
#[derive(Debug, Clone, PartialEq, Eq)]
pub struct PocketUrl {
    text: String,
}

/// The normal form of a URL text, if the text is a URL.
pub uninterp spec fn url_normal_form(s: Seq<char>) -> Option<Seq<char>>;

/// The seconds since the epoch of a date text read with a strftime-style
/// layout, taken as UTC, if the text matches the layout.
pub uninterp spec fn date_seconds(s: Seq<char>, layout: Seq<char>) -> Option<int>;

/// The text of the media type that a text parses as, in the `mime` crate's
/// normal form, if the text is a media type.
pub uninterp spec fn media_type_text(s: Seq<char>) -> Option<Seq<char>>;

/// A media type such as `text/html`, as the `mime` crate writes it.
#[derive(Debug, Clone, PartialEq, Eq)]
pub struct MediaType {
    text: String,
}

/// Relies on `url::Url::parse` and the URL's serialization.
#[verifier::external_body]
fn normalize_url(s: &str) -> (r: Option<String>)
    ensures
        match url_normal_form(s@) {
            Some(t) => r matches Some(x) && x@ == t,
            None => r is None,
        },
{
    url::Url::parse(s).ok().map(String::from)
}

/// The normal form of a URL text with query parameters appended, form-encoded,
/// if the text is a URL.
pub uninterp spec fn url_with_query_text(base: Seq<char>, pairs: Seq<(Seq<char>, Seq<char>)>) -> Option<Seq<char>>;

/// Relies on `url::Url::parse_with_params`: it parses the base, then appends
/// each pair to the query, in order.
#[verifier::external_body]
fn url_with_query(base: &str, pairs: &Vec<(String, String)>) -> (r: Option<String>)
    ensures
        match url_with_query_text(base@, pairs_view(pairs@)) {
            Some(t) => r matches Some(x) && x@ == t,
            None => r is None,
        },
{
    url::Url::parse_with_params(base, pairs.iter()).ok().map(String::from)
}

/// Relies on `chrono::NaiveDateTime::parse_from_str`, read as UTC.
#[verifier::external_body]
fn parse_date(s: &str, layout: &str) -> (r: Option<i64>)
    ensures
        match r {
            Some(x) => date_seconds(s@, layout@) == Some(x as int),
            None => date_seconds(s@, layout@) is None,
        },
{
    chrono::NaiveDateTime::parse_from_str(s, layout).ok().map(|d| d.and_utc().timestamp())
}

/// Relies on `FromStr` of `mime::Mime`, and its `Display`, which writes the
/// parsed type's text.
#[verifier::external_body]
fn parse_media_type(s: &str) -> (r: Option<String>)
    ensures
        match media_type_text(s@) {
            Some(t) => r matches Some(x) && x@ == t,
            None => r is None,
        },
{
    s.parse::<mime::Mime>().ok().map(|m| m.to_string())
}

impl View for MediaType {
    type V = Seq<char>;

    closed spec fn view(&self) -> Seq<char> {
        self.text@
    }
}

impl MediaType {
    /// Parses a media type; `None` when the text is not one.
    pub fn parse(s: &str) -> (r: Option<MediaType>)
        ensures
            match media_type_text(s@) {
                Some(t) => r matches Some(m) && m@ == t,
                None => r is None,
            },
    {
        match parse_media_type(s) {
            Some(text) => Some(MediaType { text }),
            None => None,
        }
    }

    /// The media type's text in normal form.
    pub fn as_str(&self) -> (r: &str)
        ensures
            r@ == self@,
    {
        self.text.as_str()
    }
}

/// The text of an optional media type.
pub open spec fn media_view(m: Option<MediaType>) -> Option<Seq<char>> {
    match m {
        Some(x) => Some(x@),
        None => None,
    }
}

impl View for PocketUrl {
    type V = Seq<char>;

    closed spec fn view(&self) -> Seq<char> {
        self.text@
    }
}

impl PocketUrl {
    /// Parses a URL; `None` when the text is not one.
    pub fn parse(s: &str) -> (r: Option<PocketUrl>)
        ensures
            match url_normal_form(s@) {
                Some(t) => r matches Some(u) && u@ == t,
                None => r is None,
            },
    {
        match normalize_url(s) {
            Some(text) => Some(PocketUrl { text }),
            None => None,
        }
    }

    /// The URL `base` with the given query parameters.
    pub fn with_query(base: &str, pairs: &Vec<(String, String)>) -> (r: Option<PocketUrl>)
        ensures
            match url_with_query_text(base@, pairs_view(pairs@)) {
                Some(t) => r matches Some(u) && u@ == t,
                None => r is None,
            },
    {
        match url_with_query(base, pairs) {
            Some(text) => Some(PocketUrl { text }),
            None => None,
        }
    }

    /// A copy of this URL.
    pub fn clone_url(&self) -> (r: PocketUrl)
        ensures
            r@ == self@,
    {
        PocketUrl { text: self.text.clone() }
    }

    /// The URL's text in normal form.
    pub fn as_str(&self) -> (r: &str)
        ensures
            r@ == self@,
    {
        self.text.as_str()
    }
}

// ---- Decoding ----

/// A text that is exactly `lit`.
pub open spec fn is_text(j: Json, lit: Seq<char>) -> bool {
    j == Json::Str(lit)
}

pub open spec fn from_str_spec(j: Json, max: int) -> Result<u64, Expected> {
    match j {
        Json::Str(s) => match bounded_numeral(s, max) {
            Some(n) => Ok(n as u64),
            None => Err(Expected::Numeral),
        },
        _ => Err(Expected::Text),
    }
}

/// Decodes a numeral sent as a JSON string, of value at most `max`.
pub fn from_str(v: &Value, max: u64) -> (r: Result<u64, Expected>)
    ensures
        r == from_str_spec(json_model(*v), max as int),
        r matches Ok(n) ==> n <= max,
{
    match v.as_str() {
        Some(s) => match parse_bounded(s, max) {
            Some(n) => Ok(n),
            None => Err(Expected::Numeral),
        },
        None => Err(Expected::Text),
    }
}

pub open spec fn option_from_str_spec(j: Json, max: int) -> Option<u64> {
    match from_str_spec(j, max) {
        Ok(n) => Some(n),
        Err(_) => None,
    }
}

/// Decodes a numeral sent as a JSON string, with any other value taken as absent.
pub fn option_from_str(v: &Value, max: u64) -> (r: Option<u64>)
    ensures
        r == option_from_str_spec(json_model(*v), max as int),
{
    match from_str(v, max) {
        Ok(n) => Some(n),
        Err(_) => None,
    }
}

pub open spec fn bool_from_int_spec(j: Json) -> Result<bool, Expected> {
    if j == Json::Int(0) {
        Ok(false)
    } else if j == Json::Int(1) {
        Ok(true)
    } else {
        Err(Expected::ZeroOrOne)
    }
}

/// Decodes a flag sent as the JSON number `0` or `1`.
pub fn bool_from_int(v: &Value) -> (r: Result<bool, Expected>)
    ensures
        r == bool_from_int_spec(json_model(*v)),
{
    match v.as_u64() {
        Some(0) => Ok(false),
        Some(1) => Ok(true),
        _ => Err(Expected::ZeroOrOne),
    }
}

pub open spec fn bool_from_int_string_spec(j: Json) -> Result<bool, Expected> {
    match j {
        Json::Str(s) => if s == "0"@ {
            Ok(false)
        } else if s == "1"@ {
            Ok(true)
        } else {
            Err(Expected::ZeroOrOne)
        },
        _ => Err(Expected::Text),
    }
}

/// Decodes a flag sent as the JSON string `"0"` or `"1"`.
pub fn bool_from_int_string(v: &Value) -> (r: Result<bool, Expected>)
    ensures
        r == bool_from_int_string_spec(json_model(*v)),
{
    match v.as_str() {
        Some(s) => if same_text(s, "0") {
            Ok(false)
        } else if same_text(s, "1") {
            Ok(true)
        } else {
            Err(Expected::ZeroOrOne)
        },
        None => Err(Expected::Text),
    }
}

pub open spec fn bool_from_optional_str_spec(j: Json) -> Result<bool, Expected> {
    if j is Null {
        Ok(false)
    } else {
        bool_from_int_string_spec(j)
    }
}

/// Decodes a flag sent as `"0"` or `"1"`, where `null` means unset.
pub fn bool_from_optional_str(v: &Value) -> (r: Result<bool, Expected>)
    ensures
        r == bool_from_optional_str_spec(json_model(*v)),
{
    if v.is_null() {
        Ok(false)
    } else {
        bool_from_int_string(v)
    }
}

pub open spec fn try_url_from_string_spec(j: Json) -> Result<Option<Seq<char>>, Expected> {
    match j {
        Json::Null => Ok(None),
        Json::Str(s) => Ok(url_normal_form(s)),
        _ => Err(Expected::Text),
    }
}

/// Whether a decoded optional link is the one the spec gives.
pub open spec fn same_link(r: Option<PocketUrl>, t: Option<Seq<char>>) -> bool {
    match t {
        Some(x) => r matches Some(u) && u@ == x,
        None => r is None,
    }
}

/// Decodes an optional link: `null`, and any text that is not a URL, are absent.
pub fn try_url_from_string(v: &Value) -> (r: Result<Option<PocketUrl>, Expected>)
    ensures
        match try_url_from_string_spec(json_model(*v)) {
            Ok(t) => r matches Ok(x) && same_link(x, t),
            Err(e) => r == Err::<Option<PocketUrl>, Expected>(e),
        },
{
    if v.is_null() {
        return Ok(None);
    }
    match v.as_str() {
        Some(s) => Ok(PocketUrl::parse(s)),
        None => Err(Expected::Text),
    }
}

pub open spec fn url_from_string_spec(j: Json) -> Result<Seq<char>, Expected> {
    match j {
        Json::Str(s) => match url_normal_form(s) {
            Some(t) => Ok(t),
            None => Err(Expected::Text),
        },
        _ => Err(Expected::Text),
    }
}

/// Decodes a link that must be present and valid.
pub fn url_from_string(v: &Value) -> (r: Result<PocketUrl, Expected>)
    ensures
        match url_from_string_spec(json_model(*v)) {
            Ok(t) => r matches Ok(u) && u@ == t,
            Err(e) => r == Err::<PocketUrl, Expected>(e),
        },
{
    match v.as_str() {
        Some(s) => match PocketUrl::parse(s) {
            Some(u) => Ok(u),
            None => Err(Expected::Text),
        },
        None => Err(Expected::Text),
    }
}

pub open spec fn option_mime_from_string_spec(j: Json) -> Result<Option<Seq<char>>, Expected> {
    match j {
        Json::Null => Ok(None),
        Json::Str(s) => if s.len() == 0 {
            Ok(None)
        } else {
            match media_type_text(s) {
                Some(t) => Ok(Some(t)),
                None => Err(Expected::MediaType),
            }
        },
        _ => Err(Expected::Text),
    }
}

/// Decodes an optional media type: `null` and the empty text are absent, and
/// any other text must be a valid media type, which is the one returned.
pub fn option_mime_from_string(v: &Value) -> (r: Result<Option<MediaType>, Expected>)
    ensures
        match option_mime_from_string_spec(json_model(*v)) {
            Ok(t) => r matches Ok(m) && media_view(m) == t,
            Err(e) => r matches Err(x) && x == e,
        },
{
    if v.is_null() {
        return Ok(None);
    }
    match v.as_str() {
        Some(s) => if s.unicode_len() == 0 {
            Ok(None)
        } else {
            match MediaType::parse(s) {
                Some(m) => Ok(Some(m)),
                None => Err(Expected::MediaType),
            }
        },
        None => Err(Expected::Text),
    }
}

pub open spec fn int_date_spec(j: Json) -> Result<Timestamp, Expected> {
    match j {
        Json::Int(n) => if i64::MIN <= n <= i64::MAX {
            Ok(Timestamp { seconds: n as i64 })
        } else {
            Err(Expected::Integer)
        },
        _ => Err(Expected::Integer),
    }
}

/// Decodes a time sent as a JSON integer of seconds since the epoch.
pub fn int_date_unix_timestamp_format(v: &Value) -> (r: Result<Timestamp, Expected>)
    ensures
        r == int_date_spec(json_model(*v)),
{
    match v.as_i64() {
        Some(n) => Ok(Timestamp { seconds: n }),
        None => Err(Expected::Integer),
    }
}

pub open spec fn string_date_spec(j: Json) -> Result<Timestamp, Expected> {
    match j {
        Json::Str(s) => match i64_numeral(s) {
            Some(n) => Ok(Timestamp { seconds: n as i64 }),
            None => Err(Expected::Numeral),
        },
        _ => Err(Expected::Text),
    }
}

/// Decodes a time sent as a numeral of seconds since the epoch in a JSON string.
pub fn deserialize(v: &Value) -> (r: Result<Timestamp, Expected>)
    ensures
        r == string_date_spec(json_model(*v)),
{
    match v.as_str() {
        Some(s) => match parse_i64(s) {
            Some(n) => Ok(Timestamp { seconds: n }),
            None => Err(Expected::Numeral),
        },
        None => Err(Expected::Text),
    }
}

pub open spec fn option_string_date_spec(j: Json) -> Result<Option<Timestamp>, Expected> {
    if j is Null || is_text(j, "0"@) {
        Ok(None)
    } else {
        match string_date_spec(j) {
            Ok(t) => Ok(Some(t)),
            Err(e) => Err(e),
        }
    }
}

/// Decodes an optional time sent as a numeral string, where `null` and `"0"` are absent.
pub fn option_string_date_unix_timestamp_format(v: &Value) -> (r: Result<Option<Timestamp>, Expected>)
    ensures
        r == option_string_date_spec(json_model(*v)),
{
    if v.is_null() {
        return Ok(None);
    }
    match v.as_str() {
        Some(s) => if same_text(s, "0") {
            Ok(None)
        } else {
            match deserialize(v) {
                Ok(t) => Ok(Some(t)),
                Err(e) => Err(e),
            }
        },
        None => Err(Expected::Text),
    }
}

pub open spec fn option_string_date_format_spec(j: Json) -> Result<Option<Timestamp>, Expected> {
    match j {
        Json::Str(s) => if s == NO_DATE@ {
            Ok(None)
        } else {
            match date_seconds(s, FORMAT@) {
                Some(n) => if i64::MIN <= n <= i64::MAX {
                    Ok(Some(Timestamp { seconds: n as i64 }))
                } else {
                    Err(Expected::Date)
                },
                None => Err(Expected::Date),
            }
        },
        _ => Err(Expected::Text),
    }
}

/// Decodes a date written `YYYY-MM-DD HH:MM:SS` (UTC), where
/// `0000-00-00 00:00:00` means no date.
pub fn option_string_date_format(v: &Value) -> (r: Result<Option<Timestamp>, Expected>)
    ensures
        r == option_string_date_format_spec(json_model(*v)),
{
    match v.as_str() {
        Some(s) => if same_text(s, NO_DATE) {
            Ok(None)
        } else {
            match parse_date(s, FORMAT) {
                Some(n) => Ok(Some(Timestamp { seconds: n })),
                None => Err(Expected::Date),
            }
        },
        None => Err(Expected::Text),
    }
}

pub open spec fn true_to_unit_variant_spec(j: Json) -> Result<(), Expected> {
    if j == Json::Bool(true) {
        Ok(())
    } else {
        Err(Expected::True)
    }
}

/// Accepts exactly the JSON literal `true`.
pub fn true_to_unit_variant(v: &Value) -> (r: Result<(), Expected>)
    ensures
        r == true_to_unit_variant_spec(json_model(*v)),
{
    match v.as_bool() {
        Some(true) => Ok(()),
        _ => Err(Expected::True),
    }
}

pub open spec fn false_to_unit_variant_spec(j: Json) -> Result<(), Expected> {
    if j == Json::Bool(false) {
        Ok(())
    } else {
        Err(Expected::False)
    }
}

/// Accepts exactly the JSON literal `false`.
pub fn false_to_unit_variant(v: &Value) -> (r: Result<(), Expected>)
    ensures
        r == false_to_unit_variant_spec(json_model(*v)),
{
    match v.as_bool() {
        Some(false) => Ok(()),
        _ => Err(Expected::False),
    }
}

/// The values of a list that the service sends as an array, or as an object
/// whose keys only index its members.
pub open spec fn list_spec(j: Json) -> Result<Seq<Json>, Expected> {
    match j {
        Json::Array(s) => Ok(s),
        Json::Object(ms) => Ok(ms.map_values(|m: (Seq<char>, Json)| m.1)),
        _ => Err(Expected::ListOrMap),
    }
}

/// The values of a map, in the order of their keys.
pub fn map_to_vec<T>(map: Vec<(String, T)>) -> (r: Vec<T>)
    requires
        keys_ascending(map@.map_values(|e: (String, T)| (e.0@, e.1))),
    ensures
        r@ == map@.map_values(|e: (String, T)| e.1),
{
    let ghost all = map@;
    let n = map.len();
    let mut source = map;
    let mut rest: Vec<(String, T)> = Vec::new();
    while source.len() > 0
        invariant
            n == all.len(),
            source@ == all.subrange(0, source@.len() as int),
            rest@.len() == n - source@.len(),
            forall|k: int| 0 <= k < rest@.len() ==> #[trigger] rest@[k] == all[n - 1 - k],
        decreases source.len(),
    {
        let e = source.pop().unwrap();
        rest.push(e);
        assert(source@ =~= all.subrange(0, source@.len() as int));
    }
    let mut out: Vec<T> = Vec::new();
    let mut i: usize = 0;
    while i < n
        invariant
            n == all.len(),
            i <= n,
            rest@.len() == n - i,
            forall|k: int| 0 <= k < n - i ==> #[trigger] rest@[k] == all[n - 1 - k],
            out@ == all.subrange(0, i as int).map_values(|e: (String, T)| e.1),
        decreases n - i,
    {
        let e = rest.pop().unwrap();
        out.push(e.1);
        proof {
            assert(all.subrange(0, i + 1).map_values(|e: (String, T)| e.1) =~= all.subrange(
                0,
                i as int,
            ).map_values(|e: (String, T)| e.1).push(all[i as int].1));
        }
        i = i + 1;
    }
    assert(all.subrange(0, n as int) =~= all);
    out
}

/// Decodes a list sent as a JSON array, or as an object whose members are
/// taken in the order of their keys.
pub fn json_value_to_vec<'a>(v: &'a Value) -> (r: Result<Vec<&'a Value>, Expected>)
    ensures
        json_model(*v) matches Json::Object(ms) ==> keys_ascending(ms),
        match list_spec(json_model(*v)) {
            Ok(s) => r matches Ok(xs) && xs@.len() == s.len() && forall|i: int|
                0 <= i < s.len() ==> json_model(*#[trigger] xs@[i]) == s[i],
            Err(e) => r == Err::<Vec<&'a Value>, Expected>(e),
        },
{
    if let Some(a) = v.as_array() {
        let mut out: Vec<&Value> = Vec::new();
        let mut i: usize = 0;
        while i < a.len()
            invariant
                i <= a@.len(),
                json_model(*v) matches Json::Array(s) && s.len() == a@.len() && out@.len() == i
                    && forall|k: int| 0 <= k < i ==> json_model(*#[trigger] out@[k]) == s[k],
                forall|k: int|
                    #![trigger a@[k]]
                    0 <= k < a@.len() ==> json_model(a@[k]) == list_spec(json_model(*v))->Ok_0[k],
            decreases a.len() - i,
        {
            out.push(&a[i]);
            i = i + 1;
        }
        return Ok(out);
    }
    match members(v) {
        Some(es) => {
            let ghost ms = es@.map_values(|e: (String, &Value)| (e.0@, json_model(*e.1)));
            assert(json_model(*v) matches Json::Object(o) && ms =~= o);
            let values = map_to_vec(es);
            Ok(values)
        },
        None => Err(Expected::ListOrMap),
    }
}

pub open spec fn optional_list_spec(j: Json) -> Result<Option<Seq<Json>>, Expected> {
    if j is Null {
        Ok(None)
    } else {
        match list_spec(j) {
            Ok(s) => Ok(Some(s)),
            Err(e) => Err(e),
        }
    }
}

/// Decodes an optional list: `null` is absent, an empty array or object is an empty list.
pub fn optional_vec_from_map<'a>(v: &'a Value) -> (r: Result<Option<Vec<&'a Value>>, Expected>)
    ensures
        json_model(*v) matches Json::Object(ms) ==> keys_ascending(ms),
        match optional_list_spec(json_model(*v)) {
            Ok(Some(s)) => r matches Ok(Some(xs)) && xs@.len() == s.len() && forall|i: int|
                0 <= i < s.len() ==> json_model(*#[trigger] xs@[i]) == s[i],
            Ok(None) => r matches Ok(None),
            Err(e) => r == Err::<Option<Vec<&'a Value>>, Expected>(e),
        },
{
    if v.is_null() {
        return Ok(None);
    }
    match json_value_to_vec(v) {
        Ok(xs) => Ok(Some(xs)),
        Err(e) => Err(e),
    }
}

/// Decodes a list that must be present.
pub fn vec_from_map<'a>(v: &'a Value) -> (r: Result<Vec<&'a Value>, Expected>)
    ensures
        json_model(*v) matches Json::Object(ms) ==> keys_ascending(ms),
        match list_spec(json_model(*v)) {
            Ok(s) => r matches Ok(xs) && xs@.len() == s.len() && forall|i: int|
                0 <= i < s.len() ==> json_model(*#[trigger] xs@[i]) == s[i],
            Err(e) => r == Err::<Vec<&'a Value>, Expected>(e),
        },
{
    json_value_to_vec(v)
}

// ---- Encoding ----

pub open spec fn flag_text(b: bool) -> Seq<char> {
    if b {
        "1"@
    } else {
        "0"@
    }
}

/// A flag as the service expects it: `"1"` or `"0"`.
pub fn bool_to_int(x: bool) -> (r: String)
    ensures
        r@ == flag_text(x),
{
    if x {
        String::from_str("1")
    } else {
        String::from_str("0")
    }
}

/// An optional flag as `"1"` or `"0"`.
pub fn optional_bool_to_int(x: Option<bool>) -> (r: Option<String>)
    ensures
        match x {
            Some(b) => r matches Some(t) && t@ == flag_text(b),
            None => r is None,
        },
{
    match x {
        Some(b) => Some(bool_to_int(b)),
        None => None,
    }
}

/// A time as the numeral of its seconds since the epoch.
pub fn serialize(date: &Timestamp) -> (r: String)
    ensures
        r@ == signed_decimal(date.seconds as int),
{
    i64_to_decimal(date.seconds)
}

/// An optional time as the numeral of its seconds since the epoch.
pub fn optional_datetime_to_int(x: &Option<Timestamp>) -> (r: Option<String>)
    ensures
        match x {
            Some(t) => r matches Some(s) && s@ == signed_decimal(t.seconds as int),
            None => r is None,
        },
{
    match x {
        Some(t) => Some(serialize(t)),
        None => None,
    }
}

/// A number as its decimal numeral.
pub fn to_string(x: u64) -> (r: String)
    ensures
        r@ == decimal(x as nat),
{
    u64_to_decimal(x)
}

/// An optional number as its decimal numeral.
pub fn optional_to_string(x: Option<u64>) -> (r: Option<String>)
    ensures
        match x {
            Some(n) => r matches Some(s) && s@ == decimal(n as nat),
            None => r is None,
        },
{
    match x {
        Some(n) => Some(to_string(n)),
        None => None,
    }
}

/// Texts joined with commas, as the service takes a list of tags.
pub open spec fn comma_list(parts: Seq<&str>) -> Seq<char> {
    joined(parts.map_values(|p: &str| p@), ","@)
}

/// An optional list of texts as one comma-separated text.
pub fn to_comma_delimited_string(x: Option<&[&str]>) -> (r: Option<String>)
    ensures
        match x {
            Some(parts) => r matches Some(s) && s@ == comma_list(parts@),
            None => r is None,
        },
{
    match x {
        Some(parts) => Some(join_texts(parts, ",")),
        None => None,
    }
}

/// The tag filter value for items without tags.
pub fn untagged_to_str() -> (r: String)
    ensures
        r@ == UNTAGGED@,
{
    String::from_str(UNTAGGED)
}

/// A link as its text.
pub fn borrow_url(x: &PocketUrl) -> (r: &str)
    ensures
        r@ == x@,
{
    x.as_str()
}

} // verus!
