//! A typed client library for the Pocket read-it-later web service: request
//! payloads, tolerant decoding of its JSON responses, and the OAuth handshake.
pub mod add;
pub mod auth;
pub mod client;
pub mod errors;
pub mod fields;
pub mod get;
pub mod json;
pub mod laws;
pub mod send;
pub mod serialization;
pub mod text;
pub mod wire;

use crate::errors::{DecodeError, Expected};
use crate::fields::{
    agrees, at, field_error, has, link_field, link_field_spec, numeral_field, numeral_field_spec,
    required, required_member, text_field, text_field_spec, FromJson,
};
use crate::get::{get_pairs, PocketGetRequest};
use crate::json::{json_model, member, Json};
use crate::send::{actions_text, PocketSendRequest};
use crate::text::same_text;
use crate::serialization::{
    option_from_str, option_from_str_spec, same_link, url_with_query_text, PocketUrl,
};
use crate::wire::{encode_object, object_text, pairs_view, push_pair, WirePairs};
use serde_json::Value;
use vstd::prelude::*;

verus! {

/// An image of an item.
#[derive(Debug, Clone, PartialEq)]
pub struct PocketImage {
    pub item_id: u64,
    pub image_id: u64,
    pub src: Option<PocketUrl>,
    pub width: u16,
    pub height: u16,
    pub credit: String,
    pub caption: String,
}

impl FromJson for PocketImage {
    open spec fn decodable(j: Json) -> bool {
        &&& numeral_field_spec(j, "item_id"@, u64::MAX as int) is Ok
        &&& numeral_field_spec(j, "image_id"@, u64::MAX as int) is Ok
        &&& link_field_spec(j, "src"@, false) is Ok
        &&& numeral_field_spec(j, "width"@, u16::MAX as int) is Ok
        &&& numeral_field_spec(j, "height"@, u16::MAX as int) is Ok
        &&& text_field_spec(j, "credit"@) is Ok
        &&& text_field_spec(j, "caption"@) is Ok
    }

    open spec fn decodes_to(j: Json, r: Self) -> bool {
        &&& numeral_field_spec(j, "item_id"@, u64::MAX as int) == Ok::<u64, Expected>(r.item_id)
        &&& numeral_field_spec(j, "image_id"@, u64::MAX as int) == Ok::<u64, Expected>(r.image_id)
        &&& link_field_spec(j, "src"@, false) matches Ok(t) && same_link(r.src, t)
        &&& numeral_field_spec(j, "width"@, u16::MAX as int) == Ok::<u64, Expected>(r.width as u64)
        &&& numeral_field_spec(j, "height"@, u16::MAX as int) == Ok::<u64, Expected>(r.height as u64)
        &&& text_field_spec(j, "credit"@) == Ok::<Seq<char>, Expected>(r.credit@)
        &&& text_field_spec(j, "caption"@) == Ok::<Seq<char>, Expected>(r.caption@)
    }

    fn from_json(v: &Value) -> (r: Result<Self, DecodeError>) {
        let item_id = numeral_field(v, "item_id", u64::MAX)?;
        let image_id = numeral_field(v, "image_id", u64::MAX)?;
        let src = link_field(v, "src", false)?;
        let width = numeral_field(v, "width", 65535)? as u16;
        let height = numeral_field(v, "height", 65535)? as u16;
        let credit = text_field(v, "credit")?;
        let caption = text_field(v, "caption")?;
        Ok(PocketImage { item_id, image_id, src, width, height, credit, caption })
    }
}

/// A video of an item.
#[derive(Debug, Clone, PartialEq)]
pub struct ItemVideo {
    pub item_id: u64,
    pub video_id: u64,
    pub src: Option<PocketUrl>,
    pub width: u16,
    pub height: u16,
    pub length: Option<usize>,
    pub vid: String,
    pub vtype: u16,
}

/// The length of a video: a numeral string, with anything else (or nothing) absent.
pub open spec fn video_length_spec(j: Json) -> Option<u64> {
    if has(j, "length"@) {
        option_from_str_spec(at(j, "length"@), usize::MAX as int)
    } else {
        None
    }
}

impl FromJson for ItemVideo {
    open spec fn decodable(j: Json) -> bool {
        &&& numeral_field_spec(j, "item_id"@, u64::MAX as int) is Ok
        &&& numeral_field_spec(j, "video_id"@, u64::MAX as int) is Ok
        &&& link_field_spec(j, "src"@, false) is Ok
        &&& numeral_field_spec(j, "width"@, u16::MAX as int) is Ok
        &&& numeral_field_spec(j, "height"@, u16::MAX as int) is Ok
        &&& has(j, "length"@)
        &&& text_field_spec(j, "vid"@) is Ok
        &&& numeral_field_spec(j, "type"@, u16::MAX as int) is Ok
    }

    open spec fn decodes_to(j: Json, r: Self) -> bool {
        &&& numeral_field_spec(j, "item_id"@, u64::MAX as int) == Ok::<u64, Expected>(r.item_id)
        &&& numeral_field_spec(j, "video_id"@, u64::MAX as int) == Ok::<u64, Expected>(r.video_id)
        &&& link_field_spec(j, "src"@, false) matches Ok(t) && same_link(r.src, t)
        &&& numeral_field_spec(j, "width"@, u16::MAX as int) == Ok::<u64, Expected>(r.width as u64)
        &&& numeral_field_spec(j, "height"@, u16::MAX as int) == Ok::<u64, Expected>(r.height as u64)
        &&& match video_length_spec(j) {
            Some(n) => r.length == Some(n as usize),
            None => r.length is None,
        }
        &&& text_field_spec(j, "vid"@) == Ok::<Seq<char>, Expected>(r.vid@)
        &&& numeral_field_spec(j, "type"@, u16::MAX as int) == Ok::<u64, Expected>(r.vtype as u64)
    }

    fn from_json(v: &Value) -> (r: Result<Self, DecodeError>) {
        let item_id = numeral_field(v, "item_id", u64::MAX)?;
        let video_id = numeral_field(v, "video_id", u64::MAX)?;
        let src = link_field(v, "src", false)?;
        let width = numeral_field(v, "width", 65535)? as u16;
        let height = numeral_field(v, "height", 65535)? as u16;
        let length = match member(v, "length") {
            Some(x) => match option_from_str(x, usize::MAX as u64) {
                Some(n) => Some(n as usize),
                None => None,
            },
            None => {
                return Err(DecodeError::Field(String::from_str("length"), Expected::Present));
            },
        };
        let vid = text_field(v, "vid")?;
        let vtype = numeral_field(v, "type", 65535)? as u16;
        Ok(ItemVideo { item_id, video_id, src, width, height, length, vid, vtype })
    }
}

/// An author of an item.
#[derive(Debug, Clone, PartialEq)]
pub struct ItemAuthor {
    pub item_id: u64,
    pub author_id: u64,
    pub name: String,
    pub url: String,
}

impl FromJson for ItemAuthor {
    open spec fn decodable(j: Json) -> bool {
        &&& numeral_field_spec(j, "item_id"@, u64::MAX as int) is Ok
        &&& numeral_field_spec(j, "author_id"@, u64::MAX as int) is Ok
        &&& text_field_spec(j, "name"@) is Ok
        &&& text_field_spec(j, "url"@) is Ok
    }

    open spec fn decodes_to(j: Json, r: Self) -> bool {
        &&& numeral_field_spec(j, "item_id"@, u64::MAX as int) == Ok::<u64, Expected>(r.item_id)
        &&& numeral_field_spec(j, "author_id"@, u64::MAX as int) == Ok::<u64, Expected>(r.author_id)
        &&& text_field_spec(j, "name"@) == Ok::<Seq<char>, Expected>(r.name@)
        &&& text_field_spec(j, "url"@) == Ok::<Seq<char>, Expected>(r.url@)
    }

    fn from_json(v: &Value) -> (r: Result<Self, DecodeError>) {
        let item_id = numeral_field(v, "item_id", u64::MAX)?;
        let author_id = numeral_field(v, "author_id", u64::MAX)?;
        let name = text_field(v, "name")?;
        let url = text_field(v, "url")?;
        Ok(ItemAuthor { item_id, author_id, name, url })
    }
}

/// Whether an item has images or videos, or is itself one.
#[derive(Debug, PartialEq, Eq, Clone, Copy, Structural)]
pub enum PocketItemHas {
    No,
    Yes,
    Is,
}

pub open spec fn item_has_spec(j: Json) -> Result<PocketItemHas, Expected> {
    if j == Json::Str("0"@) {
        Ok(PocketItemHas::No)
    } else if j == Json::Str("1"@) {
        Ok(PocketItemHas::Yes)
    } else if j == Json::Str("2"@) {
        Ok(PocketItemHas::Is)
    } else {
        Err(Expected::ZeroOneOrTwo)
    }
}

impl PocketItemHas {
    /// Decodes `"0"`, `"1"` or `"2"`.
    pub fn decode(v: &Value) -> (r: Result<PocketItemHas, Expected>)
        ensures
            r == item_has_spec(json_model(*v)),
    {
        match v.as_str() {
            Some(s) => if same_text(s, "0") {
                Ok(PocketItemHas::No)
            } else if same_text(s, "1") {
                Ok(PocketItemHas::Yes)
            } else if same_text(s, "2") {
                Ok(PocketItemHas::Is)
            } else {
                Err(Expected::ZeroOneOrTwo)
            },
            None => Err(Expected::ZeroOneOrTwo),
        }
    }
}

pub open spec fn has_field_spec(j: Json, key: Seq<char>) -> Result<PocketItemHas, Expected> {
    required(j, key, item_has_spec(at(j, key)))
}

/// A required media flag.
pub fn has_field(obj: &Value, key: &str) -> (r: Result<PocketItemHas, DecodeError>)
    ensures
        agrees(r, has_field_spec(json_model(*obj), key@)),
{
    let v = required_member(obj, key)?;
    match PocketItemHas::decode(v) {
        Ok(h) => Ok(h),
        Err(e) => Err(field_error(key, e)),
    }
}

pub open spec fn optional_has_field_spec(j: Json, key: Seq<char>) -> Result<Option<PocketItemHas>, Expected> {
    if at(j, key) is Null {
        Ok(None)
    } else {
        match item_has_spec(at(j, key)) {
            Ok(h) => Ok(Some(h)),
            Err(e) => Err(e),
        }
    }
}

/// An optional media flag: missing and `null` are absent.
pub fn optional_has_field(obj: &Value, key: &str) -> (r: Result<Option<PocketItemHas>, DecodeError>)
    ensures
        agrees(r, optional_has_field_spec(json_model(*obj), key@)),
{
    match member(obj, key) {
        None => Ok(None),
        Some(v) => if v.is_null() {
            Ok(None)
        } else {
            match PocketItemHas::decode(v) {
                Ok(h) => Ok(Some(h)),
                Err(e) => Err(field_error(key, e)),
            }
        },
    }
}

/// A request together with the credentials that every call carries.
pub struct PocketUserRequest<'a, T> {
    pub consumer_key: &'a str,
    pub access_token: &'a str,
    pub request: &'a T,
}

/// The members that a request with credentials sends: the credentials first,
/// then the request's own.
pub open spec fn user_request_pairs(
    consumer_key: Seq<char>,
    access_token: Seq<char>,
    request: Seq<(Seq<char>, Seq<char>)>,
) -> Seq<(Seq<char>, Seq<char>)> {
    seq![("consumer_key"@, consumer_key), ("access_token"@, access_token)] + request
}

impl<'a, T: WirePairs> PocketUserRequest<'a, T> {
    /// The JSON body of the call.
    pub fn to_json(&self) -> (r: String)
        ensures
            r@ == object_text(
                user_request_pairs(self.consumer_key@, self.access_token@, self.request.wire()),
            ),
    {
        let mut fs: Vec<(String, String)> = Vec::new();
        assert(pairs_view(fs@) =~= seq![]);
        push_pair(&mut fs, "consumer_key", String::from_str(self.consumer_key));
        push_pair(&mut fs, "access_token", String::from_str(self.access_token));
        let mut own = self.request.pairs();
        let ghost before = fs@;
        let ghost added = own@;
        fs.append(&mut own);
        assert(fs@ == before + added);
        assert(pairs_view(before + added) =~= pairs_view(before) + pairs_view(added));
        assert(pairs_view(fs@) =~= user_request_pairs(
            self.consumer_key@,
            self.access_token@,
            self.request.wire(),
        ));
        encode_object(&fs)
    }
}

/// Where batches of changes are sent.
pub const SEND_ENDPOINT: &'static str = "https://getpocket.com/v3/send";

/// A user's credentials, from which each call's payload is built.
#[derive(Debug, Clone)]
pub struct Pocket {
    pub consumer_key: String,
    pub access_token: String,
}

impl Pocket {
    pub fn new(consumer_key: &str, access_token: &str) -> (r: Pocket)
        ensures
            r.consumer_key@ == consumer_key@,
            r.access_token@ == access_token@,
    {
        Pocket {
            consumer_key: String::from_str(consumer_key),
            access_token: String::from_str(access_token),
        }
    }

    pub fn access_token(&self) -> (r: &str)
        ensures
            r@ == self.access_token@,
    {
        self.access_token.as_str()
    }

    /// A query with no filter set.
    pub fn filter(&self) -> (r: PocketGetRequest)
        ensures
            get_pairs(r) == Seq::<(Seq<char>, Seq<char>)>::empty(),
    {
        PocketGetRequest::new()
    }

    /// The JSON body of a call with this user's credentials.
    pub fn body<T: WirePairs>(&self, request: &T) -> (r: String)
        ensures
            r@ == object_text(
                user_request_pairs(self.consumer_key@, self.access_token@, request.wire()),
            ),
    {
        let user_request = PocketUserRequest {
            consumer_key: self.consumer_key.as_str(),
            access_token: self.access_token.as_str(),
            request,
        };
        user_request.to_json()
    }

    /// The address of a batch of changes: the send endpoint with the
    /// credentials and the batch as query parameters.
    pub fn send_url(&self, request: &PocketSendRequest) -> (r: Option<PocketUrl>)
        ensures
            match url_with_query_text(
                SEND_ENDPOINT@,
                seq![
                    ("consumer_key"@, self.consumer_key@),
                    ("access_token"@, self.access_token@),
                    ("actions"@, actions_text(request.actions@)),
                ],
            ) {
                Some(t) => r matches Some(u) && u@ == t,
                None => r is None,
            },
    {
        let data = request.actions_json();
        let mut params: Vec<(String, String)> = Vec::new();
        push_pair(&mut params, "consumer_key", self.consumer_key.clone());
        push_pair(&mut params, "access_token", self.access_token.clone());
        push_pair(&mut params, "actions", data);
        assert(pairs_view(params@) =~= seq![
            ("consumer_key"@, self.consumer_key@),
            ("access_token"@, self.access_token@),
            ("actions"@, actions_text(request.actions@)),
        ]);
        PocketUrl::with_query(SEND_ENDPOINT, &params)
    }
}

} // verus!
