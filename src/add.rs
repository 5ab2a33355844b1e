//! Adding a bookmark: the request and the record the service returns for it.
use crate::errors::{DecodeError, Expected};
use crate::fields::{
    date_field, date_field_spec, flag_field, flag_field_spec, integer_field, integer_field_spec,
    link_field, link_field_spec, list_decodable, list_decodes_to, list_field, media_field,
    media_field_spec, numeral_field, numeral_field_spec, optional_text_field,
    optional_text_field_spec, optional_time_field, optional_time_field_spec,
    required_record_field, has, at, text_field, text_field_spec, text_view, url_field,
    url_field_spec, FromJson,
};
use crate::json::{json_model, Json};
use crate::serialization::{media_view, same_link, MediaType, PocketUrl, Timestamp};
use crate::text::{join_strings, joined};
use crate::wire::{optional_pair, pairs_view, push_optional, push_pair, WirePairs};
use crate::{has_field, has_field_spec, ItemAuthor, ItemVideo, PocketImage, PocketItemHas};
use serde_json::Value;
use vstd::prelude::*;

verus! {

/// A bookmark to add: a URL, and optionally a title, tags and the id of the
/// tweet it came from.
#[derive(Debug, Clone)]
pub struct PocketAddRequest {
    pub url: PocketUrl,
    pub title: Option<String>,
    pub tags: Option<Vec<String>>,
    pub tweet_id: Option<String>,
}

pub open spec fn tags_text(tags: Option<Vec<String>>) -> Option<Seq<char>> {
    match tags {
        Some(t) => Some(joined(t@.map_values(|s: String| s@), ","@)),
        None => None,
    }
}

/// The members an add request sends, in order: the URL always, the others
/// when set, with the tags joined by commas.
pub open spec fn add_pairs(r: PocketAddRequest) -> Seq<(Seq<char>, Seq<char>)> {
    seq![("url"@, r.url@)] + optional_pair("title"@, text_view(r.title)) + optional_pair(
        "tags"@,
        tags_text(r.tags),
    ) + optional_pair("tweet_id"@, text_view(r.tweet_id))
}

impl PocketAddRequest {
    /// A request for `url` with nothing else set.
    pub fn new(url: &PocketUrl) -> (r: PocketAddRequest)
        ensures
            r.url@ == url@,
            r.title is None && r.tags is None && r.tweet_id is None,
    {
        PocketAddRequest { url: url.clone_url(), title: None, tags: None, tweet_id: None }
    }

    pub fn title(self, title: &str) -> (r: PocketAddRequest)
        ensures
            r.title matches Some(t) && t@ == title@,
            r == (PocketAddRequest { title: r.title, ..self }),
    {
        PocketAddRequest { title: Some(String::from_str(title)), ..self }
    }

    pub fn tags(self, tags: &[&str]) -> (r: PocketAddRequest)
        ensures
            r.tags matches Some(t) && t@.map_values(|s: String| s@) == tags@.map_values(
                |s: &str| s@,
            ),
            r == (PocketAddRequest { tags: r.tags, ..self }),
    {
        let mut list: Vec<String> = Vec::new();
        let mut i: usize = 0;
        while i < tags.len()
            invariant
                i <= tags@.len(),
                list@.len() == i,
                forall|k: int| 0 <= k < i ==> (#[trigger] list@[k])@ == tags@[k]@,
            decreases tags.len() - i,
        {
            list.push(String::from_str(tags[i]));
            i = i + 1;
        }
        assert(list@.map_values(|s: String| s@) =~= tags@.map_values(|s: &str| s@));
        PocketAddRequest { tags: Some(list), ..self }
    }

    pub fn tweet_id(self, tweet_id: &str) -> (r: PocketAddRequest)
        ensures
            r.tweet_id matches Some(t) && t@ == tweet_id@,
            r == (PocketAddRequest { tweet_id: r.tweet_id, ..self }),
    {
        PocketAddRequest { tweet_id: Some(String::from_str(tweet_id)), ..self }
    }

}

impl WirePairs for PocketAddRequest {
    open spec fn wire(&self) -> Seq<(Seq<char>, Seq<char>)> {
        add_pairs(*self)
    }

    fn pairs(&self) -> (r: Vec<(String, String)>) {
        let title = match &self.title {
            Some(s) => Some(s.clone()),
            None => None,
        };
        let tags = match &self.tags {
            Some(t) => Some(join_strings(t, ",")),
            None => None,
        };
        let tweet_id = match &self.tweet_id {
            Some(s) => Some(s.clone()),
            None => None,
        };
        let mut fs: Vec<(String, String)> = Vec::new();
        assert(pairs_view(fs@) =~= seq![]);
        push_pair(&mut fs, "url", String::from_str(self.url.as_str()));
        push_optional(&mut fs, "title", title);
        push_optional(&mut fs, "tags", tags);
        push_optional(&mut fs, "tweet_id", tweet_id);
        assert(pairs_view(fs@) =~= add_pairs(*self));
        fs
    }
}

/// The record of a bookmark just added, with what the service learned
/// resolving its URL.
#[derive(Debug, Clone, PartialEq)]
pub struct PocketAddedItem {
    pub item_id: u64,
    pub normal_url: PocketUrl,
    pub resolved_id: u64,
    pub extended_item_id: u64,
    pub resolved_url: Option<PocketUrl>,
    pub domain_id: u64,
    pub origin_domain_id: u64,
    pub response_code: u16,
    pub mime_type: Option<MediaType>,
    pub content_length: usize,
    pub encoding: String,
    pub date_resolved: Option<Timestamp>,
    pub date_published: Option<Timestamp>,
    pub title: String,
    pub excerpt: String,
    pub word_count: usize,
    pub innerdomain_redirect: bool,
    pub login_required: bool,
    pub has_image: PocketItemHas,
    pub has_video: PocketItemHas,
    pub is_index: bool,
    pub is_article: bool,
    pub used_fallback: bool,
    pub lang: Option<String>,
    pub time_first_parsed: Option<Timestamp>,
    pub authors: Option<Vec<ItemAuthor>>,
    pub images: Option<Vec<PocketImage>>,
    pub videos: Option<Vec<ItemVideo>>,
    pub resolved_normal_url: Option<PocketUrl>,
    pub given_url: PocketUrl,
}

/// The members of an added item that identify and resolve it decode.
pub open spec fn added_ids_decodable(j: Json) -> bool {
    &&& numeral_field_spec(j, "item_id"@, u64::MAX as int) is Ok
    &&& url_field_spec(j, "normal_url"@) is Ok
    &&& numeral_field_spec(j, "resolved_id"@, u64::MAX as int) is Ok
    &&& numeral_field_spec(j, "extended_item_id"@, u64::MAX as int) is Ok
    &&& link_field_spec(j, "resolved_url"@, true) is Ok
    &&& numeral_field_spec(j, "domain_id"@, u64::MAX as int) is Ok
    &&& numeral_field_spec(j, "origin_domain_id"@, u64::MAX as int) is Ok
    &&& numeral_field_spec(j, "response_code"@, u16::MAX as int) is Ok
    &&& media_field_spec(j, "mime_type"@) is Ok
    &&& numeral_field_spec(j, "content_length"@, usize::MAX as int) is Ok
    &&& text_field_spec(j, "encoding"@) is Ok
    &&& date_field_spec(j, "date_resolved"@) is Ok
    &&& date_field_spec(j, "date_published"@) is Ok
    &&& url_field_spec(j, "given_url"@) is Ok
}

/// The members of an added item that describe its content decode.
pub open spec fn added_content_decodable(j: Json) -> bool {
    &&& text_field_spec(j, "title"@) is Ok
    &&& text_field_spec(j, "excerpt"@) is Ok
    &&& numeral_field_spec(j, "word_count"@, usize::MAX as int) is Ok
    &&& flag_field_spec(j, "innerdomain_redirect"@) is Ok
    &&& flag_field_spec(j, "login_required"@) is Ok
    &&& has_field_spec(j, "has_image"@) is Ok
    &&& has_field_spec(j, "has_video"@) is Ok
    &&& flag_field_spec(j, "is_index"@) is Ok
    &&& flag_field_spec(j, "is_article"@) is Ok
    &&& flag_field_spec(j, "used_fallback"@) is Ok
    &&& optional_text_field_spec(j, "lang"@) is Ok
    &&& optional_time_field_spec(j, "time_first_parsed"@) is Ok
    &&& list_decodable::<ItemAuthor>(j, "authors"@)
    &&& list_decodable::<PocketImage>(j, "images"@)
    &&& list_decodable::<ItemVideo>(j, "videos"@)
    &&& link_field_spec(j, "resolved_normal_url"@, false) is Ok
}

pub open spec fn added_ids_decode_to(j: Json, r: PocketAddedItem) -> bool {
    &&& numeral_field_spec(j, "item_id"@, u64::MAX as int) == Ok::<u64, Expected>(r.item_id)
    &&& url_field_spec(j, "normal_url"@) == Ok::<Seq<char>, Expected>(r.normal_url@)
    &&& numeral_field_spec(j, "resolved_id"@, u64::MAX as int) == Ok::<u64, Expected>(r.resolved_id)
    &&& numeral_field_spec(j, "extended_item_id"@, u64::MAX as int) == Ok::<u64, Expected>(
        r.extended_item_id,
    )
    &&& link_field_spec(j, "resolved_url"@, true) matches Ok(t) && same_link(r.resolved_url, t)
    &&& numeral_field_spec(j, "domain_id"@, u64::MAX as int) == Ok::<u64, Expected>(r.domain_id)
    &&& numeral_field_spec(j, "origin_domain_id"@, u64::MAX as int) == Ok::<u64, Expected>(
        r.origin_domain_id,
    )
    &&& numeral_field_spec(j, "response_code"@, u16::MAX as int) == Ok::<u64, Expected>(
        r.response_code as u64,
    )
    &&& media_field_spec(j, "mime_type"@) == Ok::<Option<Seq<char>>, Expected>(
        media_view(r.mime_type),
    )
    &&& numeral_field_spec(j, "content_length"@, usize::MAX as int) == Ok::<u64, Expected>(
        r.content_length as u64,
    )
    &&& text_field_spec(j, "encoding"@) == Ok::<Seq<char>, Expected>(r.encoding@)
    &&& date_field_spec(j, "date_resolved"@) == Ok::<Option<Timestamp>, Expected>(r.date_resolved)
    &&& date_field_spec(j, "date_published"@) == Ok::<Option<Timestamp>, Expected>(
        r.date_published,
    )
    &&& url_field_spec(j, "given_url"@) == Ok::<Seq<char>, Expected>(r.given_url@)
}

pub open spec fn added_content_decode_to(j: Json, r: PocketAddedItem) -> bool {
    &&& text_field_spec(j, "title"@) == Ok::<Seq<char>, Expected>(r.title@)
    &&& text_field_spec(j, "excerpt"@) == Ok::<Seq<char>, Expected>(r.excerpt@)
    &&& numeral_field_spec(j, "word_count"@, usize::MAX as int) == Ok::<u64, Expected>(
        r.word_count as u64,
    )
    &&& flag_field_spec(j, "innerdomain_redirect"@) == Ok::<bool, Expected>(r.innerdomain_redirect)
    &&& flag_field_spec(j, "login_required"@) == Ok::<bool, Expected>(r.login_required)
    &&& has_field_spec(j, "has_image"@) == Ok::<PocketItemHas, Expected>(r.has_image)
    &&& has_field_spec(j, "has_video"@) == Ok::<PocketItemHas, Expected>(r.has_video)
    &&& flag_field_spec(j, "is_index"@) == Ok::<bool, Expected>(r.is_index)
    &&& flag_field_spec(j, "is_article"@) == Ok::<bool, Expected>(r.is_article)
    &&& flag_field_spec(j, "used_fallback"@) == Ok::<bool, Expected>(r.used_fallback)
    &&& optional_text_field_spec(j, "lang"@) == Ok::<Option<Seq<char>>, Expected>(text_view(r.lang))
    &&& optional_time_field_spec(j, "time_first_parsed"@) == Ok::<Option<Timestamp>, Expected>(
        r.time_first_parsed,
    )
    &&& list_decodes_to::<ItemAuthor>(j, "authors"@, r.authors)
    &&& list_decodes_to::<PocketImage>(j, "images"@, r.images)
    &&& list_decodes_to::<ItemVideo>(j, "videos"@, r.videos)
    &&& link_field_spec(j, "resolved_normal_url"@, false) matches Ok(t) && same_link(
        r.resolved_normal_url,
        t,
    )
}

impl FromJson for PocketAddedItem {
    open spec fn decodable(j: Json) -> bool {
        added_ids_decodable(j) && added_content_decodable(j)
    }

    open spec fn decodes_to(j: Json, r: Self) -> bool {
        added_ids_decode_to(j, r) && added_content_decode_to(j, r)
    }

    #[verifier::rlimit(60)]
    fn from_json(v: &Value) -> (r: Result<Self, DecodeError>) {
        let item_id = numeral_field(v, "item_id", u64::MAX)?;
        let normal_url = url_field(v, "normal_url")?;
        let resolved_id = numeral_field(v, "resolved_id", u64::MAX)?;
        let extended_item_id = numeral_field(v, "extended_item_id", u64::MAX)?;
        let resolved_url = link_field(v, "resolved_url", true)?;
        let domain_id = numeral_field(v, "domain_id", u64::MAX)?;
        let origin_domain_id = numeral_field(v, "origin_domain_id", u64::MAX)?;
        let response_code = numeral_field(v, "response_code", 65535)? as u16;
        let mime_type = media_field(v, "mime_type")?;
        let content_length = numeral_field(v, "content_length", usize::MAX as u64)? as usize;
        let encoding = text_field(v, "encoding")?;
        let date_resolved = date_field(v, "date_resolved")?;
        let date_published = date_field(v, "date_published")?;
        let title = text_field(v, "title")?;
        let excerpt = text_field(v, "excerpt")?;
        let word_count = numeral_field(v, "word_count", usize::MAX as u64)? as usize;
        let innerdomain_redirect = flag_field(v, "innerdomain_redirect")?;
        let login_required = flag_field(v, "login_required")?;
        let has_image = has_field(v, "has_image")?;
        let has_video = has_field(v, "has_video")?;
        let is_index = flag_field(v, "is_index")?;
        let is_article = flag_field(v, "is_article")?;
        let used_fallback = flag_field(v, "used_fallback")?;
        let lang = optional_text_field(v, "lang")?;
        let time_first_parsed = optional_time_field(v, "time_first_parsed")?;
        let authors = list_field::<ItemAuthor>(v, "authors")?;
        let images = list_field::<PocketImage>(v, "images")?;
        let videos = list_field::<ItemVideo>(v, "videos")?;
        let resolved_normal_url = link_field(v, "resolved_normal_url", false)?;
        let given_url = url_field(v, "given_url")?;
        let r = PocketAddedItem {
            item_id,
            normal_url,
            resolved_id,
            extended_item_id,
            resolved_url,
            domain_id,
            origin_domain_id,
            response_code,
            mime_type,
            content_length,
            encoding,
            date_resolved,
            date_published,
            title,
            excerpt,
            word_count,
            innerdomain_redirect,
            login_required,
            has_image,
            has_video,
            is_index,
            is_article,
            used_fallback,
            lang,
            time_first_parsed,
            authors,
            images,
            videos,
            resolved_normal_url,
            given_url,
        };
        assert(added_ids_decode_to(json_model(*v), r));
        assert(added_content_decode_to(json_model(*v), r));
        Ok(r)
    }
}

/// The answer to an add request.
#[derive(Debug, Clone, PartialEq)]
pub struct PocketAddResponse {
    pub item: PocketAddedItem,
    pub status: u16,
}

impl FromJson for PocketAddResponse {
    open spec fn decodable(j: Json) -> bool {
        &&& has(j, "item"@) && PocketAddedItem::decodable(at(j, "item"@))
        &&& integer_field_spec(j, "status"@, u16::MAX as int) is Ok
    }

    open spec fn decodes_to(j: Json, r: Self) -> bool {
        &&& PocketAddedItem::decodes_to(at(j, "item"@), r.item)
        &&& integer_field_spec(j, "status"@, u16::MAX as int) == Ok::<u64, Expected>(r.status as u64)
    }

    fn from_json(v: &Value) -> (r: Result<Self, DecodeError>) {
        let item = required_record_field::<PocketAddedItem>(v, "item")?;
        let status = integer_field(v, "status", 65535)? as u16;
        Ok(PocketAddResponse { item, status })
    }
}

} // verus!
