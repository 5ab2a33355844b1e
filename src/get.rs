//! Retrieving saved items: the filtered query and the records it returns.
use crate::errors::{DecodeError, Expected};
use crate::fields::{
    at, has, int_flag_field, int_flag_field_spec, integer_field,
    integer_field_spec, link_field, link_field_spec, list_decodable, list_decodes_to, list_field,
    numeral_field, numeral_field_spec, optional_flag_field, optional_flag_field_spec,
    optional_integer_field, optional_integer_field_spec, optional_text_field,
    optional_text_field_spec, optional_time_field, optional_time_field_spec, record_decodable,
    record_decodes_to, record_field, required_list_decodable, required_list_decodes_to,
    required_list_field, required_record_field, text_field, text_field_spec, text_view,
    time_field, time_field_spec, FromJson,
};
use crate::json::{json_model, member, Json};
use crate::serialization::{
    bool_to_int, flag_text, int_date_spec, int_date_unix_timestamp_format, same_link, serialize,
    to_string, untagged_to_str, PocketUrl, Timestamp, UNTAGGED,
};
use crate::text::{decimal, same_text, signed_decimal};
use crate::wire::{optional_pair, pairs_view, push_optional, WirePairs};
use crate::{ItemAuthor, ItemVideo, PocketImage, PocketItemHas};
use serde_json::Value;
use vstd::prelude::*;

verus! {

/// A query for saved items. Every filter is optional; a filter left unset is
/// not sent. Each setter replaces what an earlier call of it set.
#[derive(Debug, Clone)]
pub struct PocketGetRequest {
    pub search: Option<String>,
    pub domain: Option<String>,
    pub tag: Option<PocketGetTag>,
    pub state: Option<PocketGetState>,
    pub content_type: Option<PocketGetType>,
    pub detail_type: Option<PocketGetDetail>,
    pub favorite: Option<bool>,
    pub since: Option<Timestamp>,
    pub sort: Option<PocketGetSort>,
    pub count: Option<usize>,
    pub offset: Option<usize>,
}

/// How much of each item to return.
#[derive(Debug, Clone, Copy, PartialEq, Eq, Structural)]
pub enum PocketGetDetail {
    Simple,
    Complete,
}

/// The order of the items returned.
#[derive(Debug, Clone, Copy, PartialEq, Eq, Structural)]
pub enum PocketGetSort {
    Newest,
    Oldest,
    Title,
    Site,
}

/// Which items to return by reading state.
#[derive(Debug, Clone, Copy, PartialEq, Eq, Structural)]
pub enum PocketGetState {
    Unread,
    Archive,
    All,
}

/// A tag filter: items without tags, or items with the given tag.
#[derive(Debug, Clone)]
pub enum PocketGetTag {
    Untagged,
    Tagged(String),
}

/// Which kind of content to return.
#[derive(Debug, Clone, Copy, PartialEq, Eq, Structural)]
pub enum PocketGetType {
    Article,
    Video,
    Image,
}

impl PocketGetDetail {
    pub open spec fn wire_spec(self) -> Seq<char> {
        match self {
            PocketGetDetail::Simple => "simple"@,
            PocketGetDetail::Complete => "complete"@,
        }
    }

    /// The name the service uses.
    pub fn wire_name(&self) -> (r: String)
        ensures
            r@ == self.wire_spec(),
    {
        match self {
            PocketGetDetail::Simple => String::from_str("simple"),
            PocketGetDetail::Complete => String::from_str("complete"),
        }
    }
}

impl PocketGetSort {
    pub open spec fn wire_spec(self) -> Seq<char> {
        match self {
            PocketGetSort::Newest => "newest"@,
            PocketGetSort::Oldest => "oldest"@,
            PocketGetSort::Title => "title"@,
            PocketGetSort::Site => "site"@,
        }
    }

    /// The name the service uses.
    pub fn wire_name(&self) -> (r: String)
        ensures
            r@ == self.wire_spec(),
    {
        match self {
            PocketGetSort::Newest => String::from_str("newest"),
            PocketGetSort::Oldest => String::from_str("oldest"),
            PocketGetSort::Title => String::from_str("title"),
            PocketGetSort::Site => String::from_str("site"),
        }
    }
}

impl PocketGetState {
    pub open spec fn wire_spec(self) -> Seq<char> {
        match self {
            PocketGetState::Unread => "unread"@,
            PocketGetState::Archive => "archive"@,
            PocketGetState::All => "all"@,
        }
    }

    /// The name the service uses.
    pub fn wire_name(&self) -> (r: String)
        ensures
            r@ == self.wire_spec(),
    {
        match self {
            PocketGetState::Unread => String::from_str("unread"),
            PocketGetState::Archive => String::from_str("archive"),
            PocketGetState::All => String::from_str("all"),
        }
    }
}

impl PocketGetType {
    pub open spec fn wire_spec(self) -> Seq<char> {
        match self {
            PocketGetType::Article => "article"@,
            PocketGetType::Video => "video"@,
            PocketGetType::Image => "image"@,
        }
    }

    /// The name the service uses.
    pub fn wire_name(&self) -> (r: String)
        ensures
            r@ == self.wire_spec(),
    {
        match self {
            PocketGetType::Article => String::from_str("article"),
            PocketGetType::Video => String::from_str("video"),
            PocketGetType::Image => String::from_str("image"),
        }
    }
}

impl PocketGetTag {
    pub open spec fn wire_spec(self) -> Seq<char> {
        match self {
            PocketGetTag::Untagged => UNTAGGED@,
            PocketGetTag::Tagged(t) => t@,
        }
    }

    /// The value the service takes: the tag, or the untagged marker.
    pub fn wire_name(&self) -> (r: String)
        ensures
            r@ == self.wire_spec(),
    {
        match self {
            PocketGetTag::Untagged => untagged_to_str(),
            PocketGetTag::Tagged(t) => t.clone(),
        }
    }
}

pub open spec fn opt_wire<A>(o: Option<A>, f: spec_fn(A) -> Seq<char>) -> Option<Seq<char>> {
    match o {
        Some(x) => Some(f(x)),
        None => None,
    }
}

/// The members that a query sends, in order, each only when it is set.
pub open spec fn get_pairs(r: PocketGetRequest) -> Seq<(Seq<char>, Seq<char>)> {
    optional_pair("search"@, text_view(r.search))
    + optional_pair("domain"@, text_view(r.domain))
    + optional_pair("tag"@, opt_wire(r.tag, |t: PocketGetTag| t.wire_spec()))
    + optional_pair("state"@, opt_wire(r.state, |s: PocketGetState| s.wire_spec()))
    + optional_pair("contentType"@, opt_wire(r.content_type, |t: PocketGetType| t.wire_spec()))
    + optional_pair("detailType"@, opt_wire(r.detail_type, |d: PocketGetDetail| d.wire_spec()))
    + optional_pair("favorite"@, opt_wire(r.favorite, |b: bool| flag_text(b)))
    + optional_pair("since"@, opt_wire(r.since, |t: Timestamp| signed_decimal(t.seconds as int)))
    + optional_pair("sort"@, opt_wire(r.sort, |s: PocketGetSort| s.wire_spec()))
    + optional_pair("count"@, opt_wire(r.count, |n: usize| decimal(n as nat)))
    + optional_pair("offset"@, opt_wire(r.offset, |n: usize| decimal(n as nat)))
}

impl PocketGetRequest {
    /// A query with no filter set.
    pub fn new() -> (r: PocketGetRequest)
        ensures
            get_pairs(r) == Seq::<(Seq<char>, Seq<char>)>::empty(),
            r.search is None && r.domain is None && r.tag is None && r.state is None,
            r.content_type is None && r.detail_type is None && r.favorite is None,
            r.since is None && r.sort is None && r.count is None && r.offset is None,
    {
        let r = PocketGetRequest {
            search: None,
            domain: None,
            tag: None,
            state: None,
            content_type: None,
            detail_type: None,
            favorite: None,
            since: None,
            sort: None,
            count: None,
            offset: None,
        };
        assert(get_pairs(r) =~= Seq::<(Seq<char>, Seq<char>)>::empty());
        r
    }

    /// Searches titles and URLs for a text.
    pub fn search(self, search: &str) -> (r: PocketGetRequest)
        ensures
            r.search matches Some(s) && s@ == search@,
            r == (PocketGetRequest { search: r.search, ..self }),
    {
        PocketGetRequest { search: Some(String::from_str(search)), ..self }
    }

    /// Keeps items from one domain.
    pub fn domain(self, domain: &str) -> (r: PocketGetRequest)
        ensures
            r.domain matches Some(s) && s@ == domain@,
            r == (PocketGetRequest { domain: r.domain, ..self }),
    {
        PocketGetRequest { domain: Some(String::from_str(domain)), ..self }
    }

    pub fn tag(self, tag: PocketGetTag) -> (r: PocketGetRequest)
        ensures
            r == (PocketGetRequest { tag: Some(tag), ..self }),
    {
        PocketGetRequest { tag: Some(tag), ..self }
    }

    pub fn state(self, state: PocketGetState) -> (r: PocketGetRequest)
        ensures
            r == (PocketGetRequest { state: Some(state), ..self }),
    {
        PocketGetRequest { state: Some(state), ..self }
    }

    pub fn content_type(self, content_type: PocketGetType) -> (r: PocketGetRequest)
        ensures
            r == (PocketGetRequest { content_type: Some(content_type), ..self }),
    {
        PocketGetRequest { content_type: Some(content_type), ..self }
    }

    pub fn detail_type(self, detail_type: PocketGetDetail) -> (r: PocketGetRequest)
        ensures
            r == (PocketGetRequest { detail_type: Some(detail_type), ..self }),
    {
        PocketGetRequest { detail_type: Some(detail_type), ..self }
    }

    pub fn complete(self) -> (r: PocketGetRequest)
        ensures
            r == (PocketGetRequest { detail_type: Some(PocketGetDetail::Complete), ..self }),
    {
        self.detail_type(PocketGetDetail::Complete)
    }

    pub fn simple(self) -> (r: PocketGetRequest)
        ensures
            r == (PocketGetRequest { detail_type: Some(PocketGetDetail::Simple), ..self }),
    {
        self.detail_type(PocketGetDetail::Simple)
    }

    pub fn archived(self) -> (r: PocketGetRequest)
        ensures
            r == (PocketGetRequest { state: Some(PocketGetState::Archive), ..self }),
    {
        self.state(PocketGetState::Archive)
    }

    pub fn unread(self) -> (r: PocketGetRequest)
        ensures
            r == (PocketGetRequest { state: Some(PocketGetState::Unread), ..self }),
    {
        self.state(PocketGetState::Unread)
    }

    pub fn articles(self) -> (r: PocketGetRequest)
        ensures
            r == (PocketGetRequest { content_type: Some(PocketGetType::Article), ..self }),
    {
        self.content_type(PocketGetType::Article)
    }

    pub fn videos(self) -> (r: PocketGetRequest)
        ensures
            r == (PocketGetRequest { content_type: Some(PocketGetType::Video), ..self }),
    {
        self.content_type(PocketGetType::Video)
    }

    pub fn images(self) -> (r: PocketGetRequest)
        ensures
            r == (PocketGetRequest { content_type: Some(PocketGetType::Image), ..self }),
    {
        self.content_type(PocketGetType::Image)
    }

    pub fn favorite(self, fav: bool) -> (r: PocketGetRequest)
        ensures
            r == (PocketGetRequest { favorite: Some(fav), ..self }),
    {
        PocketGetRequest { favorite: Some(fav), ..self }
    }

    pub fn since(self, since: Timestamp) -> (r: PocketGetRequest)
        ensures
            r == (PocketGetRequest { since: Some(since), ..self }),
    {
        PocketGetRequest { since: Some(since), ..self }
    }

    pub fn sort(self, sort: PocketGetSort) -> (r: PocketGetRequest)
        ensures
            r == (PocketGetRequest { sort: Some(sort), ..self }),
    {
        PocketGetRequest { sort: Some(sort), ..self }
    }

    pub fn sort_by_newest(self) -> (r: PocketGetRequest)
        ensures
            r == (PocketGetRequest { sort: Some(PocketGetSort::Newest), ..self }),
    {
        self.sort(PocketGetSort::Newest)
    }

    pub fn sort_by_oldest(self) -> (r: PocketGetRequest)
        ensures
            r == (PocketGetRequest { sort: Some(PocketGetSort::Oldest), ..self }),
    {
        self.sort(PocketGetSort::Oldest)
    }

    pub fn sort_by_title(self) -> (r: PocketGetRequest)
        ensures
            r == (PocketGetRequest { sort: Some(PocketGetSort::Title), ..self }),
    {
        self.sort(PocketGetSort::Title)
    }

    pub fn sort_by_site(self) -> (r: PocketGetRequest)
        ensures
            r == (PocketGetRequest { sort: Some(PocketGetSort::Site), ..self }),
    {
        self.sort(PocketGetSort::Site)
    }

    pub fn offset(self, offset: usize) -> (r: PocketGetRequest)
        ensures
            r == (PocketGetRequest { offset: Some(offset), ..self }),
    {
        PocketGetRequest { offset: Some(offset), ..self }
    }

    pub fn count(self, count: usize) -> (r: PocketGetRequest)
        ensures
            r == (PocketGetRequest { count: Some(count), ..self }),
    {
        PocketGetRequest { count: Some(count), ..self }
    }

    /// Sets both the offset and the count.
    pub fn slice(self, offset: usize, count: usize) -> (r: PocketGetRequest)
        ensures
            r == (PocketGetRequest { offset: Some(offset), count: Some(count), ..self }),
    {
        self.offset(offset).count(count)
    }

}

impl Default for PocketGetRequest {
    fn default() -> (r: PocketGetRequest)
        ensures
            get_pairs(r) == Seq::<(Seq<char>, Seq<char>)>::empty(),
    {
        PocketGetRequest::new()
    }
}

impl WirePairs for PocketGetRequest {
    open spec fn wire(&self) -> Seq<(Seq<char>, Seq<char>)> {
        get_pairs(*self)
    }

    #[verifier::rlimit(40)]
    fn pairs(&self) -> (r: Vec<(String, String)>) {
        let search = match &self.search {
            Some(s) => Some(s.clone()),
            None => None,
        };
        let domain = match &self.domain {
            Some(s) => Some(s.clone()),
            None => None,
        };
        let tag = match &self.tag {
            Some(t) => Some(t.wire_name()),
            None => None,
        };
        let state = match &self.state {
            Some(x) => Some(x.wire_name()),
            None => None,
        };
        let content_type = match &self.content_type {
            Some(x) => Some(x.wire_name()),
            None => None,
        };
        let detail_type = match &self.detail_type {
            Some(x) => Some(x.wire_name()),
            None => None,
        };
        let favorite = match self.favorite {
            Some(b) => Some(bool_to_int(b)),
            None => None,
        };
        let since = match &self.since {
            Some(t) => Some(serialize(t)),
            None => None,
        };
        let sort = match &self.sort {
            Some(x) => Some(x.wire_name()),
            None => None,
        };
        let count = match self.count {
            Some(n) => Some(to_string(n as u64)),
            None => None,
        };
        let offset = match self.offset {
            Some(n) => Some(to_string(n as u64)),
            None => None,
        };
        assert(text_view(search) == text_view(self.search));
        assert(text_view(domain) == text_view(self.domain));
        assert(text_view(tag) == opt_wire(self.tag, |t: PocketGetTag| t.wire_spec()));
        assert(text_view(state) == opt_wire(self.state, |x: PocketGetState| x.wire_spec()));
        assert(text_view(content_type) == opt_wire(
            self.content_type,
            |x: PocketGetType| x.wire_spec(),
        ));
        assert(text_view(detail_type) == opt_wire(
            self.detail_type,
            |x: PocketGetDetail| x.wire_spec(),
        ));
        assert(text_view(favorite) == opt_wire(self.favorite, |b: bool| flag_text(b)));
        assert(text_view(since) == opt_wire(
            self.since,
            |t: Timestamp| signed_decimal(t.seconds as int),
        ));
        assert(text_view(sort) == opt_wire(self.sort, |x: PocketGetSort| x.wire_spec()));
        assert(text_view(count) == opt_wire(self.count, |n: usize| decimal(n as nat)));
        assert(text_view(offset) == opt_wire(self.offset, |n: usize| decimal(n as nat)));
        let mut fs: Vec<(String, String)> = Vec::new();
        assert(pairs_view(fs@) =~= seq![]);
        push_optional(&mut fs, "search", search);
        push_optional(&mut fs, "domain", domain);
        push_optional(&mut fs, "tag", tag);
        push_optional(&mut fs, "state", state);
        push_optional(&mut fs, "contentType", content_type);
        push_optional(&mut fs, "detailType", detail_type);
        push_optional(&mut fs, "favorite", favorite);
        push_optional(&mut fs, "since", since);
        push_optional(&mut fs, "sort", sort);
        push_optional(&mut fs, "count", count);
        push_optional(&mut fs, "offset", offset);
        assert(pairs_view(fs@) =~= get_pairs(*self));
        fs
    }
}

/// The reading state of an item.
#[derive(Debug, PartialEq, Eq, Clone, Copy, Structural)]
pub enum PocketItemStatus {
    Normal,
    Archived,
    Deleted,
}

pub open spec fn item_status_spec(j: Json) -> Result<PocketItemStatus, Expected> {
    if j == Json::Str("0"@) {
        Ok(PocketItemStatus::Normal)
    } else if j == Json::Str("1"@) {
        Ok(PocketItemStatus::Archived)
    } else if j == Json::Str("2"@) {
        Ok(PocketItemStatus::Deleted)
    } else {
        Err(Expected::ZeroOneOrTwo)
    }
}

pub open spec fn status_field_spec(j: Json, key: Seq<char>) -> Result<PocketItemStatus, Expected> {
    crate::fields::required(j, key, item_status_spec(at(j, key)))
}

impl PocketItemStatus {
    /// Decodes `"0"`, `"1"` or `"2"`.
    pub fn decode(v: &Value) -> (r: Result<PocketItemStatus, Expected>)
        ensures
            r == item_status_spec(json_model(*v)),
    {
        match v.as_str() {
            Some(s) => if same_text(s, "0") {
                Ok(PocketItemStatus::Normal)
            } else if same_text(s, "1") {
                Ok(PocketItemStatus::Archived)
            } else if same_text(s, "2") {
                Ok(PocketItemStatus::Deleted)
            } else {
                Err(Expected::ZeroOneOrTwo)
            },
            None => Err(Expected::ZeroOneOrTwo),
        }
    }

    /// A required status member.
    pub fn field(obj: &Value, key: &str) -> (r: Result<PocketItemStatus, DecodeError>)
        ensures
            crate::fields::agrees(r, status_field_spec(json_model(*obj), key@)),
    {
        let v = crate::fields::required_member(obj, key)?;
        match PocketItemStatus::decode(v) {
            Ok(x) => Ok(x),
            Err(e) => Err(crate::fields::field_error(key, e)),
        }
    }
}

/// A tag of an item.
#[derive(Debug, Clone, PartialEq)]
pub struct ItemTag {
    pub item_id: u64,
    pub tag: String,
}

impl FromJson for ItemTag {
    open spec fn decodable(j: Json) -> bool {
        &&& numeral_field_spec(j, "item_id"@, u64::MAX as int) is Ok
        &&& text_field_spec(j, "tag"@) is Ok
    }

    open spec fn decodes_to(j: Json, r: Self) -> bool {
        &&& numeral_field_spec(j, "item_id"@, u64::MAX as int) == Ok::<u64, Expected>(r.item_id)
        &&& text_field_spec(j, "tag"@) == Ok::<Seq<char>, Expected>(r.tag@)
    }

    fn from_json(v: &Value) -> (r: Result<Self, DecodeError>) {
        let item_id = numeral_field(v, "item_id", u64::MAX)?;
        let tag = text_field(v, "tag")?;
        Ok(ItemTag { item_id, tag })
    }
}

/// The lead image of an item.
#[derive(Debug, Clone, PartialEq)]
pub struct ItemImage {
    pub item_id: u64,
    pub src: Option<PocketUrl>,
    pub width: u16,
    pub height: u16,
}

impl FromJson for ItemImage {
    open spec fn decodable(j: Json) -> bool {
        &&& numeral_field_spec(j, "item_id"@, u64::MAX as int) is Ok
        &&& link_field_spec(j, "src"@, false) is Ok
        &&& numeral_field_spec(j, "width"@, u16::MAX as int) is Ok
        &&& numeral_field_spec(j, "height"@, u16::MAX as int) is Ok
    }

    open spec fn decodes_to(j: Json, r: Self) -> bool {
        &&& numeral_field_spec(j, "item_id"@, u64::MAX as int) == Ok::<u64, Expected>(r.item_id)
        &&& link_field_spec(j, "src"@, false) matches Ok(t) && same_link(r.src, t)
        &&& numeral_field_spec(j, "width"@, u16::MAX as int) == Ok::<u64, Expected>(r.width as u64)
        &&& numeral_field_spec(j, "height"@, u16::MAX as int) == Ok::<u64, Expected>(r.height as u64)
    }

    fn from_json(v: &Value) -> (r: Result<Self, DecodeError>) {
        let item_id = numeral_field(v, "item_id", u64::MAX)?;
        let src = link_field(v, "src", false)?;
        let width = numeral_field(v, "width", 65535)? as u16;
        let height = numeral_field(v, "height", 65535)? as u16;
        Ok(ItemImage { item_id, src, width, height })
    }
}

/// What the service knows of an item's site.
#[derive(Debug, Clone, PartialEq)]
pub struct DomainMetaData {
    pub name: Option<String>,
    pub logo: String,
    pub greyscale_logo: String,
}

impl FromJson for DomainMetaData {
    open spec fn decodable(j: Json) -> bool {
        &&& optional_text_field_spec(j, "name"@) is Ok
        &&& text_field_spec(j, "logo"@) is Ok
        &&& text_field_spec(j, "greyscale_logo"@) is Ok
    }

    open spec fn decodes_to(j: Json, r: Self) -> bool {
        &&& optional_text_field_spec(j, "name"@) == Ok::<Option<Seq<char>>, Expected>(text_view(r.name))
        &&& text_field_spec(j, "logo"@) == Ok::<Seq<char>, Expected>(r.logo@)
        &&& text_field_spec(j, "greyscale_logo"@) == Ok::<Seq<char>, Expected>(r.greyscale_logo@)
    }

    fn from_json(v: &Value) -> (r: Result<Self, DecodeError>) {
        let name = optional_text_field(v, "name")?;
        let logo = text_field(v, "logo")?;
        let greyscale_logo = text_field(v, "greyscale_logo")?;
        Ok(DomainMetaData { name, logo, greyscale_logo })
    }
}

/// How the service ran a search.
#[derive(Debug, Clone, PartialEq)]
pub struct PocketSearchMeta {
    pub search_type: String,
}

impl FromJson for PocketSearchMeta {
    open spec fn decodable(j: Json) -> bool {
        text_field_spec(j, "search_type"@) is Ok
    }

    open spec fn decodes_to(j: Json, r: Self) -> bool {
        text_field_spec(j, "search_type"@) == Ok::<Seq<char>, Expected>(r.search_type@)
    }

    fn from_json(v: &Value) -> (r: Result<Self, DecodeError>) {
        let search_type = text_field(v, "search_type")?;
        Ok(PocketSearchMeta { search_type })
    }
}

/// A saved item, as the retrieval returns it.
#[derive(Debug, Clone, PartialEq)]
pub struct PocketItem {
    pub item_id: u64,
    pub given_url: Option<PocketUrl>,
    pub given_title: String,
    pub word_count: Option<String>,
    pub excerpt: Option<String>,
    pub time_added: Timestamp,
    pub time_read: Option<Timestamp>,
    pub time_updated: Timestamp,
    pub time_favorited: Option<Timestamp>,
    pub favorite: bool,
    pub is_index: bool,
    pub is_article: bool,
    pub has_image: Option<PocketItemHas>,
    pub has_video: Option<PocketItemHas>,
    pub resolved_id: u64,
    pub resolved_title: Option<String>,
    pub resolved_url: Option<PocketUrl>,
    pub sort_id: u64,
    pub status: PocketItemStatus,
    pub tags: Option<Vec<ItemTag>>,
    pub images: Option<Vec<PocketImage>>,
    pub videos: Option<Vec<ItemVideo>>,
    pub authors: Option<Vec<ItemAuthor>>,
    pub lang: Option<String>,
    pub time_to_read: Option<u64>,
    pub domain_metadata: Option<DomainMetaData>,
    pub listen_duration_estimate: Option<u64>,
    pub image: Option<ItemImage>,
    pub amp_url: Option<PocketUrl>,
    pub top_image_url: Option<PocketUrl>,
}

/// The members of an item that are simple values decode.
pub open spec fn item_values_decodable(j: Json) -> bool {
    &&& numeral_field_spec(j, "item_id"@, u64::MAX as int) is Ok
    &&& link_field_spec(j, "given_url"@, false) is Ok
    &&& text_field_spec(j, "given_title"@) is Ok
    &&& optional_text_field_spec(j, "word_count"@) is Ok
    &&& optional_text_field_spec(j, "excerpt"@) is Ok
    &&& time_field_spec(j, "time_added"@) is Ok
    &&& optional_time_field_spec(j, "time_read"@) is Ok
    &&& time_field_spec(j, "time_updated"@) is Ok
    &&& optional_time_field_spec(j, "time_favorited"@) is Ok
    &&& crate::fields::flag_field_spec(j, "favorite"@) is Ok
    &&& optional_flag_field_spec(j, "is_index"@) is Ok
    &&& optional_flag_field_spec(j, "is_article"@) is Ok
    &&& crate::optional_has_field_spec(j, "has_image"@) is Ok
    &&& crate::optional_has_field_spec(j, "has_video"@) is Ok
    &&& numeral_field_spec(j, "resolved_id"@, u64::MAX as int) is Ok
    &&& optional_text_field_spec(j, "resolved_title"@) is Ok
    &&& link_field_spec(j, "resolved_url"@, false) is Ok
    &&& integer_field_spec(j, "sort_id"@, u64::MAX as int) is Ok
    &&& status_field_spec(j, "status"@) is Ok
}

/// The members of an item that hold lists or records decode.
pub open spec fn item_parts_decodable(j: Json) -> bool {
    &&& list_decodable::<ItemTag>(j, "tags"@)
    &&& list_decodable::<PocketImage>(j, "images"@)
    &&& list_decodable::<ItemVideo>(j, "videos"@)
    &&& list_decodable::<ItemAuthor>(j, "authors"@)
    &&& optional_text_field_spec(j, "lang"@) is Ok
    &&& optional_integer_field_spec(j, "time_to_read"@) is Ok
    &&& record_decodable::<DomainMetaData>(j, "domain_metadata"@)
    &&& optional_integer_field_spec(j, "listen_duration_estimate"@) is Ok
    &&& record_decodable::<ItemImage>(j, "image"@)
    &&& link_field_spec(j, "amp_url"@, false) is Ok
    &&& link_field_spec(j, "top_image_url"@, false) is Ok
}

pub open spec fn item_values_decode_to(j: Json, r: PocketItem) -> bool {
    &&& numeral_field_spec(j, "item_id"@, u64::MAX as int) == Ok::<u64, Expected>(r.item_id)
    &&& link_field_spec(j, "given_url"@, false) matches Ok(t) && same_link(r.given_url, t)
    &&& text_field_spec(j, "given_title"@) == Ok::<Seq<char>, Expected>(r.given_title@)
    &&& optional_text_field_spec(j, "word_count"@) == Ok::<Option<Seq<char>>, Expected>(
        text_view(r.word_count),
    )
    &&& optional_text_field_spec(j, "excerpt"@) == Ok::<Option<Seq<char>>, Expected>(
        text_view(r.excerpt),
    )
    &&& time_field_spec(j, "time_added"@) == Ok::<Timestamp, Expected>(r.time_added)
    &&& optional_time_field_spec(j, "time_read"@) == Ok::<Option<Timestamp>, Expected>(r.time_read)
    &&& time_field_spec(j, "time_updated"@) == Ok::<Timestamp, Expected>(r.time_updated)
    &&& optional_time_field_spec(j, "time_favorited"@) == Ok::<Option<Timestamp>, Expected>(
        r.time_favorited,
    )
    &&& crate::fields::flag_field_spec(j, "favorite"@) == Ok::<bool, Expected>(r.favorite)
    &&& optional_flag_field_spec(j, "is_index"@) == Ok::<bool, Expected>(r.is_index)
    &&& optional_flag_field_spec(j, "is_article"@) == Ok::<bool, Expected>(r.is_article)
    &&& crate::optional_has_field_spec(j, "has_image"@) == Ok::<Option<PocketItemHas>, Expected>(
        r.has_image,
    )
    &&& crate::optional_has_field_spec(j, "has_video"@) == Ok::<Option<PocketItemHas>, Expected>(
        r.has_video,
    )
    &&& numeral_field_spec(j, "resolved_id"@, u64::MAX as int) == Ok::<u64, Expected>(r.resolved_id)
    &&& optional_text_field_spec(j, "resolved_title"@) == Ok::<Option<Seq<char>>, Expected>(
        text_view(r.resolved_title),
    )
    &&& link_field_spec(j, "resolved_url"@, false) matches Ok(t) && same_link(r.resolved_url, t)
    &&& integer_field_spec(j, "sort_id"@, u64::MAX as int) == Ok::<u64, Expected>(r.sort_id)
    &&& status_field_spec(j, "status"@) == Ok::<PocketItemStatus, Expected>(r.status)
}

pub open spec fn item_parts_decode_to(j: Json, r: PocketItem) -> bool {
    &&& list_decodes_to::<ItemTag>(j, "tags"@, r.tags)
    &&& list_decodes_to::<PocketImage>(j, "images"@, r.images)
    &&& list_decodes_to::<ItemVideo>(j, "videos"@, r.videos)
    &&& list_decodes_to::<ItemAuthor>(j, "authors"@, r.authors)
    &&& optional_text_field_spec(j, "lang"@) == Ok::<Option<Seq<char>>, Expected>(text_view(r.lang))
    &&& optional_integer_field_spec(j, "time_to_read"@) == Ok::<Option<u64>, Expected>(
        r.time_to_read,
    )
    &&& record_decodes_to::<DomainMetaData>(j, "domain_metadata"@, r.domain_metadata)
    &&& optional_integer_field_spec(j, "listen_duration_estimate"@) == Ok::<Option<u64>, Expected>(
        r.listen_duration_estimate,
    )
    &&& record_decodes_to::<ItemImage>(j, "image"@, r.image)
    &&& link_field_spec(j, "amp_url"@, false) matches Ok(t) && same_link(r.amp_url, t)
    &&& link_field_spec(j, "top_image_url"@, false) matches Ok(t) && same_link(r.top_image_url, t)
}

impl FromJson for PocketItem {
    open spec fn decodable(j: Json) -> bool {
        item_values_decodable(j) && item_parts_decodable(j)
    }

    open spec fn decodes_to(j: Json, r: Self) -> bool {
        item_values_decode_to(j, r) && item_parts_decode_to(j, r)
    }

    #[verifier::rlimit(60)]
    fn from_json(v: &Value) -> (r: Result<Self, DecodeError>) {
        let item_id = numeral_field(v, "item_id", u64::MAX)?;
        let given_url = link_field(v, "given_url", false)?;
        let given_title = text_field(v, "given_title")?;
        let word_count = optional_text_field(v, "word_count")?;
        let excerpt = optional_text_field(v, "excerpt")?;
        let time_added = time_field(v, "time_added")?;
        let time_read = optional_time_field(v, "time_read")?;
        let time_updated = time_field(v, "time_updated")?;
        let time_favorited = optional_time_field(v, "time_favorited")?;
        let favorite = crate::fields::flag_field(v, "favorite")?;
        let is_index = optional_flag_field(v, "is_index")?;
        let is_article = optional_flag_field(v, "is_article")?;
        let has_image = crate::optional_has_field(v, "has_image")?;
        let has_video = crate::optional_has_field(v, "has_video")?;
        let resolved_id = numeral_field(v, "resolved_id", u64::MAX)?;
        let resolved_title = optional_text_field(v, "resolved_title")?;
        let resolved_url = link_field(v, "resolved_url", false)?;
        let sort_id = integer_field(v, "sort_id", u64::MAX)?;
        let status = PocketItemStatus::field(v, "status")?;
        let tags = list_field::<ItemTag>(v, "tags")?;
        let images = list_field::<PocketImage>(v, "images")?;
        let videos = list_field::<ItemVideo>(v, "videos")?;
        let authors = list_field::<ItemAuthor>(v, "authors")?;
        let lang = optional_text_field(v, "lang")?;
        let time_to_read = optional_integer_field(v, "time_to_read")?;
        let domain_metadata = record_field::<DomainMetaData>(v, "domain_metadata")?;
        let listen_duration_estimate = optional_integer_field(v, "listen_duration_estimate")?;
        let image = record_field::<ItemImage>(v, "image")?;
        let amp_url = link_field(v, "amp_url", false)?;
        let top_image_url = link_field(v, "top_image_url", false)?;
        let r = PocketItem {
            item_id,
            given_url,
            given_title,
            word_count,
            excerpt,
            time_added,
            time_read,
            time_updated,
            time_favorited,
            favorite,
            is_index,
            is_article,
            has_image,
            has_video,
            resolved_id,
            resolved_title,
            resolved_url,
            sort_id,
            status,
            tags,
            images,
            videos,
            authors,
            lang,
            time_to_read,
            domain_metadata,
            listen_duration_estimate,
            image,
            amp_url,
            top_image_url,
        };
        assert(item_values_decode_to(json_model(*v), r));
        assert(item_parts_decode_to(json_model(*v), r));
        Ok(r)
    }
}

/// The answer to a retrieval.
#[derive(Debug, Clone, PartialEq)]
pub struct PocketGetResponse {
    pub list: Vec<PocketItem>,
    pub status: u16,
    pub complete: bool,
    pub error: Option<String>,
    pub search_meta: PocketSearchMeta,
    pub since: Timestamp,
}

pub open spec fn since_field_spec(j: Json) -> Result<Timestamp, Expected> {
    crate::fields::required(j, "since"@, int_date_spec(at(j, "since"@)))
}

impl FromJson for PocketGetResponse {
    open spec fn decodable(j: Json) -> bool {
        &&& required_list_decodable::<PocketItem>(j, "list"@)
        &&& integer_field_spec(j, "status"@, u16::MAX as int) is Ok
        &&& int_flag_field_spec(j, "complete"@) is Ok
        &&& optional_text_field_spec(j, "error"@) is Ok
        &&& has(j, "search_meta"@) && PocketSearchMeta::decodable(at(j, "search_meta"@))
        &&& since_field_spec(j) is Ok
    }

    open spec fn decodes_to(j: Json, r: Self) -> bool {
        &&& required_list_decodes_to::<PocketItem>(j, "list"@, r.list)
        &&& integer_field_spec(j, "status"@, u16::MAX as int) == Ok::<u64, Expected>(r.status as u64)
        &&& int_flag_field_spec(j, "complete"@) == Ok::<bool, Expected>(r.complete)
        &&& optional_text_field_spec(j, "error"@) == Ok::<Option<Seq<char>>, Expected>(
            text_view(r.error),
        )
        &&& PocketSearchMeta::decodes_to(at(j, "search_meta"@), r.search_meta)
        &&& since_field_spec(j) == Ok::<Timestamp, Expected>(r.since)
    }

    fn from_json(v: &Value) -> (r: Result<Self, DecodeError>) {
        let list = required_list_field::<PocketItem>(v, "list")?;
        let status = integer_field(v, "status", 65535)? as u16;
        let complete = int_flag_field(v, "complete")?;
        let error = optional_text_field(v, "error")?;
        let search_meta = required_record_field::<PocketSearchMeta>(v, "search_meta")?;
        let since_value = crate::fields::required_member(v, "since")?;
        let since = match int_date_unix_timestamp_format(since_value) {
            Ok(t) => t,
            Err(e) => {
                return Err(crate::fields::field_error("since", e));
            },
        };
        Ok(PocketGetResponse { list, status, complete, error, search_meta, since })
    }
}

} // verus!
