//! Batches of changes to saved items, and the service's answer to a batch.
use crate::add::PocketAddedItem;
use crate::errors::{DecodeError, Expected};
use crate::fields::{
    array_decodable, array_decodes_to, array_field, integer_field, integer_field_spec,
    text_field, text_field_spec, text_view, FromJson,
};
use crate::json::Json;
use crate::serialization::{false_to_unit_variant, to_string, true_to_unit_variant, PocketUrl};
use crate::text::decimal;
use crate::wire::{
    array_text, encode_array, encode_object, object_text, optional_pair, pairs_view,
    push_optional, push_pair,
};
use serde_json::Value;
use vstd::prelude::*;

verus! {

/// One change in a batch. Each names the item it changes, but for the
/// renaming and deletion of a tag, which name tags.
#[derive(Debug, Clone, PartialEq)]
pub enum PocketSendAction {
    Add {
        item_id: Option<u64>,
        ref_id: Option<String>,
        tags: Option<String>,
        time: Option<u64>,
        title: Option<String>,
        url: Option<PocketUrl>,
    },
    Archive { item_id: u64, time: Option<u64> },
    Readd { item_id: u64, time: Option<u64> },
    Favorite { item_id: u64, time: Option<u64> },
    Unfavorite { item_id: u64, time: Option<u64> },
    Delete { item_id: u64, time: Option<u64> },
    TagsAdd { item_id: u64, tags: String, time: Option<u64> },
    TagsRemove { item_id: u64, tags: String, time: Option<u64> },
    TagsReplace { item_id: u64, tags: String, time: Option<u64> },
    TagsClear { item_id: u64, time: Option<u64> },
    TagRename { old_tag: String, new_tag: String, time: Option<u64> },
    TagDelete { tag: String, time: Option<u64> },
}

pub open spec fn opt_decimal(n: Option<u64>) -> Option<Seq<char>> {
    match n {
        Some(x) => Some(decimal(x as nat)),
        None => None,
    }
}

pub open spec fn link_text(u: Option<PocketUrl>) -> Option<Seq<char>> {
    match u {
        Some(x) => Some(x@),
        None => None,
    }
}

/// An action on one item: its name, the item, then its time when set.
pub open spec fn item_action_pairs(name: Seq<char>, item_id: u64, time: Option<u64>) -> Seq<
    (Seq<char>, Seq<char>),
> {
    seq![("action"@, name), ("item_id"@, decimal(item_id as nat))] + optional_pair(
        "time"@,
        opt_decimal(time),
    )
}

/// An action on the tags of one item.
pub open spec fn tags_action_pairs(
    name: Seq<char>,
    item_id: u64,
    tags: Seq<char>,
    time: Option<u64>,
) -> Seq<(Seq<char>, Seq<char>)> {
    seq![("action"@, name), ("item_id"@, decimal(item_id as nat)), ("tags"@, tags)] + optional_pair(
        "time"@,
        opt_decimal(time),
    )
}

/// The members an action sends, in order: the action's name first, then its
/// fields, each optional one only when set.
pub open spec fn action_pairs(a: PocketSendAction) -> Seq<(Seq<char>, Seq<char>)> {
    match a {
        PocketSendAction::Add { item_id, ref_id, tags, time, title, url } => seq![
            ("action"@, "add"@),
        ] + optional_pair("item_id"@, opt_decimal(item_id)) + optional_pair(
            "ref_id"@,
            text_view(ref_id),
        ) + optional_pair("tags"@, text_view(tags)) + optional_pair("time"@, opt_decimal(time))
            + optional_pair("title"@, text_view(title)) + optional_pair("url"@, link_text(url)),
        PocketSendAction::Archive { item_id, time } => item_action_pairs("archive"@, item_id, time),
        PocketSendAction::Readd { item_id, time } => item_action_pairs("readd"@, item_id, time),
        PocketSendAction::Favorite { item_id, time } => item_action_pairs(
            "favorite"@,
            item_id,
            time,
        ),
        PocketSendAction::Unfavorite { item_id, time } => item_action_pairs(
            "unfavorite"@,
            item_id,
            time,
        ),
        PocketSendAction::Delete { item_id, time } => item_action_pairs("delete"@, item_id, time),
        PocketSendAction::TagsAdd { item_id, tags, time } => tags_action_pairs(
            "tags_add"@,
            item_id,
            tags@,
            time,
        ),
        PocketSendAction::TagsRemove { item_id, tags, time } => tags_action_pairs(
            "tags_remove"@,
            item_id,
            tags@,
            time,
        ),
        PocketSendAction::TagsReplace { item_id, tags, time } => tags_action_pairs(
            "tags_replace"@,
            item_id,
            tags@,
            time,
        ),
        PocketSendAction::TagsClear { item_id, time } => item_action_pairs(
            "tags_clear"@,
            item_id,
            time,
        ),
        PocketSendAction::TagRename { old_tag, new_tag, time } => seq![
            ("action"@, "tag_rename"@),
            ("old_tag"@, old_tag@),
            ("new_tag"@, new_tag@),
        ] + optional_pair("time"@, opt_decimal(time)),
        PocketSendAction::TagDelete { tag, time } => seq![("action"@, "tag_delete"@), ("tag"@, tag@)]
            + optional_pair("time"@, opt_decimal(time)),
    }
}

fn optional_decimal(n: Option<u64>) -> (r: Option<String>)
    ensures
        text_view(r) == opt_decimal(n),
{
    match n {
        Some(x) => Some(to_string(x)),
        None => None,
    }
}

fn optional_copy(s: &Option<String>) -> (r: Option<String>)
    ensures
        text_view(r) == text_view(*s),
{
    match s {
        Some(x) => Some(x.clone()),
        None => None,
    }
}

fn item_action(name: &str, item_id: u64, time: Option<u64>) -> (r: Vec<(String, String)>)
    ensures
        pairs_view(r@) == item_action_pairs(name@, item_id, time),
{
    let mut fs: Vec<(String, String)> = Vec::new();
    assert(pairs_view(fs@) =~= seq![]);
    push_pair(&mut fs, "action", String::from_str(name));
    push_pair(&mut fs, "item_id", to_string(item_id));
    push_optional(&mut fs, "time", optional_decimal(time));
    assert(pairs_view(fs@) =~= item_action_pairs(name@, item_id, time));
    fs
}

fn tags_action(name: &str, item_id: u64, tags: &String, time: Option<u64>) -> (r: Vec<
    (String, String),
>)
    ensures
        pairs_view(r@) == tags_action_pairs(name@, item_id, tags@, time),
{
    let mut fs: Vec<(String, String)> = Vec::new();
    assert(pairs_view(fs@) =~= seq![]);
    push_pair(&mut fs, "action", String::from_str(name));
    push_pair(&mut fs, "item_id", to_string(item_id));
    push_pair(&mut fs, "tags", tags.clone());
    push_optional(&mut fs, "time", optional_decimal(time));
    assert(pairs_view(fs@) =~= tags_action_pairs(name@, item_id, tags@, time));
    fs
}

impl PocketSendAction {
    /// The members this action sends, in order.
    pub fn pairs(&self) -> (r: Vec<(String, String)>)
        ensures
            pairs_view(r@) == action_pairs(*self),
    {
        match self {
            PocketSendAction::Add { item_id, ref_id, tags, time, title, url } => {
                let u = match url {
                    Some(x) => Some(String::from_str(x.as_str())),
                    None => None,
                };
                let mut fs: Vec<(String, String)> = Vec::new();
                assert(pairs_view(fs@) =~= seq![]);
                push_pair(&mut fs, "action", String::from_str("add"));
                push_optional(&mut fs, "item_id", optional_decimal(*item_id));
                push_optional(&mut fs, "ref_id", optional_copy(ref_id));
                push_optional(&mut fs, "tags", optional_copy(tags));
                push_optional(&mut fs, "time", optional_decimal(*time));
                push_optional(&mut fs, "title", optional_copy(title));
                push_optional(&mut fs, "url", u);
                assert(pairs_view(fs@) =~= action_pairs(*self));
                fs
            },
            PocketSendAction::Archive { item_id, time } => item_action("archive", *item_id, *time),
            PocketSendAction::Readd { item_id, time } => item_action("readd", *item_id, *time),
            PocketSendAction::Favorite { item_id, time } => item_action(
                "favorite",
                *item_id,
                *time,
            ),
            PocketSendAction::Unfavorite { item_id, time } => item_action(
                "unfavorite",
                *item_id,
                *time,
            ),
            PocketSendAction::Delete { item_id, time } => item_action("delete", *item_id, *time),
            PocketSendAction::TagsAdd { item_id, tags, time } => tags_action(
                "tags_add",
                *item_id,
                tags,
                *time,
            ),
            PocketSendAction::TagsRemove { item_id, tags, time } => tags_action(
                "tags_remove",
                *item_id,
                tags,
                *time,
            ),
            PocketSendAction::TagsReplace { item_id, tags, time } => tags_action(
                "tags_replace",
                *item_id,
                tags,
                *time,
            ),
            PocketSendAction::TagsClear { item_id, time } => item_action(
                "tags_clear",
                *item_id,
                *time,
            ),
            PocketSendAction::TagRename { old_tag, new_tag, time } => {
                let mut fs: Vec<(String, String)> = Vec::new();
                assert(pairs_view(fs@) =~= seq![]);
                push_pair(&mut fs, "action", String::from_str("tag_rename"));
                push_pair(&mut fs, "old_tag", old_tag.clone());
                push_pair(&mut fs, "new_tag", new_tag.clone());
                push_optional(&mut fs, "time", optional_decimal(*time));
                assert(pairs_view(fs@) =~= action_pairs(*self));
                fs
            },
            PocketSendAction::TagDelete { tag, time } => {
                let mut fs: Vec<(String, String)> = Vec::new();
                assert(pairs_view(fs@) =~= seq![]);
                push_pair(&mut fs, "action", String::from_str("tag_delete"));
                push_pair(&mut fs, "tag", tag.clone());
                push_optional(&mut fs, "time", optional_decimal(*time));
                assert(pairs_view(fs@) =~= action_pairs(*self));
                fs
            },
        }
    }
}

/// A batch of changes, applied in order.
#[derive(Debug, Clone)]
pub struct PocketSendRequest {
    pub actions: Vec<PocketSendAction>,
}

/// The JSON text of a batch: an array of one object per action.
pub open spec fn actions_text(actions: Seq<PocketSendAction>) -> Seq<char> {
    array_text(actions.map_values(|a: PocketSendAction| object_text(action_pairs(a))))
}

impl PocketSendRequest {
    /// The batch as the JSON array the service takes.
    pub fn actions_json(&self) -> (r: String)
        ensures
            r@ == actions_text(self.actions@),
    {
        let mut items: Vec<String> = Vec::new();
        let mut i: usize = 0;
        while i < self.actions.len()
            invariant
                i <= self.actions@.len(),
                items@.len() == i,
                forall|k: int|
                    0 <= k < i ==> (#[trigger] items@[k])@ == object_text(
                        action_pairs(self.actions@[k]),
                    ),
            decreases self.actions.len() - i,
        {
            let fs = self.actions[i].pairs();
            items.push(encode_object(&fs));
            i = i + 1;
        }
        assert(items@.map_values(|s: String| s@) =~= self.actions@.map_values(
            |a: PocketSendAction| object_text(action_pairs(a)),
        ));
        encode_array(&items)
    }
}

/// The outcome of one action.
#[derive(Debug, Clone, PartialEq)]
pub enum SendActionResult {
    Success,
    Failure,
    Add(Box<PocketAddedItem>),
}

impl FromJson for SendActionResult {
    open spec fn decodable(j: Json) -> bool {
        j == Json::Bool(true) || j == Json::Bool(false) || PocketAddedItem::decodable(j)
    }

    open spec fn decodes_to(j: Json, r: Self) -> bool {
        match r {
            SendActionResult::Success => j == Json::Bool(true),
            SendActionResult::Failure => j == Json::Bool(false),
            SendActionResult::Add(item) => !(j is Bool) && PocketAddedItem::decodes_to(j, *item),
        }
    }

    fn from_json(v: &Value) -> (r: Result<Self, DecodeError>) {
        if true_to_unit_variant(v).is_ok() {
            return Ok(SendActionResult::Success);
        }
        if false_to_unit_variant(v).is_ok() {
            return Ok(SendActionResult::Failure);
        }
        if v.as_bool().is_some() {
            return Err(DecodeError::Shape(Expected::ActionResult));
        }
        match PocketAddedItem::from_json(v) {
            Ok(item) => Ok(SendActionResult::Add(Box::new(item))),
            Err(_) => Err(DecodeError::Shape(Expected::ActionResult)),
        }
    }
}

/// Why one action failed.
#[derive(Debug, Clone, PartialEq)]
pub struct SendActionError {
    pub code: u16,
    pub message: String,
    pub error_type: String,
}

impl FromJson for SendActionError {
    open spec fn decodable(j: Json) -> bool {
        &&& integer_field_spec(j, "code"@, u16::MAX as int) is Ok
        &&& text_field_spec(j, "message"@) is Ok
        &&& text_field_spec(j, "type"@) is Ok
    }

    open spec fn decodes_to(j: Json, r: Self) -> bool {
        &&& integer_field_spec(j, "code"@, u16::MAX as int) == Ok::<u64, Expected>(r.code as u64)
        &&& text_field_spec(j, "message"@) == Ok::<Seq<char>, Expected>(r.message@)
        &&& text_field_spec(j, "type"@) == Ok::<Seq<char>, Expected>(r.error_type@)
    }

    fn from_json(v: &Value) -> (r: Result<Self, DecodeError>) {
        let code = integer_field(v, "code", 65535)? as u16;
        let message = text_field(v, "message")?;
        let error_type = text_field(v, "type")?;
        Ok(SendActionError { code, message, error_type })
    }
}

/// The answer to a batch: one result per action, and beside it, at the same
/// position, the error of each action that failed.
#[derive(Debug, Clone, PartialEq)]
pub struct PocketSendResponse {
    pub status: u16,
    pub action_results: Vec<SendActionResult>,
    pub action_errors: Vec<Option<SendActionError>>,
}

impl FromJson for PocketSendResponse {
    open spec fn decodable(j: Json) -> bool {
        &&& integer_field_spec(j, "status"@, u16::MAX as int) is Ok
        &&& array_decodable::<SendActionResult>(j, "action_results"@)
        &&& array_decodable::<Option<SendActionError>>(j, "action_errors"@)
    }

    open spec fn decodes_to(j: Json, r: Self) -> bool {
        &&& integer_field_spec(j, "status"@, u16::MAX as int) == Ok::<u64, Expected>(r.status as u64)
        &&& array_decodes_to::<SendActionResult>(j, "action_results"@, r.action_results)
        &&& array_decodes_to::<Option<SendActionError>>(j, "action_errors"@, r.action_errors)
    }

    fn from_json(v: &Value) -> (r: Result<Self, DecodeError>) {
        let status = integer_field(v, "status", 65535)? as u16;
        let action_results = array_field::<SendActionResult>(v, "action_results")?;
        let action_errors = array_field::<Option<SendActionError>>(v, "action_errors")?;
        Ok(PocketSendResponse { status, action_results, action_errors })
    }
}

} // verus!
