//! Framing of request payloads: JSON objects whose members are all strings,
//! and arrays of such objects.
use crate::fields::text_view;
use crate::json::{json_quoted, quote};
use crate::text::joined;
use vstd::prelude::*;

verus! {

/// A request whose payload is a flat list of string members.
pub trait WirePairs {
    /// The members the request sends, in order.
    spec fn wire(&self) -> Seq<(Seq<char>, Seq<char>)>;

    /// The members the request sends, in order.
    fn pairs(&self) -> (r: Vec<(String, String)>)
        ensures
            pairs_view(r@) == self.wire(),
    ;
}

/// The members of a payload, as texts.
pub open spec fn pairs_view(fs: Seq<(String, String)>) -> Seq<(Seq<char>, Seq<char>)> {
    fs.map_values(|f: (String, String)| (f.0@, f.1@))
}

/// A member `"key":"value"`, both quoted as JSON strings.
pub open spec fn member_text(f: (Seq<char>, Seq<char>)) -> Seq<char> {
    json_quoted(f.0) + ":"@ + json_quoted(f.1)
}

/// The JSON object with these string members, in order.
pub open spec fn object_text(fs: Seq<(Seq<char>, Seq<char>)>) -> Seq<char> {
    "{"@ + joined(fs.map_values(|f: (Seq<char>, Seq<char>)| member_text(f)), ","@) + "}"@
}

/// The JSON array of these values, in order.
pub open spec fn array_text(items: Seq<Seq<char>>) -> Seq<char> {
    "["@ + joined(items, ","@) + "]"@
}

/// A member with an optional value: none when the value is absent.
pub open spec fn optional_pair(key: Seq<char>, v: Option<Seq<char>>) -> Seq<(Seq<char>, Seq<char>)> {
    match v {
        Some(x) => seq![(key, x)],
        None => seq![],
    }
}

/// Appends a member whose value may be absent.
pub fn push_optional(fs: &mut Vec<(String, String)>, key: &str, v: Option<String>)
    ensures
        pairs_view(final(fs)@) == pairs_view(old(fs)@) + optional_pair(key@, text_view(v)),
{
    match v {
        Some(x) => {
            fs.push((String::from_str(key), x));
            assert(pairs_view(final(fs)@) =~= pairs_view(old(fs)@) + seq![(key@, x@)]);
        },
        None => {
            assert(pairs_view(final(fs)@) =~= pairs_view(old(fs)@) + seq![]);
        },
    }
}

/// Appends a member.
pub fn push_pair(fs: &mut Vec<(String, String)>, key: &str, v: String)
    ensures
        pairs_view(final(fs)@) == pairs_view(old(fs)@).push((key@, v@)),
{
    fs.push((String::from_str(key), v));
    assert(pairs_view(final(fs)@) =~= pairs_view(old(fs)@).push((key@, v@)));
}

/// Joins texts with commas between each two, inside the given brackets.
fn bracketed(items: &Vec<String>, open: &str, close: &str) -> (r: String)
    ensures
        r@ == open@ + joined(items@.map_values(|s: String| s@), ","@) + close@,
{
    let ghost views = items@.map_values(|s: String| s@);
    let mut out = String::from_str(open);
    let mut i: usize = 0;
    while i < items.len()
        invariant
            i <= items@.len(),
            views == items@.map_values(|s: String| s@),
            out@ == open@ + joined(views.subrange(0, i as int), ","@),
        decreases items.len() - i,
    {
        if i > 0 {
            out.append(",");
        }
        out.append(items[i].as_str());
        proof {
            let pre = views.subrange(0, i as int);
            let next = views.subrange(0, i + 1);
            assert(next.drop_last() =~= pre);
            assert(next.last() == items@[i as int]@);
            if i == 0 {
                assert(pre.len() == 0);
            }
        }
        i = i + 1;
    }
    assert(views.subrange(0, i as int) =~= views);
    out.append(close);
    out
}

/// The JSON object with these string members.
pub fn encode_object(fs: &Vec<(String, String)>) -> (r: String)
    ensures
        r@ == object_text(pairs_view(fs@)),
{
    let mut parts: Vec<String> = Vec::new();
    let mut i: usize = 0;
    while i < fs.len()
        invariant
            i <= fs@.len(),
            parts@.len() == i,
            forall|k: int|
                0 <= k < i ==> (#[trigger] parts@[k])@ == member_text((fs@[k].0@, fs@[k].1@)),
        decreases fs.len() - i,
    {
        let mut m = quote(fs[i].0.as_str());
        m.append(":");
        let v = quote(fs[i].1.as_str());
        m.append(v.as_str());
        parts.push(m);
        i = i + 1;
    }
    let r = bracketed(&parts, "{", "}");
    assert(parts@.map_values(|s: String| s@) =~= pairs_view(fs@).map_values(
        |f: (Seq<char>, Seq<char>)| member_text(f),
    ));
    r
}

/// The JSON array of these encoded values.
pub fn encode_array(items: &Vec<String>) -> (r: String)
    ensures
        r@ == array_text(items@.map_values(|s: String| s@)),
{
    bracketed(items, "[", "]")
}

} // verus!
