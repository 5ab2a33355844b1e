//! Properties that tie the encoders and decoders together.
use crate::add::{add_pairs, tags_text, PocketAddRequest};
use crate::errors::Expected;
use crate::fields::{list_field_spec, text_spec, text_view};
use crate::get::{get_pairs, PocketGetRequest};
use crate::json::{key_less, keys_ascending, member_of, Json};
use crate::serialization::{
    bool_from_int_spec, bool_from_int_string_spec, bool_from_optional_str_spec, date_seconds,
    flag_text, from_str_spec, list_spec, option_string_date_format_spec, optional_list_spec,
    string_date_spec, Timestamp, FORMAT, NO_DATE,
};
use crate::text::{
    all_digits, bounded_numeral, decimal, digit_char, digits_value, i64_numeral, is_digit,
    signed_decimal,
};
use crate::wire::optional_pair;
use crate::{item_has_spec, PocketItemHas};
use vstd::prelude::*;

verus! {

proof fn lemma_digit_char(d: int)
    requires
        0 <= d < 10,
    ensures
        is_digit(digit_char(d)),
        (digit_char(d) as u32) as int - 48 == d,
{
    let t = seq!['0', '1', '2', '3', '4', '5', '6', '7', '8', '9'];
    assert(t[d] == digit_char(d));
    if d == 0 {
    } else if d == 1 {
    } else if d == 2 {
    } else if d == 3 {
    } else if d == 4 {
    } else if d == 5 {
    } else if d == 6 {
    } else if d == 7 {
    } else if d == 8 {
    } else {
    }
}

/// A decimal numeral is a non-empty run of digits whose value is the number.
proof fn lemma_decimal(n: nat)
    ensures
        decimal(n).len() > 0,
        all_digits(decimal(n)),
        digits_value(decimal(n)) == n,
    decreases n,
{
    if n < 10 {
        lemma_digit_char(n as int);
        assert(decimal(n).drop_last() =~= Seq::<char>::empty());
        assert(digits_value(Seq::<char>::empty()) == 0);
        assert(decimal(n).last() == digit_char(n as int));
    } else {
        lemma_decimal(n / 10);
        lemma_digit_char((n % 10) as int);
        let s = decimal(n);
        assert(s.drop_last() =~= decimal(n / 10));
        assert(s.last() == digit_char((n % 10) as int));
        assert((n / 10) * 10 + n % 10 == n);
        assert forall|i: int| 0 <= i < s.len() implies is_digit(#[trigger] s[i]) by {
            if i < s.len() - 1 {
                assert(s[i] == decimal(n / 10)[i]);
            }
        }
    }
}

/// The numeral of a natural number reads back as that number.
pub proof fn decimal_round_trip(n: nat, max: int)
    requires
        n <= max,
    ensures
        bounded_numeral(decimal(n), max) == Some(n as int),
{
    lemma_decimal(n);
    assert(!is_digit('+'));
    assert(decimal(n)[0] != '+');
}

/// The signed numeral of an `i64` reads back as that number.
pub proof fn signed_decimal_round_trip(t: i64)
    ensures
        i64_numeral(signed_decimal(t as int)) == Some(t as int),
{
    if t < 0 {
        let m = (-(t as int)) as nat;
        lemma_decimal(m);
        let s = signed_decimal(t as int);
        assert(s.drop_first() =~= decimal(m));
    } else {
        lemma_decimal(t as nat);
        assert(!is_digit('+'));
        assert(!is_digit('-'));
        assert(decimal(t as nat)[0] != '-');
        assert(decimal(t as nat)[0] != '+');
    }
}

/// The flag decoders: `"0"` is false, `"1"` is true, and any other text is
/// refused; the numeric one reads `0` and `1` alike. `"2"` is refused as a
/// flag, though it is a valid media indicator.
pub proof fn flag_sentinels(s: Seq<char>, n: int)
    ensures
        bool_from_int_string_spec(Json::Str("0"@)) == Ok::<bool, Expected>(false),
        bool_from_int_string_spec(Json::Str("1"@)) == Ok::<bool, Expected>(true),
        s != "0"@ && s != "1"@ ==> bool_from_int_string_spec(Json::Str(s)) is Err,
        bool_from_optional_str_spec(Json::Str("0"@)) == Ok::<bool, Expected>(false),
        bool_from_optional_str_spec(Json::Str("1"@)) == Ok::<bool, Expected>(true),
        s != "0"@ && s != "1"@ ==> bool_from_optional_str_spec(Json::Str(s)) is Err,
        bool_from_int_spec(Json::Int(0)) == Ok::<bool, Expected>(false),
        bool_from_int_spec(Json::Int(1)) == Ok::<bool, Expected>(true),
        n != 0 && n != 1 ==> bool_from_int_spec(Json::Int(n)) is Err,
        bool_from_int_string_spec(Json::Str("2"@)) is Err,
        item_has_spec(Json::Str("2"@)) == Ok::<PocketItemHas, Expected>(PocketItemHas::Is),
{
    reveal_strlit("0");
    reveal_strlit("1");
    reveal_strlit("2");
    assert("0"@[0] != "1"@[0]);
    assert("2"@[0] != "0"@[0]);
    assert("2"@[0] != "1"@[0]);
}

/// A query with every filter set sends them all, in order, and its favorite
/// flag, since time, count and offset read back, with the matching decoders,
/// as the values set.
pub proof fn get_request_round_trip(r: PocketGetRequest)
    requires
        r.search is Some && r.domain is Some && r.tag is Some && r.state is Some,
        r.content_type is Some && r.detail_type is Some && r.favorite is Some,
        r.since is Some && r.sort is Some && r.count is Some && r.offset is Some,
    ensures
        get_pairs(r).len() == 11,
        get_pairs(r)[0].0 == "search"@ && text_spec(Json::Str(get_pairs(r)[0].1))
            == Ok::<Seq<char>, Expected>(r.search->Some_0@),
        get_pairs(r)[1].0 == "domain"@ && text_spec(Json::Str(get_pairs(r)[1].1))
            == Ok::<Seq<char>, Expected>(r.domain->Some_0@),
        get_pairs(r)[6].0 == "favorite"@ && bool_from_int_string_spec(Json::Str(get_pairs(r)[6].1))
            == Ok::<bool, Expected>(r.favorite->Some_0),
        get_pairs(r)[7].0 == "since"@ && string_date_spec(Json::Str(get_pairs(r)[7].1)) == Ok::<
            Timestamp,
            Expected,
        >(r.since->Some_0),
        get_pairs(r)[9].0 == "count"@ && from_str_spec(
            Json::Str(get_pairs(r)[9].1),
            usize::MAX as int,
        ) == Ok::<u64, Expected>(r.count->Some_0 as u64),
        get_pairs(r)[10].0 == "offset"@ && from_str_spec(
            Json::Str(get_pairs(r)[10].1),
            usize::MAX as int,
        ) == Ok::<u64, Expected>(r.offset->Some_0 as u64),
{
    let p = get_pairs(r);
    let since = r.since->Some_0;
    reveal_strlit("0");
    reveal_strlit("1");
    assert("0"@[0] != "1"@[0]);
    signed_decimal_round_trip(since.seconds);
    decimal_round_trip(r.count->Some_0 as nat, usize::MAX as int);
    decimal_round_trip(r.offset->Some_0 as nat, usize::MAX as int);
    assert(p[6].1 == flag_text(r.favorite->Some_0));
    assert(p[7].1 == signed_decimal(since.seconds as int));
    assert(p[9].1 == decimal(r.count->Some_0 as nat));
    assert(p[10].1 == decimal(r.offset->Some_0 as nat));
}

/// Lists sent as an array or as an object: an empty array and an empty object
/// are both the empty list; an object gives its values in member order, so
/// that when its keys ascend (as `json_value_to_vec` ensures of a parsed
/// object) the value under a smaller key comes first; and an optional list
/// that is missing or `null` is absent, which differs from an empty list.
pub proof fn list_shapes(j: Json, key: Seq<char>, ms: Seq<(Seq<char>, Json)>)
    ensures
        keys_ascending(ms) ==> forall|a: int, b: int|
            0 <= a < b < ms.len() ==> key_less(#[trigger] ms[a].0, #[trigger] ms[b].0)
                && list_spec(Json::Object(ms))->Ok_0[a] == ms[a].1 && list_spec(
                Json::Object(ms),
            )->Ok_0[b] == ms[b].1,
        list_spec(Json::Array(Seq::empty())) == Ok::<Seq<Json>, Expected>(Seq::empty()),
        list_spec(Json::Object(Seq::empty())) == Ok::<Seq<Json>, Expected>(Seq::empty()),
        list_spec(Json::Object(ms)) == Ok::<Seq<Json>, Expected>(
            ms.map_values(|m: (Seq<char>, Json)| m.1),
        ),
        optional_list_spec(Json::Null) == Ok::<Option<Seq<Json>>, Expected>(None),
        optional_list_spec(Json::Object(Seq::empty())) == Ok::<Option<Seq<Json>>, Expected>(
            Some(Seq::empty()),
        ),
        member_of(j, key) is None ==> list_field_spec(j, key) == Ok::<
            Option<Seq<Json>>,
            Expected,
        >(None),
        Ok::<Option<Seq<Json>>, Expected>(None) != Ok::<Option<Seq<Json>>, Expected>(
            Some(Seq::empty()),
        ),
{
    assert(Seq::<(Seq<char>, Json)>::empty().map_values(|m: (Seq<char>, Json)| m.1) =~= Seq::<
        Json,
    >::empty());
}

/// The no-date sentinel decodes to no date; any other text is the date it
/// reads as with the `YYYY-MM-DD HH:MM:SS` layout, and is refused when it
/// does not read as one.
pub proof fn date_sentinel(s: Seq<char>, n: int)
    ensures
        option_string_date_format_spec(Json::Str(NO_DATE@)) == Ok::<Option<Timestamp>, Expected>(
            None,
        ),
        s != NO_DATE@ && date_seconds(s, FORMAT@) is None ==> option_string_date_format_spec(
            Json::Str(s),
        ) == Err::<Option<Timestamp>, Expected>(Expected::Date),
        s != NO_DATE@ && date_seconds(s, FORMAT@) == Some(n) && i64::MIN <= n <= i64::MAX
            ==> option_string_date_format_spec(Json::Str(s)) == Ok::<Option<Timestamp>, Expected>(
            Some(Timestamp { seconds: n as i64 }),
        ),
{
}

/// An add request sends the URL, then the title, the tags joined by commas
/// and the tweet id, each only when it is set, and nothing else.
pub proof fn add_request_members(r: PocketAddRequest)
    ensures
        add_pairs(r) == seq![("url"@, r.url@)] + optional_pair("title"@, text_view(r.title))
            + optional_pair("tags"@, tags_text(r.tags)) + optional_pair(
            "tweet_id"@,
            text_view(r.tweet_id),
        ),
        r.title is None && r.tags is None && r.tweet_id is None ==> add_pairs(r) == seq![
            ("url"@, r.url@),
        ],
        r.title is Some && r.tags is Some && r.tweet_id is Some ==> add_pairs(r) == seq![
            ("url"@, r.url@),
            ("title"@, r.title->Some_0@),
            ("tags"@, tags_text(r.tags)->Some_0),
            ("tweet_id"@, r.tweet_id->Some_0@),
        ],
{
    assert(r.title is None && r.tags is None && r.tweet_id is None ==> add_pairs(r) =~= seq![
        ("url"@, r.url@),
    ]);
    assert(r.title is Some && r.tags is Some && r.tweet_id is Some ==> add_pairs(r) =~= seq![
        ("url"@, r.url@),
        ("title"@, r.title->Some_0@),
        ("tags"@, tags_text(r.tags)->Some_0),
        ("tweet_id"@, r.tweet_id->Some_0@),
    ]);
}

} // verus!
