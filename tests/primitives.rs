use pocket::fields::decode_all;
use pocket::get::ItemTag;
use pocket::errors::Expected;
use pocket::json::parse_value;
use pocket::serialization::{
    bool_from_int, bool_from_int_string, bool_from_optional_str, bool_to_int, borrow_url,
    deserialize, false_to_unit_variant, from_str, int_date_unix_timestamp_format,
    json_value_to_vec, map_to_vec, option_from_str, option_mime_from_string,
    option_string_date_format, option_string_date_unix_timestamp_format, optional_bool_to_int,
    optional_datetime_to_int, optional_to_string, optional_vec_from_map, serialize, to_string,
    to_comma_delimited_string, true_to_unit_variant, try_url_from_string, untagged_to_str,
    vec_from_map, MediaType, PocketUrl, Timestamp,
};
use pocket::text::{i64_to_decimal, parse_bounded, parse_i64, u64_to_decimal};
use pocket::PocketItemHas;
use serde_json::Value;

fn json(text: &str) -> Value {
    parse_value(text).unwrap()
}

#[test]
fn flag_strings_decode_strictly() {
    assert_eq!(bool_from_int_string(&json(r#""0""#)), Ok(false));
    assert_eq!(bool_from_int_string(&json(r#""1""#)), Ok(true));
    assert_eq!(bool_from_int_string(&json(r#""2""#)), Err(Expected::ZeroOrOne));
    assert_eq!(bool_from_int_string(&json(r#""true""#)), Err(Expected::ZeroOrOne));
    assert_eq!(bool_from_int_string(&json("1")), Err(Expected::Text));
    assert_eq!(PocketItemHas::decode(&json(r#""2""#)), Ok(PocketItemHas::Is));
    assert_eq!(PocketItemHas::decode(&json(r#""1""#)), Ok(PocketItemHas::Yes));
    assert_eq!(PocketItemHas::decode(&json(r#""3""#)), Err(Expected::ZeroOneOrTwo));
}

#[test]
fn flag_numbers_and_optional_flags() {
    assert_eq!(bool_from_int(&json("0")), Ok(false));
    assert_eq!(bool_from_int(&json("1")), Ok(true));
    assert_eq!(bool_from_int(&json("2")), Err(Expected::ZeroOrOne));
    assert_eq!(bool_from_int(&json(r#""1""#)), Err(Expected::ZeroOrOne));
    assert_eq!(bool_from_optional_str(&json("null")), Ok(false));
    assert_eq!(bool_from_optional_str(&json(r#""1""#)), Ok(true));
    assert_eq!(bool_from_optional_str(&json(r#""0""#)), Ok(false));
    assert_eq!(bool_from_optional_str(&json(r#""x""#)), Err(Expected::ZeroOrOne));
    assert_eq!(true_to_unit_variant(&json("true")), Ok(()));
    assert_eq!(true_to_unit_variant(&json("false")), Err(Expected::True));
    assert_eq!(false_to_unit_variant(&json("false")), Ok(()));
    assert_eq!(false_to_unit_variant(&json("0")), Err(Expected::False));
}

#[test]
fn numerals_in_strings() {
    assert_eq!(from_str(&json(r#""648""#), u64::MAX), Ok(648));
    assert_eq!(from_str(&json(r#""+7""#), u64::MAX), Ok(7));
    assert_eq!(from_str(&json(r#""18446744073709551615""#), u64::MAX), Ok(u64::MAX));
    assert_eq!(from_str(&json(r#""18446744073709551616""#), u64::MAX), Err(Expected::Numeral));
    assert_eq!(from_str(&json(r#""65536""#), 65535), Err(Expected::Numeral));
    assert_eq!(from_str(&json(r#""""#), u64::MAX), Err(Expected::Numeral));
    assert_eq!(from_str(&json(r#""-1""#), u64::MAX), Err(Expected::Numeral));
    assert_eq!(from_str(&json(r#""1a""#), u64::MAX), Err(Expected::Numeral));
    assert_eq!(from_str(&json("5"), u64::MAX), Err(Expected::Text));
    assert_eq!(option_from_str(&json(r#""12""#), u64::MAX), Some(12));
    assert_eq!(option_from_str(&json("null"), u64::MAX), None);
    assert_eq!(option_from_str(&json(r#""x""#), u64::MAX), None);
}

#[test]
fn numeral_text_round_trips() {
    assert_eq!(parse_bounded("0000123", 200), Some(123));
    assert_eq!(parse_bounded("+", 200), None);
    assert_eq!(parse_i64("-9223372036854775808"), Some(i64::MIN));
    assert_eq!(parse_i64("9223372036854775807"), Some(i64::MAX));
    assert_eq!(parse_i64("9223372036854775808"), None);
    assert_eq!(parse_i64("-+1"), None);
    assert_eq!(parse_i64("-"), None);
    assert_eq!(u64_to_decimal(0), "0");
    assert_eq!(u64_to_decimal(1234567890), "1234567890");
    assert_eq!(i64_to_decimal(i64::MIN), "-9223372036854775808");
    assert_eq!(i64_to_decimal(-42), "-42");
    for n in [0i64, 7, -7, 1584221353, i64::MAX, i64::MIN] {
        assert_eq!(parse_i64(&i64_to_decimal(n)), Some(n));
    }
}

#[test]
fn timestamps() {
    assert_eq!(int_date_unix_timestamp_format(&json("1584221353")), Ok(Timestamp { seconds: 1584221353 }));
    assert_eq!(int_date_unix_timestamp_format(&json(r#""1""#)), Err(Expected::Integer));
    assert_eq!(deserialize(&json(r#""-3""#)), Ok(Timestamp { seconds: -3 }));
    assert_eq!(deserialize(&json(r#""x""#)), Err(Expected::Numeral));
    assert_eq!(option_string_date_unix_timestamp_format(&json(r#""0""#)), Ok(None));
    assert_eq!(option_string_date_unix_timestamp_format(&json("null")), Ok(None));
    assert_eq!(
        option_string_date_unix_timestamp_format(&json(r#""1584221353""#)),
        Ok(Some(Timestamp { seconds: 1584221353 }))
    );
    assert_eq!(option_string_date_unix_timestamp_format(&json(r#""soon""#)), Err(Expected::Numeral));
    assert_eq!(serialize(&Timestamp { seconds: 1584221353 }), "1584221353");
    assert_eq!(optional_datetime_to_int(&Some(Timestamp { seconds: 9 })), Some("9".to_string()));
    assert_eq!(optional_datetime_to_int(&None), None);
}

#[test]
fn human_dates_and_sentinel() {
    assert_eq!(option_string_date_format(&json(r#""0000-00-00 00:00:00""#)), Ok(None));
    assert_eq!(
        option_string_date_format(&json(r#""2020-03-03 12:20:37""#)),
        Ok(Some(Timestamp { seconds: 1583238037 }))
    );
    assert_eq!(option_string_date_format(&json(r#""2020-13-03 12:20:37""#)), Err(Expected::Date));
    assert_eq!(option_string_date_format(&json(r#""yesterday""#)), Err(Expected::Date));
    assert_eq!(option_string_date_format(&json("null")), Err(Expected::Text));
}

#[test]
fn links_are_normalized_or_absent() {
    let parsed = try_url_from_string(&json(r#""https:example.com""#)).unwrap().unwrap();
    assert_eq!(borrow_url(&parsed), "https://example.com/");
    assert_eq!(try_url_from_string(&json(r#""""#)), Ok(None));
    assert_eq!(try_url_from_string(&json(r#""not a url""#)), Ok(None));
    assert_eq!(try_url_from_string(&json("null")), Ok(None));
    assert_eq!(try_url_from_string(&json("3")), Err(Expected::Text));
    assert_eq!(PocketUrl::parse("HTTP://Example.COM/a b").unwrap().as_str(), "http://example.com/a%20b");
}

#[test]
fn media_types() {
    let m = option_mime_from_string(&json(r#""text/html""#)).unwrap();
    assert_eq!(m, MediaType::parse("text/html"));
    assert_eq!(m.unwrap().as_str(), "text/html");
    let upper = option_mime_from_string(&json(r#""Text/HTML; charset=utf-8""#)).unwrap().unwrap();
    assert_eq!(upper.as_str(), "text/html; charset=utf-8");
    assert_eq!(option_mime_from_string(&json(r#""text""#)), Err(Expected::MediaType));
    assert_eq!(option_mime_from_string(&json(r#""""#)), Ok(None));
    assert_eq!(option_mime_from_string(&json("null")), Ok(None));
    assert_eq!(option_mime_from_string(&json(r#""not a type""#)), Err(Expected::MediaType));
}

#[test]
fn lists_as_arrays_or_maps() {
    assert_eq!(json_value_to_vec(&json("[]")).unwrap().len(), 0);
    assert_eq!(json_value_to_vec(&json("{}")).unwrap().len(), 0);
    let v = json(r#"{"3":"c","1":"a","2":"b"}"#);
    let items = json_value_to_vec(&v).unwrap();
    let texts: Vec<&str> = items.iter().map(|x| x.as_str().unwrap()).collect();
    assert_eq!(texts, vec!["a", "b", "c"]);
    let a = json(r#"["x","y"]"#);
    assert_eq!(vec_from_map(&a).unwrap().len(), 2);
    assert_eq!(json_value_to_vec(&json("5")), Err(Expected::ListOrMap));
    assert_eq!(optional_vec_from_map(&json("null")), Ok(None));
    assert_eq!(optional_vec_from_map(&json("{}")).unwrap().map(|x| x.len()), Some(0));
    assert_eq!(map_to_vec(vec![("1".to_string(), 10), ("3".to_string(), 30)]), vec![10, 30]);
}

#[test]
fn encoders() {
    assert_eq!(bool_to_int(true), "1");
    assert_eq!(bool_to_int(false), "0");
    assert_eq!(optional_bool_to_int(Some(true)), Some("1".to_string()));
    assert_eq!(optional_bool_to_int(None), None);
    assert_eq!(to_string(42), "42");
    assert_eq!(optional_to_string(Some(0)), Some("0".to_string()));
    assert_eq!(optional_to_string(None), None);
    assert_eq!(to_comma_delimited_string(Some(&["a", "b"])), Some("a,b".to_string()));
    assert_eq!(to_comma_delimited_string(Some(&[])), Some("".to_string()));
    assert_eq!(to_comma_delimited_string(None), None);
    assert_eq!(untagged_to_str(), "_untagged_");
}

#[test]
fn map_list_of_tags_in_key_order() {
    let v = json(r#"{"3":{"item_id":"7","tag":"x"},"1":{"item_id":"7","tag":"y"}}"#);
    let values = json_value_to_vec(&v).unwrap();
    let tags: Vec<ItemTag> = decode_all(&values).unwrap();
    assert_eq!(
        tags,
        vec![
            ItemTag { item_id: 7, tag: "y".to_string() },
            ItemTag { item_id: 7, tag: "x".to_string() },
        ]
    );
}
