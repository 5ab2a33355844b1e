use pocket::add::{PocketAddResponse, PocketAddedItem};
use pocket::auth::{PocketAuthentication, PocketAuthorizeResponse, PocketOAuthResponse};
use pocket::client::read_response;
use pocket::errors::{DecodeError, Expected, PocketError};
use pocket::fields::FromJson;
use pocket::get::{ItemImage, PocketGetResponse, PocketItemStatus, PocketSearchMeta};
use pocket::json::parse_value;
use pocket::send::{PocketSendResponse, SendActionError, SendActionResult};
use pocket::serialization::{MediaType, PocketUrl, Timestamp};
use pocket::PocketItemHas;

const EXCERPT: &str = "This domain is for use in illustrative examples in documents. You may use this domain in literature without prior coordination or asking for permission. More information...";

fn decode<T: FromJson>(text: &str) -> Result<T, DecodeError> {
    let value = parse_value(text).unwrap();
    T::from_json(&value)
}

fn url(s: &str) -> PocketUrl {
    PocketUrl::parse(s).unwrap()
}

#[test]
fn test_deserialize_add_response_resolved_url() {
    let expected = PocketAddResponse {
        item: PocketAddedItem {
            item_id: 2763821,
            normal_url: url("http://example.com"),
            resolved_id: 2763821,
            extended_item_id: 2763821,
            resolved_url: PocketUrl::parse("https://example.com"),
            domain_id: 85964,
            origin_domain_id: 51347065,
            response_code: 200,
            mime_type: MediaType::parse("text/html"),
            content_length: 648,
            encoding: "utf-8".to_string(),
            date_resolved: Some(Timestamp { seconds: 1583238037 }),
            date_published: None,
            title: "Example Domain".to_string(),
            excerpt: EXCERPT.to_string(),
            word_count: 28,
            innerdomain_redirect: true,
            login_required: false,
            has_image: PocketItemHas::No,
            has_video: PocketItemHas::No,
            is_index: true,
            is_article: false,
            used_fallback: true,
            lang: Some("".to_string()),
            time_first_parsed: None,
            authors: Some(vec![]),
            images: Some(vec![]),
            videos: Some(vec![]),
            resolved_normal_url: PocketUrl::parse("http://example.com"),
            given_url: url("https://example.com"),
        },
        status: 1,
    };
    let response = format!(
        r#"
              {{
                  "item": {{
                      "item_id": "2763821",
                      "normal_url": "http://example.com",
                      "resolved_id": "2763821",
                      "extended_item_id": "2763821",
                      "resolved_url": "https://example.com",
                      "domain_id": "85964",
                      "origin_domain_id": "51347065",
                      "response_code": "200",
                      "mime_type": "text/html",
                      "content_length": "648",
                      "encoding": "utf-8",
                      "date_resolved": "2020-03-03 12:20:37",
                      "date_published": "0000-00-00 00:00:00",
                      "title": "Example Domain",
                      "excerpt": "{}",
                      "word_count": "28",
                      "innerdomain_redirect": "1",
                      "login_required": "0",
                      "has_image": "0",
                      "has_video": "0",
                      "is_index": "1",
                      "is_article": "0",
                      "used_fallback": "1",
                      "lang": "",
                      "time_first_parsed": "0",
                      "authors": [],
                      "images": [],
                      "videos": [],
                      "resolved_normal_url": "http://example.com",
                      "given_url": "https://example.com"
                  }},
                  "status": 1
              }}
         "#,
        EXCERPT
    );

    let actual: PocketAddResponse = decode(&response).unwrap();

    assert_eq!(actual, expected);
}

#[test]
fn test_deserialize_add_response_unresolved_url() {
    let expected = PocketAddResponse {
        item: PocketAddedItem {
            item_id: 1933886793,
            normal_url: url("http://dc7ad3b2-942e-41c5-9154-a1b545752102.com"),
            resolved_id: 0,
            extended_item_id: 0,
            resolved_url: None,
            domain_id: 0,
            origin_domain_id: 0,
            response_code: 0,
            mime_type: None,
            content_length: 0,
            encoding: "".to_string(),
            date_resolved: None,
            date_published: None,
            title: "".to_string(),
            excerpt: "".to_string(),
            word_count: 0,
            innerdomain_redirect: false,
            login_required: false,
            has_image: PocketItemHas::No,
            has_video: PocketItemHas::No,
            is_index: false,
            is_article: false,
            used_fallback: false,
            lang: None,
            time_first_parsed: None,
            authors: None,
            images: None,
            videos: None,
            resolved_normal_url: None,
            given_url: url("https://dc7ad3b2-942e-41c5-9154-a1b545752102.com"),
        },
        status: 1,
    };
    let response = r#"
              {
                  "item": {
                      "item_id": "1933886793",
                      "normal_url": "http://dc7ad3b2-942e-41c5-9154-a1b545752102.com",
                      "resolved_id": "0",
                      "extended_item_id": "0",
                      "resolved_url": "",
                      "domain_id": "0",
                      "origin_domain_id": "0",
                      "response_code": "0",
                      "mime_type": "",
                      "content_length": "0",
                      "encoding": "",
                      "date_resolved": "0000-00-00 00:00:00",
                      "date_published": "0000-00-00 00:00:00",
                      "title": "",
                      "excerpt": "",
                      "word_count": "0",
                      "innerdomain_redirect": "0",
                      "login_required": "0",
                      "has_image": "0",
                      "has_video": "0",
                      "is_index": "0",
                      "is_article": "0",
                      "used_fallback": "0",
                      "lang": null,
                      "time_first_parsed": null,
                      "given_url": "https://dc7ad3b2-942e-41c5-9154-a1b545752102.com"
                  },
                  "status": 1
              }
         "#;

    let actual: PocketAddResponse = decode(response).unwrap();

    assert_eq!(actual, expected);
}

#[test]
fn test_deserialize_auth_response() {
    let expected = PocketOAuthResponse {
        code: "code".to_string(),
        state: Some("state".to_string()),
    };
    let actual: PocketOAuthResponse = decode(r#"{"code":"code","state":"state"}"#).unwrap();
    assert_eq!(actual, expected);
}

#[test]
fn test_deserialize_authorize_response() {
    let expected = PocketAuthorizeResponse {
        access_token: "access_token".to_string(),
        username: "username".to_string(),
        state: None,
    };
    let actual: PocketAuthorizeResponse =
        decode(r#"{"access_token":"access_token","username":"username"}"#).unwrap();
    assert_eq!(actual, expected);
}

#[test]
fn test_deserialize_get_response_with_list_map() {
    let expected = PocketGetResponse {
        list: vec![],
        status: 1,
        complete: true,
        error: None,
        search_meta: PocketSearchMeta {
            search_type: "normal".to_string(),
        },
        since: Timestamp { seconds: 1584221353 },
    };
    let response = r#"{"status":1,"complete":1,"list":{},"error":null,"search_meta":{"search_type":"normal"},"since":1584221353}"#;

    let actual: PocketGetResponse = decode(response).unwrap();

    assert_eq!(actual, expected);
}

#[test]
fn test_deserialize_get_response_with_list_array() {
    let expected = PocketGetResponse {
        list: vec![],
        status: 2,
        complete: true,
        error: None,
        search_meta: PocketSearchMeta {
            search_type: "normal".to_string(),
        },
        since: Timestamp { seconds: 1584221353 },
    };
    let response = r#"{"status":2,"complete":1,"list":[],"error":null,"search_meta":{"search_type":"normal"},"since":1584221353}"#;

    let actual: PocketGetResponse = decode(response).unwrap();

    assert_eq!(actual, expected);
}

#[test]
fn test_deserialize_item_image() {
    let expected = ItemImage {
        item_id: 1,
        src: PocketUrl::parse("http://localhost"),
        width: 3,
        height: 4,
    };
    let response = format!(
        r#"{{"item_id":"{}","src":"{}","width":"{}","height":"{}"}}"#,
        expected.item_id,
        expected.src.as_ref().unwrap().as_str(),
        expected.width,
        expected.height
    );

    let actual: ItemImage = decode(&response).unwrap();

    assert_eq!(actual, expected);
}

#[test]
fn test_deserialize_send_response() {
    let expected = PocketSendResponse {
        status: 1,
        action_results: vec![SendActionResult::Success, SendActionResult::Failure],
        action_errors: vec![
            None,
            Some(SendActionError {
                code: 422,
                message: "Invalid/non-existent URL".to_string(),
                error_type: "Unprocessable Entity".to_string(),
            }),
        ],
    };
    let response = r#"
            {
                "action_results":[
                    true,
                    false
                ],
                "action_errors":[
                    null,
                    {
                        "code": 422,
                        "message": "Invalid/non-existent URL",
                        "type": "Unprocessable Entity"
                    }
                ],
                "status":1
            }
        "#;

    let actual: PocketSendResponse = decode(response).unwrap();

    assert_eq!(actual, expected);
}

#[test]
fn test_deserialize_send_response_add() {
    let expected = PocketSendResponse {
        status: 1,
        action_results: vec![SendActionResult::Add(Box::new(PocketAddedItem {
            item_id: 1502819,
            normal_url: url("http://example.com"),
            resolved_id: 1502819,
            extended_item_id: 1502819,
            resolved_url: PocketUrl::parse("https://example.com"),
            domain_id: 85964,
            origin_domain_id: 772,
            response_code: 200,
            mime_type: MediaType::parse("text/html"),
            content_length: 648,
            encoding: "utf-8".to_string(),
            date_resolved: Some(Timestamp { seconds: 1596580888 }),
            date_published: None,
            title: "Example Domain".to_string(),
            excerpt: EXCERPT.to_string(),
            word_count: 28,
            innerdomain_redirect: true,
            login_required: false,
            has_image: PocketItemHas::No,
            has_video: PocketItemHas::No,
            is_index: true,
            is_article: false,
            used_fallback: true,
            lang: Some("".to_string()),
            time_first_parsed: None,
            authors: Some(vec![]),
            images: Some(vec![]),
            videos: Some(vec![]),
            resolved_normal_url: PocketUrl::parse("http://example.com"),
            given_url: url("https://example.com/"),
        }))],
        action_errors: vec![None],
    };
    let response = format!(
        r#"
            {{
                "action_results":[
                {{
                    "item_id":"1502819",
                    "normal_url":"http://example.com",
                    "resolved_id":"1502819",
                    "extended_item_id":"1502819",
                    "resolved_url":"https:example.com/",
                    "domain_id":"85964",
                    "origin_domain_id":"772",
                    "response_code":"200",
                    "mime_type":"text/html",
                    "content_length":"648",
                    "encoding":"utf-8",
                    "date_resolved":"2020-08-04 22:41:28",
                    "date_published":"0000-00-00 00:00:00",
                    "title":"Example Domain",
                    "excerpt":"{}",
                    "word_count":"28",
                    "innerdomain_redirect":"1",
                    "login_required":"0",
                    "has_image":"0",
                    "has_video":"0",
                    "is_index":"1",
                    "is_article":"0",
                    "used_fallback":"1",
                    "lang":"",
                    "time_first_parsed":"0",
                    "authors":[

                    ],
                    "images":[

                    ],
                    "videos":[

                    ],
                    "resolved_normal_url":"http://example.com",
                    "given_url":"https://example.com/"
                }}
                ],
                "action_errors":[
                    null
                ],
                "status":1
            }}
        "#,
        EXCERPT
    );

    let actual: PocketSendResponse = decode(&response).unwrap();

    assert_eq!(actual, expected);
}

#[test]
fn get_response_list_map_is_ordered_by_key() {
    let item = |id: &str, sort: u64| {
        format!(
            r#"{{"item_id":"{id}","given_title":"t{id}","time_added":"10","time_read":"0","time_updated":"11","time_favorited":"0","favorite":"0","resolved_id":"{id}","sort_id":{sort},"status":"1","tags":{{"{id}":{{"item_id":"{id}","tag":"x"}}}}}}"#
        )
    };
    let response = format!(
        r#"{{"status":1,"complete":1,"list":{{"3":{},"1":{}}},"error":null,"search_meta":{{"search_type":"normal"}},"since":5}}"#,
        item("3", 0),
        item("1", 1)
    );
    let actual: PocketGetResponse = decode(&response).unwrap();
    assert_eq!(actual.list.len(), 2);
    assert_eq!(actual.list[0].item_id, 1);
    assert_eq!(actual.list[1].item_id, 3);
    assert_eq!(actual.list[0].status, PocketItemStatus::Archived);
    assert_eq!(actual.list[0].time_read, None);
    assert_eq!(actual.list[0].time_added, Timestamp { seconds: 10 });
    assert_eq!(actual.list[0].tags.as_ref().unwrap()[0].tag, "x");
    assert_eq!(actual.list[0].images, None);
    assert!(!actual.list[0].is_index);
}

#[test]
fn send_response_with_bad_result_is_refused() {
    let response = r#"{"action_results":[1],"action_errors":[null],"status":1}"#;
    let actual: Result<PocketSendResponse, DecodeError> = decode(response);
    assert_eq!(actual, Err(DecodeError::Shape(Expected::ActionResult)));
}

#[test]
fn missing_member_names_the_member() {
    let actual: Result<PocketOAuthResponse, DecodeError> = decode(r#"{"state":"s"}"#);
    assert_eq!(actual, Err(DecodeError::Field("code".to_string(), Expected::Present)));
    let wrong: Result<PocketGetResponse, DecodeError> = decode(
        r#"{"status":1,"complete":2,"list":[],"error":null,"search_meta":{"search_type":"n"},"since":1}"#,
    );
    assert_eq!(wrong, Err(DecodeError::Field("complete".to_string(), Expected::ZeroOrOne)));
}

#[test]
fn read_response_reports_protocol_errors() {
    let with_message: Result<PocketOAuthResponse, PocketError> =
        read_response(Some("138"), Some("Missing consumer key."), "");
    match with_message {
        Err(PocketError::Proto(code, message)) => {
            assert_eq!(code, 138);
            assert_eq!(message, "Missing consumer key.");
        }
        other => panic!("unexpected {:?}", other),
    }
    let without: Result<PocketOAuthResponse, PocketError> = read_response(Some("199"), None, "{}");
    match without {
        Err(PocketError::Proto(code, message)) => {
            assert_eq!(code, 199);
            assert_eq!(message, "unknown protocol error");
        }
        other => panic!("unexpected {:?}", other),
    }
}

#[test]
fn read_response_decodes_or_reports_bad_bodies() {
    let ok: Result<PocketOAuthResponse, PocketError> = read_response(None, None, r#"{"code":"c"}"#);
    assert_eq!(ok.unwrap(), PocketOAuthResponse { code: "c".to_string(), state: None });
    let syntax: Result<PocketOAuthResponse, PocketError> = read_response(None, None, "{not json");
    assert!(matches!(syntax, Err(PocketError::Json(DecodeError::Syntax(_)))));
    let shape: Result<PocketOAuthResponse, PocketError> = read_response(None, None, r#"{"code":5}"#);
    assert!(matches!(shape, Err(PocketError::Json(DecodeError::Field(_, Expected::Text)))));
}

#[test]
fn oauth_state_mismatch_is_refused() {
    let response: PocketOAuthResponse = decode(r#"{"code":"the-code","state":"xyz"}"#).unwrap();
    let result = PocketAuthentication::request_code(Some("abc"), response);
    assert!(matches!(result, Err(PocketError::StateMismatch)));
}

#[test]
fn oauth_matching_state_gives_code() {
    let response: PocketOAuthResponse = decode(r#"{"code":"the-code","state":"abc"}"#).unwrap();
    let result = PocketAuthentication::request_code(Some("abc"), response);
    assert_eq!(result.unwrap(), "the-code");
    let none: PocketOAuthResponse = decode(r#"{"code":"c2"}"#).unwrap();
    assert_eq!(PocketAuthentication::request_code(None, none).unwrap(), "c2");
    let unexpected: PocketOAuthResponse = decode(r#"{"code":"c3","state":"s"}"#).unwrap();
    assert!(matches!(
        PocketAuthentication::request_code(None, unexpected),
        Err(PocketError::StateMismatch)
    ));
}

#[test]
fn authorize_checks_state_and_builds_user() {
    let auth = PocketAuthentication::new("key", "app:done");
    let response: PocketAuthorizeResponse =
        decode(r#"{"access_token":"tok","username":"ann","state":"s1"}"#).unwrap();
    let user = auth.authorized_user(Some("s1"), response).unwrap();
    assert_eq!(user.consumer_key, "key");
    assert_eq!(user.access_token, "tok");
    assert_eq!(user.username, "ann");
    let pocket = user.pocket();
    assert_eq!(pocket.access_token(), "tok");
    let body = auth.authorize_body("code");
    assert_eq!(body.code, "code");
    let missing: PocketAuthorizeResponse =
        decode(r#"{"access_token":"tok","username":"ann"}"#).unwrap();
    assert!(matches!(auth.authorized_user(Some("s1"), missing), Err(PocketError::StateMismatch)));
}
