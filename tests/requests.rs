use pocket::auth::{PocketAuthentication, PocketAuthorizeRequest, PocketOAuthRequest};
use pocket::get::{PocketGetDetail, PocketGetRequest, PocketGetSort, PocketGetState, PocketGetTag, PocketGetType};
use pocket::send::{PocketSendAction, PocketSendRequest};
use pocket::serialization::{PocketUrl, Timestamp};
use pocket::wire::{encode_object, WirePairs};
use pocket::add::PocketAddRequest;
use pocket::Pocket;

fn request_json<T: WirePairs>(request: &T) -> String {
    encode_object(&request.pairs())
}

#[test]
fn test_serialize_add_request() {
    let url = PocketUrl::parse("http://localhost").unwrap();
    let request = PocketAddRequest::new(&url)
        .title("title")
        .tags(&["tags"])
        .tweet_id("tweet_id");

    let actual = request_json(&request);

    let expected = r#"{"url":"http://localhost/","title":"title","tags":"tags","tweet_id":"tweet_id"}"#;
    assert_eq!(actual, expected);
}

#[test]
fn add_request_omits_unset_members_and_joins_tags() {
    let url = PocketUrl::parse("https://example.com").unwrap();
    let bare = PocketAddRequest::new(&url);
    assert_eq!(request_json(&bare), r#"{"url":"https://example.com/"}"#);

    let tagged = PocketAddRequest::new(&url).tags(&["a", "b c", "d"]);
    assert_eq!(
        request_json(&tagged),
        r#"{"url":"https://example.com/","tags":"a,b c,d"}"#
    );
}

#[test]
fn add_request_setter_called_twice_keeps_the_last() {
    let url = PocketUrl::parse("https://example.com").unwrap();
    let request = PocketAddRequest::new(&url).title("first").title("second");
    assert_eq!(
        request_json(&request),
        r#"{"url":"https://example.com/","title":"second"}"#
    );
}

#[test]
fn request_strings_are_escaped() {
    let url = PocketUrl::parse("https://example.com").unwrap();
    let request = PocketAddRequest::new(&url).title("say \"hi\"\n");
    assert_eq!(
        request_json(&request),
        r#"{"url":"https://example.com/","title":"say \"hi\"\n"}"#
    );
    let control = PocketAddRequest::new(&url).title("a\u{1}/\\\t");
    assert_eq!(
        request_json(&control),
        r#"{"url":"https://example.com/","title":"a\u0001/\\\t"}"#
    );
}

#[test]
fn body_puts_credentials_first() {
    let pocket = Pocket::new("key", "token");
    let url = PocketUrl::parse("https://example.com").unwrap();
    let request = PocketAddRequest::new(&url).tweet_id("7");
    assert_eq!(
        pocket.body(&request),
        r#"{"consumer_key":"key","access_token":"token","url":"https://example.com/","tweet_id":"7"}"#
    );
    assert_eq!(pocket.access_token(), "token");
}

#[test]
fn test_serialize_auth_request() {
    let request = PocketOAuthRequest {
        consumer_key: "consumer_key".to_string(),
        redirect_uri: "http://localhost".to_string(),
        state: Some("state".to_string()),
    };

    let actual = request_json(&request);

    let expected = r#"{"consumer_key":"consumer_key","redirect_uri":"http://localhost","state":"state"}"#;
    assert_eq!(actual, expected);
}

#[test]
fn auth_request_without_state_omits_it() {
    let auth = PocketAuthentication::new("key", "app:done");
    let request = auth.request_body(None);
    assert_eq!(
        request_json(&request),
        r#"{"consumer_key":"key","redirect_uri":"app:done"}"#
    );
}

#[test]
fn test_serialize_authorize_request() {
    let request = PocketAuthorizeRequest {
        consumer_key: "consumer_key".to_string(),
        code: "code".to_string(),
    };

    let actual = request_json(&request);

    let expected = r#"{"consumer_key":"consumer_key","code":"code"}"#;
    assert_eq!(actual, expected);
}

#[test]
fn test_serialize_get_request() {
    let request = PocketGetRequest {
        search: Some("search".to_string()),
        domain: Some("domain".to_string()),
        tag: Some(PocketGetTag::Untagged),
        state: Some(PocketGetState::All),
        content_type: Some(PocketGetType::Article),
        detail_type: Some(PocketGetDetail::Complete),
        favorite: Some(false),
        since: Some(Timestamp { seconds: 1584221353 }),
        sort: Some(PocketGetSort::Newest),
        count: Some(1),
        offset: Some(2),
    };

    let actual = request_json(&request);

    let expected = r#"{"search":"search","domain":"domain","tag":"_untagged_","state":"all","contentType":"article","detailType":"complete","favorite":"0","since":"1584221353","sort":"newest","count":"1","offset":"2"}"#;
    assert_eq!(actual, expected);
}

#[test]
fn get_request_builders_set_and_replace_filters() {
    let request = PocketGetRequest::new()
        .search("rust")
        .tag(PocketGetTag::Tagged("lang".to_string()))
        .archived()
        .videos()
        .simple()
        .complete()
        .favorite(true)
        .since(Timestamp { seconds: -5 })
        .sort_by_title()
        .slice(10, 20);
    assert_eq!(
        request_json(&request),
        r#"{"search":"rust","tag":"lang","state":"archive","contentType":"video","detailType":"complete","favorite":"1","since":"-5","sort":"title","count":"20","offset":"10"}"#
    );
    let empty = Pocket::new("k", "t").filter();
    assert_eq!(request_json(&empty), "{}");
    assert_eq!(request_json(&PocketGetRequest::default()), "{}");
}

#[test]
fn get_request_other_names() {
    let request = PocketGetRequest::new()
        .domain("example.com")
        .unread()
        .images()
        .sort_by_site()
        .offset(0)
        .count(18446744073709551615usize.min(usize::MAX));
    let json = request_json(&request);
    assert!(json.starts_with(r#"{"domain":"example.com","state":"unread","contentType":"image","sort":"site","count":""#));
    assert!(json.ends_with(r#"","offset":"0"}"#));
    let articles = PocketGetRequest::new().articles().sort_by_newest().sort_by_oldest();
    assert_eq!(request_json(&articles), r#"{"contentType":"article","sort":"oldest"}"#);
    let all = PocketGetRequest::new().state(PocketGetState::All).content_type(PocketGetType::Video).detail_type(PocketGetDetail::Simple).sort(PocketGetSort::Site);
    assert_eq!(request_json(&all), r#"{"state":"all","contentType":"video","detailType":"simple","sort":"site"}"#);
}

#[test]
fn send_actions_are_tagged_objects() {
    let url = PocketUrl::parse("https://example.com").unwrap();
    let request = PocketSendRequest {
        actions: vec![
            PocketSendAction::Archive { item_id: 12, time: None },
            PocketSendAction::TagsAdd { item_id: 3, tags: "a,b".to_string(), time: Some(99) },
            PocketSendAction::TagRename { old_tag: "x".to_string(), new_tag: "y".to_string(), time: None },
            PocketSendAction::TagDelete { tag: "z".to_string(), time: None },
            PocketSendAction::Add {
                item_id: None,
                ref_id: None,
                tags: None,
                time: None,
                title: Some("t".to_string()),
                url: Some(url),
            },
        ],
    };
    assert_eq!(
        request.actions_json(),
        r#"[{"action":"archive","item_id":"12"},{"action":"tags_add","item_id":"3","tags":"a,b","time":"99"},{"action":"tag_rename","old_tag":"x","new_tag":"y"},{"action":"tag_delete","tag":"z"},{"action":"add","title":"t","url":"https://example.com/"}]"#
    );
    let names = [
        PocketSendAction::Readd { item_id: 1, time: None },
        PocketSendAction::Favorite { item_id: 1, time: None },
        PocketSendAction::Unfavorite { item_id: 1, time: None },
        PocketSendAction::Delete { item_id: 1, time: None },
        PocketSendAction::TagsRemove { item_id: 1, tags: "t".to_string(), time: None },
        PocketSendAction::TagsReplace { item_id: 1, tags: "t".to_string(), time: None },
        PocketSendAction::TagsClear { item_id: 1, time: None },
    ];
    let expected = ["readd", "favorite", "unfavorite", "delete", "tags_remove", "tags_replace", "tags_clear"];
    for (action, name) in names.iter().zip(expected.iter()) {
        let json = encode_object(&action.pairs());
        assert!(json.starts_with(&format!(r#"{{"action":"{}","item_id":"1""#, name)));
    }
}

#[test]
fn send_url_carries_credentials_and_actions() {
    let pocket = Pocket::new("key", "token");
    let request = PocketSendRequest {
        actions: vec![PocketSendAction::Delete { item_id: 5, time: None }],
    };
    let url = pocket.send_url(&request).unwrap();
    assert_eq!(
        url.as_str(),
        "https://getpocket.com/v3/send?consumer_key=key&access_token=token&actions=%5B%7B%22action%22%3A%22delete%22%2C%22item_id%22%3A%225%22%7D%5D"
    );
}

#[test]
fn authorize_url_has_code_and_redirect() {
    let auth = PocketAuthentication::new("key", "rustapi:finishauth");
    let url = auth.authorize_url("abc def").unwrap();
    assert_eq!(
        url.as_str(),
        "https://getpocket.com/auth/authorize?request_token=abc+def&redirect_uri=rustapi%3Afinishauth"
    );
}
