use catbot::json::{gif_url_from_body, gif_url_of, json_get, Json, JsonError};

#[test]
fn extracts_url_from_nested_document() {
    let body = r#"{"data":{"images":{"original":{"url":"http://x/y.gif"}}}}"#;
    assert_eq!(gif_url_from_body(body), Ok("http://x/y.gif".to_owned()));
}

#[test]
fn extracts_url_among_other_members() {
    let body = r#"{"a":1,"data":{"images":{"original":{"height":"80","url":"http://c/d.gif"},"x":null}},"z":[1,2]}"#;
    assert_eq!(gif_url_from_body(body), Ok("http://c/d.gif".to_owned()));
}

#[test]
fn invalid_json_fails_without_panic() {
    assert_eq!(gif_url_from_body("{not json"), Err(JsonError::NotJson));
    assert_eq!(gif_url_from_body(""), Err(JsonError::NotJson));
    assert_eq!(gif_url_from_body("{\"data\":"), Err(JsonError::NotJson));
}

#[test]
fn missing_path_fails_without_panic() {
    assert_eq!(gif_url_from_body("{}"), Err(JsonError::MissingUrl));
    assert_eq!(gif_url_from_body(r#"{"data":{}}"#), Err(JsonError::MissingUrl));
    assert_eq!(
        gif_url_from_body(r#"{"data":{"images":{"original":{}}}}"#),
        Err(JsonError::MissingUrl)
    );
    assert_eq!(gif_url_from_body("[1,2,3]"), Err(JsonError::MissingUrl));
    assert_eq!(gif_url_from_body("null"), Err(JsonError::MissingUrl));
}

#[test]
fn non_string_url_fails_without_panic() {
    assert_eq!(
        gif_url_from_body(r#"{"data":{"images":{"original":{"url":42}}}}"#),
        Err(JsonError::MissingUrl)
    );
    assert_eq!(
        gif_url_from_body(r#"{"data":{"images":{"original":{"url":{"a":"b"}}}}}"#),
        Err(JsonError::MissingUrl)
    );
}

fn singleton_obj(key: &str, value: Json) -> Json {
    Json::Obj(vec![(key.to_owned(), value)])
}

#[test]
fn gif_url_of_walks_the_path() {
    let doc = singleton_obj(
        "data",
        singleton_obj(
            "images",
            singleton_obj("original", singleton_obj("url", Json::Str("u".to_owned()))),
        ),
    );
    assert_eq!(gif_url_of(&doc), Some("u".to_owned()));
    assert_eq!(gif_url_of(&Json::Null), None);
    assert_eq!(gif_url_of(&singleton_obj("data", Json::Num)), None);
}

#[test]
fn json_get_finds_first_matching_member() {
    let obj = Json::Obj(vec![
        ("a".to_owned(), Json::Str("first".to_owned())),
        ("b".to_owned(), Json::Bool(true)),
        ("a".to_owned(), Json::Str("second".to_owned())),
    ]);
    match json_get(&obj, "a") {
        Some(Json::Str(s)) => assert_eq!(s.as_str(), "first"),
        _ => panic!("key a must be found"),
    }
    assert!(matches!(json_get(&obj, "b"), Some(Json::Bool(true))));
    assert!(json_get(&obj, "c").is_none());
    assert!(json_get(&Json::Arr(vec![]), "a").is_none());
    assert!(json_get(&Json::Obj(vec![]), "a").is_none());
}
