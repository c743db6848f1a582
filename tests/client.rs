use mathison::api::REQUEST_TIMEOUT_SECS;
use mathison::{
    ApiRequest, BeamQuery, CreateBeamRequest, Json, MathisonClient, Method, TombstoneBeamRequest,
    UpdateBeamRequest,
};

fn s(t: &str) -> String {
    t.to_string()
}

fn keys_of(j: &Json) -> Vec<String> {
    match j {
        Json::Object(f) => f.iter().map(|(k, _)| k.clone()).collect(),
        _ => panic!("not an object"),
    }
}

fn pairs(v: &[(String, String)]) -> Vec<(&str, &str)> {
    v.iter().map(|(a, b)| (a.as_str(), b.as_str())).collect()
}

#[test]
fn test_client_creation() {
    let _client = MathisonClient::new("http://localhost:3000").unwrap();
}

#[test]
fn test_client_with_api_key() {
    let _client =
        MathisonClient::with_api_key("http://localhost:3000", Some("test-key".to_string())).unwrap();
}

#[test]
fn base_url_loses_trailing_slashes() {
    let c = MathisonClient::new("http://localhost:3000///").unwrap();
    assert_eq!(c.base_url(), "http://localhost:3000");
    let c = MathisonClient::new("http://localhost:3000/api").unwrap();
    assert_eq!(c.base_url(), "http://localhost:3000/api");
    let c = MathisonClient::new("").unwrap();
    assert_eq!(c.base_url(), "");
    assert_eq!(c.timeout_secs(), REQUEST_TIMEOUT_SECS);
    assert_eq!(REQUEST_TIMEOUT_SECS, 30);
}

#[test]
fn url_is_base_followed_by_path() {
    let c = MathisonClient::new("http://h:1/").unwrap();
    assert_eq!(c.url(&ApiRequest::get_beam("b1")), "http://h:1/api/beams/b1");
    assert_eq!(c.url(&ApiRequest::health()), "http://h:1/health");
}

#[test]
fn headers_carry_key_and_content_type() {
    let anon = MathisonClient::new("http://h").unwrap();
    assert_eq!(pairs(&anon.headers()), vec![("Content-Type", "application/json")]);
    let keyed = MathisonClient::with_api_key("http://h", Some(s("k1"))).unwrap();
    assert_eq!(
        pairs(&keyed.headers()),
        vec![("Content-Type", "application/json"), ("Authorization", "Bearer k1")]
    );
}

#[test]
fn fixed_endpoints() {
    let r = ApiRequest::health();
    assert_eq!((r.method, r.path.as_str()), (Method::Get, "/health"));
    assert!(r.query.is_empty() && r.body.is_none());
    let r = ApiRequest::status();
    assert_eq!((r.method, r.path.as_str()), (Method::Get, "/api/status"));
    let r = ApiRequest::identity();
    assert_eq!((r.method, r.path.as_str()), (Method::Get, "/api/identity"));
}

#[test]
fn beam_endpoints() {
    let r = ApiRequest::get_beam("x");
    assert_eq!((r.method, r.path.as_str()), (Method::Get, "/api/beams/x"));
    let r = ApiRequest::pin_beam("x");
    assert_eq!((r.method, r.path.as_str()), (Method::Post, "/api/beams/x/pin"));
    assert!(r.body.is_none());
    let r = ApiRequest::unpin_beam("x");
    assert_eq!((r.method, r.path.as_str()), (Method::Delete, "/api/beams/x/pin"));
    let r = ApiRequest::retire_beam("x");
    assert_eq!((r.method, r.path.as_str()), (Method::Post, "/api/beams/x/retire"));
    let r = ApiRequest::update_beam("x", &UpdateBeamRequest::default());
    assert_eq!((r.method, r.path.as_str()), (Method::Patch, "/api/beams/x"));
    let r = ApiRequest::tombstone_beam(
        "x",
        &TombstoneBeamRequest { reason_code: s("dup"), approval_token: None },
    );
    assert_eq!((r.method, r.path.as_str()), (Method::Post, "/api/beams/x/tombstone"));
}

#[test]
fn send_message_body() {
    let r = ApiRequest::send_message("hello");
    assert_eq!((r.method, r.path.as_str()), (Method::Post, "/api/chat/send"));
    match r.body {
        Some(Json::Object(f)) => {
            assert_eq!(f.len(), 1);
            assert_eq!(f[0].0, "content");
            assert!(matches!(&f[0].1, Json::Str(c) if c == "hello"));
        }
        _ => panic!("no body"),
    }
}

#[test]
fn chat_history_request_has_limit_and_offset() {
    let r = ApiRequest::chat_history(Some(10), Some(20));
    assert_eq!(r.method, Method::Get);
    assert_eq!(r.path, "/api/chat/history");
    assert_eq!(pairs(&r.query), vec![("limit", "10"), ("offset", "20")]);
    assert!(r.body.is_none());
}

#[test]
fn chat_history_omits_missing_parameters() {
    assert!(ApiRequest::chat_history(None, None).query.is_empty());
    let r = ApiRequest::chat_history(None, Some(0));
    assert_eq!(pairs(&r.query), vec![("offset", "0")]);
    let r = ApiRequest::chat_history(Some(usize::MAX), None);
    assert_eq!(pairs(&r.query), vec![("limit", usize::MAX.to_string().as_str())]);
}

#[test]
fn query_beams_without_filters_has_no_query() {
    assert!(ApiRequest::query_beams(None).query.is_empty());
    assert!(ApiRequest::query_beams(Some(BeamQuery::default())).query.is_empty());
    assert_eq!(ApiRequest::query_beams(None).path, "/api/beams");
}

#[test]
fn query_beams_with_text_only_has_one_parameter() {
    let q = BeamQuery { text: Some(s("rust")), ..BeamQuery::default() };
    let r = ApiRequest::query_beams(Some(q));
    assert_eq!(pairs(&r.query), vec![("text", "rust")]);
}

#[test]
fn query_beams_with_every_filter() {
    let q = BeamQuery {
        text: Some(s("t")),
        tags: Some(vec![s("a"), s("b")]),
        kinds: Some(vec![s("note")]),
        include_dead: Some(false),
        limit: Some(25),
    };
    let r = ApiRequest::query_beams(Some(q));
    assert_eq!(
        pairs(&r.query),
        vec![("text", "t"), ("tags", "a,b"), ("kinds", "note"), ("include_dead", "false"), ("limit", "25")]
    );
}

#[test]
fn create_beam_sends_only_set_keys() {
    let req = CreateBeamRequest {
        beam_id: None,
        kind: s("note"),
        title: s("T"),
        tags: vec![],
        body: s("B"),
        pinned: None,
    };
    let r = ApiRequest::create_beam(&req);
    assert_eq!((r.method, r.path.as_str()), (Method::Post, "/api/beams"));
    let body = r.body.unwrap();
    assert_eq!(keys_of(&body), vec!["kind", "title", "tags", "body"]);
    match &body {
        Json::Object(f) => {
            assert!(matches!(&f[0].1, Json::Str(v) if v == "note"));
            assert!(matches!(&f[1].1, Json::Str(v) if v == "T"));
            assert!(matches!(&f[2].1, Json::Array(v) if v.is_empty()));
            assert!(matches!(&f[3].1, Json::Str(v) if v == "B"));
        }
        _ => unreachable!(),
    }
}

#[test]
fn create_beam_with_optional_fields() {
    let req = CreateBeamRequest {
        beam_id: Some(s("id9")),
        kind: s("note"),
        title: s("T"),
        tags: vec![s("x")],
        body: s("B"),
        pinned: Some(true),
    };
    let body = req.to_json();
    assert_eq!(keys_of(&body), vec!["beam_id", "kind", "title", "tags", "body", "pinned"]);
    match &body {
        Json::Object(f) => {
            assert!(matches!(&f[0].1, Json::Str(v) if v == "id9"));
            assert!(matches!(&f[5].1, Json::Bool(true)));
        }
        _ => unreachable!(),
    }
}

#[test]
fn update_beam_omits_unset_fields() {
    assert!(keys_of(&UpdateBeamRequest::default().to_json()).is_empty());
    let u = UpdateBeamRequest { title: None, tags: Some(vec![s("a")]), body: Some(s("b")) };
    assert_eq!(keys_of(&u.to_json()), vec!["tags", "body"]);
}

#[test]
fn tombstone_omits_missing_token() {
    let t = TombstoneBeamRequest { reason_code: s("spam"), approval_token: None };
    assert_eq!(keys_of(&t.to_json()), vec!["reason_code"]);
    let t = TombstoneBeamRequest { reason_code: s("spam"), approval_token: Some(s("ok")) };
    assert_eq!(keys_of(&t.to_json()), vec!["reason_code", "approval_token"]);
}

#[test]
fn independent_requests_do_not_share_state() {
    let c = MathisonClient::with_api_key("http://h", Some(s("k"))).unwrap();
    let a = ApiRequest::health();
    let b = ApiRequest::get_beam("x");
    assert_eq!(c.url(&a), "http://h/health");
    assert_eq!(c.url(&b), "http://h/api/beams/x");
    let again = ApiRequest::health();
    assert_eq!(c.url(&again), c.url(&a));
}

#[test]
fn query_beams_leaves_out_empty_lists() {
    let q = BeamQuery { tags: Some(vec![]), kinds: Some(vec![]), ..BeamQuery::default() };
    assert!(ApiRequest::query_beams(Some(q)).query.is_empty());
    let q = BeamQuery { tags: Some(vec![]), kinds: Some(vec![s("k")]), ..BeamQuery::default() };
    assert_eq!(pairs(&ApiRequest::query_beams(Some(q)).query), vec![("kinds", "k")]);
}
