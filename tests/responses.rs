use mathison::model::{flag_map_from_json, string_map_from_json};
use mathison::{
    classify_response, Beam, BeamQueryResponse, ChatHistoryResponse, ChatMessage, Error, Json,
    SendMessageResponse,
};

fn s(t: &str) -> String {
    t.to_string()
}

fn st(t: &str) -> Json {
    Json::Str(s(t))
}

fn obj(members: Vec<(&str, Json)>) -> Json {
    Json::Object(members.into_iter().map(|(k, v)| (s(k), v)).collect())
}

fn beam_json(extra: Vec<(&str, Json)>) -> Json {
    let mut m = vec![
        ("beam_id", st("b1")),
        ("kind", st("note")),
        ("title", st("T")),
        ("tags", Json::Array(vec![st("a"), st("b")])),
        ("body", st("B")),
        ("status", st("active")),
        ("pinned", Json::Bool(false)),
        ("updated_at_ms", Json::Int(1700000000000)),
    ];
    m.extend(extra);
    obj(m)
}

fn message_json() -> Json {
    obj(vec![
        ("id", st("m1")),
        ("role", st("user")),
        ("content", st("hi")),
        ("timestamp", Json::Int(42)),
    ])
}

fn is_decode_error<T>(r: &Result<T, Error>) -> bool {
    matches!(r, Err(Error::DecodeError(_)))
}

#[test]
fn not_found_is_an_api_error() {
    let r = classify_response(404, Some(s("{\"error\":\"not found\"}")));
    match r {
        Err(Error::ApiError(status, body)) => {
            assert_eq!(status, 404);
            assert_eq!(body, "{\"error\":\"not found\"}");
        }
        _ => panic!("expected an API error"),
    }
}

#[test]
fn unreadable_error_body_gets_placeholder() {
    match classify_response(500, None) {
        Err(Error::ApiError(500, body)) => assert_eq!(body, "Unknown error"),
        _ => panic!("expected an API error"),
    }
    assert!(matches!(classify_response(199, Some(s("x"))), Err(Error::ApiError(199, _))));
    assert!(matches!(classify_response(300, Some(s("x"))), Err(Error::ApiError(300, _))));
}

#[test]
fn success_hands_body_on() {
    assert_eq!(classify_response(200, Some(s("{}"))).unwrap(), "{}");
    assert_eq!(classify_response(299, Some(s("[]"))).unwrap(), "[]");
    assert!(is_decode_error(&classify_response(204, None)));
}

#[test]
fn beam_decodes_exactly() {
    let b = Beam::from_json(&beam_json(vec![])).unwrap();
    assert_eq!(b.beam_id, "b1");
    assert_eq!(b.kind, "note");
    assert_eq!(b.title, "T");
    assert_eq!(b.tags, vec![s("a"), s("b")]);
    assert_eq!(b.body, "B");
    assert_eq!(b.status, "active");
    assert!(!b.pinned);
    assert_eq!(b.updated_at_ms, 1700000000000);
}

#[test]
fn beam_ignores_unknown_keys() {
    let b = Beam::from_json(&beam_json(vec![("color", st("red")), ("score", Json::Int(3))])).unwrap();
    assert_eq!(b.beam_id, "b1");
    assert_eq!(b.tags.len(), 2);
}

#[test]
fn beam_missing_field_is_decode_error() {
    let j = obj(vec![("beam_id", st("b1")), ("kind", st("note"))]);
    assert!(is_decode_error(&Beam::from_json(&j)));
    assert!(is_decode_error(&Beam::from_json(&Json::Null)));
    assert!(is_decode_error(&Beam::from_json(&Json::Array(vec![]))));
}

#[test]
fn beam_with_wrong_types_is_decode_error() {
    let j = beam_json(vec![]);
    let mut f = match j {
        Json::Object(f) => f,
        _ => unreachable!(),
    };
    f[6].1 = st("yes");
    assert!(is_decode_error(&Beam::from_json(&Json::Object(f))));
    let big = beam_json(vec![]);
    let mut f = match big {
        Json::Object(f) => f,
        _ => unreachable!(),
    };
    f[7].1 = Json::Int(i64::MAX as i128 + 1);
    assert!(is_decode_error(&Beam::from_json(&Json::Object(f))));
}

#[test]
fn created_beam_is_returned_unchanged() {
    let echoed = obj(vec![
        ("beam_id", st("new1")),
        ("kind", st("note")),
        ("title", st("T")),
        ("tags", Json::Array(vec![])),
        ("body", st("B")),
        ("status", st("active")),
        ("pinned", Json::Bool(false)),
        ("updated_at_ms", Json::Int(5)),
    ]);
    let b = Beam::from_json(&echoed).unwrap();
    assert_eq!(
        (b.beam_id.as_str(), b.kind.as_str(), b.title.as_str(), b.body.as_str()),
        ("new1", "note", "T", "B")
    );
    assert!(b.tags.is_empty());
    assert_eq!(b.status, "active");
    assert_eq!(b.updated_at_ms, 5);
}

#[test]
fn beam_page_decodes() {
    let j = obj(vec![("beams", Json::Array(vec![beam_json(vec![]), beam_json(vec![])])), ("total", Json::Int(7))]);
    let p = BeamQueryResponse::from_json(&j).unwrap();
    assert_eq!(p.beams.len(), 2);
    assert_eq!(p.total, 7);
    let bad = obj(vec![("beams", Json::Array(vec![Json::Int(1)])), ("total", Json::Int(7))]);
    assert!(is_decode_error(&BeamQueryResponse::from_json(&bad)));
    let neg = obj(vec![("beams", Json::Array(vec![])), ("total", Json::Int(-1))]);
    assert!(is_decode_error(&BeamQueryResponse::from_json(&neg)));
}

#[test]
fn chat_history_page_decodes() {
    let j = obj(vec![
        ("messages", Json::Array(vec![])),
        ("total", Json::Int(5)),
        ("limit", Json::Int(10)),
        ("offset", Json::Int(20)),
    ]);
    let h = ChatHistoryResponse::from_json(j).unwrap();
    assert!(h.messages.is_empty());
    assert_eq!(h.total, 5);
    assert_eq!(h.limit, 10);
    assert_eq!(h.offset, 20);
}

#[test]
fn chat_history_with_messages() {
    let j = obj(vec![
        ("messages", Json::Array(vec![message_json(), message_json()])),
        ("total", Json::Int(2)),
        ("limit", Json::Int(10)),
        ("offset", Json::Int(0)),
        ("cursor", Json::Null),
    ]);
    let h = ChatHistoryResponse::from_json(j).unwrap();
    assert_eq!(h.messages.len(), 2);
    assert_eq!(h.messages[1].content, "hi");
    let missing = obj(vec![("messages", Json::Array(vec![])), ("total", Json::Int(5))]);
    assert!(is_decode_error(&ChatHistoryResponse::from_json(missing)));
}

#[test]
fn chat_message_keeps_metadata() {
    let mut m = match message_json() {
        Json::Object(f) => f,
        _ => unreachable!(),
    };
    m.push((s("metadata"), obj(vec![("source", st("cli")), ("n", Json::Decimal(s("1.5")))])));
    let msg = ChatMessage::from_json(Json::Object(m)).unwrap();
    assert_eq!(msg.id, "m1");
    assert_eq!(msg.role, "user");
    assert_eq!(msg.timestamp, 42);
    let meta = msg.metadata.unwrap();
    assert_eq!(meta.len(), 2);
    assert_eq!(meta[0].0, "source");
    assert!(matches!(&meta[1].1, Json::Decimal(t) if t == "1.5"));
    let plain = ChatMessage::from_json(message_json()).unwrap();
    assert!(plain.metadata.is_none());
}

#[test]
fn send_message_response_decodes() {
    let j = obj(vec![("message", message_json()), ("stream_id", st("s1"))]);
    let r = SendMessageResponse::from_json(j).unwrap();
    assert_eq!(r.message.id, "m1");
    assert_eq!(r.stream_id, Some(s("s1")));
    let j = obj(vec![("message", message_json()), ("stream_id", Json::Null)]);
    assert_eq!(SendMessageResponse::from_json(j).unwrap().stream_id, None);
    let j = obj(vec![("message", message_json())]);
    assert_eq!(SendMessageResponse::from_json(j).unwrap().stream_id, None);
    let j = obj(vec![("message", message_json()), ("stream_id", Json::Int(3))]);
    assert!(is_decode_error(&SendMessageResponse::from_json(j)));
    let j = obj(vec![("stream_id", st("s1"))]);
    assert!(is_decode_error(&SendMessageResponse::from_json(j)));
}

#[test]
fn health_and_flag_maps() {
    let h = string_map_from_json(&obj(vec![("status", st("ok")), ("version", st("1.2"))])).unwrap();
    assert_eq!(h, vec![(s("status"), s("ok")), (s("version"), s("1.2"))]);
    assert!(is_decode_error(&string_map_from_json(&obj(vec![("status", Json::Int(1))]))));
    let f = flag_map_from_json(&obj(vec![("pinned", Json::Bool(true))])).unwrap();
    assert_eq!(f, vec![(s("pinned"), true)]);
    assert!(is_decode_error(&flag_map_from_json(&obj(vec![("pinned", st("yes"))]))));
}

#[test]
fn error_messages() {
    assert_eq!(Error::TransportError(s("refused")).message(), "HTTP error: refused");
    assert_eq!(Error::DecodeError(s("bad")).message(), "Parse error: bad");
    assert_eq!(Error::ApiError(404, s("nope")).message(), "API error: HTTP 404: nope");
    assert_eq!(Error::ApiError(0, s("")).message(), "API error: HTTP 0: ");
}

#[test]
fn success_with_missing_field_is_decode_error() {
    let body = classify_response(200, Some(s("{\"beam_id\":\"b1\"}"))).unwrap();
    assert_eq!(body, "{\"beam_id\":\"b1\"}");
    let parsed = obj(vec![("beam_id", st("b1"))]);
    let r = Beam::from_json(&parsed);
    assert!(is_decode_error(&r));
}

#[test]
fn history_scenario_request_and_response() {
    let req = mathison::ApiRequest::chat_history(Some(10), Some(20));
    let c = mathison::MathisonClient::new("http://h").unwrap();
    assert_eq!(c.url(&req), "http://h/api/chat/history");
    let q: Vec<String> = req.query.iter().map(|(k, v)| format!("{}={}", k, v)).collect();
    assert_eq!(q.join("&"), "limit=10&offset=20");
    let body = classify_response(200, Some(s("{\"messages\":[],\"total\":5,\"limit\":10,\"offset\":20}"))).unwrap();
    assert!(body.starts_with('{'));
    let page = ChatHistoryResponse::from_json(obj(vec![
        ("messages", Json::Array(vec![])),
        ("total", Json::Int(5)),
        ("limit", Json::Int(10)),
        ("offset", Json::Int(20)),
    ]))
    .unwrap();
    assert!(page.messages.is_empty());
    assert_eq!(page.total, 5);
}
