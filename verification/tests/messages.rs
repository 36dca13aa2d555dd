use jsonrpc_envelope::Id;
use jsonrpc_envelope::Message;
use jsonrpc_envelope::Notification;
use jsonrpc_envelope::Outcome;
use jsonrpc_envelope::ParseError;
use jsonrpc_envelope::Request;
use jsonrpc_envelope::Response;

fn obj(entries: Vec<(&str, serde_json::Value)>) -> serde_json::Value {
    let mut m = serde_json::Map::new();
    for (k, v) in entries {
        m.insert(k.to_string(), v);
    }
    serde_json::Value::Object(m)
}

fn js(x: &str) -> serde_json::Value {
    serde_json::Value::String(x.to_string())
}

fn jn(x: i64) -> serde_json::Value {
    serde_json::Value::Number(serde_json::Number::from(x))
}

fn request_payload() -> serde_json::Value {
    obj(vec![
        ("jsonrpc", js("2.0")),
        ("method", js("initialize")),
        ("params", obj(vec![("capabilities", obj(vec![]))])),
        ("id", jn(1)),
    ])
}

fn notification_payload() -> serde_json::Value {
    obj(vec![
        ("jsonrpc", js("2.0")),
        ("method", js("initialized")),
        ("params", obj(vec![])),
    ])
}

fn response_payload() -> serde_json::Value {
    obj(vec![("jsonrpc", js("2.0")), ("result", obj(vec![])), ("id", jn(1))])
}

fn unknown_payload() -> serde_json::Value {
    obj(vec![
        ("jsonrpc", js("2.0")),
        ("method", js("xinitialize")),
        ("params", obj(vec![("capabilities", obj(vec![]))])),
        ("id", jn(1)),
    ])
}

#[test]
fn test_request_from_str_or_value() {
    let v = request_payload();
    let from_str = Message::from_str(&v.to_string()).unwrap();
    let from_value = Message::from_value(v);
    assert_eq!(from_str, from_value);
}

#[test]
fn test_notification_from_str_or_value() {
    let v = notification_payload();
    let from_str = Message::from_str(&v.to_string()).unwrap();
    let from_value = Message::from_value(v);
    assert_eq!(from_str, from_value);
}

#[test]
fn test_response_from_str_or_value() {
    let v = response_payload();
    let from_str = Message::from_str(&v.to_string()).unwrap();
    let from_value = Message::from_value(v);
    assert_eq!(from_str, from_value);
}

#[test]
fn test_deserialize_unknown() {
    let v = unknown_payload();
    let from_str = Message::from_str(&v.to_string()).unwrap();
    let from_value = Message::from_value(v);
    assert_eq!(from_str, from_value);
}

#[test]
fn classifies_request_by_shape() {
    match Message::from_value(request_payload()) {
        Message::Request(r) => {
            assert_eq!(r.method, "initialize");
            assert_eq!(r.id, Id::Num(1));
            assert_eq!(r.params, Some(obj(vec![("capabilities", obj(vec![]))])));
        },
        other => panic!("expected a request, got {:?}", other),
    }
}

#[test]
fn classifies_notification_by_shape() {
    match Message::from_value(notification_payload()) {
        Message::Notification(n) => {
            assert_eq!(n.method, "initialized");
            assert_eq!(n.params, Some(obj(vec![])));
        },
        other => panic!("expected a notification, got {:?}", other),
    }
}

#[test]
fn classifies_response_by_shape() {
    match Message::from_value(response_payload()) {
        Message::Response(r) => {
            assert_eq!(r.id, Id::Num(1));
            assert_eq!(r.outcome, Outcome::Success(obj(vec![])));
        },
        other => panic!("expected a response, got {:?}", other),
    }
}

#[test]
fn unrecognized_method_falls_through_to_unknown() {
    // An id-plus-method shape whose method fails the request schema's own
    // validation must not be forced into Request.
    match Message::from_value(unknown_payload()) {
        Message::Unknown(u) => assert_eq!(u.value, unknown_payload()),
        other => panic!("expected unknown, got {:?}", other),
    }
}

#[test]
fn request_id_may_be_a_string() {
    let v = obj(vec![("method", js("shutdown")), ("id", js("abc"))]);
    match Message::from_value(v) {
        Message::Request(r) => {
            assert_eq!(r.method, "shutdown");
            assert_eq!(r.id, Id::Text("abc".to_string()));
            assert_eq!(r.params, None);
        },
        other => panic!("expected a request, got {:?}", other),
    }
}

#[test]
fn null_id_is_not_a_valid_id() {
    let v = obj(vec![("method", js("initialize")), ("id", serde_json::Value::Null)]);
    assert!(matches!(Message::from_value(v), Message::Unknown(_)));
}

#[test]
fn fractional_id_is_not_a_valid_id() {
    let v: serde_json::Value = serde_json::from_str("{\"method\":\"initialize\",\"id\":1.5}")
        .unwrap();
    assert!(matches!(Message::from_value(v), Message::Unknown(_)));
}

#[test]
fn oversized_id_is_not_a_valid_id() {
    let v = obj(vec![
        ("method", js("initialize")),
        ("id", serde_json::Value::Number(serde_json::Number::from(u64::MAX))),
    ]);
    assert!(matches!(Message::from_value(v), Message::Unknown(_)));
}

#[test]
fn response_never_carries_both_payloads() {
    let both = obj(vec![("id", jn(1)), ("result", obj(vec![])), ("error", obj(vec![]))]);
    assert!(matches!(Message::from_value(both), Message::Unknown(_)));
    let neither = obj(vec![("id", jn(1))]);
    assert!(matches!(Message::from_value(neither), Message::Unknown(_)));
}

#[test]
fn response_error_payload() {
    let v = obj(vec![("id", jn(4)), ("error", obj(vec![("code", jn(-32600))]))]);
    match Message::from_value(v) {
        Message::Response(r) => {
            assert_eq!(r.outcome, Outcome::Failure(obj(vec![("code", jn(-32600))])));
        },
        other => panic!("expected a response, got {:?}", other),
    }
}

#[test]
fn extra_fields_are_ignored_by_schemas() {
    // Schema validation ignores fields it does not know, so a notification
    // method wins even beside an id, and a response tolerates a stray field.
    let v = obj(vec![("method", js("initialized")), ("id", jn(1))]);
    assert!(matches!(Message::from_value(v), Message::Notification(_)));
    let v2 = obj(vec![("id", jn(1)), ("result", obj(vec![])), ("extra", js("x"))]);
    assert!(matches!(Message::from_value(v2), Message::Response(_)));
}

#[test]
fn non_object_payloads_are_unknown() {
    let arr = Message::from_str("[1,2]").unwrap();
    assert!(matches!(arr, Message::Unknown(_)));
    let scalar = Message::from_str("true").unwrap();
    assert!(matches!(scalar, Message::Unknown(_)));
}

#[test]
fn malformed_text_is_a_syntax_error() {
    assert_eq!(Message::from_str("{not json"), Err(ParseError::Syntax));
    assert_eq!(Message::from_str(""), Err(ParseError::Syntax));
}

#[test]
fn render_emits_exact_envelope() {
    let v = obj(vec![("method", js("shutdown")), ("id", jn(2))]);
    let text = Message::from_value(v).render_text();
    assert_eq!(text, "{\"jsonrpc\":\"2.0\",\"id\":2,\"method\":\"shutdown\"}");
}

#[test]
fn render_keeps_params_and_payloads_in_place() {
    let note = obj(vec![("method", js("initialized")), ("params", obj(vec![]))]);
    assert_eq!(
        Message::from_value(note).render_text(),
        "{\"jsonrpc\":\"2.0\",\"method\":\"initialized\",\"params\":{}}",
    );
    let failure = obj(vec![("id", js("r")), ("error", jn(-1))]);
    assert_eq!(
        Message::from_value(failure).render_text(),
        "{\"jsonrpc\":\"2.0\",\"id\":\"r\",\"error\":-1}",
    );
}

#[test]
fn render_always_stamps_version() {
    let stale = obj(vec![
        ("jsonrpc", js("1.0")),
        ("method", js("initialized")),
        ("params", obj(vec![])),
    ]);
    let rendered = Message::from_value(stale).render();
    assert_eq!(rendered.get("jsonrpc"), Some(&js("2.0")));

    let missing = obj(vec![("result", obj(vec![])), ("id", jn(7))]);
    let rendered = Message::from_value(missing).render();
    assert_eq!(rendered.get("jsonrpc"), Some(&js("2.0")));

    let unknown = obj(vec![("jsonrpc", js("1.0")), ("stray", jn(1))]);
    let rendered = Message::from_value(unknown).render();
    assert_eq!(rendered, obj(vec![("jsonrpc", js("2.0")), ("stray", jn(1))]));
}

#[test]
fn render_of_non_object_unknown_passes_through() {
    let m = Message::from_str("[1,2]").unwrap();
    assert_eq!(m.render_text(), "[1,2]");
}

#[test]
fn round_trip_is_stable_after_one_pass() {
    let texts = vec![
        "{\"jsonrpc\":\"1.1\",\"method\":\"initialize\",\"params\":{\"capabilities\":{}},\"id\":1}",
        "{\"method\":\"initialized\",\"params\":{}}",
        "{\"result\":{\"ok\":true},\"id\":\"r-1\"}",
    ];
    for text in texts {
        let once = Message::from_str(text).unwrap().render_text();
        let twice = Message::from_str(&once).unwrap().render_text();
        assert_eq!(once, twice);
    }
}

#[test]
fn wrapping_a_request_is_pure() {
    let r = Request { id: Id::Num(9), method: "shutdown".to_string(), params: None };
    match Message::from(r) {
        Message::Request(inner) => {
            assert_eq!(inner.id, Id::Num(9));
            assert_eq!(inner.method, "shutdown");
            assert_eq!(inner.params, None);
        },
        other => panic!("expected a request, got {:?}", other),
    }
}

#[test]
fn wrapping_a_notification_is_pure() {
    let n = Notification { method: "exit".to_string(), params: Some(js("p")) };
    match Message::from(n) {
        Message::Notification(inner) => {
            assert_eq!(inner.method, "exit");
            assert_eq!(inner.params, Some(js("p")));
        },
        other => panic!("expected a notification, got {:?}", other),
    }
}

#[test]
fn wrapping_a_response_is_pure() {
    let r = Response { id: Id::Text("k".to_string()), outcome: Outcome::Failure(jn(3)) };
    match Message::from(r) {
        Message::Response(inner) => {
            assert_eq!(inner.id, Id::Text("k".to_string()));
            assert_eq!(inner.outcome, Outcome::Failure(jn(3)));
        },
        other => panic!("expected a response, got {:?}", other),
    }
}
