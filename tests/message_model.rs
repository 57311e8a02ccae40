use maelstrom::json::{get_field, set_field, JsonNumber, JsonValue};
use maelstrom::message::{Message, MessageBody};
use maelstrom::MaelstromError;

fn s(x: &str) -> String {
    x.to_string()
}

fn text(x: &str) -> JsonValue {
    JsonValue::Str(s(x))
}

fn uint(n: u64) -> JsonValue {
    JsonValue::Number(JsonNumber::UInt(n))
}

fn object(members: Vec<(&str, JsonValue)>) -> JsonValue {
    JsonValue::Object(members.into_iter().map(|(k, v)| (s(k), v)).collect())
}

fn sample(extra: Vec<(String, JsonValue)>) -> Message {
    let mut body = MessageBody::new(s("echo"), 42, 0);
    body.extra = extra;
    Message::new(s("c1"), s("n1"), body)
}

fn same(a: &Message, b: &Message) -> bool {
    format!("{:?}", a) == format!("{:?}", b)
}

#[test]
fn round_trip_with_empty_payload() {
    let m = sample(Vec::new());
    let expected = sample(Vec::new());
    let back = Message::from_json(m.into_json()).unwrap();
    assert!(same(&back, &expected));
    assert_eq!(back.body.extra.len(), 0);
}

#[test]
fn round_trip_with_nested_payload() {
    let nested = || {
        vec![
            (s("echo"), text("hello")),
            (
                s("deep"),
                object(vec![
                    ("list", JsonValue::Array(vec![uint(1), JsonValue::Null, JsonValue::Bool(true)])),
                    ("neg", JsonValue::Number(JsonNumber::NegInt(-5))),
                    ("frac", JsonValue::Number(JsonNumber::Other(s("1.5")))),
                ]),
            ),
        ]
    };
    let m = sample(nested());
    let back = Message::from_json(m.into_json()).unwrap();
    assert!(same(&back, &sample(nested())));
}

#[test]
fn encoding_lays_out_envelope_and_body() {
    let v = sample(vec![(s("k"), text("v"))]).into_json();
    let top = match v {
        JsonValue::Object(top) => top,
        _ => panic!("not an object"),
    };
    let names: Vec<&str> = top.iter().map(|(k, _)| k.as_str()).collect();
    assert_eq!(names, vec!["src", "dest", "body"]);
    let body = match get_field(&top, "body") {
        Some(JsonValue::Object(b)) => b,
        _ => panic!("no body"),
    };
    let names: Vec<&str> = body.iter().map(|(k, _)| k.as_str()).collect();
    assert_eq!(names, vec!["type", "msg_id", "in_reply_to", "k"]);
    assert!(matches!(get_field(body, "msg_id"), Some(JsonValue::Number(JsonNumber::UInt(42)))));
}

#[test]
fn missing_members_take_zero_values() {
    let m = Message::from_json(object(vec![])).unwrap();
    assert_eq!(m.src, "");
    assert_eq!(m.dest, "");
    assert_eq!(m.body.msg_type, "");
    assert_eq!(m.body.msg_id, 0);
    assert_eq!(m.body.in_reply_to, 0);
    assert_eq!(m.body.extra.len(), 0);
}

#[test]
fn unknown_members_are_kept_in_body_and_ignored_at_top() {
    let v = object(vec![
        ("src", text("c1")),
        ("dest", text("n1")),
        ("id", uint(9)),
        ("body", object(vec![("type", text("echo")), ("msg_id", uint(3)), ("echo", text("hi"))])),
    ]);
    let m = Message::from_json(v).unwrap();
    assert_eq!(m.src, "c1");
    assert_eq!(m.body.msg_type, "echo");
    assert_eq!(m.body.msg_id, 3);
    assert_eq!(m.body.in_reply_to, 0);
    assert_eq!(m.body.extra.len(), 1);
    assert_eq!(m.body.extra[0].0, "echo");
}

#[test]
fn wrongly_typed_members_are_malformed() {
    let not_object = Message::from_json(text("x"));
    assert_eq!(not_object.unwrap_err(), MaelstromError::MalformedRequest);
    let bad_id = object(vec![("body", object(vec![("msg_id", text("7"))]))]);
    assert_eq!(Message::from_json(bad_id).unwrap_err(), MaelstromError::MalformedRequest);
    let neg_id = object(vec![("body", object(vec![("msg_id", JsonValue::Number(JsonNumber::NegInt(-1)))]))]);
    assert_eq!(Message::from_json(neg_id).unwrap_err(), MaelstromError::MalformedRequest);
    let bad_src = object(vec![("src", uint(1))]);
    assert_eq!(Message::from_json(bad_src).unwrap_err(), MaelstromError::MalformedRequest);
    let bad_body = object(vec![("body", JsonValue::Array(vec![]))]);
    assert_eq!(Message::from_json(bad_body).unwrap_err(), MaelstromError::MalformedRequest);
}

#[test]
fn set_field_replaces_first_or_appends() {
    let mut fields = vec![(s("a"), uint(1)), (s("b"), uint(2))];
    set_field(&mut fields, s("b"), uint(5));
    assert_eq!(fields.len(), 2);
    assert!(matches!(get_field(&fields, "b"), Some(JsonValue::Number(JsonNumber::UInt(5)))));
    set_field(&mut fields, s("c"), uint(7));
    assert_eq!(fields.len(), 3);
    assert_eq!(fields[2].0, "c");
    assert!(get_field(&fields, "d").is_none());
}

#[test]
fn error_codes_follow_the_protocol() {
    assert_eq!(MaelstromError::Timeout.code(), 0);
    assert_eq!(MaelstromError::NotSupported.code(), 10);
    assert_eq!(MaelstromError::MalformedRequest.code(), 12);
    assert_eq!(MaelstromError::TxnConflict.code(), 30);
    assert_eq!(MaelstromError::NotSupported.description(), "not supported");
}
