use posts_broker::background::decoder::{
    accept_parsed, classify, decode, RawDelivery, Rejection, Severity, JSON_CONTENT_TYPE,
};
use serde_json::{Number, Value};

const POST: &str = r#"{"id":"0190f3f0-6b7a-7cc0-8f3e-2f1f4d6c9a10","user_id":7,"post_content":"hello","tags":["rust",null]}"#;

fn expected_post() -> Value {
    let mut post = serde_json::Map::new();
    post.insert(
        "id".to_string(),
        Value::String("0190f3f0-6b7a-7cc0-8f3e-2f1f4d6c9a10".to_string()),
    );
    post.insert("user_id".to_string(), Value::Number(Number::from(7)));
    post.insert("post_content".to_string(), Value::String("hello".to_string()));
    post.insert(
        "tags".to_string(),
        Value::Array(vec![Value::String("rust".to_string()), Value::Null]),
    );
    Value::Object(post)
}

#[test]
fn content_type_constant_is_exact() {
    assert_eq!(JSON_CONTENT_TYPE, "application/json");
}

#[test]
fn decode_accepts_a_json_post() {
    let event = decode("application/json", POST.as_bytes()).expect("a valid post decodes");
    assert_eq!(event.value(), &expected_post());
    assert_eq!(event.into_value(), expected_post());
}

#[test]
fn decode_accepts_any_json_value() {
    assert_eq!(decode("application/json", b"null").unwrap().value(), &Value::Null);
    assert_eq!(decode("application/json", b" [1, 2] ").unwrap().value(), &Value::Array(vec![
        Value::Number(Number::from(1)),
        Value::Number(Number::from(2)),
    ]));
    assert_eq!(
        decode("application/json", "\"caf\u{e9}\"".as_bytes()).unwrap().value(),
        &Value::String("caf\u{e9}".to_string())
    );
}

#[test]
fn decode_rejects_a_foreign_content_type() {
    assert!(decode("text/plain", POST.as_bytes()).is_none());
    assert!(matches!(classify("text/plain", POST.as_bytes()), Err(Rejection::ContentType)));
}

#[test]
fn content_type_is_compared_exactly() {
    for declared in [
        "",
        "Application/json",
        "APPLICATION/JSON",
        "application/json ",
        " application/json",
        "application/json; charset=utf-8",
        "application/*",
        "*/*",
        "application/jso",
        "application/jsonl",
    ] {
        assert!(
            matches!(classify(declared, POST.as_bytes()), Err(Rejection::ContentType)),
            "{declared:?} must be rejected"
        );
    }
}

#[test]
fn decode_rejects_malformed_json() {
    for body in ["", "{", "{\"id\": }", "{\"a\":1} trailing", "nul", "{'a':1}"] {
        assert!(decode("application/json", body.as_bytes()).is_none(), "{body:?}");
        assert!(
            matches!(classify("application/json", body.as_bytes()), Err(Rejection::Syntax)),
            "{body:?}"
        );
    }
}

#[test]
fn decode_rejects_bytes_that_are_not_utf8() {
    let bodies: [&[u8]; 4] = [
        &[0xff],
        &[b'"', 0xc3, b'"'],
        &[0xed, 0xa0, 0x80],
        &[b'{', b'}', 0x80],
    ];
    for body in bodies {
        assert!(decode("application/json", body).is_none());
        assert!(matches!(classify("application/json", body), Err(Rejection::Encoding)));
    }
}

#[test]
fn content_type_is_checked_before_the_body() {
    assert!(matches!(classify("text/plain", &[0xff]), Err(Rejection::ContentType)));
    assert!(matches!(classify("text/plain", b"{"), Err(Rejection::ContentType)));
}

#[test]
fn rejections_are_reported_at_their_level() {
    assert_eq!(Rejection::ContentType.severity(), Severity::Info);
    assert_eq!(Rejection::Encoding.severity(), Severity::Error);
    assert_eq!(Rejection::Syntax.severity(), Severity::Error);
}

#[test]
fn accept_parsed_wraps_the_parsers_answer() {
    let parsed: Result<Value, serde_json::Error> = serde_json::from_str("{\"n\": 3}");
    let event = accept_parsed(parsed).expect("a parsed document is accepted");
    let mut expected = serde_json::Map::new();
    expected.insert("n".to_string(), Value::Number(Number::from(3)));
    assert_eq!(event.value(), &Value::Object(expected));

    let refused: Result<Value, serde_json::Error> = serde_json::from_str("{");
    assert!(matches!(accept_parsed(refused), Err(Rejection::Syntax)));
}

#[test]
fn a_delivery_without_content_type_is_rejected() {
    let delivery = RawDelivery { delivery_tag: 1, content_type: None, body: POST.as_bytes().to_vec() };
    assert_eq!(delivery.declared_content_type(), "");
    assert!(matches!(delivery.decode(), Err(Rejection::ContentType)));
}

#[test]
fn a_delivery_decodes_as_its_parts_do() {
    let delivery = RawDelivery {
        delivery_tag: 9,
        content_type: Some("application/json".to_string()),
        body: POST.as_bytes().to_vec(),
    };
    assert_eq!(delivery.declared_content_type(), "application/json");
    assert_eq!(delivery.decode().unwrap().value(), &expected_post());
}
