use base64::Engine;
use woo_client::json::JsonValue;
use woo_client::json::{json_to_string, parse_json};

fn obj_get<'a>(v: &'a JsonValue, key: &str) -> &'a JsonValue {
    v.get(key).expect("missing member")
}

#[test]
fn parses_scalars() {
    assert!(matches!(parse_json("null"), Some(JsonValue::Null)));
    assert!(matches!(parse_json("true"), Some(JsonValue::Bool(true))));
    assert!(matches!(parse_json("false"), Some(JsonValue::Bool(false))));
    match parse_json("123") {
        Some(JsonValue::Num(s)) => assert_eq!(s, "123"),
        other => panic!("unexpected: {:?}", other),
    }
    match parse_json("-12.5e3") {
        Some(JsonValue::Num(s)) => assert_eq!(s, "-12.5e3"),
        other => panic!("unexpected: {:?}", other),
    }
    match parse_json("\"hello\"") {
        Some(JsonValue::Str(s)) => assert_eq!(s, "hello"),
        other => panic!("unexpected: {:?}", other),
    }
}

#[test]
fn parses_escapes() {
    match parse_json("\"a\\n\\t\\\\\\\"b\"") {
        Some(JsonValue::Str(s)) => assert_eq!(s, "a\n\t\\\"b"),
        other => panic!("unexpected: {:?}", other),
    }
    match parse_json("\"\\u0041\\u00e9\"") {
        Some(JsonValue::Str(s)) => assert_eq!(s, "A\u{e9}"),
        other => panic!("unexpected: {:?}", other),
    }
    // a lone surrogate escape is not a scalar value
    assert!(parse_json("\"\\ud800\"").is_none());
    // control characters must be escaped
    assert!(parse_json("\"a\nb\"").is_none());
}

#[test]
fn parses_structures() {
    let v = parse_json(" { \"a\" : [ 1 , true , \"x\" ] , \"b\" : null } ").expect("parse");
    match obj_get(&v, "a") {
        JsonValue::Arr(items) => {
            assert_eq!(items.len(), 3);
            assert!(matches!(&items[1], JsonValue::Bool(true)));
        },
        other => panic!("unexpected: {:?}", other),
    }
    assert!(matches!(obj_get(&v, "b"), JsonValue::Null));
    assert!(v.get("missing").is_none());
}

#[test]
fn rejects_malformed() {
    assert!(parse_json("").is_none());
    assert!(parse_json("{").is_none());
    assert!(parse_json("[1,]").is_none());
    assert!(parse_json("{\"a\":}").is_none());
    assert!(parse_json("01").is_none());
    assert!(parse_json("1 2").is_none());
    assert!(parse_json("nul").is_none());
    assert!(parse_json("'a'").is_none());
}

#[test]
fn serializer_round_trips() {
    let text = "{\"k\":[1,\"two\",null,{\"n\":-3.5}],\"m\":\"a\\nb\"}";
    let v = parse_json(text).expect("parse");
    let out = json_to_string(&v);
    assert_eq!(out, text);
}

#[test]
fn serializer_output_is_json() {
    // cross-check the serializer against the ordinary JSON ecosystem
    let v = parse_json("{\"a\":[true,\"x\\ty\"],\"b\":-7}").expect("parse");
    let out = json_to_string(&v);
    let sv: serde_json::Value = serde_json::from_str(&out).expect("serde_json parse");
    assert_eq!(sv["b"], serde_json::Value::from(-7i64));
    assert_eq!(sv["a"][1], serde_json::Value::from("x\ty"));
}

#[test]
fn parse_int_literals() {
    assert_eq!(woo_client::chars::parse_int_lit("123"), Some(123));
    assert_eq!(woo_client::chars::parse_int_lit("-45"), Some(-45));
    assert_eq!(woo_client::chars::parse_int_lit("0"), Some(0));
    assert_eq!(woo_client::chars::parse_int_lit(""), None);
    assert_eq!(woo_client::chars::parse_int_lit("12.5"), None);
    assert_eq!(woo_client::chars::parse_int_lit("999999999999999999"), Some(999999999999999999));
    assert_eq!(woo_client::chars::parse_int_lit("9999999999999999999"), None);
}

#[test]
fn decimal_rendering() {
    let cs = woo_client::chars::i64_to_chars(-120);
    let s: String = cs.into_iter().collect();
    assert_eq!(s, "-120");
    let cs = woo_client::chars::u64_to_chars(0);
    let s: String = cs.into_iter().collect();
    assert_eq!(s, "0");
}

#[test]
fn base64_wrapper_matches_reference() {
    // the auth header goes through the base64 engine; hold it to the
    // reference crate and to a fixed expected value
    let c = woo_client::client::WooHttpClient::new("key", "secret", "https://shop.example");
    let expected = format!(
        "Basic {}",
        base64::engine::general_purpose::STANDARD.encode("key:secret"),
    );
    assert_eq!(c.auth_header, expected);
    assert_eq!(c.auth_header, "Basic a2V5OnNlY3JldA==");
}
