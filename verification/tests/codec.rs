use dynharvest::json::{encode_document, JsonValue};
use dynharvest::parse::parse_document;

fn obj(members: Vec<(&str, JsonValue)>) -> JsonValue {
    JsonValue::Object(
        members
            .into_iter()
            .map(|(k, v)| (k.as_bytes().to_vec(), v))
            .collect(),
    )
}

fn s(text: &str) -> JsonValue {
    JsonValue::Str(text.as_bytes().to_vec())
}

fn n(lexeme: &str) -> JsonValue {
    JsonValue::Number(lexeme.as_bytes().to_vec())
}

#[test]
fn encodes_scalars() {
    assert_eq!(encode_document(&JsonValue::Null), b"null".to_vec());
    assert_eq!(encode_document(&JsonValue::Bool(true)), b"true".to_vec());
    assert_eq!(encode_document(&JsonValue::Bool(false)), b"false".to_vec());
    assert_eq!(encode_document(&n("-12.5e3")), b"-12.5e3".to_vec());
    assert_eq!(encode_document(&s("plain")), b"\"plain\"".to_vec());
}

#[test]
fn encodes_escapes() {
    let v = JsonValue::Str(b"a\"b\\c\nd\te\x01".to_vec());
    assert_eq!(
        encode_document(&v),
        b"\"a\\\"b\\\\c\\nd\\te\\u0001\"".to_vec()
    );
}

#[test]
fn encodes_containers() {
    let v = obj(vec![
        ("k", JsonValue::Array(vec![n("1"), s("x"), JsonValue::Null])),
        ("m", obj(vec![("inner", JsonValue::Bool(false))])),
    ]);
    assert_eq!(
        encode_document(&v),
        b"{\"k\":[1,\"x\",null],\"m\":{\"inner\":false}}".to_vec()
    );
}

#[test]
fn parses_scalars_and_whitespace() {
    assert_eq!(parse_document(&b"  null ".to_vec()), Some(JsonValue::Null));
    assert_eq!(
        parse_document(&b"\t true\n".to_vec()),
        Some(JsonValue::Bool(true))
    );
    assert_eq!(parse_document(&b"0".to_vec()), Some(n("0")));
    assert_eq!(parse_document(&b"-0.5e+10".to_vec()), Some(n("-0.5e+10")));
    assert_eq!(parse_document(&b"\"ab\"".to_vec()), Some(s("ab")));
}

#[test]
fn parses_string_escapes() {
    assert_eq!(
        parse_document(&b"\"a\\\"b\\\\c\\/d\\n\\t\\r\\b\\f\"".to_vec()),
        Some(JsonValue::Str(b"a\"b\\c/d\n\t\r\x08\x0c".to_vec()))
    );
    assert_eq!(parse_document(&b"\"\\u0041\"".to_vec()), Some(s("A")));
    // One astral code point arrives as a surrogate pair and leaves as UTF-8.
    assert_eq!(
        parse_document(&b"\"\\uD83D\\uDE00\"".to_vec()),
        Some(JsonValue::Str(vec![0xf0, 0x9f, 0x98, 0x80]))
    );
}

#[test]
fn rejects_malformed_documents() {
    assert_eq!(parse_document(&b"not-json".to_vec()), None);
    assert_eq!(parse_document(&b"".to_vec()), None);
    assert_eq!(parse_document(&b"{\"a\":1".to_vec()), None);
    assert_eq!(parse_document(&b"[1,]".to_vec()), None);
    assert_eq!(parse_document(&b"01".to_vec()), None);
    assert_eq!(parse_document(&b"\"unterminated".to_vec()), None);
    assert_eq!(parse_document(&b"\"\\uD83D\"".to_vec()), None);
    assert_eq!(parse_document(&b"null null".to_vec()), None);
    assert_eq!(parse_document(&b"{'a':1}".to_vec()), None);
}

#[test]
fn parses_nested_containers() {
    let parsed = parse_document(&b" {\"a\": [1, {\"b\": \"c\"}], \"d\": null} ".to_vec());
    let expected = obj(vec![
        ("a", JsonValue::Array(vec![n("1"), obj(vec![("b", s("c"))])])),
        ("d", JsonValue::Null),
    ]);
    assert_eq!(parsed, Some(expected));
}

#[test]
fn round_trips_byte_for_byte() {
    let text = b"{\"a\":[1,2.5e-1,\"x\\ny\"],\"b\":{\"c\":null,\"d\":false}}".to_vec();
    let v = parse_document(&text).unwrap();
    let encoded = encode_document(&v);
    assert_eq!(encoded, text);
    let again = parse_document(&encoded).unwrap();
    assert_eq!(again, v);
}

#[test]
fn output_agrees_with_an_independent_reader() {
    let text = b"{\"name\":\"caf\\u00e9\",\"n\":-3.5,\"tags\":[true,null,\"a b\"]}".to_vec();
    let ours = parse_document(&text).unwrap();
    let encoded = encode_document(&ours);
    let reference: serde_json::Value = serde_json::from_slice(&text).unwrap();
    let reread: serde_json::Value = serde_json::from_slice(&encoded).unwrap();
    assert_eq!(reference, reread);
}

#[test]
fn handles_empty_containers() {
    assert_eq!(parse_document(&b"{}".to_vec()), Some(obj(vec![])));
    assert_eq!(
        parse_document(&b"[]".to_vec()),
        Some(JsonValue::Array(vec![]))
    );
    assert_eq!(parse_document(&b" [ ] ".to_vec()), Some(JsonValue::Array(vec![])));
    assert_eq!(encode_document(&obj(vec![])), b"{}".to_vec());
    assert_eq!(encode_document(&JsonValue::Array(vec![])), b"[]".to_vec());
    assert_eq!(encode_document(&s("")), b"\"\"".to_vec());
}

#[test]
fn keeps_duplicate_keys_in_order() {
    let text = b"{\"a\":1,\"a\":2}".to_vec();
    let v = parse_document(&text).unwrap();
    assert_eq!(encode_document(&v), text);
}
