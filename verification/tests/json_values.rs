use ow_wasmtime::json::Json;
use ow_wasmtime::marshal::{decode_result, encode_input};

fn json(text: &str) -> Json {
    decode_result(text.as_bytes().to_vec()).expect("a JSON document")
}

fn text(value: &Json) -> String {
    String::from_utf8(encode_input(value)).expect("UTF-8")
}

#[test]
fn a_parsed_document_is_written_back_with_sorted_keys() {
    let value = json(r#" { "n" : 7 , "k" : "v" } "#);
    assert_eq!(text(&value), r#"{"k":"v","n":7}"#);
}

#[test]
fn numbers_keep_their_text() {
    let value = json(r#"[0, -12, 1.5, 1e3, 18446744073709551615]"#);
    assert_eq!(text(&value), "[0,-12,1.5,1000.0,18446744073709551615]");
}

#[test]
fn get_finds_the_last_member_with_the_key() {
    let object = Json::Object(vec![
        ("a".to_string(), Json::Bool(false)),
        ("b".to_string(), Json::Null),
        ("a".to_string(), Json::Bool(true)),
    ]);
    assert!(matches!(object.get("a"), Some(Json::Bool(true))));
    assert!(matches!(object.get("b"), Some(Json::Null)));
    assert!(object.get("c").is_none());
    assert_eq!(text(&object), r#"{"a":true,"b":null}"#);
}

#[test]
fn get_on_a_value_that_is_no_object_finds_nothing() {
    assert!(Json::Array(vec![]).get("a").is_none());
    assert!(Json::Null.get("a").is_none());
    assert!(Json::String("a".to_string()).get("a").is_none());
}

#[test]
fn set_replaces_a_value_and_adds_a_new_key() {
    let mut object = json(r#"{"a":1,"b":2}"#);
    object.set("a".to_string(), Json::String("x".to_string()));
    object.set("c".to_string(), Json::Bool(true));
    assert_eq!(text(&object), r#"{"a":"x","b":2,"c":true}"#);
}

#[test]
fn set_on_a_value_that_is_no_object_changes_nothing() {
    let mut value = json("[1,2]");
    value.set("a".to_string(), Json::Null);
    assert_eq!(text(&value), "[1,2]");
}

#[test]
fn remove_takes_out_every_occurrence_of_the_key() {
    let mut object = Json::Object(vec![
        ("a".to_string(), Json::Bool(false)),
        ("b".to_string(), Json::Null),
        ("a".to_string(), Json::Bool(true)),
    ]);
    let removed = object.remove("a");
    assert!(matches!(removed, Some(Json::Bool(true))));
    assert!(object.get("a").is_none());
    assert_eq!(text(&object), r#"{"b":null}"#);
    assert!(object.remove("a").is_none());
}

#[test]
fn take_hands_out_the_member() {
    let object = json(r#"{"response":{"x":[1,2]},"other":0}"#);
    let response = object.take("response").expect("a response");
    assert_eq!(text(&response), r#"{"x":[1,2]}"#);
    assert!(json("{}").take("response").is_none());
}

#[test]
fn as_string_and_as_array_tell_the_variants_apart() {
    let value = json(r#"{"s":"text","a":["x"],"n":1}"#);
    assert_eq!(value.get("s").and_then(|v| v.as_string()).map(|s| s.as_str()), Some("text"));
    assert!(value.get("s").and_then(|v| v.as_array()).is_none());
    assert_eq!(value.get("a").and_then(|v| v.as_array()).map(|a| a.len()), Some(1));
    assert!(value.get("n").and_then(|v| v.as_string()).is_none());
}

#[test]
fn bytes_that_are_no_utf8_are_a_marshalling_error() {
    let error = decode_result(vec![0x7b, 0xff, 0x7d]).expect_err("no UTF-8");
    assert_eq!(error.kind, ow_wasmtime::error::ErrorKind::MarshalError);
}

#[test]
fn text_that_is_no_json_is_a_marshalling_error() {
    let error = decode_result(b"{\"a\":".to_vec()).expect_err("no JSON");
    assert_eq!(error.kind, ow_wasmtime::error::ErrorKind::MarshalError);
}

#[test]
fn the_empty_object_has_no_members() {
    assert_eq!(text(&Json::object()), "{}");
}

#[test]
fn the_last_member_of_a_repeated_key_is_the_one_that_is_written() {
    let value = Json::Object(vec![
        ("k".to_string(), json("1")),
        ("a".to_string(), json("true")),
        ("k".to_string(), json("2")),
        ("k".to_string(), json(r#"{"x":[1],"x":[2]}"#)),
    ]);
    assert_eq!(text(&value), r#"{"a":true,"k":{"x":[2]}}"#);
    let many = Json::Object((0..40).map(|i| ("same".to_string(), json(&i.to_string()))).collect());
    assert_eq!(text(&many), r#"{"same":39}"#);
}
