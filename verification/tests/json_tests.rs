use chat_relay::frame::{error_frame, WebSocketMessage};
use chat_relay::json::{read_field, Field};
use serde_json::Value;

fn value(text: &str) -> Value {
    serde_json::from_str(text).unwrap()
}

#[test]
fn read_field_tells_the_kinds_of_members_apart() {
    let payload = value(
        r#"{"t":"hi","n":null,"i":7,"neg":-3,"f":1.5,"b":true,"a":[1],"o":{"x":1}}"#,
    );
    assert_eq!(read_field(&payload, "t"), Field::Text("hi".to_string()));
    assert_eq!(read_field(&payload, "n"), Field::Null);
    assert_eq!(read_field(&payload, "i"), Field::Integer(7));
    assert_eq!(read_field(&payload, "neg"), Field::Integer(-3));
    assert_eq!(read_field(&payload, "f"), Field::Other);
    assert_eq!(read_field(&payload, "b"), Field::Other);
    assert_eq!(read_field(&payload, "a"), Field::Other);
    assert_eq!(read_field(&payload, "o"), Field::Other);
    assert_eq!(read_field(&payload, "missing"), Field::Absent);
}

#[test]
fn read_field_finds_nothing_in_what_is_no_object() {
    assert_eq!(read_field(&value("5"), "id"), Field::Absent);
    assert_eq!(read_field(&value(r#""id""#), "id"), Field::Absent);
    assert_eq!(read_field(&value(r#"["id"]"#), "id"), Field::Absent);
    assert_eq!(read_field(&value("null"), "id"), Field::Absent);
}

#[test]
fn read_field_takes_an_integer_only_if_it_fits() {
    let payload = value(
        r#"{"max":9223372036854775807,"min":-9223372036854775808,"big":9223372036854775808,"whole":2.0}"#,
    );
    assert_eq!(read_field(&payload, "max"), Field::Integer(i64::MAX));
    assert_eq!(read_field(&payload, "min"), Field::Integer(i64::MIN));
    assert_eq!(read_field(&payload, "big"), Field::Other);
    assert_eq!(read_field(&payload, "whole"), Field::Other);
}

#[test]
fn field_into_text() {
    assert_eq!(Field::Text("hi".to_string()).into_text(), Some("hi".to_string()));
    assert_eq!(Field::Text(String::new()).into_text(), Some(String::new()));
    assert_eq!(Field::Absent.into_text(), None);
    assert_eq!(Field::Null.into_text(), None);
    assert_eq!(Field::Integer(1).into_text(), None);
    assert_eq!(Field::Other.into_text(), None);
}

#[test]
fn field_into_optional_text() {
    assert_eq!(Field::Text("hi".to_string()).into_optional_text(), Ok(Some("hi".to_string())));
    assert_eq!(Field::Absent.into_optional_text(), Ok(None));
    assert_eq!(Field::Null.into_optional_text(), Ok(None));
    assert_eq!(Field::Integer(1).into_optional_text(), Err(()));
    assert_eq!(Field::Other.into_optional_text(), Err(()));
}

#[test]
fn field_into_id() {
    assert_eq!(Field::Integer(7).into_id(), Some(7));
    assert_eq!(Field::Integer(-7).into_id(), Some(-7));
    assert_eq!(Field::Integer(2147483647).into_id(), Some(i32::MAX));
    assert_eq!(Field::Integer(-2147483648).into_id(), Some(i32::MIN));
    assert_eq!(Field::Integer(2147483648).into_id(), None);
    assert_eq!(Field::Integer(-2147483649).into_id(), None);
    assert_eq!(Field::Integer(4294967297).into_id(), None);
    assert_eq!(Field::Text("7".to_string()).into_id(), None);
    assert_eq!(Field::Absent.into_id(), None);
    assert_eq!(Field::Null.into_id(), None);
    assert_eq!(Field::Other.into_id(), None);
}

#[test]
fn field_into_optional_id() {
    assert_eq!(Field::Integer(7).into_optional_id(), Ok(Some(7)));
    assert_eq!(Field::Absent.into_optional_id(), Ok(None));
    assert_eq!(Field::Null.into_optional_id(), Ok(None));
    assert_eq!(Field::Integer(2147483648).into_optional_id(), Err(()));
    assert_eq!(Field::Text("7".to_string()).into_optional_id(), Err(()));
    assert_eq!(Field::Other.into_optional_id(), Err(()));
}

#[test]
fn envelope_is_parsed() {
    let envelope =
        WebSocketMessage::parse(r#"{"action":"new_message","payload":{"message":"hi"}}"#).unwrap();
    assert_eq!(envelope.action, "new_message");
    assert_eq!(envelope.payload, value(r#"{"message":"hi"}"#));
}

#[test]
fn envelope_may_carry_any_payload_and_more_members() {
    let envelope = WebSocketMessage::parse(r#"{"payload":null,"extra":1,"action":""}"#).unwrap();
    assert_eq!(envelope.action, "");
    assert_eq!(envelope.payload, Value::Null);
}

#[test]
fn envelope_needs_action_and_payload() {
    assert!(WebSocketMessage::parse(r#"{"action":"new_message"}"#).is_none());
    assert!(WebSocketMessage::parse(r#"{"payload":{}}"#).is_none());
    assert!(WebSocketMessage::parse(r#"{"action":5,"payload":{}}"#).is_none());
    assert!(WebSocketMessage::parse(r#"{"action":null,"payload":{}}"#).is_none());
    assert!(WebSocketMessage::parse(r#"["new_message",{}]"#).is_none());
    assert!(WebSocketMessage::parse("7").is_none());
}

#[test]
fn envelope_needs_json() {
    assert!(WebSocketMessage::parse("").is_none());
    assert!(WebSocketMessage::parse("hello").is_none());
    assert!(WebSocketMessage::parse(r#"{"action":"new_message","payload":{}"#).is_none());
    assert!(WebSocketMessage::parse(r#"{"action":"a","payload":{}} trailing"#).is_none());
}

#[test]
fn error_frame_has_the_documented_shape() {
    assert_eq!(
        error_frame("Unknown action"),
        r#"{"action":"error","payload":{"message":"Unknown action"}}"#
    );
}

#[test]
fn error_frame_escapes_its_message() {
    assert_eq!(
        error_frame("say \"hi\"\n\\"),
        r#"{"action":"error","payload":{"message":"say \"hi\"\n\\"}}"#
    );
    assert_eq!(error_frame(""), r#"{"action":"error","payload":{"message":""}}"#);
}

#[test]
fn error_frame_reads_back_as_json() {
    let frame = error_frame("You can't create chat");
    let parsed = value(&frame);
    assert_eq!(parsed.get("action").and_then(Value::as_str), Some("error"));
    let message = parsed.get("payload").and_then(|p| p.get("message")).and_then(Value::as_str);
    assert_eq!(message, Some("You can't create chat"));
}
