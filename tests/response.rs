use std::collections::BTreeMap;

use ckan::response::{
    decode_body, read_payload, resolve, transport_failure, DECODE_FAILURE, UNMATCHED,
};
use ckan::{Envelope, Payload, Response};
use serde_json::Value;

type Record = BTreeMap<String, i64>;

fn decode_record(body: &[u8]) -> Response<Record> {
    decode_body(body, |v: &Value| serde_json::from_value::<Record>(v.clone()).ok())
}

fn json(text: &str) -> Value {
    serde_json::from_str(text).unwrap()
}

#[test]
fn success_envelope_gives_result() {
    match decode_record(br#"{"help":"h","result":{"x":1}}"#) {
        Response::Result(s) => {
            assert_eq!(s.help, "h");
            assert_eq!(s.result.get("x"), Some(&1));
            assert_eq!(s.result.len(), 1);
        }
        _ => panic!("expected a result"),
    }
}

#[test]
fn error_envelope_keeps_error_value() {
    match decode_record(br#"{"help":"h","error":{"message":"bad"}}"#) {
        Response::Error(f) => {
            assert_eq!(f.help, "h");
            assert_eq!(f.error, json(r#"{"message":"bad"}"#));
        }
        _ => panic!("expected an error envelope"),
    }
}

#[test]
fn bare_string_gives_string_error() {
    match decode_record(br#""not found""#) {
        Response::StringError(s) => assert_eq!(s, "not found"),
        _ => panic!("expected a string error"),
    }
}

#[test]
fn unknown_object_gives_decode_error() {
    match decode_record(br#"{"foo":"bar"}"#) {
        Response::DecodeError(d) => {
            assert!(!d.is_empty());
            assert_eq!(d, UNMATCHED);
        }
        _ => panic!("expected a decode error"),
    }
}

#[test]
fn invalid_json_gives_decode_error() {
    match decode_record(b"not json") {
        Response::DecodeError(d) => {
            assert!(d.starts_with(DECODE_FAILURE));
            assert!(d.len() > DECODE_FAILURE.len());
            assert_ne!(d, UNMATCHED);
        }
        _ => panic!("expected a decode error"),
    }
}

#[test]
fn empty_body_gives_decode_error() {
    match decode_record(b"") {
        Response::DecodeError(d) => assert!(d.starts_with(DECODE_FAILURE)),
        _ => panic!("expected a decode error"),
    }
}

#[test]
fn result_of_wrong_shape_falls_back_to_error_envelope() {
    match decode_record(br#"{"help":"h","result":"text","error":{"code":7}}"#) {
        Response::Error(f) => {
            assert_eq!(f.help, "h");
            assert_eq!(f.error, json(r#"{"code":7}"#));
        }
        _ => panic!("expected an error envelope"),
    }
}

#[test]
fn result_of_wrong_shape_without_error_gives_decode_error() {
    match decode_record(br#"{"help":"h","result":[1,2]}"#) {
        Response::DecodeError(d) => assert_eq!(d, UNMATCHED),
        _ => panic!("expected a decode error"),
    }
}

#[test]
fn success_is_tried_before_error() {
    match decode_record(br#"{"help":"h","result":{"y":2},"error":"e"}"#) {
        Response::Result(s) => assert_eq!(s.result.get("y"), Some(&2)),
        _ => panic!("expected a result"),
    }
}

#[test]
fn help_that_is_not_a_string_gives_decode_error() {
    match decode_record(br#"{"help":3,"result":{"x":1}}"#) {
        Response::DecodeError(d) => assert_eq!(d, UNMATCHED),
        _ => panic!("expected a decode error"),
    }
}

#[test]
fn missing_help_gives_decode_error() {
    match decode_record(br#"{"error":{"message":"bad"}}"#) {
        Response::DecodeError(d) => assert_eq!(d, UNMATCHED),
        _ => panic!("expected a decode error"),
    }
}

#[test]
fn number_body_gives_decode_error() {
    match decode_record(b"42") {
        Response::DecodeError(d) => assert_eq!(d, UNMATCHED),
        _ => panic!("expected a decode error"),
    }
}

#[test]
fn error_of_any_shape_is_kept() {
    match decode_record(br#"{"help":"","error":null}"#) {
        Response::Error(f) => {
            assert_eq!(f.help, "");
            assert_eq!(f.error, Value::Null);
        }
        _ => panic!("expected an error envelope"),
    }
}

#[test]
fn same_body_gives_same_outcome() {
    let body = br#"{"help":"h","result":{"x":1}}"#;
    match (decode_record(body), decode_record(body)) {
        (Response::Result(a), Response::Result(b)) => {
            assert_eq!(a.help, b.help);
            assert_eq!(a.result, b.result);
        }
        _ => panic!("expected two results"),
    }
    let body = br#"{"help":"h","error":{"message":"bad"}}"#;
    match (decode_record(body), decode_record(body)) {
        (Response::Error(a), Response::Error(b)) => {
            assert_eq!(a.help, b.help);
            assert_eq!(a.error, b.error);
        }
        _ => panic!("expected two error envelopes"),
    }
}

#[test]
fn read_payload_tells_shapes_apart() {
    match read_payload(br#"{"help":"h","result":1}"#) {
        Ok(Payload::Object(e)) => {
            assert_eq!(e.help.as_deref(), Some("h"));
            assert_eq!(e.result, Some(json("1")));
            assert!(e.error.is_none());
        }
        _ => panic!("expected an object"),
    }
    assert!(matches!(read_payload(br#""s""#), Ok(Payload::Text(s)) if s == "s"));
    assert!(matches!(read_payload(b"[1]"), Ok(Payload::Other)));
    assert!(matches!(read_payload(b"{"), Err(_)));
}

#[test]
fn resolve_on_read_values() {
    let e = Envelope {
        help: Some("h".to_string()),
        result: Some(json("5")),
        error: None,
    };
    match resolve(Payload::Object(e), Some(5u8)) {
        Response::Result(s) => {
            assert_eq!(s.help, "h");
            assert_eq!(s.result, 5);
        }
        _ => panic!("expected a result"),
    }
    match resolve::<u8>(Payload::Text("t".to_string()), None) {
        Response::StringError(s) => assert_eq!(s, "t"),
        _ => panic!("expected a string error"),
    }
}

#[test]
fn transport_failure_keeps_reason() {
    match transport_failure::<u8>("error sending request".to_string()) {
        Response::ReqwestError(s) => assert_eq!(s, "error sending request"),
        _ => panic!("expected a transport failure"),
    }
}
