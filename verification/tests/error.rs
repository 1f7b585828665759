use rawtoh_module_sdk::{Error, RpcError};
use serde_json::Value;

fn value(text: &str) -> Value {
    serde_json::from_str(text).unwrap()
}

#[test]
fn constructors_carry_the_standard_codes() {
    let e = RpcError::method_not_found("chat.say");
    assert_eq!((e.code, e.message.as_str()), (-32601, "Method not found: chat.say"));
    let e = RpcError::invalid_params("no name");
    assert_eq!((e.code, e.message.as_str()), (-32602, "no name"));
    let e = RpcError::internal("boom");
    assert_eq!((e.code, e.message.as_str()), (-32603, "boom"));
    let e = RpcError::new(7, "seven");
    assert_eq!((e.code, e.message.as_str()), (7, "seven"));
    assert!(e.data.is_none());
}

#[test]
fn data_is_left_out_when_there_is_none() {
    let mut e = RpcError::new(-1, "m");
    assert_eq!(e.to_json(), value(r#"{"code":-1,"message":"m"}"#));
    e.data = Some(value("[1]"));
    assert_eq!(e.to_json(), value(r#"{"code":-1,"message":"m","data":[1]}"#));
    assert_eq!(e.clone().to_json(), e.to_json());
}

#[test]
fn an_error_object_reads_back_as_it_was_written() {
    let e = RpcError { code: i64::MIN, message: "x".into(), data: Some(value(r#"{"a":null}"#)) };
    let back = RpcError::from_json(&e.to_json()).unwrap();
    assert_eq!((back.code, back.message, back.data), (e.code, e.message, e.data));
}

#[test]
fn error_objects_are_read_leniently_but_typed() {
    let e = RpcError::from_json(&value(r#"{"code":1,"message":"m","extra":true}"#)).unwrap();
    assert_eq!((e.code, e.message.as_str(), e.data), (1, "m", None));
    let e = RpcError::from_json(&value(r#"{"code":1,"message":"m","data":null}"#)).unwrap();
    assert!(e.data.is_none());
    let e = RpcError::from_json(&value(r#"[2,"m",{"d":1}]"#)).unwrap();
    assert_eq!((e.code, e.data), (2, Some(value(r#"{"d":1}"#))));
    for text in [
        "null",
        "\"boom\"",
        "{}",
        r#"{"code":1}"#,
        r#"{"message":"m"}"#,
        r#"{"code":"1","message":"m"}"#,
        r#"{"code":1.0,"message":"m"}"#,
        r#"{"code":9223372036854775808,"message":"m"}"#,
        r#"{"code":1,"message":2}"#,
        r#"[1,"m"]"#,
        r#"[1,"m",null,null]"#,
    ] {
        assert!(RpcError::from_json(&value(text)).is_none(), "{text}");
    }
}

#[test]
fn errors_have_a_message_for_people() {
    assert_eq!(RpcError::new(-5, "no").to_string(), "rpc error -5: no");
    assert_eq!(Error::Rpc(RpcError::new(5, "no")).to_string(), "rpc error 5: no");
    assert_eq!(Error::Enroll("spent".into()).to_string(), "enrollment failed: spent");
    assert_eq!(Error::Identity("bad".into()).to_string(), "invalid identity: bad");
    assert_eq!(Error::Protocol("odd").to_string(), "hub protocol: odd");
    assert_eq!(Error::Closed.to_string(), "connection closed");
    assert_eq!(Error::Timeout.to_string(), "request timed out");
}
