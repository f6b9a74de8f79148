//! Messages, their ids and their parameters.
use async_lsp::message::{
    read_params, write_params, AnyNotification, AnyRequest, AnyResponse, Message, RawMessage,
    RequestId, RpcVersion,
};
use async_lsp::table::{Table, TableKey};
use serde_json::Value;

#[test]
fn ids_are_told_apart() {
    let n = RequestId::Number(1);
    let s = RequestId::String("1".to_string());
    assert!(n.same(&RequestId::Number(1)));
    assert!(!n.same(&RequestId::Number(2)));
    assert!(!n.same(&s));
    assert!(s.same(&s.clone()));
    assert!(!s.same(&RequestId::String("10".to_string())));
}

#[test]
fn params_are_left_out_when_null() {
    assert!(write_params(&Value::Null).is_none());
    assert_eq!(write_params(&Value::Bool(false)), Some(&Value::Bool(false)));
    assert_eq!(read_params(None), Value::Null);
    assert_eq!(read_params(Some(Value::Bool(true))), Value::Bool(true));
    for params in [Value::Null, Value::from(0), Value::from("x")] {
        assert_eq!(read_params(write_params(&params).cloned()), params);
    }
}

#[test]
fn messages_are_cloned() {
    let request = AnyRequest {
        id: RequestId::String("a".to_string()),
        method: "m".to_string(),
        params: Value::from(1),
    };
    match Message::Request(request).clone() {
        Message::Request(r) => {
            assert_eq!(r.id, RequestId::String("a".to_string()));
            assert_eq!(r.method, "m");
            assert_eq!(r.params, Value::from(1));
        }
        _ => panic!("another message"),
    }
    let response = AnyResponse { id: RequestId::Number(2), result: Some(Value::Null), error: None };
    match Message::Response(response).clone() {
        Message::Response(r) => assert_eq!(r.result, Some(Value::Null)),
        _ => panic!("another message"),
    }
    let notification = AnyNotification { method: "n".to_string(), params: Value::Null };
    match Message::Notification(notification).clone() {
        Message::Notification(n) => assert_eq!(n.method, "n"),
        _ => panic!("another message"),
    }
    let raw = RawMessage::new(3);
    assert_eq!(raw.jsonrpc, RpcVersion::V2);
    assert_eq!(raw.inner, 3);
}

fn text(id: &str) -> RequestId {
    RequestId::String(id.to_string())
}

#[test]
fn a_table_holds_one_value_for_each_key() {
    let mut t: Table<RequestId, u8> = Table::new();
    assert!(t.insert(text("a"), 1).is_none());
    assert!(t.insert(text("b"), 2).is_none());
    assert_eq!(t.insert(text("a"), 3), Some(1));
    assert_eq!(t.len(), 2);
    assert_eq!(t.get(&text("a")), Some(&3));
    assert_eq!(t.get(&text("c")), None);
    assert_eq!(t.remove(&text("a")), Some(3));
    assert_eq!(t.remove(&text("a")), None);
    assert_eq!(t.len(), 1);
}

#[test]
fn a_table_can_be_thinned_out() {
    let mut t: Table<RequestId, i32> = Table::new();
    for i in 0..10 {
        assert!(t.insert(RequestId::Number(i), i).is_none());
    }
    t.retain(|v| v % 3 == 0);
    assert_eq!(t.len(), 4);
    for i in 0..10 {
        assert_eq!(t.get(&RequestId::Number(i)).is_some(), i % 3 == 0);
    }
}
