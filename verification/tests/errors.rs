//! Error codes, error responses and errors.
use async_lsp::error::{Error, ErrorCode, IoKind, ResponseError, Source};
use std::io::ErrorKind;

#[test]
fn codes_have_their_numbers() {
    assert_eq!(ErrorCode::PARSE_ERROR, -32700);
    assert_eq!(ErrorCode::INVALID_REQUEST, -32600);
    assert_eq!(ErrorCode::METHOD_NOT_FOUND, -32601);
    assert_eq!(ErrorCode::INVALID_PARAMS, -32602);
    assert_eq!(ErrorCode::INTERNAL_ERROR, -32603);
    assert_eq!(ErrorCode::JSONRPC_RESERVED_ERROR_RANGE_START, -32099);
    assert_eq!(ErrorCode::SERVER_NOT_INITIALIZED, -32002);
    assert_eq!(ErrorCode::UNKNOWN_ERROR_CODE, -32001);
    assert_eq!(ErrorCode::JSONRPC_RESERVED_ERROR_RANGE_END, -32000);
    assert_eq!(ErrorCode::LSP_RESERVED_ERROR_RANGE_START, -32899);
    assert_eq!(ErrorCode::REQUEST_FAILED, -32803);
    assert_eq!(ErrorCode::SERVER_CANCELLED, -32802);
    assert_eq!(ErrorCode::CONTENT_MODIFIED, -32801);
    assert_eq!(ErrorCode::REQUEST_CANCELLED, -32800);
    assert_eq!(ErrorCode::LSP_RESERVED_ERROR_RANGE_END, -32800);
    assert_eq!(ErrorCode::from(-7), ErrorCode(-7));
}

#[test]
fn codes_are_shown() {
    assert_eq!(ErrorCode(-32700).display(), "jsonrpc error -32700");
    assert_eq!(ErrorCode(0).display(), "jsonrpc error 0");
    assert_eq!(ErrorCode(i32::MIN).display(), "jsonrpc error -2147483648");
    assert_eq!(ErrorCode(i32::MAX).display(), "jsonrpc error 2147483647");
}

#[test]
fn response_errors_are_made_and_shown() {
    let e = ResponseError::new(ErrorCode(-32803), 17);
    assert_eq!(e.message, "17");
    assert!(e.data.is_none());
    assert_eq!(e.display(), "17 (jsonrpc error -32803)");
    let e = ResponseError::new_with_data(ErrorCode(1), "m", serde_json::Value::Bool(true));
    assert_eq!(e.code, ErrorCode(1));
    assert_eq!(e.clone().data, Some(serde_json::Value::Bool(true)));
    let e = ResponseError::plain(-1, "plain");
    assert_eq!((e.code, e.message.as_str(), e.data), (ErrorCode(-1), "plain", None));
}

#[test]
fn errors_are_shown() {
    let json = serde_json::from_str::<u8>("x").unwrap_err();
    let text = json.to_string();
    assert_eq!(Error::ServiceStopped.display(), "service stopped");
    assert_eq!(Error::from(json).display(), format!("deserialization failed: {}", text));
    assert_eq!(
        Error::from(ResponseError::plain(-5, "no")).display(),
        "no (jsonrpc error -5)"
    );
    assert_eq!(Error::Protocol("p".to_string()).display(), "protocol error: p");
    assert_eq!(Error::from(std::io::Error::other("io text")).display(), "io text");
    assert_eq!(Error::Eof.display(), "the underlying channel reached EOF");
    assert_eq!(Error::Routing("r".to_string()).display(), "r");
}

#[test]
fn errors_have_sources() {
    let json = serde_json::from_str::<u8>("x").unwrap_err();
    assert!(matches!(Error::from(json).source(), Some(Source::Deserialize(_))));
    assert!(matches!(
        Error::from(ResponseError::plain(-5, "no")).source(),
        Some(Source::Response(e)) if e.message == "no"
    ));
    assert!(matches!(Error::from(std::io::Error::other("x")).source(), Some(Source::Io(_))));
    assert!(Error::Eof.source().is_none());
    assert!(Error::ServiceStopped.source().is_none());
    assert!(Error::Protocol(String::new()).source().is_none());
    assert!(Error::Routing(String::new()).source().is_none());
}

#[test]
fn errors_have_io_kinds() {
    let of = |kind: ErrorKind| Error::from(std::io::Error::from(kind)).io_kind();
    assert_eq!(of(ErrorKind::InvalidData), Some(IoKind::InvalidData));
    assert_eq!(of(ErrorKind::UnexpectedEof), Some(IoKind::UnexpectedEof));
    assert_eq!(of(ErrorKind::NotFound), Some(IoKind::Other));
    assert_eq!(Error::Eof.io_kind(), None);
}
