//! What becomes of panics.
use async_lsp::error::{ErrorCode, ResponseError};
use async_lsp::panic::{
    default_handler, CatchUnwindBuilder, CatchUnwindLayer, PanicPayload, ResponseFuture,
};
use async_lsp::service::Polled;

/// Something that cannot be shown.
struct Hidden;

type Payload = PanicPayload<i32, Hidden>;
type Handler = fn(&str, Payload) -> ResponseError;

#[test]
fn a_panic_becomes_an_internal_error() {
    let e = default_handler::<i32, Hidden>("foo", PanicPayload::Text("dynamic".to_string()));
    assert_eq!(e.code, ErrorCode(-32603));
    assert_eq!(e.message, "Request handler of foo panicked: dynamic");
    assert!(e.data.is_none());
    let e = default_handler::<i32, Hidden>("foo", PanicPayload::Literal("static"));
    assert_eq!(e.message, "Request handler of foo panicked: static");
    let e = default_handler::<i32, Hidden>("foo", PanicPayload::Shown(42));
    assert_eq!(e.code, ErrorCode(-32603));
    assert_eq!(e.message, "Request handler of foo panicked: 42");
    assert!(e.data.is_none());
    let e = default_handler::<i32, Hidden>("foo", PanicPayload::Opaque(Hidden));
    assert_eq!(e.message, "Request handler of foo panicked: unknown");
}

#[test]
fn a_call_that_panics_is_answered_at_once() {
    let handler = default_handler::<i32, Hidden> as Handler;
    let mut s = CatchUnwindBuilder::new_with_handler(handler).layer(10);
    assert_eq!(*s.get_ref(), 10);
    *s.get_mut() += 1;
    let r: ResponseFuture<u8, ResponseError, Handler> = s.called("m".to_string(), Ok(7));
    match r {
        ResponseFuture::Future { fut, method, handler } => {
            assert_eq!(fut, 7);
            assert_eq!(method, "m");
            let e = handler("x", PanicPayload::Literal("y"));
            assert_eq!(e.message, "Request handler of x panicked: y");
        }
        ResponseFuture::Ready { .. } => panic!("answered"),
    }
    let r: ResponseFuture<u8, ResponseError, Handler> =
        s.called("m".to_string(), Err(PanicPayload::Literal("boom")));
    match r {
        ResponseFuture::Ready { err: Some(e) } => {
            assert_eq!(e.message, "Request handler of m panicked: boom")
        }
        _ => panic!("not answered"),
    }
    assert_eq!(s.into_inner(), 11);
}

#[test]
fn a_future_that_panics_is_answered() {
    type Caught = ResponseFuture<u8, ResponseError, Handler>;
    let handler = default_handler::<i32, Hidden> as Handler;
    let r: Polled<Result<i32, ResponseError>> = Caught::polled("m", &handler, Ok(Polled::Pending));
    assert!(matches!(r, Polled::Pending));
    let r = Caught::polled("m", &handler, Ok(Polled::Ready(Ok(5))));
    assert!(matches!(r, Polled::Ready(Ok(5))));
    let r: Polled<Result<i32, ResponseError>> =
        Caught::polled("m", &handler, Err(PanicPayload::Shown(-7)));
    match r {
        Polled::Ready(Err(e)) => assert_eq!(e.message, "Request handler of m panicked: -7"),
        _ => panic!("not answered"),
    }
}

#[test]
fn a_custom_handler_is_used() {
    fn loud(method: &str, _payload: Payload) -> String {
        method.to_uppercase()
    }
    let s = CatchUnwindLayer::new_with_handler(loud as fn(&str, Payload) -> String)
        .layer(());
    let r: ResponseFuture<(), String, _> =
        s.called("abc".to_string(), Err(PanicPayload::Opaque(Hidden)));
    assert!(matches!(r, ResponseFuture::Ready { err: Some(e) } if e == "ABC"));
}
