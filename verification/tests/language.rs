//! The omnitraits: standard methods reach their own trait methods.
use async_lsp::error::{Error, ErrorCode, JsonValue, ResponseError};
use async_lsp::event::AnyEvent;
use async_lsp::language::{
    client_notification_handler, client_request_handler, serve_client_notification,
    serve_client_request, serve_server_notification, serve_server_request,
    server_notification_handler, server_request_handler, LanguageClient, LanguageServer,
    NotifyResult, Reply,
};
use async_lsp::main_loop::{MainLoop, MainLoopEvent, RequestFuture};
use async_lsp::message::{AnyNotification, AnyRequest, Message, RequestId};
use async_lsp::omni_trait::{
    ClientNotification, ClientRequest, ServerNotification, ServerRequest, StandardMethod,
};
use async_lsp::router::{Answer, Router};
use async_lsp::service::{Flow, LspService, Polled};
use async_lsp::socket::{ClientSocket, ServerSocket};
use futures::channel::mpsc::UnboundedReceiver;
use futures::executor::block_on;
use futures::StreamExt;
use serde_json::Value;
use std::ops::ControlFlow;
use std::task::Waker;

/// Implements a few methods.
#[derive(Default)]
struct Small {
    seen: Vec<&'static str>,
}

impl LanguageServer for Small {
    type Error = ResponseError;
    type Future = i32;
    type NotifyResult = Flow;

    fn initialize(&mut self, _params: JsonValue) -> Reply<i32, ResponseError> {
        self.seen.push("initialize");
        Reply::Future(1)
    }

    fn hover(&mut self, params: JsonValue) -> Reply<i32, ResponseError> {
        self.seen.push("hover");
        Reply::Future(params.as_i64().unwrap() as i32)
    }

    fn did_open(&mut self, _params: JsonValue) -> Flow {
        self.seen.push("did_open");
        ControlFlow::Break(Ok(()))
    }
}

impl LanguageClient for Small {
    type Error = ResponseError;
    type Future = i32;
    type NotifyResult = Flow;

    fn apply_edit(&mut self, _params: JsonValue) -> Reply<i32, ResponseError> {
        self.seen.push("apply_edit");
        Reply::Future(3)
    }

    fn log_message(&mut self, _params: JsonValue) -> Flow {
        self.seen.push("log_message");
        ControlFlow::Continue(())
    }
}

fn not_found(reply: Reply<i32, ResponseError>, method: &str) {
    match reply {
        Reply::Refused(e) => {
            assert_eq!(e.code, ErrorCode(-32601));
            assert_eq!(e.message, format!("No such method: {}", method));
        }
        _ => panic!("answered"),
    }
}

#[test]
fn server_methods_reach_their_own_trait_methods() {
    let mut s = Small::default();
    for m in ServerRequest::all() {
        let reply = serve_server_request(&mut s, m, Value::from(9));
        match m {
            ServerRequest::Initialize => assert!(matches!(reply, Reply::Future(1))),
            ServerRequest::Hover => assert!(matches!(reply, Reply::Future(9))),
            ServerRequest::Shutdown => assert!(matches!(reply, Reply::Done)),
            _ => not_found(reply, m.method()),
        }
    }
    for m in ServerNotification::all() {
        let flow = serve_server_notification(&mut s, m, Value::Null);
        match (m, flow) {
            (ServerNotification::DidOpen, flow) => {
                assert!(matches!(flow, ControlFlow::Break(Ok(()))))
            }
            (_, ControlFlow::Continue(())) => {
                let plain = ["exit", "initialized"].contains(&m.method());
                assert!(plain || m.method().starts_with("$/"));
            }
            (_, ControlFlow::Break(Err(Error::Routing(text)))) => {
                assert_eq!(text, format!("Unhandled notification: {}", m.method()))
            }
            _ => panic!("another result"),
        }
    }
    assert_eq!(s.seen, ["initialize", "hover", "did_open"]);
}

#[test]
fn client_methods_reach_their_own_trait_methods() {
    let mut s = Small::default();
    for m in ClientRequest::all() {
        let reply = serve_client_request(&mut s, m, Value::Null);
        match m {
            ClientRequest::ApplyEdit => assert!(matches!(reply, Reply::Future(3))),
            _ => not_found(reply, m.method()),
        }
    }
    for m in ClientNotification::all() {
        let flow = serve_client_notification(&mut s, m, Value::Null);
        let goes_on = m == ClientNotification::LogMessage || m.method().starts_with("$/");
        assert_eq!(matches!(flow, ControlFlow::Continue(())), goes_on);
    }
    assert_eq!(s.seen, ["apply_edit", "log_message"]);
}

#[test]
fn a_closed_socket_is_a_stopped_server() {
    let mut s = ServerSocket::<u8>::new_closed();
    for m in ServerRequest::all() {
        match serve_server_request(&mut s, m, Value::Null) {
            Reply::Future(fut) => {
                assert!(matches!(fut.receiver(), Err(Error::ServiceStopped)))
            }
            _ => panic!("answered"),
        }
    }
    assert!(matches!(s.did_open(Value::Null), Err(Error::ServiceStopped)));
    let mut c = ClientSocket::<u8>::new_closed();
    assert!(matches!(c.log_message(Value::Null), Err(Error::ServiceStopped)));
}

#[test]
fn fallbacks_follow_the_method() {
    assert!(<Result<(), Error>>::fallback("$/x").is_ok());
    assert!(matches!(<Result<(), Error>>::fallback("x"), Err(Error::Routing(_))));
    assert!(matches!(Flow::fallback("exit"), ControlFlow::Continue(())));
}

type Events = fn(&mut Small, AnyEvent<u8>) -> Flow;

fn request(method: &str, params: Value) -> AnyRequest {
    AnyRequest { id: RequestId::Number(1), method: method.to_string(), params }
}

fn notification(method: &str) -> AnyNotification {
    AnyNotification { method: method.to_string(), params: Value::Null }
}

#[test]
fn a_router_of_a_server_calls_its_methods() {
    let mut r: Router<Small, ResponseError, Reply<i32, ResponseError>, u8, _, _, Events> =
        Router::from_language_server(
            Small::default(),
            &server_request_handler::<Small>,
            &server_notification_handler::<Small>,
        );
    assert!(matches!(
        r.call(request("textDocument/hover", Value::from(5))),
        Answer::Handler(Reply::Future(5))
    ));
    match r.call(request("textDocument/rename", Value::Null)) {
        Answer::Handler(reply) => not_found(reply, "textDocument/rename"),
        _ => panic!("no handler"),
    }
    match r.call(request("my/method", Value::Null)) {
        Answer::Refused(e) => assert_eq!(e.message, "No such method my/method"),
        _ => panic!("a handler"),
    }
    assert!(matches!(
        r.notify(notification("textDocument/didOpen")),
        ControlFlow::Break(Ok(()))
    ));
    assert!(matches!(r.notify(notification("exit")), ControlFlow::Continue(())));
}

#[test]
fn a_router_of_a_client_calls_its_methods() {
    let mut r: Router<Small, ResponseError, Reply<i32, ResponseError>, u8, _, _, Events> =
        Router::from_language_client(
            Small::default(),
            &client_request_handler::<Small>,
            &client_notification_handler::<Small>,
        );
    assert!(matches!(
        r.call(request("workspace/applyEdit", Value::Null)),
        Answer::Handler(Reply::Future(3))
    ));
    assert!(matches!(
        r.notify(notification("window/logMessage")),
        ControlFlow::Continue(())
    ));
    match r.notify(notification("window/showMessage")) {
        ControlFlow::Break(Err(Error::Routing(text))) => {
            assert_eq!(text, "Unhandled notification: window/showMessage")
        }
        _ => panic!("another result"),
    }
}

/// Does nothing.
struct Idle;

impl LspService for Idle {
    type Error = ResponseError;
    type Future = ();
    type Payload = u8;

    fn poll_ready(&mut self, _waker: &Waker) -> Polled<Result<(), ResponseError>> {
        Polled::Ready(Ok(()))
    }

    fn call(&mut self, _req: AnyRequest) {}

    fn notify(&mut self, _notif: AnyNotification) -> Flow {
        ControlFlow::Continue(())
    }

    fn emit(&mut self, _event: AnyEvent<u8>) -> Flow {
        ControlFlow::Continue(())
    }
}

/// Checks that a request was handed in.
fn handed_in_request(rx: &mut UnboundedReceiver<MainLoopEvent<u8>>, method: &str, params: Value) {
    match block_on(rx.next()) {
        Some(MainLoopEvent::OutgoingRequest(req, _)) => {
            assert_eq!(req.method, method);
            assert_eq!(req.params, params);
        }
        _ => panic!("no request"),
    }
}

/// Checks that a notification was handed in.
fn handed_in_notification(
    rx: &mut UnboundedReceiver<MainLoopEvent<u8>>,
    method: &str,
    params: Value,
) {
    match block_on(rx.next()) {
        Some(MainLoopEvent::Outgoing(Message::Notification(notif))) => {
            assert_eq!(notif.method, method);
            assert_eq!(notif.params, params);
        }
        _ => panic!("no notification"),
    }
}

#[test]
fn a_live_server_socket_hands_what_it_is_given_to_the_loop() {
    let (mut this, mut socket) =
        MainLoop::<Idle, RequestFuture<()>>::new_client(|_: ServerSocket<u8>| Idle);
    let (_, rx) = this.sources();
    assert!(matches!(socket.hover(Value::from(3)), Reply::Future(_)));
    handed_in_request(rx, "textDocument/hover", Value::from(3));
    assert!(socket.did_open(Value::from(4)).is_ok());
    handed_in_notification(rx, "textDocument/didOpen", Value::from(4));
    for m in ServerRequest::all() {
        let reply = serve_server_request(&mut socket, m, Value::from(m.method()));
        assert!(matches!(reply, Reply::Future(_)));
        handed_in_request(rx, m.method(), Value::from(m.method()));
    }
    for m in ServerNotification::all() {
        assert!(serve_server_notification(&mut socket, m, Value::from(m.method())).is_ok());
        handed_in_notification(rx, m.method(), Value::from(m.method()));
    }
}

#[test]
fn a_live_client_socket_hands_what_it_is_given_to_the_loop() {
    let (mut this, mut socket) =
        MainLoop::<Idle, RequestFuture<()>>::new_server(|_: ClientSocket<u8>| Idle);
    let (_, rx) = this.sources();
    assert!(socket.log_message(Value::from(7)).is_ok());
    handed_in_notification(rx, "window/logMessage", Value::from(7));
    for m in ClientRequest::all() {
        let reply = serve_client_request(&mut socket, m, Value::from(m.method()));
        assert!(matches!(reply, Reply::Future(_)));
        handed_in_request(rx, m.method(), Value::from(m.method()));
    }
    for m in ClientNotification::all() {
        assert!(serve_client_notification(&mut socket, m, Value::from(m.method())).is_ok());
        handed_in_notification(rx, m.method(), Value::from(m.method()));
    }
}
