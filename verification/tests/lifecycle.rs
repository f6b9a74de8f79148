//! The lifecycle middleware in front of a service that records what reaches it.
use async_lsp::error::{Error, ErrorCode, ResponseError};
use async_lsp::event::AnyEvent;
use async_lsp::message::{AnyNotification, AnyRequest, RequestId};
use async_lsp::server::{Lifecycle, LifecycleLayer, ResponseFuture, State};
use async_lsp::service::{LspService, Polled};
use std::ops::ControlFlow;
use std::task::Waker;

/// Records what reaches it.
#[derive(Debug, Default)]
struct Recorder {
    seen: Vec<String>,
    stop: bool,
}

impl LspService for Recorder {
    type Error = ResponseError;
    type Future = usize;
    type Payload = u8;

    fn poll_ready(&mut self, _waker: &Waker) -> Polled<Result<(), ResponseError>> {
        self.seen.push("(poll)".to_string());
        Polled::Ready(Ok(()))
    }

    fn call(&mut self, req: AnyRequest) -> usize {
        self.seen.push(req.method);
        self.seen.len()
    }

    fn notify(&mut self, notif: AnyNotification) -> ControlFlow<Result<(), Error>> {
        self.seen.push(notif.method);
        if self.stop {
            ControlFlow::Break(Err(Error::Eof))
        } else {
            ControlFlow::Continue(())
        }
    }

    fn emit(&mut self, event: AnyEvent<u8>) -> ControlFlow<Result<(), Error>> {
        self.seen.push(event.name_of_type().to_string());
        ControlFlow::Continue(())
    }
}

fn request(method: &str) -> AnyRequest {
    AnyRequest {
        id: RequestId::Number(1),
        method: method.to_string(),
        params: serde_json::Value::Null,
    }
}

fn notification(method: &str) -> AnyNotification {
    AnyNotification { method: method.to_string(), params: serde_json::Value::Null }
}

fn refused(fut: ResponseFuture<usize, ResponseError>, code: i32, message: &str) {
    match fut {
        ResponseFuture::Ready(e) => {
            assert_eq!(e.code, ErrorCode(code));
            assert_eq!(e.message, message);
            assert!(e.data.is_none());
        }
        ResponseFuture::Inner(_) => panic!("passed on"),
    }
}

fn ready() -> Lifecycle<Recorder> {
    let mut s = Lifecycle::new(Recorder::default());
    assert!(matches!(s.call(request("initialize")), ResponseFuture::Inner(1)));
    assert!(matches!(s.notify(notification("initialized")), ControlFlow::Continue(())));
    s
}

#[test]
fn requests_wait_for_initialize() {
    let mut s = LifecycleLayer::default().layer(Recorder::default());
    refused(s.call(request("shutdown")), -32002, "Server is not initialized yet");
    refused(s.call(request("textDocument/hover")), -32002, "Server is not initialized yet");
    assert!(s.get_ref().seen.is_empty());
    assert!(matches!(s.call(request("initialize")), ResponseFuture::Inner(1)));
    refused(s.call(request("initialize")), -32002, "Server is not initialized yet");
    refused(s.call(request("textDocument/hover")), -32002, "Server is not initialized yet");
    assert_eq!(s.into_inner().seen, ["initialize"]);
}

#[test]
fn a_ready_server_answers() {
    let mut s = ready();
    refused(s.call(request("initialize")), -32600, "Server is already initialized");
    assert!(matches!(s.call(request("textDocument/hover")), ResponseFuture::Inner(3)));
    assert!(matches!(s.notify(notification("$/setTrace")), ControlFlow::Continue(())));
    assert_eq!(
        s.get_ref().seen,
        ["initialize", "initialized", "textDocument/hover", "$/setTrace"]
    );
}

#[test]
fn shutdown_is_final() {
    let mut s = ready();
    assert!(matches!(s.call(request("shutdown")), ResponseFuture::Inner(3)));
    refused(s.call(request("shutdown")), -32600, "Server is shutting down");
    refused(s.call(request("textDocument/hover")), -32600, "Server is shutting down");
    refused(s.call(request("initialize")), -32600, "Server is already initialized");
    assert!(matches!(s.notify(notification("textDocument/didOpen")), ControlFlow::Continue(())));
    assert_eq!(s.get_ref().seen, ["initialize", "initialized", "shutdown"]);
    assert!(matches!(s.notify(notification("exit")), ControlFlow::Break(Ok(()))));
    assert_eq!(s.get_ref().seen.last().unwrap(), "exit");
}

#[test]
fn notifications_are_ignored_until_initialized() {
    let mut s = Lifecycle::new(Recorder::default());
    assert!(matches!(s.notify(notification("textDocument/didOpen")), ControlFlow::Continue(())));
    let _ = s.call(request("initialize"));
    assert!(matches!(s.notify(notification("textDocument/didOpen")), ControlFlow::Continue(())));
    assert_eq!(s.get_ref().seen, ["initialize"]);
}

#[test]
fn initialized_comes_once_and_after_initialize() {
    let mut s = Lifecycle::new(Recorder::default());
    match s.notify(notification("initialized")) {
        ControlFlow::Break(Err(Error::Protocol(text))) => {
            assert_eq!(text, "Unexpected initialized notification on state Uninitialized")
        }
        _ => panic!("accepted"),
    }
    let mut s = ready();
    match s.notify(notification("initialized")) {
        ControlFlow::Break(Err(Error::Protocol(text))) => {
            assert_eq!(text, "Unexpected initialized notification on state Ready")
        }
        _ => panic!("accepted"),
    }
    let _ = s.call(request("shutdown"));
    match s.notify(notification("initialized")) {
        ControlFlow::Break(Err(Error::Protocol(text))) => {
            assert_eq!(text, "Unexpected initialized notification on state ShuttingDown")
        }
        _ => panic!("accepted"),
    }
}

#[test]
fn exit_ends_the_loop_in_every_state() {
    let mut s = Lifecycle::new(Recorder::default());
    assert!(matches!(s.notify(notification("exit")), ControlFlow::Break(Ok(()))));
    let mut s = ready();
    s.get_mut().stop = true;
    assert!(matches!(s.notify(notification("exit")), ControlFlow::Break(Err(Error::Eof))));
}

#[test]
fn the_inner_service_can_stop_on_initialized() {
    let mut s = Lifecycle::new(Recorder { seen: Vec::new(), stop: true });
    let _ = s.call(request("initialize"));
    assert!(matches!(
        s.notify(notification("initialized")),
        ControlFlow::Break(Err(Error::Eof))
    ));
}

#[test]
fn readiness_and_events_are_passed_on() {
    let mut s = Lifecycle::<Recorder>::default();
    assert!(matches!(s.poll_ready(Waker::noop()), Polled::Ready(Ok(()))));
    let event = AnyEvent::new::<u8>(7, "u8");
    assert!(matches!(s.emit(event), ControlFlow::Continue(())));
    assert_eq!(s.get_ref().seen, ["(poll)", "u8"]);
}

#[test]
fn states_have_names() {
    assert_eq!(State::default().debug(), "Uninitialized");
    assert_eq!(State::Initializing.debug(), "Initializing");
    assert_eq!(State::Ready.debug(), "Ready");
    assert_eq!(State::ShuttingDown.debug(), "ShuttingDown");
}
