//! Sockets, and the main loop behind them.
use async_lsp::error::{Error, ErrorCode, ResponseError};
use async_lsp::event::AnyEvent;
use async_lsp::main_loop::{
    Action, Happening, MainLoop, MainLoopEvent, RequestFuture, Running,
};
use async_lsp::message::{AnyNotification, AnyRequest, AnyResponse, Message, RequestId};
use async_lsp::service::{Flow, LspService, Polled};
use async_lsp::socket::{ClientSocket, PeerSocket, PeerSocketRequestFuture, ServerSocket};
use futures::channel::oneshot::Canceled;
use futures::executor::block_on;
use futures::StreamExt;
use serde_json::Value;
use std::future::Future;
use std::ops::ControlFlow;
use std::pin::Pin;
use std::task::{Context, Poll, Waker};

/// Echoes the parameters of requests, stops on the notification `stop` and on events.
#[derive(Default)]
struct Echo {
    refuse: bool,
    seen: Vec<String>,
}

impl LspService for Echo {
    type Error = ResponseError;
    type Future = Result<Value, ResponseError>;
    type Payload = u8;

    fn poll_ready(&mut self, _waker: &Waker) -> Polled<Result<(), ResponseError>> {
        if self.refuse {
            Polled::Ready(Err(ResponseError::plain(-1, "busy")))
        } else {
            Polled::Ready(Ok(()))
        }
    }

    fn call(&mut self, req: AnyRequest) -> Self::Future {
        self.seen.push(format!("call {}", req.method));
        if req.method == "fail" {
            Err(ResponseError::plain(-9, "failed"))
        } else {
            Ok(req.params)
        }
    }

    fn notify(&mut self, notif: AnyNotification) -> Flow {
        self.seen.push(format!("notify {}", notif.method));
        if notif.method == "stop" {
            ControlFlow::Break(Err(Error::Routing("stopped".to_string())))
        } else {
            ControlFlow::Continue(())
        }
    }

    fn emit(&mut self, event: AnyEvent<u8>) -> Flow {
        self.seen.push(format!("emit {}", event.name_of_type()));
        match event.downcast::<u8>() {
            Ok(0) => ControlFlow::Continue(()),
            _ => ControlFlow::Break(Ok(())),
        }
    }
}

/// A request that is being answered, as a future.
struct Task(Option<RequestFuture<Result<Value, ResponseError>>>);

impl From<RequestFuture<Result<Value, ResponseError>>> for Task {
    fn from(request: RequestFuture<Result<Value, ResponseError>>) -> Self {
        Task(Some(request))
    }
}

impl Future for Task {
    type Output = AnyResponse;

    fn poll(mut self: Pin<&mut Self>, _cx: &mut Context<'_>) -> Poll<AnyResponse> {
        let request = self.0.take().unwrap();
        Poll::Ready(RequestFuture::<()>::respond(request.id, request.fut))
    }
}

type Loop = MainLoop<Echo, Task>;

fn start() -> (Running<Echo, Task>, ClientSocket<u8>) {
    let (this, socket) = Loop::new_server(|_socket| Echo::default());
    (this.start(), socket)
}

/// Takes what a socket handed in.
fn handed_in(running: &mut Running<Echo, Task>) -> MainLoopEvent<u8> {
    let (_, rx) = running.main_loop().sources();
    block_on(rx.next()).unwrap()
}

fn request(id: i32, method: &str, params: Value) -> Message {
    Message::Request(AnyRequest {
        id: RequestId::Number(id),
        method: method.to_string(),
        params,
    })
}

fn notification(method: &str) -> Message {
    Message::Notification(AnyNotification { method: method.to_string(), params: Value::Null })
}

fn response(id: RequestId, result: Value) -> AnyResponse {
    AnyResponse { id, result: Some(result), error: None }
}

#[test]
fn a_closed_socket_is_always_stopped() {
    let socket = ClientSocket::<u8>::new_closed();
    assert!(matches!(socket.notify("n", Value::Null), Err(Error::ServiceStopped)));
    assert!(matches!(socket.emit::<u8>(1, "u8"), Err(Error::ServiceStopped)));
    assert!(matches!(
        socket.request("r", Value::Null).receiver(),
        Err(Error::ServiceStopped)
    ));
    let socket = ServerSocket::<u8>::new_closed().clone();
    assert!(matches!(socket.notify("n", Value::Null), Err(Error::ServiceStopped)));
    assert!(matches!(socket.emit::<u8>(1, "u8"), Err(Error::ServiceStopped)));
    assert!(matches!(
        socket.request("r", Value::Null).receiver(),
        Err(Error::ServiceStopped)
    ));
    let socket = PeerSocket::<u8>::new_closed();
    assert!(matches!(
        socket.send(MainLoopEvent::Outgoing(notification("n"))),
        Err(Error::ServiceStopped)
    ));
}

#[test]
fn a_socket_is_stopped_when_its_main_loop_is_gone() {
    let (this, socket) = Loop::new_client(|_socket| Echo::default());
    assert!(socket.notify("n", Value::Null).is_ok());
    let waiting = socket.request("r", Value::Null).receiver().unwrap();
    drop(this);
    assert!(matches!(socket.notify("n", Value::Null), Err(Error::ServiceStopped)));
    assert!(matches!(
        PeerSocketRequestFuture::resolve(block_on(waiting)),
        Err(Error::ServiceStopped)
    ));
}

#[test]
fn responses_are_resolved() {
    let ok = AnyResponse { id: RequestId::Number(0), result: Some(Value::from(3)), error: None };
    assert_eq!(PeerSocketRequestFuture::resolve(Ok(ok)).unwrap(), Value::from(3));
    let empty = AnyResponse { id: RequestId::Number(0), result: None, error: None };
    assert_eq!(PeerSocketRequestFuture::resolve(Ok(empty)).unwrap(), Value::Null);
    let failed = AnyResponse {
        id: RequestId::Number(0),
        result: Some(Value::from(3)),
        error: Some(ResponseError::plain(-2, "no")),
    };
    match PeerSocketRequestFuture::resolve(Ok(failed)) {
        Err(Error::Response(e)) => assert_eq!(e.code, ErrorCode(-2)),
        _ => panic!("succeeded"),
    }
    assert!(matches!(
        PeerSocketRequestFuture::resolve(Err(Canceled)),
        Err(Error::ServiceStopped)
    ));
}

#[test]
fn what_a_socket_sends_goes_to_the_peer() {
    let (mut running, socket) = start();
    socket.notify("log", Value::from(1)).unwrap();
    let event = handed_in(&mut running);
    match running.step(Happening::HandedIn(event)) {
        Action::Feed(Message::Notification(n)) => {
            assert_eq!(n.method, "log");
            assert_eq!(n.params, Value::from(1));
        }
        _ => panic!("not sent"),
    }
    assert!(matches!(running.step(Happening::Fed(Ok(()))), Action::Flush));
    assert!(matches!(running.step(Happening::Flushed(Ok(()))), Action::Select));
}

#[test]
fn outgoing_requests_are_numbered_and_answered_once() {
    let (mut running, socket) = start();
    let mut waiting = Vec::new();
    for n in 0..3 {
        waiting.push(socket.request("ask", Value::from(n)).receiver().unwrap());
        let event = handed_in(&mut running);
        match running.step(Happening::HandedIn(event)) {
            Action::Feed(Message::Request(req)) => {
                assert_eq!(req.id, RequestId::Number(n));
                assert_eq!(req.method, "ask");
                assert_eq!(req.params, Value::from(n));
            }
            _ => panic!("not sent"),
        }
        assert!(matches!(running.step(Happening::Fed(Ok(()))), Action::Flush));
    }
    assert!(running.main_loop().can_number());
    let unknown = [RequestId::Number(7), RequestId::String("1".to_string())];
    for id in unknown {
        let msg = Message::Response(response(id, Value::Null));
        assert!(matches!(running.step(Happening::Received(Ok(msg))), Action::Select));
    }
    for (id, answer) in [(1, "first"), (1, "second"), (0, "other")] {
        let msg = Message::Response(response(RequestId::Number(id), answer.into()));
        assert!(matches!(running.step(Happening::Received(Ok(msg))), Action::Select));
    }
    assert!(matches!(waiting[2].try_recv(), Ok(None)));
    let second = block_on(waiting.remove(1));
    assert_eq!(PeerSocketRequestFuture::resolve(second).unwrap(), Value::from("first"));
    let first = block_on(waiting.remove(0));
    assert_eq!(PeerSocketRequestFuture::resolve(first).unwrap(), Value::from("other"));
}

#[test]
fn incoming_requests_are_answered() {
    let (mut running, _socket) = start();
    for (id, method) in [(5, "echo"), (6, "fail")] {
        let msg = request(id, method, Value::from(id));
        assert!(matches!(running.step(Happening::Received(Ok(msg))), Action::Prepare));
        assert!(matches!(running.step(Happening::Flushed(Ok(()))), Action::Prepare));
        assert!(matches!(
            running.main_loop().poll_ready(Waker::noop()),
            Polled::Ready(Ok(()))
        ));
        assert!(matches!(running.step(Happening::Prepared(Ok(()))), Action::Select));
        let (tasks, _) = running.main_loop().sources();
        assert_eq!(tasks.len(), 1);
        let answer = block_on(tasks.next()).unwrap();
        match running.step(Happening::Answered(answer)) {
            Action::Feed(Message::Response(resp)) => {
                assert_eq!(resp.id, RequestId::Number(id));
                if method == "echo" {
                    assert_eq!(resp.result, Some(Value::from(5)));
                    assert!(resp.error.is_none());
                } else {
                    assert!(resp.result.is_none());
                    assert_eq!(resp.error.unwrap().code, ErrorCode(-9));
                }
            }
            _ => panic!("not answered"),
        }
        assert!(matches!(running.step(Happening::Fed(Ok(()))), Action::Flush));
    }
}

#[test]
fn a_request_that_the_service_is_not_ready_for_fails() {
    let (mut running, _socket) = start();
    running.main_loop().get_mut().refuse = true;
    let msg = request(1, "echo", Value::Null);
    assert!(matches!(running.step(Happening::Received(Ok(msg))), Action::Prepare));
    let ready = match running.main_loop().poll_ready(Waker::noop()) {
        Polled::Ready(ready) => ready,
        Polled::Pending => panic!("not decided"),
    };
    match running.step(Happening::Prepared(ready)) {
        Action::Feed(Message::Response(resp)) => {
            assert_eq!(resp.id, RequestId::Number(1));
            assert_eq!(resp.error.unwrap().message, "busy");
            assert!(resp.result.is_none());
        }
        _ => panic!("not answered"),
    }
    assert!(running.main_loop().sources().0.is_empty());
}

#[test]
fn a_loop_is_stopped_by_its_service() {
    let (mut running, socket) = start();
    assert!(matches!(
        running.step(Happening::Received(Ok(notification("go on")))),
        Action::Select
    ));
    socket.emit::<u8>(0, "u8").unwrap();
    let event = handed_in(&mut running);
    assert!(matches!(running.step(Happening::HandedIn(event)), Action::Select));
    socket.emit::<u8>(1, "u8").unwrap();
    let event = handed_in(&mut running);
    assert!(matches!(running.step(Happening::HandedIn(event)), Action::Close));
    assert!(matches!(running.step(Happening::Closed(Ok(()))), Action::Return(Ok(()))));
}

#[test]
fn the_error_of_the_service_comes_before_that_of_the_output() {
    let (mut running, _socket) = start();
    assert!(matches!(
        running.step(Happening::Received(Ok(notification("stop")))),
        Action::Close
    ));
    match running.step(Happening::Closed(Err(Error::Eof))) {
        Action::Return(Err(Error::Routing(text))) => assert_eq!(text, "stopped"),
        _ => panic!("another result"),
    }
    let (mut running, socket) = start();
    socket.emit::<u8>(1, "u8").unwrap();
    let event = handed_in(&mut running);
    assert!(matches!(running.step(Happening::HandedIn(event)), Action::Close));
    assert!(matches!(
        running.step(Happening::Closed(Err(Error::Eof))),
        Action::Return(Err(Error::Eof))
    ));
}

#[test]
fn a_loop_returns_the_errors_of_its_channels() {
    let (mut running, _socket) = start();
    assert!(matches!(
        running.step(Happening::Received(Err(Error::Eof))),
        Action::Return(Err(Error::Eof))
    ));
    let (mut running, _socket) = start();
    assert!(matches!(
        running.step(Happening::Flushed(Err(Error::Eof))),
        Action::Return(Err(Error::Eof))
    ));
    let (mut running, _socket) = start();
    let msg = request(1, "echo", Value::Null);
    assert!(matches!(running.step(Happening::Received(Ok(msg))), Action::Prepare));
    assert!(matches!(
        running.step(Happening::Flushed(Err(Error::Eof))),
        Action::Return(Err(Error::Eof))
    ));
    let (mut running, _socket) = start();
    let answer = response(RequestId::Number(1), Value::Null);
    assert!(matches!(running.step(Happening::Answered(answer)), Action::Feed(_)));
    assert!(matches!(
        running.step(Happening::Fed(Err(Error::Eof))),
        Action::Return(Err(Error::Eof))
    ));
}

#[test]
fn a_service_gets_a_socket_into_its_own_loop() {
    let mut kept = None;
    let (mut this, _socket) = Loop::new_server(|socket| {
        kept = Some(socket);
        Echo::default()
    });
    assert!(!this.get_ref().refuse);
    kept.unwrap().emit::<u8>(3, "u8").unwrap();
    let (_, rx) = this.sources();
    assert!(matches!(block_on(rx.next()), Some(MainLoopEvent::Any(e)) if e.is::<u8>()));
    assert!(!this.into_inner().refuse);
}

#[test]
fn each_request_is_answered_once_with_its_own_result() {
    let (mut running, _socket) = start();
    for id in [3, 1, 2] {
        let msg = request(id, "echo", Value::from(id * 10));
        assert!(matches!(running.step(Happening::Received(Ok(msg))), Action::Prepare));
        assert!(matches!(running.step(Happening::Prepared(Ok(()))), Action::Select));
        assert!(matches!(
            running.step(Happening::Received(Ok(notification("note")))),
            Action::Select
        ));
    }
    let mut seen = Vec::new();
    loop {
        let (tasks, _) = running.main_loop().sources();
        let Some(answer) = block_on(tasks.next()) else { break };
        match running.step(Happening::Answered(answer)) {
            Action::Feed(Message::Response(resp)) => seen.push((resp.id, resp.result)),
            _ => panic!("not answered"),
        }
        assert!(matches!(running.step(Happening::Fed(Ok(()))), Action::Flush));
    }
    assert_eq!(seen.len(), 3);
    for id in [1, 2, 3] {
        let own = (RequestId::Number(id), Some(Value::from(id * 10)));
        assert_eq!(seen.iter().filter(|answer| **answer == own).count(), 1);
    }
}

#[test]
fn messages_and_events_are_delivered_in_order_and_once() {
    let (mut running, socket) = start();
    socket.emit::<u8>(0, "first").unwrap();
    socket.emit::<u8>(0, "second").unwrap();
    assert!(matches!(
        running.step(Happening::Received(Ok(request(1, "a", Value::Null)))),
        Action::Prepare
    ));
    assert!(running.main_loop().get_ref().seen.is_empty());
    assert!(matches!(running.step(Happening::Flushed(Ok(()))), Action::Prepare));
    assert!(matches!(running.step(Happening::Prepared(Ok(()))), Action::Select));
    assert!(matches!(
        running.step(Happening::Received(Ok(notification("b")))),
        Action::Select
    ));
    for _ in 0..2 {
        let event = handed_in(&mut running);
        assert!(matches!(running.step(Happening::HandedIn(event)), Action::Select));
    }
    assert!(matches!(
        running.step(Happening::Received(Ok(notification("c")))),
        Action::Select
    ));
    assert_eq!(
        running.main_loop().get_ref().seen,
        ["call a", "notify b", "emit first", "emit second", "notify c"]
    );
}
