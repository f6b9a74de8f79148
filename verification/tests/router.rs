//! Routers, and what they do without a handler.
use async_lsp::error::{Error, ErrorCode, ResponseError};
use async_lsp::event::AnyEvent;
use async_lsp::message::{AnyNotification, AnyRequest, RequestId};
use async_lsp::router::{route_event, route_notification, route_request, Answer, Router};
use async_lsp::service::{Flow, LspService, Polled};
use std::ops::ControlFlow;
use std::task::Waker;

type OnRequest = Box<dyn Fn(&mut Vec<String>, AnyRequest) -> i32>;
type OnNotification = Box<dyn Fn(&mut Vec<String>, AnyNotification) -> Flow>;
type OnEvent = Box<dyn Fn(&mut Vec<String>, AnyEvent<i32>) -> Flow>;
type TestRouter =
    Router<Vec<String>, ResponseError, i32, i32, OnRequest, OnNotification, OnEvent>;

struct Tick;

struct Tock;

fn request(method: &str) -> AnyRequest {
    AnyRequest {
        id: RequestId::Number(1),
        method: method.to_string(),
        params: serde_json::Value::Null,
    }
}

fn notification(method: &str) -> AnyNotification {
    AnyNotification { method: method.to_string(), params: serde_json::Value::Null }
}

fn answers(n: i32) -> OnRequest {
    Box::new(move |seen, req| {
        seen.push(req.method);
        n
    })
}

fn notes(text: &'static str) -> OnNotification {
    Box::new(move |seen, notif| {
        seen.push(format!("{} {}", text, notif.method));
        ControlFlow::Continue(())
    })
}

fn watches(text: &'static str) -> OnEvent {
    Box::new(move |seen, event| {
        seen.push(format!("{} {}", text, event.name_of_type()));
        ControlFlow::Break(Ok(()))
    })
}

fn routing(flow: Flow) -> String {
    match flow {
        ControlFlow::Break(Err(Error::Routing(text))) => text,
        _ => panic!("no routing error"),
    }
}

#[test]
fn an_empty_router_handles_nothing() {
    let mut r = TestRouter::default();
    assert!(matches!(r.poll_ready(Waker::noop()), Polled::Ready(Ok(()))));
    match r.call(request("foo/bar")) {
        Answer::Refused(e) => {
            assert_eq!(e.code, ErrorCode(-32601));
            assert_eq!(e.message, "No such method foo/bar");
        }
        Answer::Handler(_) => panic!("handled"),
    }
    assert!(matches!(r.notify(notification("$/foo")), ControlFlow::Continue(())));
    assert_eq!(routing(r.notify(notification("foo"))), "Unhandled notification: foo");
    assert_eq!(routing(r.notify(notification("$"))), "Unhandled notification: $");
    assert_eq!(
        routing(r.emit(AnyEvent::new::<Tick>(1, "Tick"))),
        "Unhandled event: AnyEvent { type_name: \"Tick\", .. }"
    );
}

#[test]
fn requests_go_to_their_handlers() {
    let mut r = TestRouter::new(Vec::new());
    r.request("a", answers(1)).request("b", answers(2));
    assert!(matches!(r.call(request("a")), Answer::Handler(1)));
    assert!(matches!(r.call(request("b")), Answer::Handler(2)));
    assert!(matches!(r.call(request("c")), Answer::Refused(_)));
    r.request("a", answers(3)).unhandled_request(answers(4));
    assert!(matches!(r.call(request("a")), Answer::Handler(3)));
    assert!(matches!(r.call(request("b")), Answer::Handler(2)));
    assert!(matches!(r.call(request("c")), Answer::Handler(4)));
    r.unhandled_request(answers(5));
    assert!(matches!(r.call(request("c")), Answer::Handler(5)));
}

#[test]
fn notifications_go_to_their_handlers() {
    let mut r = TestRouter::new(Vec::new());
    r.notification("a", notes("old")).notification("a", notes("new"));
    assert!(matches!(r.notify(notification("a")), ControlFlow::Continue(())));
    assert_eq!(routing(r.notify(notification("b"))), "Unhandled notification: b");
    r.unhandled_notification(notes("any"));
    assert!(matches!(r.notify(notification("b")), ControlFlow::Continue(())));
    r.request("seen", Box::new(|seen, _| {
        assert_eq!(seen.as_slice(), ["new a", "any b"]);
        0
    }));
    assert!(matches!(r.call(request("seen")), Answer::Handler(0)));
}

#[test]
fn events_go_to_the_handlers_of_their_types() {
    let mut r = TestRouter::new(Vec::new());
    r.event::<Tick>(watches("old")).event::<Tick>(watches("tick"));
    let tick = r.emit(AnyEvent::new::<Tick>(1, "Tick"));
    assert!(matches!(tick, ControlFlow::Break(Ok(()))));
    let _ = routing(r.emit(AnyEvent::new::<Tock>(1, "Tock")));
    r.unhandled_event(watches("any"));
    let tock = r.emit(AnyEvent::new::<Tock>(1, "Tock"));
    assert!(matches!(tock, ControlFlow::Break(Ok(()))));
    r.request("seen", Box::new(|seen, _| {
        assert_eq!(seen.as_slice(), ["tick Tick", "any Tock"]);
        0
    }));
    assert!(matches!(r.call(request("seen")), Answer::Handler(0)));
}

#[test]
fn requests_with_unreadable_params_are_refused() {
    let double = |state: &mut u32, n: u32| {
        *state += 1;
        n * 2
    };
    let mut state = 0;
    let good: Answer<u32, ResponseError> = route_request(&double, &mut state, Ok(21));
    assert!(matches!(good, Answer::Handler(42)));
    assert_eq!(state, 1);
    let err = serde_json::from_str::<u32>("true").unwrap_err();
    let text = err.to_string();
    let bad: Answer<u32, ResponseError> = route_request(&double, &mut state, Err(err));
    match bad {
        Answer::Refused(e) => {
            assert_eq!(e.code, ErrorCode(-32602));
            assert_eq!(e.message, format!("Failed to deserialize parameters: {}", text));
        }
        Answer::Handler(_) => panic!("handled"),
    }
    assert_eq!(state, 1);
}

#[test]
fn notifications_with_unreadable_params_stop_the_loop() {
    let keep = |state: &mut u32, n: u32| -> Flow {
        *state = n;
        ControlFlow::Continue(())
    };
    let mut state = 0;
    assert!(matches!(route_notification(&keep, &mut state, Ok(7)), ControlFlow::Continue(())));
    assert_eq!(state, 7);
    let err = serde_json::from_str::<u32>("true").unwrap_err();
    assert!(matches!(
        route_notification(&keep, &mut state, Err(err)),
        ControlFlow::Break(Err(Error::Deserialize(_)))
    ));
    assert_eq!(state, 7);
}

#[test]
fn events_are_handed_over_by_value() {
    let keep = |state: &mut i32, n: i32| -> Flow {
        *state = n;
        ControlFlow::Break(Ok(()))
    };
    let mut state = 0;
    let event = AnyEvent::new::<Tick>(9, "Tick");
    let flow = route_event::<Tick, i32, i32, _>(&keep, &mut state, event);
    assert!(matches!(flow, ControlFlow::Break(Ok(()))));
    assert_eq!(state, 9);
}
