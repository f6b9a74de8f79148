//! The concurrency middleware: limits and cancellation.
use async_lsp::concurrency::{
    readiness, Concurrency, ConcurrencyBuilder, ConcurrencyLayer, ResponseFuture,
};
use async_lsp::error::{Error, ErrorCode, ResponseError};
use async_lsp::event::AnyEvent;
use async_lsp::message::{AnyNotification, AnyRequest, RequestId};
use async_lsp::service::{Flow, LspService, Polled};
use futures::executor::block_on;
use futures::future::{pending, ready, Aborted, Pending, Ready};
use futures::future::{AbortHandle, Abortable};
use std::ops::ControlFlow;
use std::sync::atomic::{AtomicUsize, Ordering};
use std::sync::Arc;
use std::task::{Wake, Waker};

/// Answers nothing, and counts what reaches it.
#[derive(Default)]
struct Sleeper {
    calls: usize,
    notifications: Vec<String>,
}

impl LspService for Sleeper {
    type Error = ResponseError;
    type Future = Pending<Result<u8, ResponseError>>;
    type Payload = u8;

    fn poll_ready(&mut self, _waker: &Waker) -> Polled<Result<(), ResponseError>> {
        panic!("asked");
    }

    fn call(&mut self, _req: AnyRequest) -> Self::Future {
        self.calls += 1;
        pending()
    }

    fn notify(&mut self, notif: AnyNotification) -> Flow {
        self.notifications.push(notif.method);
        ControlFlow::Break(Err(Error::Eof))
    }

    fn emit(&mut self, _event: AnyEvent<u8>) -> Flow {
        ControlFlow::Break(Ok(()))
    }
}

/// Counts how often it is woken.
#[derive(Default)]
struct Alarm(AtomicUsize);

impl Wake for Alarm {
    fn wake(self: Arc<Self>) {
        self.0.fetch_add(1, Ordering::SeqCst);
    }
}

fn request(id: RequestId) -> AnyRequest {
    AnyRequest { id, method: "m".to_string(), params: serde_json::Value::Null }
}

fn numbered(n: i32) -> AnyRequest {
    request(RequestId::Number(n))
}

fn cancel(params: serde_json::Value) -> AnyNotification {
    AnyNotification { method: "$/cancelRequest".to_string(), params }
}

fn with_id(id: serde_json::Value) -> serde_json::Value {
    let mut object = serde_json::Map::new();
    object.insert("id".to_string(), id);
    serde_json::Value::Object(object)
}

fn is_ready(s: &mut Concurrency<Sleeper>) -> bool {
    matches!(s.poll_ready(Waker::noop()), Polled::Ready(Ok(())))
}

type Sleeping = ResponseFuture<Pending<Result<u8, ResponseError>>>;

fn is_aborted(fut: &mut Sleeping) -> bool {
    fut.future().is_aborted()
}

#[test]
fn at_most_max_requests_are_answered_at_once() {
    let mut s = ConcurrencyBuilder::new(2).layer(Sleeper::default());
    assert_eq!(s.max_concurrency(), 2);
    assert!(is_ready(&mut s));
    let a = s.call(numbered(1));
    assert!(is_ready(&mut s));
    let b = s.call(numbered(2));
    assert_eq!(s.active(), 2);
    assert!(!is_ready(&mut s));
    drop(a);
    assert_eq!(s.active(), 1);
    assert!(is_ready(&mut s));
    let c = s.call(numbered(3));
    assert!(!is_ready(&mut s));
    drop(b);
    drop(c);
    assert_eq!(s.active(), 0);
    assert_eq!(s.into_inner().calls, 3);
}

#[test]
fn who_waits_is_woken_when_a_place_is_given_back() {
    let alarm = Arc::new(Alarm::default());
    let waker = Waker::from(alarm.clone());
    let mut s = ConcurrencyLayer::new(1).layer(Sleeper::default());
    assert!(matches!(s.poll_ready(&waker), Polled::Ready(Ok(()))));
    let a = s.call(numbered(1));
    a.release();
    assert_eq!(alarm.0.load(Ordering::SeqCst), 0);
    assert!(matches!(s.poll_ready(&waker), Polled::Ready(Ok(()))));
    let a = s.call(numbered(2));
    assert!(matches!(s.poll_ready(&waker), Polled::Pending));
    a.release();
    assert_eq!(alarm.0.load(Ordering::SeqCst), 1);
    assert!(matches!(s.poll_ready(&waker), Polled::Ready(Ok(()))));
}

#[test]
fn a_request_is_cancelled_by_its_id() {
    let mut s = ConcurrencyBuilder::new(4).layer(Sleeper::default());
    let mut a = s.call(numbered(1));
    let mut b = s.call(numbered(2));
    let mut c = s.call(request(RequestId::String("x".to_string())));
    assert!(matches!(s.notify(cancel(with_id(1.into()))), ControlFlow::Continue(())));
    assert!(is_aborted(&mut a));
    assert!(!is_aborted(&mut b));
    assert!(matches!(s.notify(cancel(with_id("x".into()))), ControlFlow::Continue(())));
    assert!(is_aborted(&mut c));
    assert!(!is_aborted(&mut b));
    assert!(s.get_ref().notifications.is_empty());
    match block_on(async { a.future().await }) {
        Err(Aborted) => {}
        Ok(_) => panic!("answered"),
    }
    s.cancel(&RequestId::Number(2));
    assert!(is_aborted(&mut b));
}

#[test]
fn strange_cancellations_are_ignored() {
    let mut s = ConcurrencyBuilder::new(4).layer(Sleeper::default());
    let mut a = s.call(numbered(1));
    for params in [
        serde_json::Value::Null,
        serde_json::Value::Bool(true),
        with_id(serde_json::Value::Bool(true)),
        with_id("1".into()),
        with_id(7.into()),
    ] {
        assert!(matches!(s.notify(cancel(params)), ControlFlow::Continue(())));
    }
    assert!(!is_aborted(&mut a));
}

#[test]
fn an_id_that_is_used_again_cancels_the_newer_request() {
    let mut s = ConcurrencyBuilder::new(4).layer(Sleeper::default());
    let mut a = s.call(numbered(1));
    let mut b = s.call(numbered(1));
    let _ = s.notify(cancel(with_id(1.into())));
    assert!(!is_aborted(&mut a));
    assert!(is_aborted(&mut b));
}

#[test]
fn finished_requests_are_purged_and_running_ones_are_not() {
    let mut s = ConcurrencyBuilder::new(1).layer(Sleeper::default());
    let mut first = s.call(numbered(1));
    for n in 2..20 {
        let done = s.call(numbered(n));
        done.release();
    }
    s.cancel(&RequestId::Number(1));
    assert!(is_aborted(&mut first));
}

#[test]
fn other_notifications_and_events_are_passed_on() {
    let mut s = ConcurrencyBuilder::new(1).layer(Sleeper::default());
    let notif = AnyNotification { method: "n".to_string(), params: serde_json::Value::Null };
    assert!(matches!(s.notify(notif), ControlFlow::Break(Err(Error::Eof))));
    let event = AnyEvent::new::<u8>(1, "u8");
    assert!(matches!(s.emit(event), ControlFlow::Break(Ok(()))));
    assert_eq!(s.get_mut().notifications, ["n"]);
}

#[test]
fn an_aborted_request_is_answered_with_an_error() {
    type R = Result<u8, ResponseError>;
    let pending: Polled<R> = Sleeping::resolve(Polled::Pending);
    assert!(matches!(pending, Polled::Pending));
    let answered: Polled<R> = Sleeping::resolve(Polled::Ready(Ok(Ok(3))));
    assert!(matches!(answered, Polled::Ready(Ok(3))));
    let (handle, registration) = AbortHandle::new_pair();
    let fut: Abortable<Ready<R>> = Abortable::new(ready(Ok(1)), registration);
    handle.abort();
    match Sleeping::resolve(Polled::Ready(block_on(fut))) {
        Polled::Ready(Err(e)) => {
            assert_eq!(e.code, ErrorCode(-32800));
            assert_eq!(e.message, "Client cancelled the request");
        }
        _ => panic!("answered"),
    }
}

#[test]
fn nobody_is_woken_once_the_middleware_is_gone() {
    let alarm = Arc::new(Alarm::default());
    let waker = Waker::from(alarm.clone());
    let mut s = ConcurrencyBuilder::new(1).layer(Sleeper::default());
    let a = s.call(numbered(1));
    assert!(matches!(s.poll_ready(&waker), Polled::Pending));
    assert_eq!(s.into_inner().calls, 1);
    a.release();
    assert_eq!(alarm.0.load(Ordering::SeqCst), 0);
    let mut s = ConcurrencyBuilder::new(1).layer(Sleeper::default());
    let a = s.call(numbered(1));
    assert!(matches!(s.poll_ready(&waker), Polled::Pending));
    s.retire();
    drop(s);
    a.release();
    assert_eq!(alarm.0.load(Ordering::SeqCst), 0);
}

#[test]
fn running_requests_stay_cancellable_among_many() {
    let mut s = ConcurrencyBuilder::new(2).layer(Sleeper::default());
    let mut running = s.call(numbered(0));
    for n in 1..50 {
        s.call(numbered(n)).release();
        assert!(s.tracked_requests() <= 4);
    }
    assert!(!is_aborted(&mut running));
    let known = s.tracked_requests();
    let _ = s.notify(cancel(with_id(0.into())));
    assert!(is_aborted(&mut running));
    assert_eq!(s.tracked_requests(), known - 1);
}

#[test]
fn the_limit_falls_back_to_one() {
    assert_eq!(ConcurrencyBuilder::for_parallelism(None).max_concurrency(), 1);
    assert_eq!(ConcurrencyBuilder::for_parallelism(Some(12)).max_concurrency(), 12);
}

#[test]
fn readiness_follows_the_count() {
    for (seen, max, ready) in [(0, 1, true), (1, 1, false), (1, 2, true), (3, 2, false)] {
        let r: Polled<Result<(), ResponseError>> = readiness(seen, max);
        assert_eq!(matches!(r, Polled::Ready(Ok(()))), ready);
        assert_eq!(matches!(r, Polled::Pending), !ready);
    }
}
