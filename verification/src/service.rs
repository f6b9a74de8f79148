//! The core service abstraction.
use core::ops::ControlFlow;
use core::task::Waker;
use vstd::prelude::*;

use crate::error::Error;
use crate::event::AnyEvent;
use crate::message::{AnyNotification, AnyRequest};

verus! {

/// Whether a value is available yet.
#[derive(Debug, PartialEq, Eq)]
pub enum Polled<T> {
    /// The value is available.
    Ready(T),
    /// The value is not available yet.
    Pending,
}

/// What a main loop does after a message or an event: go on, or stop with a result.
pub type Flow = ControlFlow<Result<(), Error>>;

/// Goes on.
pub open spec fn goes_on() -> Flow {
    ControlFlow::Continue(())
}

/// Stops with a result.
pub open spec fn stops_with(result: Result<(), Error>) -> Flow {
    ControlFlow::Break(result)
}

/// The core service abstraction, representing either a Language Server or Language Client.
///
/// Each of the operations of a service is described by a relation between the service before it,
/// what it was given, the service after it, and what it returned. A middleware states its own
/// relations in terms of those of the service that it wraps. A service that leaves a relation out
/// claims nothing of that operation.
pub trait LspService: Sized {
    /// What a failed request is answered with.
    type Error;

    /// What a request is answered through.
    type Future;

    /// What an event carries.
    type Payload;

    /// Whether the service can be used. Every operation keeps it so.
    open spec fn wf(&self) -> bool {
        true
    }

    /// Asking for readiness with a waker can turn `pre` into `post` and return `r`.
    open spec fn polled(
        pre: Self,
        waker: Waker,
        post: Self,
        r: Polled<Result<(), Self::Error>>,
    ) -> bool {
        true
    }

    /// The request `req` can turn `pre` into `post` and be answered through `fut`.
    open spec fn called(pre: Self, req: AnyRequest, post: Self, fut: Self::Future) -> bool {
        true
    }

    /// The notification `notif` can turn `pre` into `post` and return `r`.
    open spec fn notified(pre: Self, notif: AnyNotification, post: Self, r: Flow) -> bool {
        true
    }

    /// The event `event` can turn `pre` into `post` and return `r`.
    open spec fn emitted(pre: Self, event: AnyEvent<Self::Payload>, post: Self, r: Flow) -> bool {
        true
    }

    /// Whether the service is ready for a request. If it is not yet, `waker` is woken when it
    /// may be.
    fn poll_ready(&mut self, waker: &Waker) -> (r: Polled<Result<(), Self::Error>>)
        requires
            old(self).wf(),
        ensures
            final(self).wf(),
            Self::polled(*old(self), *waker, *final(self), r),
    ;

    /// The handler of LSP requests.
    fn call(&mut self, req: AnyRequest) -> (fut: Self::Future)
        requires
            old(self).wf(),
        ensures
            final(self).wf(),
            Self::called(*old(self), req, *final(self), fut),
    ;

    /// The handler of LSP notifications.
    ///
    /// Notifications are delivered in order and synchronously. This is mandatory since they can
    /// change the interpretation of later notifications or requests.
    ///
    /// The return value decides the action to either break or continue the main loop.
    fn notify(&mut self, notif: AnyNotification) -> (r: Flow)
        requires
            old(self).wf(),
        ensures
            final(self).wf(),
            Self::notified(*old(self), notif, *final(self), r),
    ;

    /// The handler of an arbitrary event.
    ///
    /// Events are emitted by users or middlewares through a socket, for user-defined purposes.
    /// Events are delivered in order and synchronously.
    ///
    /// The return value decides the action to either break or continue the main loop.
    fn emit(&mut self, event: AnyEvent<Self::Payload>) -> (r: Flow)
        requires
            old(self).wf(),
        ensures
            final(self).wf(),
            Self::emitted(*old(self), event, *final(self), r),
    ;
}

} // verus!
