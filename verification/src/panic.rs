//! Turn the panics of underlying handlers into error responses.
//!
//! *Applies to both Language Servers and Language Clients.*
//!
//! Who runs the middleware catches the panics; what becomes of them is decided here.
use vstd::prelude::*;
use vstd::string::{to_string_from_display_ensures, StringExecFns};

use crate::error::{ErrorCode, ResponseError};
use crate::service::Polled;
use crate::text::joined;

verus! {

/// What a panic carried.
#[derive(Debug)]
pub enum PanicPayload<D, P> {
    /// A formatted message.
    Text(String),
    /// A literal message.
    Literal(&'static str),
    /// Another value, which can be shown.
    Shown(D),
    /// A value that cannot be shown.
    Opaque(P),
}

impl<D: core::fmt::Display, P> PanicPayload<D, P> {
    /// Whether `message` is what the panic carried, as a text.
    pub open spec fn reads(&self, message: Seq<char>) -> bool {
        match *self {
            PanicPayload::Text(text) => message == text@,
            PanicPayload::Literal(text) => message == text@,
            PanicPayload::Shown(value) => exists|t: String| #[trigger]
                to_string_from_display_ensures(&value, t) && message == t@,
            PanicPayload::Opaque(_) => message == "unknown"@,
        }
    }
}

/// The message of the error that a panic becomes.
pub open spec fn panic_message(method: Seq<char>, message: Seq<char>) -> Seq<char> {
    "Request handler of "@ + method + " panicked: "@ + message
}

/// The error that a panic becomes unless a handler says otherwise: an error response with code
/// [`ErrorCode::INTERNAL_ERROR`]. Its message is the one that the panic carried, or else what it
/// carried as [`core::fmt::Display`] shows it.
pub fn default_handler<D: core::fmt::Display, P>(
    method: &str,
    payload: PanicPayload<D, P>,
) -> (r: ResponseError)
    ensures
        exists|message: Seq<char>| #[trigger]
            payload.reads(message) && r.says(
                ErrorCode::INTERNAL_ERROR,
                panic_message(method@, message),
            ),
{
    let ghost carried = payload;
    let msg = match payload {
        PanicPayload::Text(msg) => msg,
        PanicPayload::Literal(msg) => msg.to_string(),
        PanicPayload::Shown(value) => value.to_string(),
        PanicPayload::Opaque(_) => "unknown".to_string(),
    };
    assert(carried.reads(msg@));
    let mut message = joined("Request handler of ", method);
    message.append(" panicked: ");
    message.append(msg.as_str());
    ResponseError::plain(ErrorCode::INTERNAL_ERROR, message.as_str())
}

/// What a request is answered through by the [`CatchUnwind`] middleware.
#[derive(Debug)]
pub enum ResponseFuture<Fut, E, H> {
    /// The inner service answers.
    Future {
        /// What it answers through.
        fut: Fut,
        /// The method of the request.
        method: String,
        /// What turns a panic into an error.
        handler: H,
    },
    /// The inner service panicked, and the answer is an error. It is taken out when it is given.
    Ready {
        /// The error.
        err: Option<E>,
    },
}

impl<Fut, E, H> ResponseFuture<Fut, E, H> {
    /// The answer to a request of the method whose future was polled: what it gave, or the error
    /// that its panic becomes.
    pub fn polled<R, D, P>(
        method: &str,
        handler: &H,
        polled: Result<Polled<Result<R, E>>, PanicPayload<D, P>>,
    ) -> (r: Polled<Result<R, E>>) where H: Fn(&str, PanicPayload<D, P>) -> E
        requires
            polled matches Err(payload) ==> call_requires(*handler, (method, payload)),
        ensures
            match polled {
                Ok(p) => r == p,
                Err(payload) => r matches Polled::Ready(Err(e)) && call_ensures(
                    *handler,
                    (method, payload),
                    e,
                ),
            },
    {
        match polled {
            Ok(p) => p,
            Err(payload) => Polled::Ready(Err(handler(method, payload))),
        }
    }
}

/// The middleware turning the panics of underlying handlers into error responses.
#[derive(Debug)]
pub struct CatchUnwind<S, H> {
    service: S,
    handler: H,
}

impl<S, H> CatchUnwind<S, H> {
    /// The inner service.
    pub closed spec fn inner(&self) -> S {
        self.service
    }

    /// What turns a panic into an error.
    pub closed spec fn converter(&self) -> H {
        self.handler
    }

    /// Get a reference to the inner service.
    #[must_use]
    pub fn get_ref(&self) -> (r: &S)
        ensures
            *r == self.inner(),
    {
        &self.service
    }

    /// Get a mutable reference to the inner service.
    #[must_use]
    pub fn get_mut(&mut self) -> (r: &mut S)
        ensures
            *r == old(self).inner(),
            final(self).inner() == *final(r),
            final(self).converter() == old(self).converter(),
    {
        &mut self.service
    }

    /// Consume self, returning the inner service.
    #[must_use]
    pub fn into_inner(self) -> (r: S)
        ensures
            r == self.inner(),
    {
        self.service
    }

    /// The answer to a request of the method that was handed to the inner service: what that
    /// answers through, or the error that its panic becomes.
    pub fn called<Fut, E, D, P>(
        &self,
        method: String,
        called: Result<Fut, PanicPayload<D, P>>,
    ) -> (r: ResponseFuture<Fut, E, H>) where H: Copy + Fn(&str, PanicPayload<D, P>) -> E
        requires
            forall|name: &str, payload: PanicPayload<D, P>| #[trigger]
                call_requires(self.converter(), (name, payload)),
        ensures
            match called {
                Ok(f) => r == (ResponseFuture::Future::<Fut, E, H> {
                    fut: f,
                    method,
                    handler: self.converter(),
                }),
                Err(payload) => exists|name: &str, e: E|
                    {
                        &&& name@ == method@
                        &&& #[trigger] call_ensures(self.converter(), (name, payload), e)
                        &&& r == (ResponseFuture::Ready::<Fut, E, H> { err: Some(e) })
                    },
            },
    {
        match called {
            Ok(fut) => ResponseFuture::Future { fut, method, handler: self.handler },
            Err(payload) => {
                let handler = &self.handler;
                let name = method.as_str();
                let e = handler(name, payload);
                assert(call_ensures(self.converter(), (name, payload), e));
                ResponseFuture::Ready { err: Some(e) }
            },
        }
    }
}

/// The builder of [`CatchUnwind`] middleware.
#[must_use]
#[derive(Clone, Copy, Debug)]
pub struct CatchUnwindBuilder<H> {
    handler: H,
}

impl<H> CatchUnwindBuilder<H> {
    /// What turns a panic into an error.
    pub closed spec fn converter(&self) -> H {
        self.handler
    }

    /// Create the builder of [`CatchUnwind`] middleware with a custom handler converting panic
    /// payloads into errors.
    pub fn new_with_handler(handler: H) -> (r: Self)
        ensures
            r.converter() == handler,
    {
        Self { handler }
    }

    /// Wraps a service.
    pub fn layer<S>(&self, inner: S) -> (r: CatchUnwind<S, H>) where H: Copy
        ensures
            r.inner() == inner,
            r.converter() == self.converter(),
    {
        CatchUnwind { service: inner, handler: self.handler }
    }
}

/// A type alias of [`CatchUnwindBuilder`] conforming to the naming convention of layers.
pub type CatchUnwindLayer<H> = CatchUnwindBuilder<H>;

/// Unless a handler says otherwise, a panic becomes an internal error that names the method and
/// what the panic carried: its message, else the value as it is shown, else that it is unknown.
pub proof fn law_panics_become_internal_errors<D: core::fmt::Display, P>(
    method: &str,
    text: String,
    literal: &'static str,
    shown: D,
    opaque: P,
)
    ensures
        forall|r: ResponseError| #[trigger]
            call_ensures(
                default_handler::<D, P>,
                (method, PanicPayload::<D, P>::Text(text)),
                r,
            ) ==> r.code.0 == -32603 && r.data is None && r.message@ == "Request handler of "@
                + method@ + " panicked: "@ + text@,
        forall|r: ResponseError| #[trigger]
            call_ensures(
                default_handler::<D, P>,
                (method, PanicPayload::<D, P>::Literal(literal)),
                r,
            ) ==> r.code.0 == -32603 && r.data is None && r.message@ == "Request handler of "@
                + method@ + " panicked: "@ + literal@,
        forall|r: ResponseError| #[trigger]
            call_ensures(
                default_handler::<D, P>,
                (method, PanicPayload::<D, P>::Shown(shown)),
                r,
            ) ==> r.code.0 == -32603 && r.data is None && exists|t: String| #[trigger]
                to_string_from_display_ensures(&shown, t) && r.message@ == "Request handler of "@
                    + method@ + " panicked: "@ + t@,
        forall|r: ResponseError| #[trigger]
            call_ensures(
                default_handler::<D, P>,
                (method, PanicPayload::<D, P>::Opaque(opaque)),
                r,
            ) ==> r.code.0 == -32603 && r.data is None && r.message@ == "Request handler of "@
                + method@ + " panicked: "@ + "unknown"@,
{
}

/// What came out of the inner service is passed on as it is, and a panic becomes the error that the
/// handler makes of the method and of what the panic carried.
pub proof fn law_panics_are_handled<Fut, E, H, R, D, P>(
    method: &str,
    handler: &H,
    polled: Polled<Result<R, E>>,
    payload: PanicPayload<D, P>,
) where H: Fn(&str, PanicPayload<D, P>) -> E
    ensures
        forall|r: Polled<Result<R, E>>| #[trigger]
            call_ensures(
                ResponseFuture::<Fut, E, H>::polled::<R, D, P>,
                (method, handler, Ok::<Polled<Result<R, E>>, PanicPayload<D, P>>(polled)),
                r,
            ) ==> r == polled,
        forall|r: Polled<Result<R, E>>| #[trigger]
            call_ensures(
                ResponseFuture::<Fut, E, H>::polled::<R, D, P>,
                (method, handler, Err::<Polled<Result<R, E>>, PanicPayload<D, P>>(payload)),
                r,
            ) ==> (r matches Polled::Ready(Err(e)) && call_ensures(*handler, (method, payload), e)),
{
}

} // verus!
