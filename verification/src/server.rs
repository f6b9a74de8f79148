//! Language Server lifecycle.
//!
//! *Only applies to Language Servers.*
//!
//! This middleware handles the lifecycle of Language Servers, specifically:
//! - Exit the main loop with `ControlFlow::Break(Ok(()))` on the `exit` notification.
//! - Respond to unrelated requests with errors and ignore unrelated notifications during
//!   initialization and shutting down.
use core::ops::ControlFlow;
use core::task::Waker;
use vstd::prelude::*;

use crate::error::{Error, ErrorCode, ResponseError};
use crate::event::AnyEvent;
use crate::message::{AnyNotification, AnyRequest};
use crate::service::{stops_with, Flow, LspService, Polled};
use crate::text::{joined, same_text};

verus! {

/// How far a server has come in its life.
#[derive(Clone, Copy, Debug, PartialEq, Eq, Structural)]
pub enum State {
    /// No `initialize` request came yet.
    Uninitialized,
    /// The `initialize` request came, the `initialized` notification did not yet.
    Initializing,
    /// The server works.
    Ready,
    /// The `shutdown` request came.
    ShuttingDown,
}

impl Default for State {
    fn default() -> (r: Self)
        ensures
            r == State::Uninitialized,
    {
        State::Uninitialized
    }
}

impl State {
    /// The name of the state.
    pub open spec fn name(self) -> Seq<char> {
        match self {
            State::Uninitialized => "Uninitialized"@,
            State::Initializing => "Initializing"@,
            State::Ready => "Ready"@,
            State::ShuttingDown => "ShuttingDown"@,
        }
    }

    /// Shows the state for debugging: its name.
    pub fn debug(self) -> (r: &'static str)
        ensures
            r@ == self.name(),
    {
        match self {
            State::Uninitialized => "Uninitialized",
            State::Initializing => "Initializing",
            State::Ready => "Ready",
            State::ShuttingDown => "ShuttingDown",
        }
    }

    /// Whether a request of the method is passed on to the inner service in this state.
    pub open spec fn admits(self, method: Seq<char>) -> bool {
        match self {
            State::Uninitialized => method == "initialize"@,
            State::Initializing => false,
            State::Ready => method != "initialize"@,
            State::ShuttingDown => false,
        }
    }

    /// The state after a request.
    pub open spec fn after_request(self, method: Seq<char>) -> State {
        if self == State::Uninitialized && method == "initialize"@ {
            State::Initializing
        } else if self == State::Ready && method == "shutdown"@ {
            State::ShuttingDown
        } else {
            self
        }
    }

    /// The code of the error that answers a request that is not passed on.
    pub open spec fn refusal_code(self) -> i32 {
        match self {
            State::Uninitialized | State::Initializing => ErrorCode::SERVER_NOT_INITIALIZED,
            State::Ready | State::ShuttingDown => ErrorCode::INVALID_REQUEST,
        }
    }

    /// The message of the error that answers a request that is not passed on.
    pub open spec fn refusal_message(self, method: Seq<char>) -> Seq<char> {
        if self == State::Uninitialized || self == State::Initializing {
            "Server is not initialized yet"@
        } else if method == "initialize"@ {
            "Server is already initialized"@
        } else {
            "Server is shutting down"@
        }
    }

    /// Whether a notification of the method is passed on to the inner service in this state.
    pub open spec fn hears(self, method: Seq<char>) -> bool {
        ||| method == "exit"@
        ||| method == "initialized"@ && self == State::Initializing
        ||| method != "initialized"@ && self == State::Ready
    }

    /// The state after a notification.
    pub open spec fn after_notification(self, method: Seq<char>) -> State {
        if self == State::Initializing && method == "initialized"@ {
            State::Ready
        } else {
            self
        }
    }
}

/// The middleware handling Language Server lifecycle.
#[derive(Debug)]
pub struct Lifecycle<S> {
    service: S,
    state: State,
}

impl<S> Lifecycle<S> {
    /// The inner service.
    pub closed spec fn inner(&self) -> S {
        self.service
    }

    /// How far the server has come.
    pub closed spec fn state(&self) -> State {
        self.state
    }

    /// Get a reference to the inner service.
    #[must_use]
    pub fn get_ref(&self) -> (r: &S)
        ensures
            *r == self.inner(),
    {
        &self.service
    }

    /// Get a mutable reference to the inner service.
    #[must_use]
    pub fn get_mut(&mut self) -> (r: &mut S)
        ensures
            *r == old(self).inner(),
            final(self).inner() == *final(r),
            final(self).state() == old(self).state(),
    {
        &mut self.service
    }

    /// Consume self, returning the inner service.
    #[must_use]
    pub fn into_inner(self) -> (r: S)
        ensures
            r == self.inner(),
    {
        self.service
    }

    /// Creating the `Lifecycle` middleware in uninitialized state.
    #[must_use]
    pub fn new(service: S) -> (r: Self)
        ensures
            r.inner() == service,
            r.state() == State::Uninitialized,
    {
        Self { service, state: State::Uninitialized }
    }
}

impl<S: Default> Default for Lifecycle<S> {
    fn default() -> (r: Self)
        ensures
            call_ensures(<S as Default>::default, (), r.inner()),
            r.state() == State::Uninitialized,
    {
        Lifecycle { service: S::default(), state: State::default() }
    }
}

/// What a request is answered through by the [`Lifecycle`] middleware.
#[derive(Debug)]
pub enum ResponseFuture<Fut, E> {
    /// The inner service answers.
    Inner(Fut),
    /// The answer is an error, at once.
    Ready(E),
}

/// Whether `e` is an error made from an error object of the given code and message.
pub open spec fn refused_with<E: From<ResponseError>>(e: E, code: i32, message: Seq<char>) -> bool {
    exists|object: ResponseError|
        object.says(code, message) && #[trigger] call_ensures(
            <E as From<ResponseError>>::from,
            (object,),
            e,
        )
}

/// For services whose error is the error object itself, a refusal is that object.
pub proof fn law_refusal_says_why(e: ResponseError, code: i32, message: Seq<char>)
    requires
        refused_with(e, code, message),
    ensures
        e.says(code, message),
{
}

/// An error of a code and a message.
pub(crate) fn refuse<E: From<ResponseError>>(code: i32, message: &str) -> (e: E)
    ensures
        refused_with(e, code, message@),
{
    let object = ResponseError::plain(code, message);
    let e = E::from(object);
    assert(call_ensures(<E as From<ResponseError>>::from, (object,), e));
    e
}

/// The methods that the lifecycle knows are not the same.
proof fn lemma_methods_differ()
    ensures
        "initialize"@ != "shutdown"@,
        "initialized"@ != "exit"@,
{
    reveal_strlit("initialize");
    reveal_strlit("shutdown");
    reveal_strlit("initialized");
    reveal_strlit("exit");
    assert("initialize"@.len() == 10 && "shutdown"@.len() == 8);
    assert("initialized"@.len() == 11 && "exit"@.len() == 4);
}

impl<S: LspService> LspService for Lifecycle<S> where S::Error: From<ResponseError> {
    type Error = S::Error;

    type Future = ResponseFuture<S::Future, S::Error>;

    type Payload = S::Payload;

    open spec fn wf(&self) -> bool {
        self.inner().wf()
    }

    open spec fn polled(
        pre: Self,
        waker: Waker,
        post: Self,
        r: Polled<Result<(), S::Error>>,
    ) -> bool {
        &&& S::polled(pre.inner(), waker, post.inner(), r)
        &&& post.state() == pre.state()
    }

    open spec fn called(
        pre: Self,
        req: AnyRequest,
        post: Self,
        fut: ResponseFuture<S::Future, S::Error>,
    ) -> bool {
        &&& post.state() == pre.state().after_request(req.method@)
        &&& if pre.state().admits(req.method@) {
            fut matches ResponseFuture::Inner(f) && S::called(pre.inner(), req, post.inner(), f)
        } else {
            &&& post == pre
            &&& fut matches ResponseFuture::Ready(e) && refused_with(
                e,
                pre.state().refusal_code(),
                pre.state().refusal_message(req.method@),
            )
        }
    }

    open spec fn notified(pre: Self, notif: AnyNotification, post: Self, r: Flow) -> bool {
        &&& post.state() == pre.state().after_notification(notif.method@)
        &&& if pre.state().hears(notif.method@) {
            exists|inner: Flow|
                #![trigger S::notified(pre.inner(), notif, post.inner(), inner)]
                S::notified(pre.inner(), notif, post.inner(), inner) && r == (
                if inner is Continue && notif.method@ == "exit"@ {
                    ControlFlow::<Result<(), Error>, ()>::Break(Ok(()))
                } else {
                    inner
                })
        } else {
            &&& post == pre
            &&& if notif.method@ == "initialized"@ {
                r matches ControlFlow::Break(Err(e)) && e.is_protocol(
                    "Unexpected initialized notification on state "@ + pre.state().name(),
                )
            } else {
                r is Continue
            }
        }
    }

    open spec fn emitted(pre: Self, event: AnyEvent<S::Payload>, post: Self, r: Flow) -> bool {
        &&& S::emitted(pre.inner(), event, post.inner(), r)
        &&& post.state() == pre.state()
    }

    fn poll_ready(&mut self, waker: &Waker) -> (r: Polled<Result<(), S::Error>>) {
        self.service.poll_ready(waker)
    }

    fn call(&mut self, req: AnyRequest) -> (fut: ResponseFuture<S::Future, S::Error>) {
        let initialize = same_text(req.method.as_str(), "initialize");
        proof {
            lemma_methods_differ();
        }
        match self.state {
            State::Uninitialized if initialize => {
                self.state = State::Initializing;
                ResponseFuture::Inner(self.service.call(req))
            },
            State::Uninitialized | State::Initializing => ResponseFuture::Ready(
                refuse(ErrorCode::SERVER_NOT_INITIALIZED, "Server is not initialized yet"),
            ),
            _ if initialize => ResponseFuture::Ready(
                refuse(ErrorCode::INVALID_REQUEST, "Server is already initialized"),
            ),
            State::Ready => {
                if same_text(req.method.as_str(), "shutdown") {
                    self.state = State::ShuttingDown;
                }
                ResponseFuture::Inner(self.service.call(req))
            },
            State::ShuttingDown => ResponseFuture::Ready(
                refuse(ErrorCode::INVALID_REQUEST, "Server is shutting down"),
            ),
        }
    }

    fn notify(&mut self, notif: AnyNotification) -> (r: Flow) {
        proof {
            lemma_methods_differ();
        }
        let ghost pre = *self;
        if same_text(notif.method.as_str(), "exit") {
            let inner = self.service.notify(notif);
            assert(S::notified(pre.inner(), notif, self.inner(), inner));
            match inner {
                ControlFlow::Continue(()) => ControlFlow::Break(Ok(())),
                ControlFlow::Break(result) => ControlFlow::Break(result),
            }
        } else if same_text(notif.method.as_str(), "initialized") {
            if self.state != State::Initializing {
                return ControlFlow::Break(
                    Err(
                        Error::Protocol(
                            joined(
                                "Unexpected initialized notification on state ",
                                self.state.debug(),
                            ),
                        ),
                    ),
                );
            }
            self.state = State::Ready;
            let inner = self.service.notify(notif);
            assert(S::notified(pre.inner(), notif, self.inner(), inner));
            inner
        } else {
            match self.state {
                State::Ready => {
                    let inner = self.service.notify(notif);
                    assert(S::notified(pre.inner(), notif, self.inner(), inner));
                    inner
                },
                _ => ControlFlow::Continue(()),
            }
        }
    }

    fn emit(&mut self, event: AnyEvent<S::Payload>) -> (r: Flow) {
        self.service.emit(event)
    }
}

/// A layer which builds [`Lifecycle`].
#[must_use]
#[derive(Clone, Copy, Debug)]
pub struct LifecycleLayer {
    _private: (),
}

impl Default for LifecycleLayer {
    fn default() -> (r: Self)
        ensures
            r == Self::made(),
    {
        LifecycleLayer { _private: () }
    }
}

impl LifecycleLayer {
    /// The layer. It has nothing to configure.
    pub closed spec fn made() -> Self {
        LifecycleLayer { _private: () }
    }

    /// Wraps a service.
    pub fn layer<S>(&self, inner: S) -> (r: Lifecycle<S>)
        ensures
            r.inner() == inner,
            r.state() == State::Uninitialized,
    {
        Lifecycle::new(inner)
    }
}

/// What a server is given.
pub enum Input<P> {
    /// It is asked whether it is ready.
    Poll(Waker),
    /// A request.
    Request(AnyRequest),
    /// A notification.
    Notification(AnyNotification),
    /// An event.
    Event(AnyEvent<P>),
}

/// Whether the input is a request of the method.
pub open spec fn is_request<P>(input: Input<P>, method: Seq<char>) -> bool {
    input matches Input::Request(req) && req.method@ == method
}

/// Whether the input is a notification of the method.
pub open spec fn is_notification<P>(input: Input<P>, method: Seq<char>) -> bool {
    input matches Input::Notification(notif) && notif.method@ == method
}

/// Whether the middleware passes the input on to the inner service in a state.
pub open spec fn passed_on<P>(state: State, input: Input<P>) -> bool {
    match input {
        Input::Request(req) => state.admits(req.method@),
        Input::Notification(notif) => state.hears(notif.method@),
        _ => true,
    }
}

/// Whether the input can turn the middleware `pre` into `post`.
pub open spec fn steps<S: LspService>(
    pre: Lifecycle<S>,
    input: Input<S::Payload>,
    post: Lifecycle<S>,
) -> bool where S::Error: From<ResponseError> {
    match input {
        Input::Poll(waker) => exists|r: Polled<Result<(), S::Error>>|
            #[trigger] Lifecycle::<S>::polled(pre, waker, post, r),
        Input::Request(req) => exists|fut: ResponseFuture<S::Future, S::Error>|
            #[trigger] Lifecycle::<S>::called(pre, req, post, fut),
        Input::Notification(notif) => exists|r: Flow|
            #[trigger] Lifecycle::<S>::notified(pre, notif, post, r),
        Input::Event(event) => exists|r: Flow|
            #[trigger] Lifecycle::<S>::emitted(pre, event, post, r),
    }
}

/// A life of the middleware: what it is before each input, and after the last.
pub open spec fn lives<S: LspService>(
    life: Seq<Lifecycle<S>>,
    inputs: Seq<Input<S::Payload>>,
) -> bool where S::Error: From<ResponseError> {
    &&& life.len() == inputs.len() + 1
    &&& life[0].state() == State::Uninitialized
    &&& forall|i: int|
        0 <= i < inputs.len() ==> steps(life[i], #[trigger] inputs[i], life[i + 1])
}

/// How many stages of its life a server has behind it.
spec fn stage(state: State) -> int {
    match state {
        State::Uninitialized => 0,
        State::Initializing => 1,
        State::Ready => 2,
        State::ShuttingDown => 3,
    }
}

proof fn lemma_stage_grows<S: LspService>(
    life: Seq<Lifecycle<S>>,
    inputs: Seq<Input<S::Payload>>,
    i: int,
    j: int,
) where S::Error: From<ResponseError>
    requires
        lives(life, inputs),
        0 <= i <= j < life.len(),
    ensures
        stage(life[i].state()) <= stage(life[j].state()),
    decreases j - i,
{
    if i < j {
        lemma_stage_grows(life, inputs, i, j - 1);
        assert(steps(life[j - 1], inputs[j - 1], life[j - 1 + 1]));
    }
}

proof fn lemma_was_initialized<S: LspService>(
    life: Seq<Lifecycle<S>>,
    inputs: Seq<Input<S::Payload>>,
    i: int,
) -> (a: int) where S::Error: From<ResponseError>
    requires
        lives(life, inputs),
        0 <= i < life.len(),
        stage(life[i].state()) >= 1,
    ensures
        0 <= a < i,
        is_request(inputs[a], "initialize"@),
        passed_on(life[a].state(), inputs[a]),
    decreases i,
{
    assert(i > 0);
    assert(steps(life[i - 1], inputs[i - 1], life[i - 1 + 1]));
    if stage(life[i - 1].state()) >= 1 {
        lemma_was_initialized(life, inputs, i - 1)
    } else {
        i - 1
    }
}

proof fn lemma_was_ready<S: LspService>(
    life: Seq<Lifecycle<S>>,
    inputs: Seq<Input<S::Payload>>,
    i: int,
) -> (b: int) where S::Error: From<ResponseError>
    requires
        lives(life, inputs),
        0 <= i < life.len(),
        stage(life[i].state()) >= 2,
    ensures
        0 <= b < i,
        is_notification(inputs[b], "initialized"@),
        passed_on(life[b].state(), inputs[b]),
        life[b].state() == State::Initializing,
    decreases i,
{
    assert(i > 0);
    assert(steps(life[i - 1], inputs[i - 1], life[i - 1 + 1]));
    if stage(life[i - 1].state()) >= 2 {
        lemma_was_ready(life, inputs, i - 1)
    } else {
        i - 1
    }
}

/// A request that the middleware refuses, and a notification that it ignores or refuses, never
/// change the inner service or how far the server has come.
pub proof fn law_what_is_held_back_changes_nothing<S: LspService>(
    pre: Lifecycle<S>,
    input: Input<S::Payload>,
    post: Lifecycle<S>,
) where S::Error: From<ResponseError>
    requires
        steps(pre, input, post),
        !passed_on(pre.state(), input),
    ensures
        post == pre,
{
}

/// A request other than `initialize` reaches the inner service only after an `initialize` request
/// reached it, and after that an `initialized` notification.
pub proof fn law_requests_wait_for_initialization<S: LspService>(
    life: Seq<Lifecycle<S>>,
    inputs: Seq<Input<S::Payload>>,
    i: int,
) where S::Error: From<ResponseError>
    requires
        lives(life, inputs),
        0 <= i < inputs.len(),
        inputs[i] is Request,
        !is_request(inputs[i], "initialize"@),
        passed_on(life[i].state(), inputs[i]),
    ensures
        exists|a: int, b: int|
            #![trigger inputs[a], inputs[b]]
            {
                &&& 0 <= a < b < i
                &&& is_request(inputs[a], "initialize"@)
                &&& passed_on(life[a].state(), inputs[a])
                &&& is_notification(inputs[b], "initialized"@)
                &&& passed_on(life[b].state(), inputs[b])
            },
{
    let b = lemma_was_ready(life, inputs, i);
    let a = lemma_was_initialized(life, inputs, b);
}

/// The `initialize` request reaches the inner service at most once.
pub proof fn law_initialized_once<S: LspService>(
    life: Seq<Lifecycle<S>>,
    inputs: Seq<Input<S::Payload>>,
    i: int,
    j: int,
) where S::Error: From<ResponseError>
    requires
        lives(life, inputs),
        0 <= i < j < inputs.len(),
        is_request(inputs[i], "initialize"@),
        passed_on(life[i].state(), inputs[i]),
        is_request(inputs[j], "initialize"@),
    ensures
        !passed_on(life[j].state(), inputs[j]),
{
    assert(steps(life[i], inputs[i], life[i + 1]));
    lemma_stage_grows(life, inputs, i + 1, j);
}

/// After a `shutdown` request has reached the inner service, no request reaches it, and no
/// notification but `exit`.
pub proof fn law_shutdown_is_final<S: LspService>(
    life: Seq<Lifecycle<S>>,
    inputs: Seq<Input<S::Payload>>,
    i: int,
    j: int,
) where S::Error: From<ResponseError>
    requires
        lives(life, inputs),
        0 <= i < j < inputs.len(),
        is_request(inputs[i], "shutdown"@),
        passed_on(life[i].state(), inputs[i]),
    ensures
        inputs[j] is Request ==> !passed_on(life[j].state(), inputs[j]),
        inputs[j] is Notification && passed_on(life[j].state(), inputs[j]) ==> is_notification(
            inputs[j],
            "exit"@,
        ),
{
    lemma_methods_differ();
    assert(steps(life[i], inputs[i], life[i + 1]));
    lemma_stage_grows(life, inputs, i + 1, j);
}

/// The `exit` notification always ends the main loop: with what the inner service ended it with,
/// else with success.
pub proof fn law_exit_ends_the_loop<S: LspService>(
    pre: Lifecycle<S>,
    notif: AnyNotification,
    post: Lifecycle<S>,
    r: Flow,
) where S::Error: From<ResponseError>
    requires
        Lifecycle::<S>::notified(pre, notif, post, r),
        notif.method@ == "exit"@,
    ensures
        r is Break,
        r == stops_with(Ok(())) || S::notified(pre.inner(), notif, post.inner(), r),
{
}

/// A server that is ready is asked every request but `initialize`: the inner service answers it,
/// whatever its method is. After `shutdown` the server is shutting down, after any other request
/// it is still ready.
pub proof fn law_ready_server_is_asked_every_request<S: LspService>() where
    S::Error: From<ResponseError>,

    ensures
        forall|s: &mut Lifecycle<S>, req: AnyRequest, fut: ResponseFuture<S::Future, S::Error>|
            #[trigger] call_ensures(<Lifecycle<S> as LspService>::call, (s, req), fut)
                && s.state() == State::Ready && req.method@ != "initialize"@ ==> {
                &&& fut matches ResponseFuture::Inner(f) && S::called(
                    s.inner(),
                    req,
                    final(s).inner(),
                    f,
                )
                &&& req.method@ == "shutdown"@ ==> final(s).state() == State::ShuttingDown
                &&& req.method@ != "shutdown"@ ==> final(s).state() == State::Ready
            },
{
}

/// A server that is ready hears every notification but `initialized`, whatever its method is, and
/// what the inner service decides is done. Only after `exit` the loop ends though the inner service
/// would go on.
pub proof fn law_ready_server_hears_every_notification<S: LspService>() where
    S::Error: From<ResponseError>,

    ensures
        forall|s: &mut Lifecycle<S>, notif: AnyNotification, r: Flow|
            #[trigger] call_ensures(<Lifecycle<S> as LspService>::notify, (s, notif), r)
                && s.state() == State::Ready && notif.method@ != "initialized"@
                && notif.method@ != "exit"@ ==> {
                &&& S::notified(s.inner(), notif, final(s).inner(), r)
                &&& final(s).state() == State::Ready
            },
        forall|s: &mut Lifecycle<S>, notif: AnyNotification, r: Flow|
            #[trigger] call_ensures(<Lifecycle<S> as LspService>::notify, (s, notif), r)
                && notif.method@ == "exit"@ ==> {
                &&& final(s).state() == s.state()
                &&& exists|inner: Flow|
                    {
                        &&& #[trigger] S::notified(s.inner(), notif, final(s).inner(), inner)
                        &&& inner is Break ==> r == inner
                        &&& inner is Continue ==> r == ControlFlow::<Result<(), Error>, ()>::Break(
                            Ok(()),
                        )
                    }
            },
{
    lemma_methods_differ();
}

/// The first `initialize` request and the `initialized` notification after it reach the inner
/// service, and make the server ready.
pub proof fn law_initialization_reaches_the_server<S: LspService>() where
    S::Error: From<ResponseError>,

    ensures
        forall|s: &mut Lifecycle<S>, req: AnyRequest, fut: ResponseFuture<S::Future, S::Error>|
            #[trigger] call_ensures(<Lifecycle<S> as LspService>::call, (s, req), fut)
                && s.state() == State::Uninitialized && req.method@ == "initialize"@ ==> {
                &&& fut matches ResponseFuture::Inner(f) && S::called(
                    s.inner(),
                    req,
                    final(s).inner(),
                    f,
                )
                &&& final(s).state() == State::Initializing
            },
        forall|s: &mut Lifecycle<S>, notif: AnyNotification, r: Flow|
            #[trigger] call_ensures(<Lifecycle<S> as LspService>::notify, (s, notif), r)
                && s.state() == State::Initializing && notif.method@ == "initialized"@ ==> {
                &&& S::notified(s.inner(), notif, final(s).inner(), r)
                &&& final(s).state() == State::Ready
            },
{
    lemma_methods_differ();
}

/// Whether the answer is an error made from an error object of this code and this message, without
/// data.
pub open spec fn answered_with_error<Fut, E: From<ResponseError>>(
    fut: ResponseFuture<Fut, E>,
    code: int,
    message: Seq<char>,
) -> bool {
    fut matches ResponseFuture::Ready(e) && exists|object: ResponseError|
        {
            &&& #[trigger] call_ensures(<E as From<ResponseError>>::from, (object,), e)
            &&& object.code.0 == code
            &&& object.message@ == message
            &&& object.data is None
        }
}

/// Every other request is answered with an error that says why, and changes nothing.
pub proof fn law_other_requests_are_refused<S: LspService>() where S::Error: From<ResponseError>
    ensures
        forall|s: &mut Lifecycle<S>, req: AnyRequest, fut: ResponseFuture<S::Future, S::Error>|
            #[trigger] call_ensures(<Lifecycle<S> as LspService>::call, (s, req), fut) && (
            s.state() == State::Initializing || (s.state() == State::Uninitialized && req.method@
                != "initialize"@)) ==> *final(s) == *s && answered_with_error(
                fut,
                -32002,
                "Server is not initialized yet"@,
            ),
        forall|s: &mut Lifecycle<S>, req: AnyRequest, fut: ResponseFuture<S::Future, S::Error>|
            #[trigger] call_ensures(<Lifecycle<S> as LspService>::call, (s, req), fut) && (
            s.state() == State::Ready || s.state() == State::ShuttingDown) && req.method@
                == "initialize"@ ==> *final(s) == *s && answered_with_error(
                fut,
                -32600,
                "Server is already initialized"@,
            ),
        forall|s: &mut Lifecycle<S>, req: AnyRequest, fut: ResponseFuture<S::Future, S::Error>|
            #[trigger] call_ensures(<Lifecycle<S> as LspService>::call, (s, req), fut) && s.state()
                == State::ShuttingDown && req.method@ != "initialize"@ ==> *final(s) == *s
                && answered_with_error(fut, -32600, "Server is shutting down"@),
{
    assert forall|
        s: &mut Lifecycle<S>,
        req: AnyRequest,
        fut: ResponseFuture<S::Future, S::Error>,
    | #[trigger]
        call_ensures(<Lifecycle<S> as LspService>::call, (s, req), fut) && !s.state().admits(
            req.method@,
        ) implies answered_with_error(
        fut,
        s.state().refusal_code() as int,
        s.state().refusal_message(req.method@),
    ) by {}
}

/// Every other notification changes nothing. An `initialized` that was not waited for ends the loop
/// with a protocol error that says so, anything else is ignored.
pub proof fn law_other_notifications_change_nothing<S: LspService>() where
    S::Error: From<ResponseError>,

    ensures
        forall|s: &mut Lifecycle<S>, notif: AnyNotification, r: Flow|
            #[trigger] call_ensures(<Lifecycle<S> as LspService>::notify, (s, notif), r)
                && s.state() != State::Ready && notif.method@ != "initialized"@ && notif.method@
                != "exit"@ ==> *final(s) == *s && r is Continue,
        forall|s: &mut Lifecycle<S>, notif: AnyNotification, r: Flow|
            #[trigger] call_ensures(<Lifecycle<S> as LspService>::notify, (s, notif), r)
                && s.state() != State::Initializing && notif.method@ == "initialized"@ ==> {
                &&& *final(s) == *s
                &&& r matches ControlFlow::Break(Err(Error::Protocol(text))) && text@
                    == "Unexpected initialized notification on state "@ + (match s.state() {
                    State::Uninitialized => "Uninitialized"@,
                    State::Initializing => "Initializing"@,
                    State::Ready => "Ready"@,
                    State::ShuttingDown => "ShuttingDown"@,
                })
            },
{
    lemma_methods_differ();
}

/// Events, and the question whether the service is ready, always reach the inner service, and what
/// it says is passed on. How far the server has come does not matter and does not change.
pub proof fn law_events_always_reach_the_server<S: LspService>() where
    S::Error: From<ResponseError>,

    ensures
        forall|pre: Lifecycle<S>, event: AnyEvent<S::Payload>, post: Lifecycle<S>, r: Flow|
            #[trigger] Lifecycle::<S>::emitted(pre, event, post, r) ==> S::emitted(
                pre.inner(),
                event,
                post.inner(),
                r,
            ) && post.state() == pre.state(),
        forall|s: &mut Lifecycle<S>, waker: &Waker, r: Polled<Result<(), S::Error>>| #[trigger]
            call_ensures(<Lifecycle<S> as LspService>::poll_ready, (s, waker), r) ==> S::polled(
                s.inner(),
                *waker,
                final(s).inner(),
                r,
            ) && final(s).state() == s.state(),
{
}

/// However it is made, a server is first not initialized.
pub proof fn law_servers_start_uninitialized<S>(inner: S)
    ensures
        forall|r: Lifecycle<S>| #[trigger]
            call_ensures(Lifecycle::<S>::new, (inner,), r) ==> r.state() == State::Uninitialized
                && r.inner() == inner,
        forall|l: &LifecycleLayer, r: Lifecycle<S>| #[trigger]
            call_ensures(LifecycleLayer::layer::<S>, (l, inner), r) ==> r.state()
                == State::Uninitialized && r.inner() == inner,
{
}

} // verus!
