//! The main loop driver for either Language Servers or Language Clients.
//!
//! A main loop waits for several things at once: the peer's messages, the answers of the service,
//! what the sockets hand in, and the completion of writes. What it does about each of them, and
//! what it waits for next, is decided by [`Running::step`].
use core::ops::ControlFlow;
use core::task::Waker;
use futures::channel::{mpsc, oneshot};
use futures::stream::FuturesUnordered;
use vstd::prelude::*;

use crate::error::{Error, JsonValue, ResponseError};
use crate::event::AnyEvent;
use crate::message::{
    AnyNotification, AnyRequest, AnyResponse, Message, RequestId, RequestIdView,
};
use crate::service::{Flow, LspService, Polled};
use crate::socket::{ClientSocket, PeerSocket, ServerSocket};
use crate::table::Table;

verus! {

/// What a socket hands to a main loop.
pub enum MainLoopEvent<P> {
    /// A message for the peer.
    Outgoing(Message),
    /// A request for the peer, and where its response goes.
    OutgoingRequest(AnyRequest, oneshot::Sender<AnyResponse>),
    /// A loopback event for the service.
    Any(AnyEvent<P>),
}

/// What a main loop does after a message or an event: go on, perhaps with a message for the peer,
/// or stop with a result.
pub type Control = ControlFlow<Result<(), Error>, Option<Message>>;

/// Goes on, perhaps with a message for the peer.
pub open spec fn goes_on_with(msg: Option<Message>) -> Control {
    ControlFlow::Continue(msg)
}

/// What a main loop does after its service decided.
pub open spec fn follows(flow: Flow) -> Control {
    match flow {
        ControlFlow::Continue(()) => ControlFlow::Continue(None),
        ControlFlow::Break(result) => ControlFlow::Break(result),
    }
}

/// Does what the service decided.
fn follow(flow: Flow) -> (r: Control)
    ensures
        r == follows(flow),
{
    match flow {
        ControlFlow::Continue(()) => ControlFlow::Continue(None),
        ControlFlow::Break(result) => ControlFlow::Break(result),
    }
}

/// Whether the response fails the request `id` with `err`, as an error object.
pub open spec fn fails_with<E>(resp: AnyResponse, id: RequestId, err: E) -> bool where
    ResponseError: From<E>,
 {
    exists|object: ResponseError|
        #[trigger] call_ensures(<ResponseError as From<E>>::from, (err,), object) && resp == (
        AnyResponse { id, result: None, error: Some(object) })
}

/// The response that fails the request `id` with `err`.
fn fail<E>(id: RequestId, err: E) -> (r: AnyResponse) where ResponseError: From<E>
    ensures
        fails_with(r, id, err),
{
    let object = <ResponseError as From<E>>::from(err);
    assert(call_ensures(<ResponseError as From<E>>::from, (err,), object));
    AnyResponse { id, result: None, error: Some(object) }
}

/// Whether the response answers the request `id` with what it resulted in.
pub open spec fn responds_with<E>(
    resp: AnyResponse,
    id: RequestId,
    outcome: Result<JsonValue, E>,
) -> bool where ResponseError: From<E> {
    match outcome {
        Ok(v) => resp == (AnyResponse { id, result: Some(v), error: None }),
        Err(err) => fails_with(resp, id, err),
    }
}

/// A request that is being answered.
pub struct RequestFuture<Fut> {
    /// What it is answered through.
    pub fut: Fut,
    /// Its id.
    pub id: RequestId,
}

impl<Fut> RequestFuture<Fut> {
    /// The response to the request `id`, from what it resulted in.
    pub fn respond<E>(id: RequestId, outcome: Result<JsonValue, E>) -> (r: AnyResponse) where
        ResponseError: From<E>,

        ensures
            responds_with(r, id, outcome),
    {
        match outcome {
            Ok(v) => AnyResponse { id, result: Some(v), error: None },
            Err(err) => fail(id, err),
        }
    }
}

/// Whether every request in the map has a number below `next`.
pub open spec fn numbered(
    waiting: Map<RequestIdView, oneshot::Sender<AnyResponse>>,
    next: int,
) -> bool {
    forall|id: RequestIdView| #[trigger]
        waiting.contains_key(id) ==> (id matches RequestIdView::Number(k) && 0 <= k < next)
}

/// Service main loop driver for either Language Servers or Language Clients.
///
/// The requests that are being answered are kept as `T`s, which can be polled.
#[verifier::reject_recursive_types(S)]
#[verifier::reject_recursive_types(T)]
pub struct MainLoop<S: LspService, T> {
    service: S,
    rx: mpsc::UnboundedReceiver<MainLoopEvent<S::Payload>>,
    outgoing_id: i32,
    outgoing: Table<RequestId, oneshot::Sender<AnyResponse>>,
    tasks: FuturesUnordered<T>,
}

impl<S: LspService, T> MainLoop<S, T> {
    /// The inner service.
    pub closed spec fn inner(&self) -> S {
        self.service
    }

    /// Where the sockets hand in.
    pub closed spec fn channel(&self) -> mpsc::UnboundedReceiver<MainLoopEvent<S::Payload>> {
        self.rx
    }

    /// The number of the next outgoing request.
    pub closed spec fn next_id(&self) -> int {
        self.outgoing_id as int
    }

    /// The outgoing requests that were not answered yet, and where their responses go.
    pub closed spec fn waiting(&self) -> Map<RequestIdView, oneshot::Sender<AnyResponse>> {
        self.outgoing@
    }

    /// The requests that are being answered.
    pub closed spec fn tasks(&self) -> FuturesUnordered<T> {
        self.tasks
    }

    /// Whether the main loop can be used.
    pub closed spec fn wf(&self) -> bool {
        &&& self.service.wf()
        &&& self.outgoing.wf()
        &&& numbered(self.outgoing@, self.outgoing_id as int)
        &&& 0 <= self.outgoing_id
    }

    /// Whether nothing but the inner service differs.
    pub open spec fn same_but_service(self, post: Self) -> bool {
        &&& post.channel() == self.channel()
        &&& post.next_id() == self.next_id()
        &&& post.waiting() == self.waiting()
        &&& post.tasks() == self.tasks()
    }

    /// Get a reference to the inner service.
    #[must_use]
    pub fn get_ref(&self) -> (r: &S)
        ensures
            *r == self.inner(),
    {
        &self.service
    }

    /// Get a mutable reference to the inner service.
    #[must_use]
    pub fn get_mut(&mut self) -> (r: &mut S)
        ensures
            *r == old(self).inner(),
            final(self).inner() == *final(r),
            old(self).same_but_service(*final(self)),
            old(self).wf() && final(r).wf() ==> final(self).wf(),
    {
        &mut self.service
    }

    /// Consume self, returning the inner service.
    #[must_use]
    pub fn into_inner(self) -> (r: S)
        ensures
            r == self.inner(),
    {
        self.service
    }

    /// Create a main loop, and a socket into it.
    pub fn new<B: FnOnce(PeerSocket<S::Payload>) -> S>(builder: B) -> (r: (
        Self,
        PeerSocket<S::Payload>,
    ))
        requires
            forall|socket: PeerSocket<S::Payload>| #[trigger] call_requires(builder, (socket,)),
            forall|socket: PeerSocket<S::Payload>, service: S| #[trigger]
                call_ensures(builder, (socket,), service) ==> service.wf(),
        ensures
            r.0.wf(),
            call_ensures(builder, (r.1,), r.0.inner()),
            call_ensures(
                mpsc::unbounded::<MainLoopEvent<S::Payload>>,
                (),
                (r.1.channel(), r.0.channel()),
            ),
            r.0.next_id() == 0,
            r.0.waiting() == Map::<RequestIdView, oneshot::Sender<AnyResponse>>::empty(),
            call_ensures(FuturesUnordered::<T>::new, (), r.0.tasks()),
    {
        let (tx, rx) = mpsc::unbounded::<MainLoopEvent<S::Payload>>();
        let socket = PeerSocket::new(tx);
        let service = builder(socket.clone());
        let this = MainLoop {
            service,
            rx,
            outgoing_id: 0,
            outgoing: Table::new(),
            tasks: FuturesUnordered::new(),
        };
        (this, socket)
    }

    /// Create a Language Server main loop.
    #[must_use]
    pub fn new_server<B: FnOnce(ClientSocket<S::Payload>) -> S>(builder: B) -> (r: (
        Self,
        ClientSocket<S::Payload>,
    ))
        requires
            forall|socket: ClientSocket<S::Payload>| #[trigger] call_requires(builder, (socket,)),
            forall|socket: ClientSocket<S::Payload>, service: S| #[trigger]
                call_ensures(builder, (socket,), service) ==> service.wf(),
        ensures
            r.0.wf(),
            call_ensures(builder, (r.1,), r.0.inner()),
            call_ensures(
                mpsc::unbounded::<MainLoopEvent<S::Payload>>,
                (),
                (r.1.peer().channel(), r.0.channel()),
            ),
            r.0.next_id() == 0,
            r.0.waiting() == Map::<RequestIdView, oneshot::Sender<AnyResponse>>::empty(),
            call_ensures(FuturesUnordered::<T>::new, (), r.0.tasks()),
    {
        let build = |socket: PeerSocket<S::Payload>| -> (service: S)
            requires
                call_requires(builder, (ClientSocket::made_of(socket),)),
            ensures
                call_ensures(builder, (ClientSocket::made_of(socket),), service),
        {
            builder(ClientSocket::of(socket))
        };
        let (this, socket) = Self::new(build);
        (this, ClientSocket::of(socket))
    }

    /// Create a Language Client main loop.
    #[must_use]
    pub fn new_client<B: FnOnce(ServerSocket<S::Payload>) -> S>(builder: B) -> (r: (
        Self,
        ServerSocket<S::Payload>,
    ))
        requires
            forall|socket: ServerSocket<S::Payload>| #[trigger] call_requires(builder, (socket,)),
            forall|socket: ServerSocket<S::Payload>, service: S| #[trigger]
                call_ensures(builder, (socket,), service) ==> service.wf(),
        ensures
            r.0.wf(),
            call_ensures(builder, (r.1,), r.0.inner()),
            call_ensures(
                mpsc::unbounded::<MainLoopEvent<S::Payload>>,
                (),
                (r.1.peer().channel(), r.0.channel()),
            ),
            r.0.next_id() == 0,
            r.0.waiting() == Map::<RequestIdView, oneshot::Sender<AnyResponse>>::empty(),
            call_ensures(FuturesUnordered::<T>::new, (), r.0.tasks()),
    {
        let build = |socket: PeerSocket<S::Payload>| -> (service: S)
            requires
                call_requires(builder, (ServerSocket::made_of(socket),)),
            ensures
                call_ensures(builder, (ServerSocket::made_of(socket),), service),
        {
            builder(ServerSocket::of(socket))
        };
        let (this, socket) = Self::new(build);
        (this, ServerSocket::of(socket))
    }

    /// What the main loop waits for besides the peer: the requests that are being answered, and
    /// what the sockets hand in.
    pub fn sources(&mut self) -> (r: (
        &mut FuturesUnordered<T>,
        &mut mpsc::UnboundedReceiver<MainLoopEvent<S::Payload>>,
    ))
        ensures
            *r.0 == old(self).tasks(),
            *r.1 == old(self).channel(),
            final(self).tasks() == *final(r.0),
            final(self).channel() == *final(r.1),
            final(self).inner() == old(self).inner(),
            final(self).next_id() == old(self).next_id(),
            final(self).waiting() == old(self).waiting(),
            old(self).wf() ==> final(self).wf(),
    {
        (&mut self.tasks, &mut self.rx)
    }

    /// Whether there is a number for another outgoing request.
    pub fn can_number(&self) -> (r: bool)
        ensures
            r == (self.next_id() < i32::MAX),
    {
        self.outgoing_id < i32::MAX
    }

    /// Whether the service is ready for a request.
    pub fn poll_ready(&mut self, waker: &Waker) -> (r: Polled<Result<(), S::Error>>)
        requires
            old(self).wf(),
        ensures
            final(self).wf(),
            S::polled(old(self).inner(), *waker, final(self).inner(), r),
            old(self).same_but_service(*final(self)),
    {
        self.service.poll_ready(waker)
    }
}

/// The request with another id.
pub open spec fn renumbered(req: AnyRequest, id: i32) -> AnyRequest {
    AnyRequest { id: RequestId::Number(id), method: req.method, params: req.params }
}

impl<S: LspService, T: From<RequestFuture<S::Future>>> MainLoop<S, T> where
    ResponseError: From<S::Error>,
 {
    /// What a socket handed in can turn `pre` into `post` and make the main loop do `r`.
    pub open spec fn event_dispatched(
        pre: Self,
        event: MainLoopEvent<S::Payload>,
        post: Self,
        r: Control,
    ) -> bool {
        match event {
            MainLoopEvent::OutgoingRequest(req, tx) => {
                &&& r == goes_on_with(Some(Message::Request(renumbered(req, pre.next_id() as i32))))
                &&& post.waiting() == pre.waiting().insert(
                    RequestIdView::Number(pre.next_id() as i32),
                    tx,
                )
                &&& !pre.waiting().contains_key(RequestIdView::Number(pre.next_id() as i32))
                &&& post.next_id() == pre.next_id() + 1
                &&& post.inner() == pre.inner()
                &&& post.channel() == pre.channel()
                &&& post.tasks() == pre.tasks()
            },
            MainLoopEvent::Outgoing(msg) => {
                &&& r == goes_on_with(Some(msg))
                &&& post == pre
            },
            MainLoopEvent::Any(any) => {
                &&& pre.same_but_service(post)
                &&& exists|flow: Flow|
                    r == follows(flow) && #[trigger] S::emitted(
                        pre.inner(),
                        any,
                        post.inner(),
                        flow,
                    )
            },
        }
    }

    /// A message of the peer can turn `pre` into `post` and make the main loop do `r`, where
    /// `ready` is what the service said of its readiness.
    pub open spec fn message_dispatched(
        pre: Self,
        msg: Message,
        ready: Result<(), S::Error>,
        post: Self,
        r: Control,
    ) -> bool {
        match msg {
            Message::Request(req) => match ready {
                Err(err) => {
                    &&& post == pre
                    &&& r matches ControlFlow::Continue(Some(Message::Response(resp)))
                        && fails_with(resp, req.id, err)
                },
                Ok(()) => {
                    &&& r == goes_on_with(None)
                    &&& pre.same_but_service(post)
                    &&& exists|fut: S::Future, task: T|
                        {
                            &&& #[trigger] S::called(pre.inner(), req, post.inner(), fut)
                            &&& call_ensures(
                                <T as From<RequestFuture<S::Future>>>::from,
                                (RequestFuture { fut, id: req.id },),
                                task,
                            )
                            &&& #[trigger] call_ensures(
                                FuturesUnordered::<T>::push,
                                (&pre.tasks(), task),
                                (),
                            )
                        }
                },
            },
            Message::Response(resp) => {
                &&& r == goes_on_with(None)
                &&& post.inner() == pre.inner()
                &&& post.channel() == pre.channel()
                &&& post.next_id() == pre.next_id()
                &&& post.tasks() == pre.tasks()
                &&& post.waiting() == pre.waiting().remove(resp.id@)
                &&& pre.waiting().contains_key(resp.id@) ==> exists|sent: Result<(), AnyResponse>|
                    #[trigger] call_ensures(
                        oneshot::Sender::<AnyResponse>::send,
                        (pre.waiting()[resp.id@], resp),
                        sent,
                    )
            },
            Message::Notification(notif) => {
                &&& pre.same_but_service(post)
                &&& exists|flow: Flow|
                    r == follows(flow) && #[trigger] S::notified(
                        pre.inner(),
                        notif,
                        post.inner(),
                        flow,
                    )
            },
        }
    }

    /// Does what a socket asks for: numbers an outgoing request and remembers where its response
    /// goes, passes a message to the peer, or hands an event to the service.
    pub fn dispatch_event(&mut self, event: MainLoopEvent<S::Payload>) -> (r: Control)
        requires
            old(self).wf(),
            event is OutgoingRequest ==> old(self).next_id() < i32::MAX,
        ensures
            final(self).wf(),
            Self::event_dispatched(*old(self), event, *final(self), r),
    {
        let ghost pre = *self;
        match event {
            MainLoopEvent::OutgoingRequest(req, resp_tx) => {
                let id: i32 = self.outgoing_id;
                let req = AnyRequest {
                    id: RequestId::Number(id),
                    method: req.method,
                    params: req.params,
                };
                let _ = self.outgoing.insert(req.id.clone(), resp_tx);
                self.outgoing_id = id + 1;
                ControlFlow::Continue(Some(Message::Request(req)))
            },
            MainLoopEvent::Outgoing(msg) => ControlFlow::Continue(Some(msg)),
            MainLoopEvent::Any(event) => {
                let flow = self.service.emit(event);
                assert(S::emitted(pre.inner(), event, self.inner(), flow));
                follow(flow)
            },
        }
    }

    /// Does what a message of the peer asks for: hands a request or a notification to the service,
    /// or passes a response to where it is waited for. A request that the service is not ready for
    /// is answered with the error that it gave.
    pub fn dispatch_message(&mut self, msg: Message, ready: Result<(), S::Error>) -> (r: Control)
        requires
            old(self).wf(),
        ensures
            final(self).wf(),
            Self::message_dispatched(*old(self), msg, ready, *final(self), r),
    {
        let ghost pre = *self;
        match msg {
            Message::Request(req) => {
                match ready {
                    Err(err) => {
                        return ControlFlow::Continue(Some(Message::Response(fail(req.id, err))));
                    },
                    Ok(()) => {},
                }
                let id = req.id.clone();
                let fut = self.service.call(req);
                assert(S::called(pre.inner(), req, self.inner(), fut));
                let task = T::from(RequestFuture { fut, id });
                self.tasks.push(task);
                assert(call_ensures(FuturesUnordered::<T>::push, (&pre.tasks(), task), ()));
                ControlFlow::Continue(None)
            },
            Message::Response(resp) => {
                match self.outgoing.remove(&resp.id) {
                    Some(resp_tx) => {
                        let _ = resp_tx.send(resp);
                    },
                    None => {},
                }
                ControlFlow::Continue(None)
            },
            Message::Notification(notif) => {
                let flow = self.service.notify(notif);
                assert(S::notified(pre.inner(), notif, self.inner(), flow));
                follow(flow)
            },
        }
    }
}

/// What a running main loop waits for.
pub enum Phase {
    /// The first of: the last write to be flushed, a request to be answered, a socket to hand in
    /// something, the peer to send a message.
    Selecting,
    /// The service to be ready for a request, or the last write to be flushed.
    Preparing(AnyRequest),
    /// A message to be written.
    Feeding,
    /// The output to be closed, after the loop stopped with a result.
    Closing(Result<(), Error>),
    /// Nothing: the main loop has returned.
    Finished,
}

/// What a running main loop can wait for has come.
pub enum Happening<P, E> {
    /// The last write was flushed, or could not be.
    Flushed(Result<(), Error>),
    /// A request was answered.
    Answered(AnyResponse),
    /// A socket handed in something.
    HandedIn(MainLoopEvent<P>),
    /// The peer sent a message, or none could be read.
    Received(Result<Message, Error>),
    /// The service is ready for the request, or refuses it.
    Prepared(Result<(), E>),
    /// The message was written, or could not be.
    Fed(Result<(), Error>),
    /// The output was closed, or could not be.
    Closed(Result<(), Error>),
}

/// What a running main loop does next.
pub enum Action {
    /// Wait for the first of what it can wait for.
    Select,
    /// Wait for the service to be ready, or the last write to be flushed.
    Prepare,
    /// Write the message.
    Feed(Message),
    /// Begin to flush what was written, then wait for the first of what it can wait for.
    Flush,
    /// Close the output.
    Close,
    /// Return the result.
    Return(Result<(), Error>),
}

impl Phase {
    /// Whether what has come is among what is waited for.
    pub open spec fn expects<P, E>(&self, happening: Happening<P, E>) -> bool {
        match *self {
            Phase::Selecting => happening is Flushed || happening is Answered || happening
                is HandedIn || happening is Received,
            Phase::Preparing(_) => happening is Prepared || happening is Flushed,
            Phase::Feeding => happening is Fed,
            Phase::Closing(_) => happening is Closed,
            Phase::Finished => false,
        }
    }
}

/// The first of two results that failed, if any did.
pub open spec fn both(first: Result<(), Error>, second: Result<(), Error>) -> Result<(), Error> {
    match first {
        Ok(()) => second,
        Err(e) => Err(e),
    }
}

/// What the loop waits for and does after a message or an event.
pub open spec fn controlled(ctl: Control, phase: Phase, action: Action) -> bool {
    match ctl {
        ControlFlow::Continue(Some(msg)) => phase == Phase::Feeding && action == Action::Feed(msg),
        ControlFlow::Continue(None) => phase == Phase::Selecting && action == Action::Select,
        ControlFlow::Break(result) => phase == Phase::Closing(result) && action == Action::Close,
    }
}

/// The loop returns the result.
pub open spec fn finished_with(result: Result<(), Error>, phase: Phase, action: Action) -> bool {
    phase == Phase::Finished && action == Action::Return(result)
}

/// A main loop that is running.
#[verifier::reject_recursive_types(S)]
#[verifier::reject_recursive_types(T)]
pub struct Running<S: LspService, T> {
    main_loop: MainLoop<S, T>,
    phase: Phase,
}

impl<S: LspService, T> Running<S, T> {
    /// The main loop.
    pub closed spec fn driven(&self) -> MainLoop<S, T> {
        self.main_loop
    }

    /// What it waits for.
    pub closed spec fn phase(&self) -> Phase {
        self.phase
    }

    /// The main loop.
    pub fn main_loop(&mut self) -> (r: &mut MainLoop<S, T>)
        ensures
            *r == old(self).driven(),
            final(self).driven() == *final(r),
            final(self).phase() == old(self).phase(),
    {
        &mut self.main_loop
    }
}

impl<S: LspService, T: From<RequestFuture<S::Future>>> MainLoop<S, T> where
    ResponseError: From<S::Error>,
 {
    /// Starts the main loop. It first waits for the first of what it can wait for.
    pub fn start(self) -> (r: Running<S, T>)
        ensures
            r.driven() == self,
            r.phase() == Phase::Selecting,
    {
        Running { main_loop: self, phase: Phase::Selecting }
    }
}

impl<S: LspService, T: From<RequestFuture<S::Future>>> Running<S, T> where
    ResponseError: From<S::Error>,
 {
    /// What has come can turn `pre` into `post` and make the main loop do `action`.
    pub open spec fn stepped(
        pre: Self,
        happening: Happening<S::Payload, S::Error>,
        post: Self,
        action: Action,
    ) -> bool {
        match happening {
            Happening::Flushed(ret) => {
                &&& post.driven() == pre.driven()
                &&& match ret {
                    Ok(()) => post.phase() == pre.phase() && action == (if pre.phase()
                        is Preparing {
                        Action::Prepare
                    } else {
                        Action::Select
                    }),
                    Err(e) => finished_with(Err(e), post.phase(), action),
                }
            },
            Happening::Answered(resp) => {
                &&& post.driven() == pre.driven()
                &&& controlled(
                    goes_on_with(Some(Message::Response(resp))),
                    post.phase(),
                    action,
                )
            },
            Happening::HandedIn(event) => exists|ctl: Control|
                controlled(ctl, post.phase(), action) && #[trigger] MainLoop::event_dispatched(
                    pre.driven(),
                    event,
                    post.driven(),
                    ctl,
                ),
            Happening::Received(Ok(Message::Request(req))) => {
                &&& post.driven() == pre.driven()
                &&& post.phase() == Phase::Preparing(req)
                &&& action == Action::Prepare
            },
            Happening::Received(Ok(msg)) => exists|ctl: Control|
                controlled(ctl, post.phase(), action) && #[trigger] MainLoop::message_dispatched(
                    pre.driven(),
                    msg,
                    Ok(()),
                    post.driven(),
                    ctl,
                ),
            Happening::Received(Err(e)) => {
                &&& post.driven() == pre.driven()
                &&& finished_with(Err(e), post.phase(), action)
            },
            Happening::Prepared(ready) => exists|ctl: Control|
                controlled(ctl, post.phase(), action) && #[trigger] MainLoop::message_dispatched(
                    pre.driven(),
                    Message::Request(pre.phase()->Preparing_0),
                    ready,
                    post.driven(),
                    ctl,
                ),
            Happening::Fed(ret) => {
                &&& post.driven() == pre.driven()
                &&& match ret {
                    Ok(()) => post.phase() == Phase::Selecting && action == Action::Flush,
                    Err(e) => finished_with(Err(e), post.phase(), action),
                }
            },
            Happening::Closed(ret) => {
                &&& post.driven() == pre.driven()
                &&& finished_with(both(pre.phase()->Closing_0, ret), post.phase(), action)
            },
        }
    }

    /// Does what the service or a socket decided.
    fn obey(&mut self, ctl: Control) -> (action: Action)
        ensures
            final(self).driven() == old(self).driven(),
            controlled(ctl, final(self).phase(), action),
    {
        match ctl {
            ControlFlow::Continue(Some(msg)) => {
                self.phase = Phase::Feeding;
                Action::Feed(msg)
            },
            ControlFlow::Continue(None) => {
                self.phase = Phase::Selecting;
                Action::Select
            },
            ControlFlow::Break(result) => {
                self.phase = Phase::Closing(result);
                Action::Close
            },
        }
    }

    /// Returns a result.
    fn finish(&mut self, result: Result<(), Error>) -> (action: Action)
        ensures
            final(self).driven() == old(self).driven(),
            finished_with(result, final(self).phase(), action),
    {
        self.phase = Phase::Finished;
        Action::Return(result)
    }

    /// Does what has to be done about what has come, and says what to do next.
    pub fn step(&mut self, happening: Happening<S::Payload, S::Error>) -> (action: Action)
        requires
            old(self).driven().wf(),
            old(self).phase().expects(happening),
            happening matches Happening::HandedIn(event) ==> event is OutgoingRequest ==> old(
                self,
            ).driven().next_id() < i32::MAX,
        ensures
            final(self).driven().wf(),
            Self::stepped(*old(self), happening, *final(self), action),
    {
        let ghost pre = *self;
        match happening {
            Happening::Flushed(Ok(())) => match &self.phase {
                Phase::Preparing(_) => Action::Prepare,
                _ => Action::Select,
            },
            Happening::Answered(resp) => self.obey(
                ControlFlow::Continue(Some(Message::Response(resp))),
            ),
            Happening::HandedIn(event) => {
                let ctl = self.main_loop.dispatch_event(event);
                let ghost mid = self.main_loop;
                assert(MainLoop::event_dispatched(pre.driven(), event, mid, ctl));
                self.obey(ctl)
            },
            Happening::Received(Ok(msg)) => match msg {
                Message::Request(req) => {
                    self.phase = Phase::Preparing(req);
                    Action::Prepare
                },
                msg => {
                    let ctl = self.main_loop.dispatch_message(msg, Ok(()));
                    let ghost mid = self.main_loop;
                    assert(MainLoop::message_dispatched(pre.driven(), msg, Ok(()), mid, ctl));
                    self.obey(ctl)
                },
            },
            Happening::Prepared(ready) => {
                let mut phase = Phase::Selecting;
                core::mem::swap(&mut phase, &mut self.phase);
                match phase {
                    Phase::Preparing(req) => {
                        let ctl = self.main_loop.dispatch_message(Message::Request(req), ready);
                        let ghost mid = self.main_loop;
                        assert(MainLoop::message_dispatched(
                            pre.driven(),
                            Message::Request(req),
                            ready,
                            mid,
                            ctl,
                        ));
                        self.obey(ctl)
                    },
                    _ => Action::Select,
                }
            },
            Happening::Fed(Ok(())) => {
                self.phase = Phase::Selecting;
                Action::Flush
            },
            Happening::Closed(ret) => {
                let mut phase = Phase::Finished;
                core::mem::swap(&mut phase, &mut self.phase);
                match phase {
                    Phase::Closing(Ok(())) => self.finish(ret),
                    Phase::Closing(Err(e)) => self.finish(Err(e)),
                    _ => self.finish(ret),
                }
            },
            Happening::Flushed(Err(e)) | Happening::Received(Err(e)) | Happening::Fed(Err(e)) => {
                self.finish(Err(e))
            },
        }
    }
}

/// One turn of a running main loop: what it was, what came, what it became, and what it did.
#[verifier::reject_recursive_types(S)]
#[verifier::reject_recursive_types(T)]
pub struct Turn<S: LspService, T> {
    /// The main loop before.
    pub pre: Running<S, T>,
    /// What came.
    pub happening: Happening<S::Payload, S::Error>,
    /// The main loop after.
    pub post: Running<S, T>,
    /// What it did.
    pub action: Action,
}

/// Whether the turns are those of one run. Between two turns the service may be asked whether it is
/// ready, requests may be answered, and sockets may hand in.
pub open spec fn one_run<S: LspService, T: From<RequestFuture<S::Future>>>(
    turns: Seq<Turn<S, T>>,
) -> bool where ResponseError: From<S::Error> {
    &&& forall|i: int|
        0 <= i < turns.len() ==> {
            &&& (#[trigger] turns[i]).pre.driven().wf()
            &&& turns[i].pre.phase().expects(turns[i].happening)
            &&& Running::stepped(
                turns[i].pre,
                turns[i].happening,
                turns[i].post,
                turns[i].action,
            )
        }
    &&& forall|i: int|
        #![trigger turns[i].post]
        0 <= i && i + 1 < turns.len() ==> {
            &&& turns[i + 1].pre.phase() == turns[i].post.phase()
            &&& turns[i + 1].pre.driven().next_id() == turns[i].post.driven().next_id()
            &&& turns[i + 1].pre.driven().waiting() == turns[i].post.driven().waiting()
        }
}

/// Whether a turn sends the peer a request of the id, whose response goes to `tx`.
pub open spec fn sends_request<S: LspService, T>(
    turn: Turn<S, T>,
    id: RequestId,
    tx: oneshot::Sender<AnyResponse>,
) -> bool {
    &&& turn.happening matches Happening::HandedIn(MainLoopEvent::OutgoingRequest(_, t)) && t == tx
    &&& turn.action matches Action::Feed(Message::Request(req)) && req.id == id
}

/// Whether a turn takes in a response to a request of the id.
pub open spec fn takes_response<S: LspService, T>(turn: Turn<S, T>, id: RequestId) -> bool {
    turn.happening matches Happening::Received(Ok(Message::Response(resp))) && resp.id@ == id@
}

/// The outgoing requests of a main loop that were not answered yet have numbers that were given
/// out already, and no number is given out twice.
pub proof fn law_waiting_requests_are_numbered<S: LspService, T>(main_loop: MainLoop<S, T>)
    requires
        main_loop.wf(),
    ensures
        numbered(main_loop.waiting(), main_loop.next_id()),
        !main_loop.waiting().contains_key(RequestIdView::Number(main_loop.next_id() as i32)),
        0 <= main_loop.next_id() <= i32::MAX,
{
}

/// What a turn does to the outgoing requests.
proof fn lemma_turn<S: LspService, T: From<RequestFuture<S::Future>>>(
    turn: Turn<S, T>,
    id: RequestIdView,
) where ResponseError: From<S::Error>
    requires
        turn.pre.driven().wf(),
        turn.pre.phase().expects(turn.happening),
        Running::stepped(turn.pre, turn.happening, turn.post, turn.action),
    ensures
        turn.pre.driven().next_id() <= turn.post.driven().next_id(),
        turn.pre.driven().waiting().contains_key(id) ==> (id matches RequestIdView::Number(k) && 0
            <= k < turn.pre.driven().next_id()),
        turn.pre.driven().waiting().contains_key(id) ==> {
            ||| turn.happening matches Happening::Received(Ok(Message::Response(resp))) && resp.id@
                == id
            ||| turn.post.driven().waiting().contains_key(id)
                && turn.post.driven().waiting()[id] == turn.pre.driven().waiting()[id]
        },
        turn.post.driven().waiting().contains_key(id) ==> {
            ||| turn.pre.driven().waiting().contains_key(id)
            ||| id == RequestIdView::Number(turn.pre.driven().next_id() as i32)
                && turn.post.driven().next_id() == turn.pre.driven().next_id() + 1
        },
{
    law_waiting_requests_are_numbered(turn.pre.driven());
}

proof fn lemma_numbers_grow<S: LspService, T: From<RequestFuture<S::Future>>>(
    turns: Seq<Turn<S, T>>,
    i: int,
    j: int,
) where ResponseError: From<S::Error>
    requires
        one_run(turns),
        0 <= i < j < turns.len(),
    ensures
        turns[i].post.driven().next_id() <= turns[j].pre.driven().next_id(),
    decreases j - i,
{
    assert(turns[j - 1].post == turns[j - 1].post);
    if i + 1 < j {
        lemma_numbers_grow(turns, i, j - 1);
        lemma_turn(turns[j - 1], RequestIdView::Number(0));
    }
}

/// No two outgoing requests of a run have the same id.
pub proof fn law_outgoing_ids_differ<S: LspService, T: From<RequestFuture<S::Future>>>(
    turns: Seq<Turn<S, T>>,
    i: int,
    j: int,
    a: RequestId,
    b: RequestId,
    tx: oneshot::Sender<AnyResponse>,
    ty: oneshot::Sender<AnyResponse>,
) where ResponseError: From<S::Error>
    requires
        one_run(turns),
        0 <= i < j < turns.len(),
        sends_request(turns[i], a, tx),
        sends_request(turns[j], b, ty),
    ensures
        a@ != b@,
{
    lemma_numbers_grow(turns, i, j);
    law_waiting_requests_are_numbered(turns[i].pre.driven());
    law_waiting_requests_are_numbered(turns[j].pre.driven());
}

proof fn lemma_keeps_waiting<S: LspService, T: From<RequestFuture<S::Future>>>(
    turns: Seq<Turn<S, T>>,
    i: int,
    j: int,
    id: RequestId,
    tx: oneshot::Sender<AnyResponse>,
) where ResponseError: From<S::Error>
    requires
        one_run(turns),
        0 <= i < j < turns.len(),
        sends_request(turns[i], id, tx),
        forall|k: int| i < k < j ==> !takes_response(#[trigger] turns[k], id),
    ensures
        turns[j].pre.driven().waiting().contains_key(id@),
        turns[j].pre.driven().waiting()[id@] == tx,
    decreases j - i,
{
    assert(turns[j - 1].post == turns[j - 1].post);
    if i + 1 < j {
        lemma_keeps_waiting(turns, i, j - 1, id, tx);
        lemma_turn(turns[j - 1], id@);
        assert(!takes_response(turns[j - 1], id));
    } else {
        law_waiting_requests_are_numbered(turns[i].pre.driven());
    }
}

/// The first response to an outgoing request goes to where it is waited for, and nowhere else.
pub proof fn law_response_reaches_its_request<S: LspService, T: From<RequestFuture<S::Future>>>(
    turns: Seq<Turn<S, T>>,
    i: int,
    j: int,
    resp: AnyResponse,
    tx: oneshot::Sender<AnyResponse>,
) where ResponseError: From<S::Error>
    requires
        one_run(turns),
        0 <= i < j < turns.len(),
        sends_request(turns[i], resp.id, tx),
        forall|k: int| i < k < j ==> !takes_response(#[trigger] turns[k], resp.id),
        turns[j].happening == Happening::<S::Payload, S::Error>::Received(
            Ok(Message::Response(resp)),
        ),
    ensures
        exists|sent: Result<(), AnyResponse>| #[trigger]
            call_ensures(oneshot::Sender::<AnyResponse>::send, (tx, resp), sent),
        !turns[j].post.driven().waiting().contains_key(resp.id@),
{
    lemma_keeps_waiting(turns, i, j, resp.id, tx);
}

/// Once an outgoing request was answered, its id is never waited for again: a further response to
/// it goes nowhere.
pub proof fn law_answered_once<S: LspService, T: From<RequestFuture<S::Future>>>(
    turns: Seq<Turn<S, T>>,
    i: int,
    j: int,
    id: RequestId,
) where ResponseError: From<S::Error>
    requires
        one_run(turns),
        0 <= i < j < turns.len(),
        takes_response(turns[i], id),
        turns[i].pre.driven().waiting().contains_key(id@),
    ensures
        !turns[j].pre.driven().waiting().contains_key(id@),
        takes_response(turns[j], id) ==> turns[j].post.driven().waiting()
            == turns[j].pre.driven().waiting(),
    decreases j - i,
{
    lemma_turn(turns[i], id@);
    assert(turns[j - 1].post == turns[j - 1].post);
    if i + 1 < j {
        law_answered_once(turns, i, j - 1, id);
        lemma_numbers_grow(turns, i, j - 1);
        lemma_turn(turns[j - 1], id@);
    }
    if takes_response(turns[j], id) {
        assert(turns[j].pre.driven().waiting().remove(id@) =~= turns[j].pre.driven().waiting());
    }
}

/// While the service is not ready for a request, the main loop waits for nothing else but the last
/// write to be flushed.
proof fn lemma_keeps_preparing<S: LspService, T: From<RequestFuture<S::Future>>>(
    turns: Seq<Turn<S, T>>,
    i: int,
    j: int,
    req: AnyRequest,
) where ResponseError: From<S::Error>
    requires
        one_run(turns),
        0 <= i < j < turns.len(),
        turns[i].happening == Happening::<S::Payload, S::Error>::Received(
            Ok(Message::Request(req)),
        ),
        forall|k: int| i < k < j ==> !((#[trigger] turns[k]).happening is Prepared),
    ensures
        turns[j].pre.phase() == Phase::Preparing(req),
    decreases j - i,
{
    assert(turns[j - 1].post == turns[j - 1].post);
    if i + 1 < j {
        lemma_keeps_preparing(turns, i, j - 1, req);
        assert(!(turns[j - 1].happening is Prepared));
        assert(turns[j].pre.phase().expects(turns[j].happening));
        assert(turns[j - 1].happening is Flushed);
    }
}

/// A request that was received is handed to the service, or refused, before anything else is
/// received: messages are handled in the order in which they come.
pub proof fn law_messages_are_handled_in_order<
    S: LspService,
    T: From<RequestFuture<S::Future>>,
>(turns: Seq<Turn<S, T>>, i: int, j: int, req: AnyRequest) where ResponseError: From<S::Error>
    requires
        one_run(turns),
        0 <= i < j < turns.len(),
        turns[i].happening == Happening::<S::Payload, S::Error>::Received(
            Ok(Message::Request(req)),
        ),
        turns[j].happening is Received,
    ensures
        exists|k: int|
            {
                &&& i < k < j
                &&& (#[trigger] turns[k]).happening is Prepared
                &&& turns[k].pre.phase() == Phase::Preparing(req)
            },
{
    if forall|k: int| i < k < j ==> !((#[trigger] turns[k]).happening is Prepared) {
        lemma_keeps_preparing(turns, i, j, req);
        assert(turns[j].pre.phase().expects(turns[j].happening));
    } else {
        let k = lemma_first_prepared(turns, i, j);
        lemma_keeps_preparing(turns, i, k, req);
    }
}

/// The first turn between two turns in which the service said whether it is ready.
proof fn lemma_first_prepared<S: LspService, T>(
    turns: Seq<Turn<S, T>>,
    i: int,
    j: int,
) -> (first: int)
    requires
        0 <= i < j < turns.len(),
        exists|k: int| i < k < j && (#[trigger] turns[k]).happening is Prepared,
    ensures
        i < first < j,
        turns[first].happening is Prepared,
        forall|k: int| i < k < first ==> !((#[trigger] turns[k]).happening is Prepared),
    decreases j - i,
{
    let k = choose|k: int| i < k < j && (#[trigger] turns[k]).happening is Prepared;
    if exists|m: int| i < m < k && (#[trigger] turns[m]).happening is Prepared {
        lemma_first_prepared(turns, i, k)
    } else {
        k
    }
}

/// A main loop returns at most once, and does nothing after that.
pub proof fn law_returns_once<S: LspService, T: From<RequestFuture<S::Future>>>(
    turns: Seq<Turn<S, T>>,
    i: int,
) where ResponseError: From<S::Error>
    requires
        one_run(turns),
        0 <= i < turns.len(),
        turns[i].action is Return,
    ensures
        i == turns.len() - 1,
{
    if i + 1 < turns.len() {
        assert(turns[i].post == turns[i].post);
        assert(turns[i + 1].pre.phase().expects(turns[i + 1].happening));
    }
}

/// A main loop returns success only if it was stopped with success and its output could be closed.
/// If it was stopped with an error, it returns that error, whatever came of the output.
pub proof fn law_result_of_a_run<S: LspService, T: From<RequestFuture<S::Future>>>(
    turn: Turn<S, T>,
) where ResponseError: From<S::Error>
    requires
        turn.pre.driven().wf(),
        turn.pre.phase().expects(turn.happening),
        Running::stepped(turn.pre, turn.happening, turn.post, turn.action),
    ensures
        turn.action matches Action::Return(Ok(_)) ==> {
            &&& turn.pre.phase() matches Phase::Closing(Ok(_))
            &&& turn.happening matches Happening::Closed(Ok(_))
        },
        turn.pre.phase() matches Phase::Closing(Err(e)) ==> turn.action == Action::Return(Err(e)),
{
}

/// Whether a turn answers a request of the peer: it writes a response, which no socket handed in.
pub open spec fn answers<S: LspService, T>(turn: Turn<S, T>) -> bool {
    !(turn.happening is HandedIn) && (turn.action matches Action::Feed(Message::Response(_)))
}

/// Whether the service said at the turn `i` whether it is ready for the request that was received
/// at the turn `r`, with nothing but flushing in between.
pub open spec fn prepared_for<S: LspService, T>(turns: Seq<Turn<S, T>>, r: int, i: int) -> bool {
    &&& 0 <= r < i < turns.len()
    &&& turns[r].happening matches Happening::Received(Ok(Message::Request(req)))
        && turns[i].pre.phase() == Phase::Preparing(req)
    &&& turns[i].happening is Prepared
    &&& forall|k: int| r < k < i ==> (#[trigger] turns[k]).happening is Flushed
}

/// Whether the response is the outcome of the future through which the service answers the request
/// that it was handed at the turn, where `gives` says what comes out of a future.
pub open spec fn own_outcome<S: LspService, T>(
    turn: Turn<S, T>,
    resp: AnyResponse,
    gives: spec_fn(S::Future, Result<JsonValue, S::Error>) -> bool,
) -> bool where ResponseError: From<S::Error> {
    &&& turn.happening matches Happening::Prepared(Ok(_))
    &&& turn.pre.phase() matches Phase::Preparing(req) && exists|
        fut: S::Future,
        outcome: Result<JsonValue, S::Error>,
    |
        {
            &&& #[trigger] S::called(
                turn.pre.driven().inner(),
                req,
                turn.post.driven().inner(),
                fut,
            )
            &&& #[trigger] gives(fut, outcome)
            &&& responds_with(resp, req.id, outcome)
        }
}

/// Whether each response that comes out of the requests that are being answered is the outcome of
/// one that was spawned before, at the turn that `spawned` says, and no two come out of the same.
pub open spec fn tasks_answer_once<S: LspService, T>(
    turns: Seq<Turn<S, T>>,
    spawned: spec_fn(int) -> int,
    gives: spec_fn(S::Future, Result<JsonValue, S::Error>) -> bool,
) -> bool where ResponseError: From<S::Error> {
    &&& forall|k: int|
        0 <= k < turns.len() ==> ((#[trigger] turns[k]).happening matches Happening::Answered(resp)
            ==> 0 <= spawned(k) < k && own_outcome(turns[spawned(k)], resp, gives))
    &&& forall|j: int, k: int|
        0 <= j < k < turns.len() && (#[trigger] turns[j]).happening is Answered && (
        #[trigger] turns[k]).happening is Answered ==> spawned(j) != spawned(k)
}

/// Whether the turn `k` answers the request that was received at the turn `r`: with the error of a
/// service that is not ready for it, or with the outcome of its own future.
pub open spec fn answers_request<S: LspService, T>(
    turns: Seq<Turn<S, T>>,
    spawned: spec_fn(int) -> int,
    gives: spec_fn(S::Future, Result<JsonValue, S::Error>) -> bool,
    r: int,
    k: int,
) -> bool where ResponseError: From<S::Error> {
    &&& 0 <= r < k < turns.len()
    &&& turns[r].happening matches Happening::Received(Ok(Message::Request(req)))
        && turns[k].action matches Action::Feed(Message::Response(resp)) && resp.id == req.id
        && match turns[k].happening {
        Happening::Prepared(Err(err)) => prepared_for(turns, r, k) && fails_with(resp, req.id, err),
        Happening::Answered(answer) => {
            &&& resp == answer
            &&& prepared_for(turns, r, spawned(k))
            &&& own_outcome(turns[spawned(k)], resp, gives)
        },
        _ => false,
    }
}

/// A main loop that waits for its service to be ready has received the request that it is for.
proof fn lemma_was_received<S: LspService, T: From<RequestFuture<S::Future>>>(
    turns: Seq<Turn<S, T>>,
    i: int,
) -> (r: int) where ResponseError: From<S::Error>
    requires
        one_run(turns),
        turns[0].pre.phase() == Phase::Selecting,
        0 <= i < turns.len(),
        turns[i].pre.phase() is Preparing,
    ensures
        0 <= r < i,
        turns[r].happening matches Happening::Received(Ok(Message::Request(req)))
            && turns[i].pre.phase() == Phase::Preparing(req),
        forall|k: int| r < k < i ==> (#[trigger] turns[k]).happening is Flushed,
    decreases i,
{
    assert(i > 0);
    assert(turns[i - 1].post == turns[i - 1].post);
    assert(turns[i - 1].pre.phase().expects(turns[i - 1].happening));
    if turns[i - 1].happening is Received {
        i - 1
    } else {
        lemma_was_received(turns, i - 1)
    }
}

/// What a main loop writes as an answer belongs to a request that it received before, and is that
/// request's own result or error.
pub proof fn law_answers_belong_to_requests<S: LspService, T: From<RequestFuture<S::Future>>>(
    turns: Seq<Turn<S, T>>,
    spawned: spec_fn(int) -> int,
    gives: spec_fn(S::Future, Result<JsonValue, S::Error>) -> bool,
    k: int,
) where ResponseError: From<S::Error>
    requires
        one_run(turns),
        turns[0].pre.phase() == Phase::Selecting,
        tasks_answer_once(turns, spawned, gives),
        0 <= k < turns.len(),
        answers(turns[k]),
    ensures
        exists|r: int| answers_request(turns, spawned, gives, r, k),
{
    assert(turns[k].pre.phase().expects(turns[k].happening));
    match turns[k].happening {
        Happening::Answered(resp) => {
            let i = spawned(k);
            assert(own_outcome(turns[i], resp, gives));
            let r = lemma_was_received(turns, i);
            assert(prepared_for(turns, r, i));
            assert(answers_request(turns, spawned, gives, r, k));
        },
        _ => {
            assert(turns[k].happening is Prepared);
            let r = lemma_was_received(turns, k);
            assert(prepared_for(turns, r, k));
            assert(answers_request(turns, spawned, gives, r, k));
        },
    }
}

/// No request of the peer is answered more than once.
pub proof fn law_requests_are_answered_at_most_once<
    S: LspService,
    T: From<RequestFuture<S::Future>>,
>(
    turns: Seq<Turn<S, T>>,
    spawned: spec_fn(int) -> int,
    gives: spec_fn(S::Future, Result<JsonValue, S::Error>) -> bool,
    r: int,
    j: int,
    k: int,
) where ResponseError: From<S::Error>
    requires
        one_run(turns),
        tasks_answer_once(turns, spawned, gives),
        answers_request(turns, spawned, gives, r, j),
        answers_request(turns, spawned, gives, r, k),
    ensures
        j == k,
{
    let a = if turns[j].happening is Answered {
        spawned(j)
    } else {
        j
    };
    let b = if turns[k].happening is Answered {
        spawned(k)
    } else {
        k
    };
    assert(prepared_for(turns, r, a) && prepared_for(turns, r, b));
    if a < b {
        assert(turns[a].happening is Flushed);
    } else if b < a {
        assert(turns[b].happening is Flushed);
    }
}

/// A request whose future comes to its outcome while the main loop runs is answered, and so is one
/// that the service is not ready for.
pub proof fn law_completed_requests_are_answered<
    S: LspService,
    T: From<RequestFuture<S::Future>>,
>(
    turns: Seq<Turn<S, T>>,
    spawned: spec_fn(int) -> int,
    gives: spec_fn(S::Future, Result<JsonValue, S::Error>) -> bool,
    r: int,
    k: int,
) where ResponseError: From<S::Error>
    requires
        one_run(turns),
        tasks_answer_once(turns, spawned, gives),
        0 <= k < turns.len(),
        (turns[k].happening is Answered && prepared_for(turns, r, spawned(k))) || (
        turns[k].happening matches Happening::Prepared(Err(_)) && prepared_for(turns, r, k)),
    ensures
        answers_request(turns, spawned, gives, r, k),
{
    assert(turns[k].pre.phase().expects(turns[k].happening));
}

/// A request whose future has come to its outcome is answered with it, one that the service is not
/// ready for is answered with its error, and neither a notification nor a response of the peer is
/// answered.
pub proof fn law_what_is_answered<S: LspService, T: From<RequestFuture<S::Future>>>(
    turn: Turn<S, T>,
) where ResponseError: From<S::Error>
    requires
        turn.pre.driven().wf(),
        turn.pre.phase().expects(turn.happening),
        Running::stepped(turn.pre, turn.happening, turn.post, turn.action),
    ensures
        turn.happening matches Happening::Answered(resp) ==> turn.action == Action::Feed(
            Message::Response(resp),
        ),
        turn.happening matches Happening::Prepared(Err(_)) ==> answers(turn),
        turn.happening is Received ==> !(turn.action is Feed),
        turn.happening matches Happening::Prepared(Ok(_)) ==> !(turn.action is Feed),
{
}

/// What a turn gives to the service.
pub enum Delivery<S: LspService> {
    /// A request that the service is ready for.
    Request(AnyRequest),
    /// A request that the service refused when it was asked whether it is ready.
    Refused(AnyRequest),
    /// A notification.
    Notification(AnyNotification),
    /// A loopback event.
    Event(AnyEvent<S::Payload>),
}

/// What the turn gives to the service, if anything.
pub open spec fn delivery<S: LspService, T>(turn: Turn<S, T>) -> Option<Delivery<S>> {
    match turn.happening {
        Happening::Received(Ok(Message::Notification(notif))) => Some(
            Delivery::Notification(notif),
        ),
        Happening::Prepared(ready) => match (turn.pre.phase(), ready) {
            (Phase::Preparing(req), Ok(_)) => Some(Delivery::Request(req)),
            (Phase::Preparing(req), Err(_)) => Some(Delivery::Refused(req)),
            _ => None,
        },
        Happening::HandedIn(MainLoopEvent::Any(event)) => Some(Delivery::Event(event)),
        _ => None,
    }
}

/// Whether the service `pre` can become `post` by the request.
pub open spec fn takes_request<S: LspService>(pre: S, req: AnyRequest, post: S) -> bool {
    exists|fut: S::Future| #[trigger] S::called(pre, req, post, fut)
}

/// Whether the service `pre` can become `post` by the notification.
pub open spec fn takes_notification<S: LspService>(
    pre: S,
    notif: AnyNotification,
    post: S,
) -> bool {
    exists|r: Flow| #[trigger] S::notified(pre, notif, post, r)
}

/// Whether the service `pre` can become `post` by the event.
pub open spec fn takes_event<S: LspService>(
    pre: S,
    event: AnyEvent<S::Payload>,
    post: S,
) -> bool {
    exists|r: Flow| #[trigger] S::emitted(pre, event, post, r)
}

/// Whether the service `pre` can become `post` by what is given to it: by one request, one
/// notification or one event. It stays as it is if nothing is, or if it refused.
pub open spec fn taken_in<S: LspService>(pre: S, given: Option<Delivery<S>>, post: S) -> bool {
    match given {
        Some(given) => match given {
            Delivery::Request(req) => takes_request(pre, req, post),
            Delivery::Refused(_) => post == pre,
            Delivery::Notification(notif) => takes_notification(pre, notif, post),
            Delivery::Event(event) => takes_event(pre, event, post),
        },
        None => post == pre,
    }
}

proof fn lemma_event_taken_in<S: LspService, T: From<RequestFuture<S::Future>>>(
    pre: MainLoop<S, T>,
    event: MainLoopEvent<S::Payload>,
    post: MainLoop<S, T>,
    ctl: Control,
) where ResponseError: From<S::Error>
    requires
        MainLoop::event_dispatched(pre, event, post, ctl),
    ensures
        match event {
            MainLoopEvent::Any(any) => taken_in(
                pre.inner(),
                Some(Delivery::Event(any)),
                post.inner(),
            ),
            _ => post.inner() == pre.inner(),
        },
{
}

proof fn lemma_message_taken_in<S: LspService, T: From<RequestFuture<S::Future>>>(
    pre: MainLoop<S, T>,
    msg: Message,
    ready: Result<(), S::Error>,
    post: MainLoop<S, T>,
    ctl: Control,
) where ResponseError: From<S::Error>
    requires
        MainLoop::message_dispatched(pre, msg, ready, post, ctl),
    ensures
        match msg {
            Message::Request(req) => taken_in(
                pre.inner(),
                if ready is Ok {
                    Some(Delivery::Request(req))
                } else {
                    Some(Delivery::Refused(req))
                },
                post.inner(),
            ),
            Message::Notification(notif) => taken_in(
                pre.inner(),
                Some(Delivery::Notification(notif)),
                post.inner(),
            ),
            Message::Response(_) => post.inner() == pre.inner(),
        },
{
}

/// Each turn gives the service what it has for it at once, once, and nothing else: the service
/// changes by just that.
pub proof fn law_delivered_at_once<S: LspService, T: From<RequestFuture<S::Future>>>(
    turn: Turn<S, T>,
) where ResponseError: From<S::Error>
    requires
        turn.pre.driven().wf(),
        turn.pre.phase().expects(turn.happening),
        Running::stepped(turn.pre, turn.happening, turn.post, turn.action),
    ensures
        taken_in(turn.pre.driven().inner(), delivery(turn), turn.post.driven().inner()),
{
    let pre = turn.pre.driven();
    let post = turn.post.driven();
    match turn.happening {
        Happening::HandedIn(event) => {
            let ctl = choose|ctl: Control|
                controlled(ctl, turn.post.phase(), turn.action)
                    && #[trigger] MainLoop::event_dispatched(pre, event, post, ctl);
            lemma_event_taken_in(pre, event, post, ctl);
        },
        Happening::Prepared(ready) => {
            let msg = Message::Request(turn.pre.phase()->Preparing_0);
            let ctl = choose|ctl: Control|
                controlled(ctl, turn.post.phase(), turn.action)
                    && #[trigger] MainLoop::message_dispatched(pre, msg, ready, post, ctl);
            lemma_message_taken_in(pre, msg, ready, post, ctl);
        },
        Happening::Received(Ok(Message::Request(_))) => {},
        Happening::Received(Ok(msg)) => {
            let ctl = choose|ctl: Control|
                controlled(ctl, turn.post.phase(), turn.action)
                    && #[trigger] MainLoop::message_dispatched(pre, msg, Ok(()), post, ctl);
            lemma_message_taken_in(pre, msg, Ok(()), post, ctl);
        },
        _ => {},
    }
}

/// The request or notification that is received in the turn, if any.
pub open spec fn received_in<S: LspService, T>(turn: Turn<S, T>) -> Option<Message> {
    match turn.happening {
        Happening::Received(Ok(Message::Response(_))) => None,
        Happening::Received(Ok(msg)) => Some(msg),
        _ => None,
    }
}

/// The request or notification that the turn gives to the service, if any.
pub open spec fn delivered_in<S: LspService, T>(turn: Turn<S, T>) -> Option<Message> {
    match delivery(turn) {
        Some(Delivery::Request(req)) => Some(Message::Request(req)),
        Some(Delivery::Refused(req)) => Some(Message::Request(req)),
        Some(Delivery::Notification(notif)) => Some(Message::Notification(notif)),
        _ => None,
    }
}

/// The messages with one more, if there is one.
pub open spec fn followed_by(messages: Seq<Message>, next: Option<Message>) -> Seq<Message> {
    match next {
        Some(msg) => messages.push(msg),
        None => messages,
    }
}

/// The requests and notifications that were received in the turns, in this order.
pub open spec fn received<S: LspService, T>(turns: Seq<Turn<S, T>>) -> Seq<Message>
    decreases turns.len(),
{
    if turns.len() == 0 {
        Seq::empty()
    } else {
        followed_by(received(turns.drop_last()), received_in(turns.last()))
    }
}

/// The requests and notifications that the turns gave to the service, in this order.
pub open spec fn delivered<S: LspService, T>(turns: Seq<Turn<S, T>>) -> Seq<Message>
    decreases turns.len(),
{
    if turns.len() == 0 {
        Seq::empty()
    } else {
        followed_by(delivered(turns.drop_last()), delivered_in(turns.last()))
    }
}

/// The events that sockets handed in in the turns, in this order.
pub open spec fn events_handed_in<S: LspService, T>(turns: Seq<Turn<S, T>>) -> Seq<
    AnyEvent<S::Payload>,
>
    decreases turns.len(),
{
    if turns.len() == 0 {
        Seq::empty()
    } else {
        let before = events_handed_in(turns.drop_last());
        match turns.last().happening {
            Happening::HandedIn(MainLoopEvent::Any(event)) => before.push(event),
            _ => before,
        }
    }
}

/// The events that the turns gave to the service, in this order.
pub open spec fn events_delivered<S: LspService, T>(turns: Seq<Turn<S, T>>) -> Seq<
    AnyEvent<S::Payload>,
>
    decreases turns.len(),
{
    if turns.len() == 0 {
        Seq::empty()
    } else {
        let before = events_delivered(turns.drop_last());
        match delivery(turns.last()) {
            Some(Delivery::Event(event)) => before.push(event),
            _ => before,
        }
    }
}

/// Whether what was given to the service is what was received, in the same order and each once,
/// but for a request that the service is not ready for yet, or was not when the loop ended.
pub open spec fn in_order(got: Seq<Message>, given: Seq<Message>, phase: Phase) -> bool {
    match phase {
        Phase::Preparing(req) => got == given.push(Message::Request(req)),
        Phase::Finished => got == given || (got.len() > 0 && got.drop_last() == given),
        _ => got == given,
    }
}

/// A turn keeps the order.
proof fn lemma_order_kept<S: LspService, T: From<RequestFuture<S::Future>>>(
    turn: Turn<S, T>,
    got: Seq<Message>,
    given: Seq<Message>,
) where ResponseError: From<S::Error>
    requires
        turn.pre.phase().expects(turn.happening),
        Running::stepped(turn.pre, turn.happening, turn.post, turn.action),
        in_order(got, given, turn.pre.phase()),
    ensures
        in_order(
            followed_by(got, received_in(turn)),
            followed_by(given, delivered_in(turn)),
            turn.post.phase(),
        ),
{
    if turn.pre.phase() is Preparing {
        assert(got.drop_last() =~= given);
    }
    match turn.happening {
        Happening::Received(Ok(Message::Request(_))) => {},
        Happening::Prepared(_) | Happening::Received(Ok(_)) | Happening::HandedIn(_) => {
            assert(exists|ctl: Control| #[trigger]
                controlled(ctl, turn.post.phase(), turn.action));
        },
        _ => {},
    }
}

/// The first turns of a run keep the order.
proof fn lemma_ordered_up_to<S: LspService, T: From<RequestFuture<S::Future>>>(
    turns: Seq<Turn<S, T>>,
    i: int,
) where ResponseError: From<S::Error>
    requires
        one_run(turns),
        0 <= i < turns.len(),
        turns[0].pre.phase() == Phase::Selecting,
    ensures
        in_order(
            received(turns.take(i + 1)),
            delivered(turns.take(i + 1)),
            turns[i].post.phase(),
        ),
        events_delivered(turns.take(i + 1)) == events_handed_in(turns.take(i + 1)),
    decreases i,
{
    let before = turns.take(i);
    assert(turns.take(i + 1).drop_last() =~= before);
    assert(turns.take(i + 1).last() == turns[i]);
    let turn = turns[i];
    assert(turn.pre.phase().expects(turn.happening));
    assert(Running::stepped(turn.pre, turn.happening, turn.post, turn.action));
    assert(in_order(received(before), delivered(before), turn.pre.phase())) by {
        if i > 0 {
            lemma_ordered_up_to(turns, i - 1);
            assert(turns[i - 1].post.phase() == turn.pre.phase()) by {
                assert(turns[i - 1].post == turns[i - 1].post);
            }
        } else {
            assert(before =~= Seq::<Turn<S, T>>::empty());
        }
    }
    assert(events_delivered(before) == events_handed_in(before)) by {
        if i > 0 {
            lemma_ordered_up_to(turns, i - 1);
        } else {
            assert(before =~= Seq::<Turn<S, T>>::empty());
        }
    }
    lemma_order_kept(turn, received(before), delivered(before));
}

/// What is received reaches the service in the order in which it came, each message once, and each
/// notification before anything else is received. Events reach it in the order in which they are
/// handed in, each once.
pub proof fn law_delivered_in_order<S: LspService, T: From<RequestFuture<S::Future>>>(
    turns: Seq<Turn<S, T>>,
) where ResponseError: From<S::Error>
    requires
        one_run(turns),
        turns.len() > 0,
        turns[0].pre.phase() == Phase::Selecting,
    ensures
        in_order(received(turns), delivered(turns), turns.last().post.phase()),
        events_delivered(turns) == events_handed_in(turns),
{
    assert(turns.take(turns.len() as int) =~= turns);
    lemma_ordered_up_to(turns, turns.len() - 1);
}

/// What a socket hands in for the peer is written to the peer, as it is and at once, in whatever
/// state the main loop is. A request gets the next number for its id, and the sender that came with
/// it waits for the response of that number; nothing else changes.
pub proof fn law_what_is_handed_in_for_the_peer_is_written<
    S: LspService,
    T: From<RequestFuture<S::Future>>,
>(msg: Message, req: AnyRequest, tx: oneshot::Sender<AnyResponse>) where
    ResponseError: From<S::Error>,

    ensures
        forall|s: &mut Running<S, T>, action: Action|
            #[trigger] call_ensures(
                Running::<S, T>::step,
                (s, Happening::<S::Payload, S::Error>::HandedIn(MainLoopEvent::Outgoing(msg))),
                action,
            ) ==> {
                &&& action == Action::Feed(msg)
                &&& final(s).phase() == Phase::Feeding
                &&& final(s).driven() == s.driven()
            },
        forall|s: &mut Running<S, T>, action: Action|
            #[trigger] call_ensures(
                Running::<S, T>::step,
                (
                    s,
                    Happening::<S::Payload, S::Error>::HandedIn(
                        MainLoopEvent::OutgoingRequest(req, tx),
                    ),
                ),
                action,
            ) ==> {
                let n = s.driven().next_id() as i32;
                &&& action == Action::Feed(
                    Message::Request(
                        AnyRequest {
                            id: RequestId::Number(n),
                            method: req.method,
                            params: req.params,
                        },
                    ),
                )
                &&& final(s).phase() == Phase::Feeding
                &&& final(s).driven().next_id() == s.driven().next_id() + 1
                &&& final(s).driven().waiting() == s.driven().waiting().insert(
                    RequestIdView::Number(n),
                    tx,
                )
                &&& !s.driven().waiting().contains_key(RequestIdView::Number(n))
                &&& final(s).driven().inner() == s.driven().inner()
                &&& final(s).driven().tasks() == s.driven().tasks()
                &&& final(s).driven().channel() == s.driven().channel()
            },
{
}

/// Whether the main loop waits for anything again, or stops with a result, as the service decided.
pub open spec fn obeys(flow: Flow, phase: Phase, action: Action) -> bool {
    match flow {
        ControlFlow::Continue(()) => phase == Phase::Selecting && action == Action::Select,
        ControlFlow::Break(result) => phase == Phase::Closing(result) && action == Action::Close,
    }
}

/// Whether nothing of the main loop but its service differs.
pub open spec fn only_service_differs<S: LspService, T>(
    pre: MainLoop<S, T>,
    post: MainLoop<S, T>,
) -> bool {
    &&& post.channel() == pre.channel()
    &&& post.next_id() == pre.next_id()
    &&& post.waiting() == pre.waiting()
    &&& post.tasks() == pre.tasks()
}

/// Every event that a socket hands in, and every notification that is received, reaches the service
/// at once, and the main loop does what the service decides. Nothing is written.
pub proof fn law_events_and_notifications_reach_the_service<
    S: LspService,
    T: From<RequestFuture<S::Future>>,
>(event: AnyEvent<S::Payload>, notif: AnyNotification) where ResponseError: From<S::Error>
    ensures
        forall|s: &mut Running<S, T>, action: Action|
            #[trigger] call_ensures(
                Running::<S, T>::step,
                (s, Happening::<S::Payload, S::Error>::HandedIn(MainLoopEvent::Any(event))),
                action,
            ) ==> {
                &&& only_service_differs(s.driven(), final(s).driven())
                &&& exists|flow: Flow|
                    #[trigger] S::emitted(
                        s.driven().inner(),
                        event,
                        final(s).driven().inner(),
                        flow,
                    ) && obeys(flow, final(s).phase(), action)
            },
        forall|s: &mut Running<S, T>, action: Action|
            #[trigger] call_ensures(
                Running::<S, T>::step,
                (s, Happening::<S::Payload, S::Error>::Received(Ok(Message::Notification(notif)))),
                action,
            ) ==> {
                &&& only_service_differs(s.driven(), final(s).driven())
                &&& exists|flow: Flow|
                    #[trigger] S::notified(
                        s.driven().inner(),
                        notif,
                        final(s).driven().inner(),
                        flow,
                    ) && obeys(flow, final(s).phase(), action)
            },
{
    assert forall|flow: Flow, phase: Phase, action: Action| #[trigger]
        controlled(follows(flow), phase, action) implies obeys(flow, phase, action) by {}
}

/// Every request that is received is prepared for first. When the service is ready it is handed the
/// request, and what it answers through becomes a task together with the id of the request. When
/// the service refuses, its error is written as the response of the id of the request, and the
/// service stays as it was.
pub proof fn law_requests_reach_the_service<S: LspService, T: From<RequestFuture<S::Future>>>(
    req: AnyRequest,
    err: S::Error,
) where ResponseError: From<S::Error>
    ensures
        forall|s: &mut Running<S, T>, action: Action|
            #[trigger] call_ensures(
                Running::<S, T>::step,
                (s, Happening::<S::Payload, S::Error>::Received(Ok(Message::Request(req)))),
                action,
            ) ==> {
                &&& action == Action::Prepare
                &&& final(s).phase() == Phase::Preparing(req)
                &&& final(s).driven() == s.driven()
            },
        forall|s: &mut Running<S, T>, action: Action|
            #[trigger] call_ensures(
                Running::<S, T>::step,
                (s, Happening::< S::Payload, S::Error, >::Prepared(Ok(()))),
                action,
            ) && s.phase() == Phase::Preparing(req) ==> {
                &&& action == Action::Select
                &&& final(s).phase() == Phase::Selecting
                &&& only_service_differs(s.driven(), final(s).driven())
                &&& exists|fut: S::Future, task: T|
                    {
                        &&& #[trigger] S::called(
                            s.driven().inner(),
                            req,
                            final(s).driven().inner(),
                            fut,
                        )
                        &&& call_ensures(
                            <T as From<RequestFuture<S::Future>>>::from,
                            (RequestFuture { fut, id: req.id },),
                            task,
                        )
                        &&& #[trigger] call_ensures(
                            FuturesUnordered::<T>::push,
                            (&s.driven().tasks(), task),
                            (),
                        )
                    }
            },
        forall|s: &mut Running<S, T>, action: Action|
            #[trigger] call_ensures(
                Running::<S, T>::step,
                (s, Happening::< S::Payload, S::Error, >::Prepared(Err(err))),
                action,
            ) && s.phase() == Phase::Preparing(req) ==> {
                &&& final(s).phase() == Phase::Feeding
                &&& final(s).driven() == s.driven()
                &&& exists|object: ResponseError|
                    #[trigger] call_ensures(
                        <ResponseError as From<S::Error>>::from,
                        (err,),
                        object,
                    ) && action == Action::Feed(
                        Message::Response(
                            AnyResponse { id: req.id, result: None, error: Some(object) },
                        ),
                    )
            },
{
}

/// A response that is received goes to the sender that waits for its id, which then waits no more,
/// and no other sender is touched. A response that nobody waits for is dropped. The main loop goes
/// on either way.
pub proof fn law_responses_reach_who_waits<S: LspService, T: From<RequestFuture<S::Future>>>(
    resp: AnyResponse,
) where ResponseError: From<S::Error>
    ensures
        forall|s: &mut Running<S, T>, action: Action|
            #[trigger] call_ensures(
                Running::<S, T>::step,
                (s, Happening::<S::Payload, S::Error>::Received(Ok(Message::Response(resp)))),
                action,
            ) ==> {
                &&& action == Action::Select
                &&& final(s).phase() == Phase::Selecting
                &&& final(s).driven().waiting() == s.driven().waiting().remove(resp.id@)
                &&& s.driven().waiting().contains_key(resp.id@) ==> exists|
                    sent: Result<(), AnyResponse>,
                |
                    #[trigger] call_ensures(
                        oneshot::Sender::<AnyResponse>::send,
                        (s.driven().waiting()[resp.id@], resp),
                        sent,
                    )
                &&& final(s).driven().inner() == s.driven().inner()
                &&& final(s).driven().next_id() == s.driven().next_id()
                &&& final(s).driven().tasks() == s.driven().tasks()
                &&& final(s).driven().channel() == s.driven().channel()
            },
{
}

/// Whether a running main loop returns the result, and is otherwise as it was.
pub open spec fn ends_with_result<S: LspService, T>(
    pre: Running<S, T>,
    post: Running<S, T>,
    action: Action,
    result: Result<(), Error>,
) -> bool {
    &&& action == Action::Return(result)
    &&& post.phase() == Phase::Finished
    &&& post.driven() == pre.driven()
}

/// Every answer that comes out of the tasks is written, as it is. What was written is flushed, and
/// the main loop goes back to what it waited for. What cannot be flushed, read or written ends it
/// with the error.
pub proof fn law_answers_are_written<S: LspService, T: From<RequestFuture<S::Future>>>() where
    ResponseError: From<S::Error>,

    ensures
        forall|s: &mut Running<S, T>, happening: Happening<S::Payload, S::Error>, action: Action|
            #[trigger]
            call_ensures(Running::<S, T>::step, (s, happening), action) ==> match happening {
                Happening::Answered(resp) => {
                    &&& action == Action::Feed(Message::Response(resp))
                    &&& final(s).phase() == Phase::Feeding
                    &&& final(s).driven() == s.driven()
                },
                Happening::Fed(Ok(_)) => {
                    &&& action == Action::Flush
                    &&& final(s).phase() == Phase::Selecting
                    &&& final(s).driven() == s.driven()
                },
                Happening::Flushed(Ok(_)) => {
                    &&& s.phase() is Preparing ==> action == Action::Prepare
                    &&& !(s.phase() is Preparing) ==> action == Action::Select
                    &&& final(s).phase() == s.phase()
                    &&& final(s).driven() == s.driven()
                },
                Happening::Fed(Err(e)) => ends_with_result(*s, *final(s), action, Err(e)),
                Happening::Flushed(Err(e)) => ends_with_result(*s, *final(s), action, Err(e)),
                Happening::Received(Err(e)) => ends_with_result(*s, *final(s), action, Err(e)),
                Happening::Closed(ret) => match s.phase() {
                    Phase::Closing(Err(e)) => ends_with_result(*s, *final(s), action, Err(e)),
                    Phase::Closing(Ok(_)) => ends_with_result(*s, *final(s), action, ret),
                    _ => true,
                },
                _ => true,
            },
{
}

/// A main loop is made with no request sent and none waited for, around the service that was built
/// with a socket into it. It starts by waiting for anything.
pub proof fn law_main_loops_start_fresh<
    S: LspService,
    T: From<RequestFuture<S::Future>>,
    B: FnOnce(PeerSocket<S::Payload>) -> S,
    C: FnOnce(ClientSocket<S::Payload>) -> S,
    D: FnOnce(ServerSocket<S::Payload>) -> S,
>(b: B, c: C, d: D) where ResponseError: From<S::Error>
    ensures
        forall|m: MainLoop<S, T>, r: Running<S, T>| #[trigger]
            call_ensures(MainLoop::<S, T>::start, (m,), r) ==> r.driven() == m && r.phase()
                == Phase::Selecting,
        forall|r: (MainLoop<S, T>, PeerSocket<S::Payload>)| #[trigger]
            call_ensures(MainLoop::<S, T>::new::<B>, (b,), r) ==> {
                &&& r.0.next_id() == 0
                &&& r.0.waiting() == Map::<RequestIdView, oneshot::Sender<AnyResponse>>::empty()
                &&& call_ensures(b, (r.1,), r.0.inner())
                &&& call_ensures(
                    mpsc::unbounded::<MainLoopEvent<S::Payload>>,
                    (),
                    (r.1.channel(), r.0.channel()),
                )
            },
        forall|r: (MainLoop<S, T>, ClientSocket<S::Payload>)| #[trigger]
            call_ensures(MainLoop::<S, T>::new_server::<C>, (c,), r) ==> {
                &&& r.0.next_id() == 0
                &&& r.0.waiting() == Map::<RequestIdView, oneshot::Sender<AnyResponse>>::empty()
                &&& call_ensures(c, (r.1,), r.0.inner())
                &&& call_ensures(
                    mpsc::unbounded::<MainLoopEvent<S::Payload>>,
                    (),
                    (r.1.peer().channel(), r.0.channel()),
                )
            },
        forall|r: (MainLoop<S, T>, ServerSocket<S::Payload>)| #[trigger]
            call_ensures(MainLoop::<S, T>::new_client::<D>, (d,), r) ==> {
                &&& r.0.next_id() == 0
                &&& r.0.waiting() == Map::<RequestIdView, oneshot::Sender<AnyResponse>>::empty()
                &&& call_ensures(d, (r.1,), r.0.inner())
                &&& call_ensures(
                    mpsc::unbounded::<MainLoopEvent<S::Payload>>,
                    (),
                    (r.1.peer().channel(), r.0.channel()),
                )
            },
{
}

/// The response to a request carries the id of the request, and its result or its error.
pub proof fn law_responses_carry_the_outcome<Fut, E>() where ResponseError: From<E>
    ensures
        forall|id: RequestId, outcome: Result<JsonValue, E>, r: AnyResponse| #[trigger]
            call_ensures(RequestFuture::<Fut>::respond::<E>, (id, outcome), r) ==> r.id == id
                && match outcome {
                Ok(v) => r.result == Some(v) && r.error is None,
                Err(e) => r.result is None && r.error is Some && call_ensures(
                    <ResponseError as From<E>>::from,
                    (e,),
                    r.error->0,
                ),
            },
{
}

/// The messages that sockets handed in for the peer in the turns, in this order, but for requests.
pub open spec fn handed_in_for_peer<S: LspService, T>(turns: Seq<Turn<S, T>>) -> Seq<Message>
    decreases turns.len(),
{
    if turns.len() == 0 {
        Seq::empty()
    } else {
        let before = handed_in_for_peer(turns.drop_last());
        match turns.last().happening {
            Happening::HandedIn(MainLoopEvent::Outgoing(msg)) => before.push(msg),
            _ => before,
        }
    }
}

/// The messages that the turns wrote because a socket handed in one that is ready to be written, in
/// this order.
pub open spec fn written_for_sockets<S: LspService, T>(turns: Seq<Turn<S, T>>) -> Seq<Message>
    decreases turns.len(),
{
    if turns.len() == 0 {
        Seq::empty()
    } else {
        let before = written_for_sockets(turns.drop_last());
        match turns.last().happening {
            Happening::HandedIn(MainLoopEvent::Outgoing(_)) => match turns.last().action {
                Action::Feed(msg) => before.push(msg),
                _ => before,
            },
            _ => before,
        }
    }
}

/// Over a whole run, the messages other than requests that sockets hand in for the peer are written
/// in the order in which they were handed in, each once and none lost.
pub proof fn law_nothing_for_the_peer_is_lost<S: LspService, T: From<RequestFuture<S::Future>>>(
    turns: Seq<Turn<S, T>>,
) where ResponseError: From<S::Error>
    requires
        forall|i: int|
            0 <= i < turns.len() ==> Running::stepped(
                (#[trigger] turns[i]).pre,
                turns[i].happening,
                turns[i].post,
                turns[i].action,
            ),
    ensures
        written_for_sockets(turns) == handed_in_for_peer(turns),
    decreases turns.len(),
{
    if turns.len() > 0 {
        let before = turns.drop_last();
        assert forall|i: int| 0 <= i < before.len() implies Running::stepped(
            (#[trigger] before[i]).pre,
            before[i].happening,
            before[i].post,
            before[i].action,
        ) by {
            assert(before[i] == turns[i]);
        }
        law_nothing_for_the_peer_is_lost(before);
        let turn = turns[turns.len() - 1];
        assert(Running::stepped(turn.pre, turn.happening, turn.post, turn.action));
    }
}

} // verus!
