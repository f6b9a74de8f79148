//! The sockets through which a service talks to its peer, and to itself.
use futures::channel::{mpsc, oneshot};
use vstd::prelude::*;

use crate::error::{Error, JsonValue};
use crate::event::{identifies, AnyEvent};
use crate::main_loop::MainLoopEvent;
use crate::message::{
    read_from, read_params, AnyNotification, AnyRequest, AnyResponse, Message, RequestId,
};
use crate::outside::{closed_channel, post};

verus! {

/// A socket of either direction: the sending side of the channel into a main loop.
#[verifier::reject_recursive_types(P)]
pub struct PeerSocket<P> {
    tx: mpsc::UnboundedSender<MainLoopEvent<P>>,
}

/// Whether the event is an outgoing notification of the method and the parameters.
pub open spec fn is_outgoing_notification<P>(
    event: MainLoopEvent<P>,
    method: Seq<char>,
    params: JsonValue,
) -> bool {
    event matches MainLoopEvent::Outgoing(Message::Notification(notif)) && notif.method@ == method
        && notif.params == params
}

/// Whether the event is an outgoing request of the method and the parameters, whose response goes
/// to `tx`. Its id is a placeholder until the main loop numbers it.
pub open spec fn is_outgoing_request<P>(
    event: MainLoopEvent<P>,
    method: Seq<char>,
    params: JsonValue,
    tx: oneshot::Sender<AnyResponse>,
) -> bool {
    event matches MainLoopEvent::OutgoingRequest(req, t) && req.id == RequestId::Number(0)
        && req.method@ == method && req.params == params && t == tx
}

/// Whether the event is the loopback event `payload` of the type `T`.
pub open spec fn is_loopback<T: 'static, P>(
    event: MainLoopEvent<P>,
    payload: P,
    label: Seq<char>,
) -> bool {
    event matches MainLoopEvent::Any(any) && any.payload() == payload && identifies::<T>(
        any.type_id_of(),
    ) && any.name() == label
}

impl<P> PeerSocket<P> {
    /// The sending side of the channel.
    pub closed spec fn channel(&self) -> mpsc::UnboundedSender<MainLoopEvent<P>> {
        self.tx
    }

    /// Whether the socket was made closed, outside any main loop.
    pub closed spec fn closed(&self) -> bool {
        call_ensures(closed_channel::<MainLoopEvent<P>>, (), self.tx)
    }

    /// The event was handed to the channel, which took it or did not.
    pub closed spec fn posted(&self, event: MainLoopEvent<P>, taken: bool) -> bool {
        call_ensures(post::<MainLoopEvent<P>>, (&self.tx, event), taken)
    }

    /// A request of the method and the parameters was handed to the channel together with the
    /// sending half of a new channel, and its response comes through the receiving half of that.
    /// If the main loop had stopped there is nothing to wait for.
    pub open spec fn requested(
        &self,
        method: Seq<char>,
        params: JsonValue,
        r: PeerSocketRequestFuture,
    ) -> bool {
        exists|
            event: MainLoopEvent<P>,
            pair: (oneshot::Sender<AnyResponse>, oneshot::Receiver<AnyResponse>),
        |
            {
                &&& #[trigger] call_ensures(oneshot::channel::<AnyResponse>, (), pair)
                &&& is_outgoing_request(event, method, params, pair.0)
                &&& #[trigger] self.posted(event, r.awaits() is Some)
                &&& r.awaits() is Some ==> r.awaits() == Some(pair.1)
            }
    }

    /// A notification of the method and the parameters was handed to the channel, which took it
    /// or did not.
    pub open spec fn notified(&self, method: Seq<char>, params: JsonValue, taken: bool) -> bool {
        exists|event: MainLoopEvent<P>|
            is_outgoing_notification(event, method, params) && #[trigger] self.posted(event, taken)
    }

    /// A loopback event of the type `T` was handed to the channel, which took it or did not.
    pub open spec fn emitted<T: 'static>(
        &self,
        payload: P,
        label: Seq<char>,
        taken: bool,
    ) -> bool {
        exists|event: MainLoopEvent<P>|
            is_loopback::<T, P>(event, payload, label) && #[trigger] self.posted(event, taken)
    }

    /// A socket of a channel.
    pub(crate) fn new(tx: mpsc::UnboundedSender<MainLoopEvent<P>>) -> (r: Self)
        ensures
            r.channel() == tx,
    {
        PeerSocket { tx }
    }

    /// Create a closed socket outside a main loop.
    pub fn new_closed() -> (r: Self)
        ensures
            r.closed(),
    {
        PeerSocket { tx: closed_channel() }
    }

    /// Hands an event to the main loop.
    ///
    /// # Errors
    /// - [`Error::ServiceStopped`] when the service main loop stopped.
    pub fn send(&self, v: MainLoopEvent<P>) -> (r: Result<(), Error>)
        ensures
            self.posted(v, r is Ok),
            r matches Err(e) ==> e == Error::ServiceStopped,
            self.closed() ==> r is Err,
    {
        if post(&self.tx, v) {
            Ok(())
        } else {
            Err(Error::ServiceStopped)
        }
    }

    /// Send a request to the peer. Its response comes through what is returned.
    pub fn request(&self, method: &str, params: JsonValue) -> (r: PeerSocketRequestFuture)
        ensures
            self.requested(method@, params, r),
            self.closed() ==> r.awaits() is None,
    {
        let req = AnyRequest { id: RequestId::Number(0), method: method.to_string(), params };
        let (tx, rx) = oneshot::channel::<AnyResponse>();
        let ghost pair = (tx, rx);
        assert(call_ensures(oneshot::channel::<AnyResponse>, (), pair));
        let event = MainLoopEvent::OutgoingRequest(req, tx);
        let ghost sent = event;
        match self.send(event) {
            Ok(()) => {
                let r = PeerSocketRequestFuture { rx: Some(rx) };
                assert(self.posted(sent, r.awaits() is Some));
                r
            },
            Err(_) => {
                let r = PeerSocketRequestFuture { rx: None };
                assert(self.posted(sent, r.awaits() is Some));
                r
            },
        }
    }

    /// Send a notification to the peer.
    ///
    /// # Errors
    /// - [`Error::ServiceStopped`] when the service main loop stopped.
    pub fn notify(&self, method: &str, params: JsonValue) -> (r: Result<(), Error>)
        ensures
            self.notified(method@, params, r is Ok),
            r matches Err(e) ==> e == Error::ServiceStopped,
            self.closed() ==> r is Err,
    {
        let notif = AnyNotification { method: method.to_string(), params };
        self.send(MainLoopEvent::Outgoing(Message::Notification(notif)))
    }

    /// Emit an arbitrary loopback event of the type `T` to the service handler.
    ///
    /// # Errors
    /// - [`Error::ServiceStopped`] when the service main loop stopped.
    pub fn emit<T: 'static>(&self, event: P, label: &'static str) -> (r: Result<(), Error>)
        ensures
            self.emitted::<T>(event, label@, r is Ok),
            r matches Err(e) ==> e == Error::ServiceStopped,
            self.closed() ==> r is Err,
    {
        self.send(MainLoopEvent::Any(AnyEvent::new::<T>(event, label)))
    }
}

impl<P> Clone for PeerSocket<P> {
    fn clone(&self) -> (r: Self)
        ensures
            r == *self,
    {
        PeerSocket { tx: self.tx.clone() }
    }
}

/// The response to a request that was sent through a socket.
pub struct PeerSocketRequestFuture {
    rx: Option<oneshot::Receiver<AnyResponse>>,
}

impl PeerSocketRequestFuture {
    /// Where the response comes from, unless the main loop had stopped.
    pub closed spec fn awaits(&self) -> Option<oneshot::Receiver<AnyResponse>> {
        self.rx
    }

    /// Where the response comes from.
    ///
    /// # Errors
    /// - [`Error::ServiceStopped`] when the main loop had stopped before the request was sent.
    pub fn receiver(self) -> (r: Result<oneshot::Receiver<AnyResponse>, Error>)
        ensures
            match self.awaits() {
                Some(rx) => r == Ok::<oneshot::Receiver<AnyResponse>, Error>(rx),
                None => r == Err::<oneshot::Receiver<AnyResponse>, Error>(Error::ServiceStopped),
            },
    {
        match self.rx {
            Some(rx) => Ok(rx),
            None => Err(Error::ServiceStopped),
        }
    }

    /// The result of a request, from what came back.
    ///
    /// A response without a result stands for the result `null`.
    ///
    /// # Errors
    /// - [`Error::ServiceStopped`] when the main loop stopped before it gave a response.
    /// - [`Error::Response`] when the peer replies an error.
    pub fn resolve(received: Result<AnyResponse, oneshot::Canceled>) -> (r: Result<
        JsonValue,
        Error,
    >)
        ensures
            match received {
                Ok(resp) => match resp.error {
                    Some(err) => r == Err::<JsonValue, Error>(Error::Response(err)),
                    None => r is Ok && match resp.result {
                        Some(v) => r->Ok_0 == v,
                        None => read_from(None, r->Ok_0),
                    },
                },
                Err(_) => r == Err::<JsonValue, Error>(Error::ServiceStopped),
            },
    {
        match received {
            Ok(resp) => match resp.error {
                Some(err) => Err(Error::Response(err)),
                None => match resp.result {
                    Some(v) => Ok(v),
                    None => Ok(read_params(None)),
                },
            },
            Err(_) => Err(Error::ServiceStopped),
        }
    }
}

/// The socket for Language Server to communicate with the Language Client peer.
#[verifier::reject_recursive_types(P)]
pub struct ClientSocket<P>(PeerSocket<P>);

impl<P> ClientSocket<P> {
    /// The socket underneath.
    pub closed spec fn peer(&self) -> PeerSocket<P> {
        self.0
    }

    /// The socket on top of another one.
    pub closed spec fn made_of(peer: PeerSocket<P>) -> Self {
        ClientSocket(peer)
    }

    /// The socket on top of another one.
    pub(crate) fn of(peer: PeerSocket<P>) -> (r: Self)
        ensures
            r == Self::made_of(peer),
            r.peer() == peer,
    {
        ClientSocket(peer)
    }

    /// Create a closed socket outside a main loop. Any interaction will immediately return
    /// an error of [`Error::ServiceStopped`].
    ///
    /// This works as a placeholder where a socket is required but actually unused.
    ///
    /// # Note
    ///
    /// To prevent accidental misusages, this method is NOT implemented as [`Default::default`]
    /// intentionally.
    #[must_use]
    pub fn new_closed() -> (r: Self)
        ensures
            r.peer().closed(),
    {
        ClientSocket(PeerSocket::new_closed())
    }

    /// Send a request to the peer. Its response comes through what is returned.
    pub fn request(&self, method: &str, params: JsonValue) -> (r: PeerSocketRequestFuture)
        ensures
            self.peer().requested(method@, params, r),
            self.peer().closed() ==> r.awaits() is None,
    {
        self.0.request(method, params)
    }

    /// Send a notification to the peer.
    ///
    /// This is done asynchronously. An `Ok` result indicates the message is successfully queued,
    /// but may not be sent to the peer yet.
    ///
    /// # Errors
    /// - [`Error::ServiceStopped`] when the service main loop stopped.
    pub fn notify(&self, method: &str, params: JsonValue) -> (r: Result<(), Error>)
        ensures
            self.peer().notified(method@, params, r is Ok),
            r matches Err(e) ==> e == Error::ServiceStopped,
            self.peer().closed() ==> r is Err,
    {
        self.0.notify(method, params)
    }

    /// Emit an arbitrary loopback event of the type `T` to the service handler.
    ///
    /// This is done asynchronously. An `Ok` result indicates the message is successfully queued,
    /// but may not be processed yet.
    ///
    /// # Errors
    /// - [`Error::ServiceStopped`] when the service main loop stopped.
    pub fn emit<T: 'static>(&self, event: P, label: &'static str) -> (r: Result<(), Error>)
        ensures
            self.peer().emitted::<T>(event, label@, r is Ok),
            r matches Err(e) ==> e == Error::ServiceStopped,
            self.peer().closed() ==> r is Err,
    {
        self.0.emit::<T>(event, label)
    }
}

impl<P> Clone for ClientSocket<P> {
    fn clone(&self) -> (r: Self)
        ensures
            r == *self,
    {
        ClientSocket(self.0.clone())
    }
}

/// The socket for Language Client to communicate with the Language Server peer.
#[verifier::reject_recursive_types(P)]
pub struct ServerSocket<P>(PeerSocket<P>);

impl<P> ServerSocket<P> {
    /// The socket underneath.
    pub closed spec fn peer(&self) -> PeerSocket<P> {
        self.0
    }

    /// The socket on top of another one.
    pub closed spec fn made_of(peer: PeerSocket<P>) -> Self {
        ServerSocket(peer)
    }

    /// The socket on top of another one.
    pub(crate) fn of(peer: PeerSocket<P>) -> (r: Self)
        ensures
            r == Self::made_of(peer),
            r.peer() == peer,
    {
        ServerSocket(peer)
    }

    /// Create a closed socket outside a main loop. Any interaction will immediately return
    /// an error of [`Error::ServiceStopped`].
    ///
    /// This works as a placeholder where a socket is required but actually unused.
    ///
    /// # Note
    ///
    /// To prevent accidental misusages, this method is NOT implemented as [`Default::default`]
    /// intentionally.
    #[must_use]
    pub fn new_closed() -> (r: Self)
        ensures
            r.peer().closed(),
    {
        ServerSocket(PeerSocket::new_closed())
    }

    /// Send a request to the peer. Its response comes through what is returned.
    pub fn request(&self, method: &str, params: JsonValue) -> (r: PeerSocketRequestFuture)
        ensures
            self.peer().requested(method@, params, r),
            self.peer().closed() ==> r.awaits() is None,
    {
        self.0.request(method, params)
    }

    /// Send a notification to the peer.
    ///
    /// This is done asynchronously. An `Ok` result indicates the message is successfully queued,
    /// but may not be sent to the peer yet.
    ///
    /// # Errors
    /// - [`Error::ServiceStopped`] when the service main loop stopped.
    pub fn notify(&self, method: &str, params: JsonValue) -> (r: Result<(), Error>)
        ensures
            self.peer().notified(method@, params, r is Ok),
            r matches Err(e) ==> e == Error::ServiceStopped,
            self.peer().closed() ==> r is Err,
    {
        self.0.notify(method, params)
    }

    /// Emit an arbitrary loopback event of the type `T` to the service handler.
    ///
    /// This is done asynchronously. An `Ok` result indicates the message is successfully queued,
    /// but may not be processed yet.
    ///
    /// # Errors
    /// - [`Error::ServiceStopped`] when the service main loop stopped.
    pub fn emit<T: 'static>(&self, event: P, label: &'static str) -> (r: Result<(), Error>)
        ensures
            self.peer().emitted::<T>(event, label@, r is Ok),
            r matches Err(e) ==> e == Error::ServiceStopped,
            self.peer().closed() ==> r is Err,
    {
        self.0.emit::<T>(event, label)
    }
}

impl<P> Clone for ServerSocket<P> {
    fn clone(&self) -> (r: Self)
        ensures
            r == *self,
    {
        ServerSocket(self.0.clone())
    }
}

/// What a socket is given is handed to the channel into the main loop, as it is: a notification
/// with its method and parameters, a request with them and the sender of a new channel, whose
/// receiver is waited on, and an event with its type. The result says whether the channel took it,
/// and a closed socket never does.
pub proof fn law_sockets_hand_on_what_they_are_given<T: 'static, P>(
    socket: &PeerSocket<P>,
    method: &str,
    params: JsonValue,
    event: P,
    label: &'static str,
)
    ensures
        forall|v: MainLoopEvent<P>, r: Result<(), Error>| #[trigger]
            call_ensures(PeerSocket::<P>::send, (socket, v), r) ==> {
                &&& socket.posted(v, r is Ok)
                &&& r matches Err(e) ==> e == Error::ServiceStopped
                &&& socket.closed() ==> r is Err
            },
        forall|r: Result<(), Error>| #[trigger]
            call_ensures(PeerSocket::<P>::notify, (socket, method, params), r) ==> {
                &&& exists|notif: AnyNotification|
                    {
                        &&& notif.method@ == method@
                        &&& notif.params == params
                        &&& #[trigger] socket.posted(
                            MainLoopEvent::Outgoing(Message::Notification(notif)),
                            r is Ok,
                        )
                    }
                &&& r matches Err(e) ==> e == Error::ServiceStopped
                &&& socket.closed() ==> r is Err
            },
        forall|r: PeerSocketRequestFuture| #[trigger]
            call_ensures(PeerSocket::<P>::request, (socket, method, params), r) ==> {
                &&& exists|
                    req: AnyRequest,
                    pair: (oneshot::Sender<AnyResponse>, oneshot::Receiver<AnyResponse>),
                |
                    {
                        &&& #[trigger] call_ensures(oneshot::channel::<AnyResponse>, (), pair)
                        &&& req.method@ == method@
                        &&& req.params == params
                        &&& #[trigger] socket.posted(
                            MainLoopEvent::OutgoingRequest(req, pair.0),
                            r.awaits() is Some,
                        )
                        &&& r.awaits() is Some ==> r.awaits() == Some(pair.1)
                    }
                &&& socket.closed() ==> r.awaits() is None
            },
        forall|r: Result<(), Error>| #[trigger]
            call_ensures(PeerSocket::<P>::emit::<T>, (socket, event, label), r) ==> {
                &&& exists|any: AnyEvent<P>|
                    {
                        &&& any.payload() == event
                        &&& identifies::<T>(any.type_id_of())
                        &&& any.name() == label@
                        &&& #[trigger] socket.posted(MainLoopEvent::Any(any), r is Ok)
                    }
                &&& r matches Err(e) ==> e == Error::ServiceStopped
                &&& socket.closed() ==> r is Err
            },
{
    assert forall|r: Result<(), Error>| #[trigger]
        call_ensures(PeerSocket::<P>::notify, (socket, method, params), r) implies exists|
        notif: AnyNotification,
    |
        {
            &&& notif.method@ == method@
            &&& notif.params == params
            &&& #[trigger] socket.posted(
                MainLoopEvent::Outgoing(Message::Notification(notif)),
                r is Ok,
            )
        } by {
        let v = choose|v: MainLoopEvent<P>|
            is_outgoing_notification(v, method@, params) && #[trigger] socket.posted(v, r is Ok);
        match v {
            MainLoopEvent::Outgoing(Message::Notification(notif)) => {
                assert(socket.posted(
                    MainLoopEvent::Outgoing(Message::Notification(notif)),
                    r is Ok,
                ));
            },
            _ => {},
        }
    }
    assert forall|r: Result<(), Error>| #[trigger]
        call_ensures(PeerSocket::<P>::emit::<T>, (socket, event, label), r) implies exists|
        any: AnyEvent<P>,
    |
        {
            &&& any.payload() == event
            &&& identifies::<T>(any.type_id_of())
            &&& any.name() == label@
            &&& #[trigger] socket.posted(MainLoopEvent::Any(any), r is Ok)
        } by {
        let v = choose|v: MainLoopEvent<P>|
            is_loopback::<T, P>(v, event, label@) && #[trigger] socket.posted(v, r is Ok);
        match v {
            MainLoopEvent::Any(any) => {
                assert(socket.posted(MainLoopEvent::Any(any), r is Ok));
            },
            _ => {},
        }
    }
    assert forall|r: PeerSocketRequestFuture| #[trigger]
        call_ensures(PeerSocket::<P>::request, (socket, method, params), r) implies exists|
        req: AnyRequest,
        pair: (oneshot::Sender<AnyResponse>, oneshot::Receiver<AnyResponse>),
    |
        {
            &&& #[trigger] call_ensures(oneshot::channel::<AnyResponse>, (), pair)
            &&& req.method@ == method@
            &&& req.params == params
            &&& #[trigger] socket.posted(
                MainLoopEvent::OutgoingRequest(req, pair.0),
                r.awaits() is Some,
            )
            &&& r.awaits() is Some ==> r.awaits() == Some(pair.1)
        } by {
        let (v, pair) = choose|
            v: MainLoopEvent<P>,
            pair: (oneshot::Sender<AnyResponse>, oneshot::Receiver<AnyResponse>),
        |
            {
                &&& #[trigger] call_ensures(oneshot::channel::<AnyResponse>, (), pair)
                &&& is_outgoing_request(v, method@, params, pair.0)
                &&& #[trigger] socket.posted(v, r.awaits() is Some)
                &&& r.awaits() is Some ==> r.awaits() == Some(pair.1)
            };
        match v {
            MainLoopEvent::OutgoingRequest(req, tx) => {
                assert(socket.posted(
                    MainLoopEvent::OutgoingRequest(req, pair.0),
                    r.awaits() is Some,
                ));
            },
            _ => {},
        }
    }
}

/// A response gives its error if it has one, else its result, `null` if it has none. Without a
/// response the service has stopped.
pub proof fn law_responses_give_their_outcome(resp: AnyResponse, gone: oneshot::Canceled)
    ensures
        forall|r: Result<JsonValue, Error>| #[trigger]
            call_ensures(
                PeerSocketRequestFuture::resolve,
                (Ok::<AnyResponse, oneshot::Canceled>(resp),),
                r,
            ) ==> {
                &&& resp.error matches Some(e) ==> r == Err::<JsonValue, Error>(Error::Response(e))
                &&& resp.error is None && resp.result is Some ==> r == Ok::<JsonValue, Error>(
                    resp.result->0,
                )
                &&& resp.error is None && resp.result is None ==> (r matches Ok(v)
                    && crate::outside::null_document(v))
            },
        forall|r: Result<JsonValue, Error>| #[trigger]
            call_ensures(
                PeerSocketRequestFuture::resolve,
                (Err::<AnyResponse, oneshot::Canceled>(gone),),
                r,
            ) ==> r == Err::<JsonValue, Error>(Error::ServiceStopped),
{
}

} // verus!
