//! Dispatch requests and notifications to individual handlers.
use core::any::TypeId;
use core::marker::PhantomData;
use core::ops::ControlFlow;
use core::task::Waker;
use vstd::hash_map::StringHashMap;
use vstd::prelude::*;
use vstd::string::to_string_from_display_ensures;

use crate::error::{Error, ErrorCode, ResponseError};
use crate::event::{identifies, identity, AnyEvent};
use crate::framing::quoted;
use crate::message::{AnyNotification, AnyRequest};
use crate::server::{refuse, refused_with};
use crate::service::{goes_on, stops_with, Flow, LspService, Polled};
use crate::table::Table;
use crate::text::{is_optional_method, joined, optional_method};

verus! {

/// What a request is answered through by a [`Router`].
#[derive(Debug)]
pub enum Answer<Fut, E> {
    /// A handler answers.
    Handler(Fut),
    /// The answer is an error, at once.
    Refused(E),
}

/// A router dispatching requests and notifications to individual handlers.
///
/// Requests and notifications are dispatched by their methods, events by their types. What has no
/// handler goes to a catch-all handler.
#[verifier::reject_recursive_types(RH)]
#[verifier::reject_recursive_types(NH)]
pub struct Router<St, E, Fut, P, RH, NH, EH> {
    state: St,
    req_handlers: StringHashMap<RH>,
    notif_handlers: StringHashMap<NH>,
    event_handlers: Table<TypeId, EH>,
    unhandled_req: Option<RH>,
    unhandled_notif: Option<NH>,
    unhandled_event: Option<EH>,
    _marker: PhantomData<(E, Fut, P)>,
}

/// The handler of a key: its own one, else the catch-all one if it was set.
pub open spec fn handler_of<K, H>(handlers: Map<K, H>, catch_all: Option<H>, key: K) -> Option<H> {
    if handlers.contains_key(key) {
        Some(handlers[key])
    } else {
        catch_all
    }
}

/// Whether the event handlers `post` are those of `pre` with `handler` for the type `T`.
pub open spec fn handles_events_of<T: 'static, EH>(
    pre: Map<TypeId, EH>,
    handler: EH,
    post: Map<TypeId, EH>,
) -> bool {
    forall|id: TypeId| #[trigger] identifies::<T>(id) ==> post == pre.insert(id, handler)
}

/// Whether a request handler takes every state and every request.
pub open spec fn takes_requests<St, Fut, RH: Fn(&mut St, AnyRequest) -> Fut>(handler: RH) -> bool {
    forall|s: &mut St, req: AnyRequest| #[trigger] call_requires(handler, (s, req))
}

/// Whether a notification handler takes every state and every notification.
pub open spec fn takes_notifications<St, NH: Fn(&mut St, AnyNotification) -> Flow>(
    handler: NH,
) -> bool {
    forall|s: &mut St, notif: AnyNotification| #[trigger] call_requires(handler, (s, notif))
}

/// Whether an event handler takes every state and every event of the identity.
pub open spec fn takes_events<St, P, EH: Fn(&mut St, AnyEvent<P>) -> Flow>(
    handler: EH,
    only: Option<TypeId>,
) -> bool {
    forall|s: &mut St, event: AnyEvent<P>|
        (only matches Some(id) ==> event.type_id_of() == id) ==> #[trigger] call_requires(
            handler,
            (s, event),
        )
}

/// Whether each request handler takes every state and every request.
pub open spec fn all_take_requests<St, Fut, RH: Fn(&mut St, AnyRequest) -> Fut>(
    handlers: Map<Seq<char>, RH>,
) -> bool {
    forall|method: Seq<char>| #[trigger]
        handlers.contains_key(method) ==> takes_requests::<St, Fut, RH>(handlers[method])
}

/// Whether each notification handler takes every state and every notification.
pub open spec fn all_take_notifications<St, NH: Fn(&mut St, AnyNotification) -> Flow>(
    handlers: Map<Seq<char>, NH>,
) -> bool {
    forall|method: Seq<char>| #[trigger]
        handlers.contains_key(method) ==> takes_notifications::<St, NH>(handlers[method])
}

/// Whether each event handler takes every state and every event of its type.
pub open spec fn all_take_events<St, P, EH: Fn(&mut St, AnyEvent<P>) -> Flow>(
    handlers: Map<TypeId, EH>,
) -> bool {
    forall|id: TypeId| #[trigger]
        handlers.contains_key(id) ==> takes_events::<St, P, EH>(handlers[id], Some(id))
}

impl<St, E, Fut, P, RH, NH, EH> Router<St, E, Fut, P, RH, NH, EH> {
    /// The state that the handlers share.
    pub closed spec fn shared(&self) -> St {
        self.state
    }

    /// The request handlers, by method.
    pub closed spec fn requests(&self) -> Map<Seq<char>, RH> {
        self.req_handlers@
    }

    /// The notification handlers, by method.
    pub closed spec fn notifications(&self) -> Map<Seq<char>, NH> {
        self.notif_handlers@
    }

    /// The event handlers, by type.
    pub closed spec fn events(&self) -> Map<TypeId, EH> {
        self.event_handlers@
    }

    /// The catch-all request handler, if one was set.
    pub closed spec fn any_request(&self) -> Option<RH> {
        self.unhandled_req
    }

    /// The catch-all notification handler, if one was set.
    pub closed spec fn any_notification(&self) -> Option<NH> {
        self.unhandled_notif
    }

    /// The catch-all event handler, if one was set.
    pub closed spec fn any_event(&self) -> Option<EH> {
        self.unhandled_event
    }

    /// The handler of a request of the method.
    pub open spec fn for_request(&self, method: Seq<char>) -> Option<RH> {
        handler_of(self.requests(), self.any_request(), method)
    }

    /// The handler of a notification of the method.
    pub open spec fn for_notification(&self, method: Seq<char>) -> Option<NH> {
        handler_of(self.notifications(), self.any_notification(), method)
    }

    /// The handler of an event.
    pub open spec fn for_event(&self, event: AnyEvent<P>) -> Option<EH> {
        handler_of(self.events(), self.any_event(), event.type_id_of())
    }

    /// Whether there is at most one handler for each type of events.
    pub closed spec fn unambiguous(&self) -> bool {
        self.event_handlers.wf()
    }

    /// Whether nothing but the shared state differs.
    pub open spec fn same_handlers(self, post: Self) -> bool {
        &&& post.requests() == self.requests()
        &&& post.notifications() == self.notifications()
        &&& post.events() == self.events()
        &&& post.any_request() == self.any_request()
        &&& post.any_notification() == self.any_notification()
        &&& post.any_event() == self.any_event()
    }

    /// Create a empty `Router`.
    #[must_use]
    pub fn new(state: St) -> (r: Self)
        ensures
            r.unambiguous(),
            r.shared() == state,
            r.requests() == Map::<Seq<char>, RH>::empty(),
            r.notifications() == Map::<Seq<char>, NH>::empty(),
            r.events() == Map::<TypeId, EH>::empty(),
            r.any_request() is None,
            r.any_notification() is None,
            r.any_event() is None,
    {
        Router {
            state,
            req_handlers: StringHashMap::new(),
            notif_handlers: StringHashMap::new(),
            event_handlers: Table::new(),
            unhandled_req: None,
            unhandled_notif: None,
            unhandled_event: None,
            _marker: PhantomData,
        }
    }

    /// Add an asynchronous request handler for a specific method.
    ///
    /// If handler for the method already exists, it replaces the old one.
    pub fn request(&mut self, method: &str, handler: RH) -> (r: &mut Self)
        requires
            old(self).unambiguous(),
        ensures
            *final(self) == *final(r),
            r.unambiguous(),
            r.requests() == old(self).requests().insert(method@, handler),
            r.shared() == old(self).shared(),
            r.notifications() == old(self).notifications(),
            r.events() == old(self).events(),
            r.any_request() == old(self).any_request(),
            r.any_notification() == old(self).any_notification(),
            r.any_event() == old(self).any_event(),
    {
        self.req_handlers.insert(method.to_string(), handler);
        self
    }

    /// Add a synchronous notification handler for a specific method.
    ///
    /// If handler for the method already exists, it replaces the old one.
    pub fn notification(&mut self, method: &str, handler: NH) -> (r: &mut Self)
        requires
            old(self).unambiguous(),
        ensures
            *final(self) == *final(r),
            r.unambiguous(),
            r.notifications() == old(self).notifications().insert(method@, handler),
            r.shared() == old(self).shared(),
            r.requests() == old(self).requests(),
            r.events() == old(self).events(),
            r.any_request() == old(self).any_request(),
            r.any_notification() == old(self).any_notification(),
            r.any_event() == old(self).any_event(),
    {
        self.notif_handlers.insert(method.to_string(), handler);
        self
    }

    /// Add a synchronous event handler for event type `T`.
    ///
    /// If handler for the type already exists, it replaces the old one.
    pub fn event<T: 'static>(&mut self, handler: EH) -> (r: &mut Self)
        requires
            old(self).unambiguous(),
        ensures
            *final(self) == *final(r),
            r.unambiguous(),
            exists|id: TypeId| #[trigger] identifies::<T>(id),
            handles_events_of::<T, EH>(old(self).events(), handler, r.events()),
            r.shared() == old(self).shared(),
            r.requests() == old(self).requests(),
            r.notifications() == old(self).notifications(),
            r.any_request() == old(self).any_request(),
            r.any_notification() == old(self).any_notification(),
            r.any_event() == old(self).any_event(),
    {
        let id = identity::<T>();
        let _ = self.event_handlers.insert(id, handler);
        self
    }

    /// Set an asynchronous catch-all request handler for any requests with no corresponding
    /// handler for its `method`.
    ///
    /// There can only be a single catch-all request handler. New ones replace old ones.
    ///
    /// Without it the answer is a error response with code [`ErrorCode::METHOD_NOT_FOUND`].
    pub fn unhandled_request(&mut self, handler: RH) -> (r: &mut Self)
        requires
            old(self).unambiguous(),
        ensures
            *final(self) == *final(r),
            r.unambiguous(),
            r.any_request() == Some(handler),
            r.shared() == old(self).shared(),
            r.requests() == old(self).requests(),
            r.notifications() == old(self).notifications(),
            r.events() == old(self).events(),
            r.any_notification() == old(self).any_notification(),
            r.any_event() == old(self).any_event(),
    {
        self.unhandled_req = Some(handler);
        self
    }

    /// Set a synchronous catch-all notification handler for any notifications with no
    /// corresponding handler for its `method`.
    ///
    /// There can only be a single catch-all notification handler. New ones replace old ones.
    ///
    /// Without it nothing is done for methods starting with `$/`, and the main loop breaks with
    /// [`Error::Routing`] for other methods. Typically notifications are critical and losing them
    /// can break state synchronization, easily leading to catastrophic failures after incorrect
    /// incremental changes.
    pub fn unhandled_notification(&mut self, handler: NH) -> (r: &mut Self)
        requires
            old(self).unambiguous(),
        ensures
            *final(self) == *final(r),
            r.unambiguous(),
            r.any_notification() == Some(handler),
            r.shared() == old(self).shared(),
            r.requests() == old(self).requests(),
            r.notifications() == old(self).notifications(),
            r.events() == old(self).events(),
            r.any_request() == old(self).any_request(),
            r.any_event() == old(self).any_event(),
    {
        self.unhandled_notif = Some(handler);
        self
    }

    /// Set a synchronous catch-all event handler for any events with no corresponding handler for
    /// its type.
    ///
    /// There can only be a single catch-all event handler. New ones replace old ones.
    ///
    /// Without it the main loop breaks with [`Error::Routing`]. Since events are emitted
    /// internally, mishandling are typically logic errors.
    pub fn unhandled_event(&mut self, handler: EH) -> (r: &mut Self)
        requires
            old(self).unambiguous(),
        ensures
            *final(self) == *final(r),
            r.unambiguous(),
            r.any_event() == Some(handler),
            r.shared() == old(self).shared(),
            r.requests() == old(self).requests(),
            r.notifications() == old(self).notifications(),
            r.events() == old(self).events(),
            r.any_request() == old(self).any_request(),
            r.any_notification() == old(self).any_notification(),
    {
        self.unhandled_event = Some(handler);
        self
    }
}

impl<St: Default, E, Fut, P, RH, NH, EH> Default for Router<St, E, Fut, P, RH, NH, EH> {
    fn default() -> (r: Self)
        ensures
            r.unambiguous(),
            call_ensures(<St as Default>::default, (), r.shared()),
            r.requests() == Map::<Seq<char>, RH>::empty(),
            r.notifications() == Map::<Seq<char>, NH>::empty(),
            r.events() == Map::<TypeId, EH>::empty(),
            r.any_request() is None,
            r.any_notification() is None,
            r.any_event() is None,
    {
        Self::new(St::default())
    }
}

impl<
    St,
    E: From<ResponseError>,
    Fut,
    P,
    RH: Fn(&mut St, AnyRequest) -> Fut,
    NH: Fn(&mut St, AnyNotification) -> Flow,
    EH: Fn(&mut St, AnyEvent<P>) -> Flow,
> LspService for Router<St, E, Fut, P, RH, NH, EH> {
    type Error = E;

    type Future = Answer<Fut, E>;

    type Payload = P;

    open spec fn wf(&self) -> bool {
        &&& self.unambiguous()
        &&& all_take_requests::<St, Fut, RH>(self.requests())
        &&& all_take_notifications::<St, NH>(self.notifications())
        &&& all_take_events::<St, P, EH>(self.events())
        &&& self.any_request() matches Some(h) ==> takes_requests::<St, Fut, RH>(h)
        &&& self.any_notification() matches Some(h) ==> takes_notifications::<St, NH>(h)
        &&& self.any_event() matches Some(h) ==> takes_events::<St, P, EH>(h, None)
    }

    open spec fn polled(pre: Self, _waker: Waker, post: Self, r: Polled<Result<(), E>>) -> bool {
        post == pre && r == Polled::<Result<(), E>>::Ready(Ok(()))
    }

    open spec fn called(pre: Self, req: AnyRequest, post: Self, fut: Answer<Fut, E>) -> bool {
        &&& pre.same_handlers(post)
        &&& match pre.for_request(req.method@) {
            Some(h) => fut is Handler && exists|s: &mut St|
                *s == pre.shared() && #[trigger] call_ensures(h, (s, req), fut->Handler_0),
            None => {
                &&& post.shared() == pre.shared()
                &&& fut matches Answer::Refused(e) && refused_with(
                    e,
                    ErrorCode::METHOD_NOT_FOUND,
                    "No such method "@ + req.method@,
                )
            },
        }
    }

    open spec fn notified(pre: Self, notif: AnyNotification, post: Self, r: Flow) -> bool {
        &&& pre.same_handlers(post)
        &&& match pre.for_notification(notif.method@) {
            Some(h) => exists|s: &mut St|
                *s == pre.shared() && #[trigger] call_ensures(h, (s, notif), r),
            None => {
                &&& post.shared() == pre.shared()
                &&& if is_optional_method(notif.method@) {
                    r == goes_on()
                } else {
                    r matches ControlFlow::Break(Err(e)) && e.is_routing(
                        "Unhandled notification: "@ + notif.method@,
                    )
                }
            },
        }
    }

    open spec fn emitted(pre: Self, event: AnyEvent<P>, post: Self, r: Flow) -> bool {
        &&& pre.same_handlers(post)
        &&& match pre.for_event(event) {
            Some(h) => exists|s: &mut St|
                *s == pre.shared() && #[trigger] call_ensures(h, (s, event), r),
            None => {
                &&& post.shared() == pre.shared()
                &&& r matches ControlFlow::Break(Err(e)) && e.is_routing(
                    "Unhandled event: "@ + event.shown(),
                )
            },
        }
    }

    fn poll_ready(&mut self, _waker: &Waker) -> (r: Polled<Result<(), E>>) {
        Polled::Ready(Ok(()))
    }

    fn call(&mut self, req: AnyRequest) -> (fut: Answer<Fut, E>)
        ensures
            old(self).for_request(req.method@) is Some ==> exists|s: &mut St|
                *s == old(self).shared() && *final(s) == final(self).shared()
                    && #[trigger] call_ensures(
                    old(self).for_request(req.method@)->0,
                    (s, req),
                    fut->Handler_0,
                ),
    {
        let h = match self.req_handlers.get(req.method.as_str()) {
            Some(h) => h,
            None => match &self.unhandled_req {
                Some(h) => h,
                None => {
                    let message = joined("No such method ", req.method.as_str());
                    return Answer::Refused(
                        refuse(ErrorCode::METHOD_NOT_FOUND, message.as_str()),
                    );
                },
            },
        };
        let ghost handler = *h;
        assert(old(self).for_request(req.method@)->0 == handler);
        let f = h(&mut self.state, req);
        assert(exists|s: &mut St|
            *s == old(self).shared() && *final(s) == self.shared() && #[trigger] call_ensures(
                handler,
                (s, req),
                f,
            ));
        let r = Answer::Handler(f);
        assert(r->Handler_0 == f);
        assert(exists|s: &mut St|
            *s == old(self).shared() && *final(s) == self.shared() && #[trigger] call_ensures(
                handler,
                (s, req),
                r->Handler_0,
            ));
        r
    }

    fn notify(&mut self, notif: AnyNotification) -> (r: Flow)
        ensures
            old(self).for_notification(notif.method@) is Some ==> exists|s: &mut St|
                *s == old(self).shared() && *final(s) == final(self).shared()
                    && #[trigger] call_ensures(
                    old(self).for_notification(notif.method@)->0,
                    (s, notif),
                    r,
                ),
    {
        let h = match self.notif_handlers.get(notif.method.as_str()) {
            Some(h) => h,
            None => match &self.unhandled_notif {
                Some(h) => h,
                None => {
                    if optional_method(notif.method.as_str()) {
                        return ControlFlow::Continue(());
                    }
                    return ControlFlow::Break(
                        Err(
                            Error::Routing(
                                joined("Unhandled notification: ", notif.method.as_str()),
                            ),
                        ),
                    );
                },
            },
        };
        let ghost handler = *h;
        assert(old(self).for_notification(notif.method@)->0 == handler);
        let r = h(&mut self.state, notif);
        assert(exists|s: &mut St|
            *s == old(self).shared() && *final(s) == self.shared() && #[trigger] call_ensures(
                handler,
                (s, notif),
                r,
            ));
        r
    }

    fn emit(&mut self, event: AnyEvent<P>) -> (r: Flow)
        ensures
            Self::emitted(*old(self), event, *final(self), r),
            old(self).for_event(event) is Some ==> exists|s: &mut St|
                *s == old(self).shared() && *final(s) == final(self).shared()
                    && #[trigger] call_ensures(old(self).for_event(event)->0, (s, event), r),
    {
        let h = match self.event_handlers.get(event.inner_type_id()) {
            Some(h) => h,
            None => match &self.unhandled_event {
                Some(h) => h,
                None => {
                    let shown = event.debug();
                    return ControlFlow::Break(
                        Err(Error::Routing(joined("Unhandled event: ", shown.as_str()))),
                    );
                },
            },
        };
        let ghost handler = *h;
        assert(old(self).for_event(event)->0 == handler);
        let r = h(&mut self.state, event);
        assert(exists|s: &mut St|
            *s == old(self).shared() && *final(s) == self.shared() && #[trigger] call_ensures(
                handler,
                (s, event),
                r,
            ));
        r
    }
}

/// Whether `e` says that parameters could not be read, and why.
pub open spec fn refused_params<E: From<ResponseError>>(e: E, err: serde_json::Error) -> bool {
    exists|t: String| #[trigger]
        to_string_from_display_ensures(&err, t) && refused_with(
            e,
            ErrorCode::INVALID_PARAMS,
            "Failed to deserialize parameters: "@ + t@,
        )
}

/// Hands a request to a handler of its parameters, if they could be read. Else the answer is an
/// error response with code [`ErrorCode::INVALID_PARAMS`].
pub fn route_request<St, Par, Fut, E: From<ResponseError>, H: Fn(&mut St, Par) -> Fut>(
    handler: &H,
    state: &mut St,
    decoded: Result<Par, serde_json::Error>,
) -> (r: Answer<Fut, E>)
    requires
        forall|s: &mut St, params: Par| #[trigger] call_requires(*handler, (s, params)),
    ensures
        match decoded {
            Ok(params) => r is Handler && exists|s: &mut St|
                *s == *old(state) && *final(s) == *final(state) && #[trigger] call_ensures(
                    *handler,
                    (s, params),
                    r->Handler_0,
                ),
            Err(err) => {
                &&& *final(state) == *old(state)
                &&& r matches Answer::Refused(e) && refused_params(e, err)
            },
        },
{
    match decoded {
        Ok(params) => {
            let f = handler(state, params);
            assert(exists|s: &mut St|
                *s == *old(state) && *final(s) == *state && #[trigger] call_ensures(
                    *handler,
                    (s, params),
                    f,
                ));
            let r = Answer::Handler(f);
            assert(r->Handler_0 == f);
            r
        },
        Err(err) => {
            let t = err.to_string();
            let message = joined("Failed to deserialize parameters: ", t.as_str());
            Answer::Refused(refuse(ErrorCode::INVALID_PARAMS, message.as_str()))
        },
    }
}

/// Hands a notification to a handler of its parameters, if they could be read. Else the main loop
/// breaks with [`Error::Deserialize`].
pub fn route_notification<St, Par, H: Fn(&mut St, Par) -> Flow>(
    handler: &H,
    state: &mut St,
    decoded: Result<Par, serde_json::Error>,
) -> (r: Flow)
    requires
        forall|s: &mut St, params: Par| #[trigger] call_requires(*handler, (s, params)),
    ensures
        match decoded {
            Ok(params) => exists|s: &mut St|
                *s == *old(state) && *final(s) == *final(state) && #[trigger] call_ensures(
                    *handler,
                    (s, params),
                    r,
                ),
            Err(err) => {
                &&& *final(state) == *old(state)
                &&& r == stops_with(Err(Error::Deserialize(err)))
            },
        },
{
    match decoded {
        Ok(params) => {
            let r = handler(state, params);
            assert(exists|s: &mut St|
                *s == *old(state) && *final(s) == *state && #[trigger] call_ensures(
                    *handler,
                    (s, params),
                    r,
                ));
            r
        },
        Err(err) => ControlFlow::Break(Err(Error::from(err))),
    }
}

/// Hands an event of the type `T` to a handler of such events.
pub fn route_event<T: 'static, St, P, H: Fn(&mut St, P) -> Flow>(
    handler: &H,
    state: &mut St,
    event: AnyEvent<P>,
) -> (r: Flow)
    requires
        identifies::<T>(event.type_id_of()),
        forall|s: &mut St, payload: P| #[trigger] call_requires(*handler, (s, payload)),
    ensures
        exists|s: &mut St|
            *s == *old(state) && *final(s) == *final(state) && #[trigger] call_ensures(
                *handler,
                (s, event.payload()),
                r,
            ),
{
    match event.downcast::<T>() {
        Ok(payload) => {
            let r = handler(state, payload);
            assert(exists|s: &mut St|
                *s == *old(state) && *final(s) == *state && #[trigger] call_ensures(
                    *handler,
                    (s, payload),
                    r,
                ));
            r
        },
        Err(_) => ControlFlow::Continue(()),
    }
}

/// A handler that is set for a key replaces the one that was set before, and leaves the other keys
/// as they were.
pub proof fn law_newest_handler_wins<K, H>(
    handlers: Map<K, H>,
    catch_all: Option<H>,
    key: K,
    other: K,
    first: H,
    second: H,
)
    ensures
        handler_of(handlers.insert(key, first).insert(key, second), catch_all, key) == Some(second),
        handlers.insert(key, first).insert(key, second) == handlers.insert(key, second),
        other != key ==> handler_of(handlers.insert(key, second), catch_all, other) == handler_of(
            handlers,
            catch_all,
            other,
        ),
{
}

/// An event of a type goes to the handler that was set for that type.
pub proof fn law_event_reaches_its_handler<T: 'static, P, EH>(
    pre: Map<TypeId, EH>,
    handler: EH,
    post: Map<TypeId, EH>,
    catch_all: Option<EH>,
    event: AnyEvent<P>,
)
    requires
        handles_events_of::<T, EH>(pre, handler, post),
        identifies::<T>(event.type_id_of()),
    ensures
        handler_of(post, catch_all, event.type_id_of()) == Some(handler),
{
}

/// With a catch-all handler nothing is without a handler, so that the router itself never breaks
/// the main loop with [`Error::Routing`].
pub proof fn law_catch_all_handles_everything<K, H>(handlers: Map<K, H>, catch_all: H, key: K)
    ensures
        handler_of(handlers, Some(catch_all), key) is Some,
{
}

/// A request goes to the handler of its method whenever there is one, whatever the catch-all
/// handler is. Only without one it goes to the catch-all handler, and only without that it is
/// refused. The handler is called on the shared state, what it returns is what answers, and nothing
/// but the shared state changes.
pub proof fn law_requests_go_to_their_own_handler<
    St,
    E: From<ResponseError>,
    Fut,
    P,
    RH: Fn(&mut St, AnyRequest) -> Fut,
    NH: Fn(&mut St, AnyNotification) -> Flow,
    EH: Fn(&mut St, AnyEvent<P>) -> Flow,
>(req: AnyRequest)
    ensures
        forall|s: &mut Router<St, E, Fut, P, RH, NH, EH>, fut: Answer<Fut, E>|
            #[trigger] call_ensures(
                <Router<St, E, Fut, P, RH, NH, EH> as LspService>::call,
                (s, req),
                fut,
            ) && s.requests().contains_key(req.method@) ==> fut is Handler && exists|t: &mut St|
                *t == s.shared() && *final(t) == final(s).shared() && #[trigger] call_ensures(
                    s.requests()[req.method@],
                    (t, req),
                    fut->Handler_0,
                ),
        forall|s: &mut Router<St, E, Fut, P, RH, NH, EH>, fut: Answer<Fut, E>|
            #[trigger] call_ensures(
                <Router<St, E, Fut, P, RH, NH, EH> as LspService>::call,
                (s, req),
                fut,
            ) && !s.requests().contains_key(req.method@) && s.any_request() is Some ==> fut
                is Handler && exists|t: &mut St|
                *t == s.shared() && *final(t) == final(s).shared() && #[trigger] call_ensures(
                    s.any_request()->0,
                    (t, req),
                    fut->Handler_0,
                ),
        forall|s: &mut Router<St, E, Fut, P, RH, NH, EH>, fut: Answer<Fut, E>|
            #[trigger] call_ensures(
                <Router<St, E, Fut, P, RH, NH, EH> as LspService>::call,
                (s, req),
                fut,
            ) && !s.requests().contains_key(req.method@) && s.any_request() is None ==> {
                &&& final(s).shared() == s.shared()
                &&& fut is Refused
                &&& exists|object: ResponseError|
                    {
                        &&& #[trigger] call_ensures(
                            <E as From<ResponseError>>::from,
                            (object,),
                            fut->Refused_0,
                        )
                        &&& object.code.0 == -32601
                        &&& object.message@ == "No such method "@ + req.method@
                        &&& object.data is None
                    }
            },
        forall|s: &mut Router<St, E, Fut, P, RH, NH, EH>, fut: Answer<Fut, E>| #[trigger]
            call_ensures(
                <Router<St, E, Fut, P, RH, NH, EH> as LspService>::call,
                (s, req),
                fut,
            ) ==> only_shared_differs(*s, *final(s)),
{
}

/// Whether no handler of a router differs.
pub open spec fn only_shared_differs<St, E, Fut, P, RH, NH, EH>(
    pre: Router<St, E, Fut, P, RH, NH, EH>,
    post: Router<St, E, Fut, P, RH, NH, EH>,
) -> bool {
    &&& post.requests() == pre.requests()
    &&& post.notifications() == pre.notifications()
    &&& post.events() == pre.events()
    &&& post.any_request() == pre.any_request()
    &&& post.any_notification() == pre.any_notification()
    &&& post.any_event() == pre.any_event()
}

/// A notification goes to the handler of its method whenever there is one, whatever the catch-all
/// handler is. Only without one it goes to the catch-all handler. Only without that, nothing is
/// done for methods that start with `$/`, and the main loop breaks for others.
pub proof fn law_notifications_go_to_their_own_handler<
    St,
    E: From<ResponseError>,
    Fut,
    P,
    RH: Fn(&mut St, AnyRequest) -> Fut,
    NH: Fn(&mut St, AnyNotification) -> Flow,
    EH: Fn(&mut St, AnyEvent<P>) -> Flow,
>(notif: AnyNotification)
    ensures
        forall|s: &mut Router<St, E, Fut, P, RH, NH, EH>, r: Flow|
            #[trigger] call_ensures(
                <Router<St, E, Fut, P, RH, NH, EH> as LspService>::notify,
                (s, notif),
                r,
            ) && s.notifications().contains_key(notif.method@) ==> exists|t: &mut St|
                *t == s.shared() && *final(t) == final(s).shared() && #[trigger] call_ensures(
                    s.notifications()[notif.method@],
                    (t, notif),
                    r,
                ),
        forall|s: &mut Router<St, E, Fut, P, RH, NH, EH>, r: Flow|
            #[trigger] call_ensures(
                <Router<St, E, Fut, P, RH, NH, EH> as LspService>::notify,
                (s, notif),
                r,
            ) && !s.notifications().contains_key(notif.method@) && s.any_notification() is Some
                ==> exists|t: &mut St|
                *t == s.shared() && *final(t) == final(s).shared() && #[trigger] call_ensures(
                    s.any_notification()->0,
                    (t, notif),
                    r,
                ),
        forall|s: &mut Router<St, E, Fut, P, RH, NH, EH>, r: Flow|
            #[trigger] call_ensures(
                <Router<St, E, Fut, P, RH, NH, EH> as LspService>::notify,
                (s, notif),
                r,
            ) && !s.notifications().contains_key(notif.method@) && s.any_notification() is None
                ==> {
                &&& final(s).shared() == s.shared()
                &&& "$/"@.is_prefix_of(notif.method@) ==> r is Continue
                &&& !"$/"@.is_prefix_of(notif.method@) ==> (r matches ControlFlow::Break(
                    Err(Error::Routing(text)),
                ) && text@ == "Unhandled notification: "@ + notif.method@)
            },
        forall|s: &mut Router<St, E, Fut, P, RH, NH, EH>, r: Flow| #[trigger]
            call_ensures(
                <Router<St, E, Fut, P, RH, NH, EH> as LspService>::notify,
                (s, notif),
                r,
            ) ==> only_shared_differs(*s, *final(s)),
{
    lemma_optional_methods(notif.method@);
}

/// The methods that may be left unhandled are those that start with `$/`.
pub proof fn lemma_optional_methods(method: Seq<char>)
    ensures
        is_optional_method(method) <==> "$/"@.is_prefix_of(method),
{
    reveal_strlit("$/");
    assert("$/"@ =~= seq!['$', '/']);
    if is_optional_method(method) {
        assert(method.subrange(0, 2) =~= "$/"@);
    }
    if "$/"@.is_prefix_of(method) {
        assert(method.subrange(0, 2) == "$/"@);
        assert(method.subrange(0, 2)[0] == method[0] && method.subrange(0, 2)[1] == method[1]);
    }
}

/// An event goes to the handler of its type whenever there is one, whatever the catch-all handler
/// is. Only without one it goes to the catch-all handler, and only without that the main loop
/// breaks.
pub proof fn law_events_go_to_their_own_handler<
    St,
    E: From<ResponseError>,
    Fut,
    P,
    RH: Fn(&mut St, AnyRequest) -> Fut,
    NH: Fn(&mut St, AnyNotification) -> Flow,
    EH: Fn(&mut St, AnyEvent<P>) -> Flow,
>(event: AnyEvent<P>)
    ensures
        forall|s: &mut Router<St, E, Fut, P, RH, NH, EH>, r: Flow|
            #[trigger] call_ensures(
                <Router<St, E, Fut, P, RH, NH, EH> as LspService>::emit,
                (s, event),
                r,
            ) && s.events().contains_key(event.type_id_of()) ==> exists|t: &mut St|
                *t == s.shared() && *final(t) == final(s).shared() && #[trigger] call_ensures(
                    s.events()[event.type_id_of()],
                    (t, event),
                    r,
                ),
        forall|s: &mut Router<St, E, Fut, P, RH, NH, EH>, r: Flow|
            #[trigger] call_ensures(
                <Router<St, E, Fut, P, RH, NH, EH> as LspService>::emit,
                (s, event),
                r,
            ) && !s.events().contains_key(event.type_id_of()) && s.any_event() is Some
                ==> exists|t: &mut St|
                *t == s.shared() && *final(t) == final(s).shared() && #[trigger] call_ensures(
                    s.any_event()->0,
                    (t, event),
                    r,
                ),
        forall|s: &mut Router<St, E, Fut, P, RH, NH, EH>, r: Flow|
            #[trigger] call_ensures(
                <Router<St, E, Fut, P, RH, NH, EH> as LspService>::emit,
                (s, event),
                r,
            ) && !s.events().contains_key(event.type_id_of()) && s.any_event() is None ==> {
                &&& final(s).shared() == s.shared()
                &&& r matches ControlFlow::Break(Err(Error::Routing(text))) && text@
                    == "Unhandled event: "@ + "AnyEvent { type_name: "@ + quoted(event.name())
                    + ", .. }"@
            },
        forall|s: &mut Router<St, E, Fut, P, RH, NH, EH>, r: Flow| #[trigger]
            call_ensures(
                <Router<St, E, Fut, P, RH, NH, EH> as LspService>::emit,
                (s, event),
                r,
            ) ==> only_shared_differs(*s, *final(s)),
{
    assert("Unhandled event: "@ + event.shown() =~= "Unhandled event: "@ + "AnyEvent { type_name: "@
        + quoted(event.name()) + ", .. }"@);
}

/// Whether a router is asked for readiness or made, it is ready, and it starts without handlers.
pub proof fn law_routers_start_empty_and_are_ready<
    St,
    E: From<ResponseError>,
    Fut,
    P,
    RH: Fn(&mut St, AnyRequest) -> Fut,
    NH: Fn(&mut St, AnyNotification) -> Flow,
    EH: Fn(&mut St, AnyEvent<P>) -> Flow,
>(state: St)
    ensures
        forall|r: Router<St, E, Fut, P, RH, NH, EH>| #[trigger]
            call_ensures(Router::<St, E, Fut, P, RH, NH, EH>::new, (state,), r) ==> {
                &&& r.shared() == state
                &&& r.requests() == Map::<Seq<char>, RH>::empty()
                &&& r.notifications() == Map::<Seq<char>, NH>::empty()
                &&& r.events() == Map::<TypeId, EH>::empty()
                &&& r.any_request() is None
                &&& r.any_notification() is None
                &&& r.any_event() is None
            },
        forall|
            s: &mut Router<St, E, Fut, P, RH, NH, EH>,
            waker: &Waker,
            r: Polled<Result<(), E>>,
        | #[trigger]
            call_ensures(
                <Router<St, E, Fut, P, RH, NH, EH> as LspService>::poll_ready,
                (s, waker),
                r,
            ) ==> *final(s) == *s && (r matches Polled::Ready(Ok(_))),
{
}

/// A handler that is set is the handler of its method from then on, in place of the one that was
/// set before, and nothing else of the router changes.
pub proof fn law_handlers_are_set<St, E, Fut, P, RH, NH, EH>(
    method: &str,
    request: RH,
    notification: NH,
    event: EH,
)
    ensures
        forall|
            s: &mut Router<St, E, Fut, P, RH, NH, EH>,
            r: &mut Router<St, E, Fut, P, RH, NH, EH>,
        | #[trigger]
            call_ensures(
                Router::<St, E, Fut, P, RH, NH, EH>::request,
                (s, method, request),
                r,
            ) ==> {
                &&& *final(s) == *final(r)
                &&& r.requests() == s.requests().insert(method@, request)
                &&& r.shared() == s.shared()
                &&& r.notifications() == s.notifications()
                &&& r.events() == s.events()
                &&& r.any_request() == s.any_request()
                &&& r.any_notification() == s.any_notification()
                &&& r.any_event() == s.any_event()
            },
        forall|
            s: &mut Router<St, E, Fut, P, RH, NH, EH>,
            r: &mut Router<St, E, Fut, P, RH, NH, EH>,
        | #[trigger]
            call_ensures(
                Router::<St, E, Fut, P, RH, NH, EH>::notification,
                (s, method, notification),
                r,
            ) ==> {
                &&& *final(s) == *final(r)
                &&& r.notifications() == s.notifications().insert(method@, notification)
                &&& r.shared() == s.shared()
                &&& r.requests() == s.requests()
                &&& r.events() == s.events()
                &&& r.any_request() == s.any_request()
                &&& r.any_notification() == s.any_notification()
                &&& r.any_event() == s.any_event()
            },
        forall|
            s: &mut Router<St, E, Fut, P, RH, NH, EH>,
            r: &mut Router<St, E, Fut, P, RH, NH, EH>,
        | #[trigger]
            call_ensures(
                Router::<St, E, Fut, P, RH, NH, EH>::unhandled_request,
                (s, request),
                r,
            ) ==> {
                &&& *final(s) == *final(r)
                &&& r.any_request() == Some(request)
                &&& r.shared() == s.shared()
                &&& r.requests() == s.requests()
                &&& r.notifications() == s.notifications()
                &&& r.events() == s.events()
                &&& r.any_notification() == s.any_notification()
                &&& r.any_event() == s.any_event()
            },
        forall|
            s: &mut Router<St, E, Fut, P, RH, NH, EH>,
            r: &mut Router<St, E, Fut, P, RH, NH, EH>,
        | #[trigger]
            call_ensures(
                Router::<St, E, Fut, P, RH, NH, EH>::unhandled_notification,
                (s, notification),
                r,
            ) ==> {
                &&& *final(s) == *final(r)
                &&& r.any_notification() == Some(notification)
                &&& r.shared() == s.shared()
                &&& r.requests() == s.requests()
                &&& r.notifications() == s.notifications()
                &&& r.events() == s.events()
                &&& r.any_request() == s.any_request()
                &&& r.any_event() == s.any_event()
            },
        forall|
            s: &mut Router<St, E, Fut, P, RH, NH, EH>,
            r: &mut Router<St, E, Fut, P, RH, NH, EH>,
        | #[trigger]
            call_ensures(
                Router::<St, E, Fut, P, RH, NH, EH>::unhandled_event,
                (s, event),
                r,
            ) ==> {
                &&& *final(s) == *final(r)
                &&& r.any_event() == Some(event)
                &&& r.shared() == s.shared()
                &&& r.requests() == s.requests()
                &&& r.notifications() == s.notifications()
                &&& r.events() == s.events()
                &&& r.any_request() == s.any_request()
                &&& r.any_notification() == s.any_notification()
            },
{
}

/// A handler that is set for a type of events is the handler of every event that is made of that
/// type, in place of the one that was set before, and nothing else of the router changes.
pub proof fn law_event_handlers_are_set<T: 'static, St, E, Fut, P, RH, NH, EH>(
    handler: EH,
    inner: P,
    label: &'static str,
)
    ensures
        forall|
            s: &mut Router<St, E, Fut, P, RH, NH, EH>,
            r: &mut Router<St, E, Fut, P, RH, NH, EH>,
            event: AnyEvent<P>,
        |
            #![trigger call_ensures(
                Router::<St, E, Fut, P, RH, NH, EH>::event::<T>,
                (s, handler),
                r,
            ), call_ensures(AnyEvent::<P>::new::<T>, (inner, label), event)]
            call_ensures(Router::<St, E, Fut, P, RH, NH, EH>::event::<T>, (s, handler), r)
                && call_ensures(AnyEvent::<P>::new::<T>, (inner, label), event) ==> {
                &&& *final(s) == *final(r)
                &&& r.events() == s.events().insert(event.type_id_of(), handler)
                &&& r.shared() == s.shared()
                &&& r.requests() == s.requests()
                &&& r.notifications() == s.notifications()
                &&& r.any_request() == s.any_request()
                &&& r.any_notification() == s.any_notification()
                &&& r.any_event() == s.any_event()
            },
{
}

/// Parameters that could be read reach the handler, on the state, and what it returns is returned.
/// Those of a request that could not be read are answered with an error that says why, those of a
/// notification end the main loop, and the state is not changed. An event reaches the handler of
/// its type with what it carries.
pub proof fn law_parameters_reach_their_handler<
    St,
    Par,
    Fut,
    E: From<ResponseError>,
    H: Fn(&mut St, Par) -> Fut,
    N: Fn(&mut St, Par) -> Flow,
>(handler: &H, listener: &N, params: Par, err: serde_json::Error)
    ensures
        forall|s: &mut St, r: Answer<Fut, E>| #[trigger]
            call_ensures(
                route_request::<St, Par, Fut, E, H>,
                (handler, s, Ok::<Par, serde_json::Error>(params)),
                r,
            ) ==> r is Handler && exists|t: &mut St|
                *t == *s && *final(t) == *final(s) && #[trigger] call_ensures(
                    *handler,
                    (t, params),
                    r->Handler_0,
                ),
        forall|s: &mut St, r: Answer<Fut, E>| #[trigger]
            call_ensures(
                route_request::<St, Par, Fut, E, H>,
                (handler, s, Err::<Par, serde_json::Error>(err)),
                r,
            ) ==> *final(s) == *s && r is Refused && exists|object: ResponseError, t: String|
                {
                    &&& #[trigger] call_ensures(
                        <E as From<ResponseError>>::from,
                        (object,),
                        r->Refused_0,
                    )
                    &&& #[trigger] to_string_from_display_ensures(&err, t)
                    &&& object.code.0 == -32602
                    &&& object.message@ == "Failed to deserialize parameters: "@ + t@
                    &&& object.data is None
                },
        forall|s: &mut St, r: Flow| #[trigger]
            call_ensures(
                route_notification::<St, Par, N>,
                (listener, s, Ok::<Par, serde_json::Error>(params)),
                r,
            ) ==> exists|t: &mut St|
                *t == *s && *final(t) == *final(s) && #[trigger] call_ensures(
                    *listener,
                    (t, params),
                    r,
                ),
        forall|s: &mut St, r: Flow| #[trigger]
            call_ensures(
                route_notification::<St, Par, N>,
                (listener, s, Err::<Par, serde_json::Error>(err)),
                r,
            ) ==> *final(s) == *s && r == ControlFlow::<Result<(), Error>, ()>::Break(
                Err(Error::Deserialize(err)),
            ),
{
}

} // verus!
