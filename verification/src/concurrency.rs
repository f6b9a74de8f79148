//! Incoming request multiplexing limits and cancellation.
//!
//! *Applies to both Language Servers and Language Clients.*
//!
//! A main loop can poll multiple ongoing requests, while this middleware provides these additional
//! features:
//! 1. Limit concurrent incoming requests to at most `max_concurrency`.
//! 2. Cancellation of incoming requests via client notification `$/cancelRequest`.
use core::ops::ControlFlow;
use core::task::Waker;
use futures::future::{AbortHandle, AbortRegistration, Abortable, Aborted};
use futures::task::AtomicWaker;
use std::sync::Arc;
use vstd::prelude::*;

use crate::error::{ErrorCode, JsonValue, ResponseError};
use crate::event::AnyEvent;
use crate::message::{AnyNotification, AnyRequest, RequestId, RequestIdView};
use crate::outside::{abort, arm, register, take_waker, AbortRight, Marked, Registered};
use crate::server::{refuse, refused_with};
use crate::service::{goes_on, Flow, LspService, Polled};
use crate::table::Table;
use crate::text::same_text;

verus! {

/// `Arc::strong_count`: how many hold the value, the one who asks among them. With a token this
/// comes after a waker was registered.
#[verifier::external_body]
fn holders(shared: &Arc<AtomicWaker>, _after: Option<&Registered>) -> (n: usize)
    ensures
        n >= 1,
{
    Arc::strong_count(shared)
}

/// The id in the parameters of a `$/cancelRequest` notification, as `serde_json::from_value` reads
/// them into `lsp_types::CancelParams`. There is none if they cannot be read.
pub uninterp spec fn cancelled_id(params: serde_json::Value) -> Option<RequestIdView>;

/// `serde_json::from_value` into `lsp_types::CancelParams`: the id of the request to cancel, if the
/// parameters can be read.
#[verifier::external_body]
fn read_cancelled_id(params: JsonValue) -> (r: Option<RequestId>)
    ensures
        match r {
            Some(id) => cancelled_id(params) == Some(id@),
            None => cancelled_id(params) is None,
        },
{
    match serde_json::from_value::<lsp_types::CancelParams>(params) {
        Ok(params) => Some(match params.id {
            lsp_types::NumberOrString::Number(n) => RequestId::Number(n),
            lsp_types::NumberOrString::String(s) => RequestId::String(s),
        }),
        Err(_) => None,
    }
}

/// Whether a middleware of the limit `max` is ready for a request when `seen` places are taken.
pub fn readiness<E>(seen: usize, max: usize) -> (r: Polled<Result<(), E>>)
    ensures
        r == (if seen < max {
            Polled::<Result<(), E>>::Ready(Ok(()))
        } else {
            Polled::Pending
        }),
{
    if seen < max {
        Polled::Ready(Ok(()))
    } else {
        Polled::Pending
    }
}

/// A place among the requests that are being answered. It is taken as long as this exists.
pub struct SemaphoreGuard(Arc<AtomicWaker>);

/// What a request is answered through by the [`Concurrency`] middleware.
#[verifier::reject_recursive_types(Fut)]
pub struct ResponseFuture<Fut> {
    fut: Abortable<Fut>,
    abort_on_drop: AbortRight,
    guard: SemaphoreGuard,
}

impl<Fut> ResponseFuture<Fut> {
    /// What the inner service answers through, which can be aborted.
    pub closed spec fn abortable(&self) -> Abortable<Fut> {
        self.fut
    }

    /// The handle that aborts it.
    pub closed spec fn handle(&self) -> AbortHandle {
        self.abort_on_drop.of()
    }

    /// The right to abort it, which is used up when the request is not being answered any more.
    pub closed spec fn right(&self) -> AbortRight {
        self.abort_on_drop
    }

    /// Whose place it takes.
    pub closed spec fn semaphore(&self) -> Arc<AtomicWaker> {
        self.guard.0
    }

    /// What the inner service answers through.
    pub fn future(&mut self) -> (r: &mut Abortable<Fut>)
        ensures
            *r == old(self).abortable(),
            final(self).abortable() == *final(r),
            final(self).handle() == old(self).handle(),
            final(self).semaphore() == old(self).semaphore(),
            final(self).right() == old(self).right(),
    {
        &mut self.fut
    }

    /// The answer to the request, from what the abortable future gave.
    pub fn resolve<R, E: From<ResponseError>>(
        polled: Polled<Result<Result<R, E>, Aborted>>,
    ) -> (r: Polled<Result<R, E>>)
        ensures
            match polled {
                Polled::Pending => r is Pending,
                Polled::Ready(Ok(inner)) => r == Polled::Ready(inner),
                Polled::Ready(Err(_)) => r matches Polled::Ready(Err(e)) && refused_with(
                    e,
                    ErrorCode::REQUEST_CANCELLED,
                    "Client cancelled the request"@,
                ),
            },
    {
        match polled {
            Polled::Pending => Polled::Pending,
            Polled::Ready(Ok(inner)) => Polled::Ready(inner),
            Polled::Ready(Err(_)) => Polled::Ready(
                Err(refuse(ErrorCode::REQUEST_CANCELLED, "Client cancelled the request")),
            ),
        }
    }

    /// The request was marked as aborted, and then who waits for a place was woken.
    pub closed spec fn released(&self) -> bool {
        exists|mark: Marked, woken: Option<Waker>|
            {
                &&& #[trigger] call_ensures(abort, (self.right(),), mark)
                &&& #[trigger] call_ensures(take_waker, (&*self.semaphore(), Some(&mark)), woken)
                &&& woken matches Some(waker) ==> call_ensures(Waker::wake, (waker,), ())
            }
    }

    /// The request is not being answered any more: lets go of the inner answer, marks the request
    /// as aborted, so that it can be purged, wakes who waits for a place, and gives the place back.
    pub fn release(self)
        ensures
            self.released(),
    {
        let ghost this = self;
        let ResponseFuture { fut, abort_on_drop, guard } = self;
        {
            let _answer = fut;
        }
        let mark = abort(abort_on_drop);
        assert(call_ensures(abort, (this.right(),), mark));
        let woken = take_waker(&guard.0, Some(&mark));
        assert(call_ensures(take_waker, (&*this.semaphore(), Some(&mark)), woken));
        match woken {
            Some(waker) => {
                waker.wake();
            },
            None => {},
        }
    }
}

/// The middleware for incoming request multiplexing limits and cancellation.
pub struct Concurrency<S> {
    service: S,
    max_concurrency: usize,
    semaphore: Arc<AtomicWaker>,
    ongoing: Table<RequestId, AbortRight>,
}

impl<S> Concurrency<S> {
    /// The inner service.
    pub closed spec fn inner(&self) -> S {
        self.service
    }

    /// How many requests can be answered at once.
    pub closed spec fn max(&self) -> nat {
        self.max_concurrency as nat
    }

    /// Who takes a place holds this.
    pub closed spec fn semaphore(&self) -> Arc<AtomicWaker> {
        self.semaphore
    }

    /// The requests that can be cancelled, and the handles that abort them.
    pub closed spec fn ongoing(&self) -> Map<RequestIdView, AbortHandle> {
        handles_of(self.ongoing@)
    }

    /// The rights to abort the requests that can be cancelled, none of them used up.
    pub closed spec fn rights(&self) -> Map<RequestIdView, AbortRight> {
        self.ongoing@
    }

    /// Whether the limits fit the machine and no request is there twice.
    pub closed spec fn limits_ok(&self) -> bool {
        &&& 0 < self.max_concurrency
        &&& self.max_concurrency * 2 <= usize::MAX
        &&& self.ongoing.wf()
    }

    /// It was counted how many places are taken, and there were `n`.
    pub closed spec fn counted(&self, n: nat) -> bool {
        exists|all: usize|
            #[trigger] call_ensures(holders, (&self.semaphore, None), all) && n == all - 1
    }

    /// The waker was registered, to be woken when a place becomes free.
    pub closed spec fn registered(&self, waker: Waker) -> bool {
        exists|done: Registered| #[trigger] call_ensures(register, (&*self.semaphore, &waker), done)
    }

    /// After the waker was registered it was counted how many places are taken, and there were
    /// `n`.
    pub closed spec fn recounted(&self, waker: Waker, n: nat) -> bool {
        exists|done: Registered, all: usize|
            {
                &&& #[trigger] call_ensures(register, (&*self.semaphore, &waker), done)
                &&& #[trigger] call_ensures(holders, (&self.semaphore, Some(&done)), all)
                &&& n == all - 1
            }
    }

    /// Whether nothing but the inner service differs.
    pub open spec fn same_but_service(self, post: Self) -> bool {
        &&& post.max() == self.max()
        &&& post.semaphore() == self.semaphore()
        &&& post.ongoing() == self.ongoing()
        &&& post.rights() == self.rights()
    }

    /// Get a reference to the inner service.
    #[must_use]
    pub fn get_ref(&self) -> (r: &S)
        ensures
            *r == self.inner(),
    {
        &self.service
    }

    /// Get a mutable reference to the inner service.
    #[must_use]
    pub fn get_mut(&mut self) -> (r: &mut S)
        ensures
            *r == old(self).inner(),
            final(self).inner() == *final(r),
            old(self).same_but_service(*final(self)),
            final(self).limits_ok() == old(self).limits_ok(),
    {
        &mut self.service
    }

    /// The waker that was registered last, if any, was taken out. Who gives a place back then
    /// finds nobody to wake.
    pub closed spec fn retired(&self) -> bool {
        exists|woken: Option<Waker>| #[trigger]
            call_ensures(take_waker, (&*self.semaphore, None), woken)
    }

    /// The middleware is not used any more: nobody is woken when a place is given back.
    pub fn retire(&self)
        ensures
            self.retired(),
    {
        let woken = take_waker(&self.semaphore, None);
        assert(call_ensures(take_waker, (&*self.semaphore, None), woken));
    }

    /// Consume self, returning the inner service. Nobody is woken any more when a place is given
    /// back.
    #[must_use]
    pub fn into_inner(self) -> (r: S)
        ensures
            r == self.inner(),
            self.retired(),
    {
        self.retire();
        self.service
    }

    /// Counts how many places are taken.
    pub fn active(&self) -> (n: usize)
        ensures
            self.counted(n as nat),
    {
        let all: usize = holders(&self.semaphore, None);
        assert(call_ensures(holders, (&self.semaphore, None), all));
        all - 1
    }

    /// Registers the waker, and then counts how many places are taken.
    fn active_once_registered(&self, waker: &Waker) -> (n: usize)
        ensures
            self.registered(*waker),
            self.recounted(*waker, n as nat),
    {
        let done = register(&self.semaphore, waker);
        assert(call_ensures(register, (&*self.semaphore, waker), done));
        let all: usize = holders(&self.semaphore, Some(&done));
        assert(call_ensures(holders, (&self.semaphore, Some(&done)), all));
        all - 1
    }

    /// How many requests can be answered at once.
    pub fn max_concurrency(&self) -> (n: usize)
        ensures
            n == self.max(),
    {
        self.max_concurrency
    }

    /// How many requests are tracked, so that they can be cancelled.
    pub fn tracked_requests(&self) -> (n: usize)
        requires
            self.limits_ok(),
        ensures
            self.ongoing().dom().finite(),
            n == self.ongoing().len(),
    {
        assert(self.ongoing().dom() =~= self.ongoing@.dom());
        self.ongoing.len()
    }

    /// Aborts the request of the id and forgets it.
    pub fn cancel(&mut self, id: &RequestId)
        requires
            old(self).limits_ok(),
        ensures
            final(self).limits_ok(),
            final(self).ongoing() == old(self).ongoing().remove(id@),
            final(self).rights() == old(self).rights().remove(id@),
            old(self).ongoing().contains_key(id@) ==> aborted(old(self).ongoing()[id@]),
            final(self).inner() == old(self).inner(),
            final(self).max() == old(self).max(),
            final(self).semaphore() == old(self).semaphore(),
    {
        assert(handles_of(self.ongoing@.remove(id@)) =~= handles_of(self.ongoing@).remove(id@));
        match self.ongoing.remove(id) {
            Some(right) => {
                let ghost used = right;
                let mark = abort(right);
                assert(call_ensures(abort, (used,), mark));
            },
            None => {},
        }
    }
}

/// The future was aborted through the handle.
pub closed spec fn aborted(handle: AbortHandle) -> bool {
    exists|right: AbortRight, mark: Marked|
        right.of() == handle && #[trigger] call_ensures(abort, (right,), mark)
}

/// The handles that rights are for.
pub open spec fn handles_of(rights: Map<RequestIdView, AbortRight>) -> Map<
    RequestIdView,
    AbortHandle,
> {
    Map::new(|id: RequestIdView| rights.contains_key(id), |id: RequestIdView| rights[id].of())
}

/// Whether `after` is `before` without the requests whose handles were found to be aborted.
pub open spec fn purged(
    before: Map<RequestIdView, AbortHandle>,
    after: Map<RequestIdView, AbortHandle>,
) -> bool {
    &&& forall|id: RequestIdView| #[trigger]
        after.contains_key(id) ==> before.contains_key(id) && after[id] == before[id]
            && call_ensures(AbortHandle::is_aborted, (&before[id],), false)
    &&& forall|id: RequestIdView| #[trigger]
        before.contains_key(id) && !after.contains_key(id) ==> call_ensures(
            AbortHandle::is_aborted,
            (&before[id],),
            true,
        )
}

/// Asking for readiness with a waker can turn `pre` into `post` and return `r`, where `seen` is how
/// many places were seen to be taken when it was decided. That the middleware is not ready is
/// decided only after the waker was registered.
pub open spec fn polled_seeing<S: LspService>(
    pre: Concurrency<S>,
    waker: Waker,
    post: Concurrency<S>,
    r: Polled<Result<(), S::Error>>,
    seen: nat,
) -> bool where S::Error: From<ResponseError> {
    &&& post == pre
    &&& if seen < pre.max() {
        &&& r == Polled::<Result<(), S::Error>>::Ready(Ok(()))
        &&& pre.counted(seen) || pre.recounted(waker, seen)
    } else {
        &&& r is Pending
        &&& pre.registered(waker)
        &&& pre.recounted(waker, seen)
    }
}

/// Readiness is always decided by how many places were seen to be taken.
pub proof fn lemma_polled_sees<S: LspService>(
    pre: Concurrency<S>,
    waker: Waker,
    post: Concurrency<S>,
    r: Polled<Result<(), S::Error>>,
) where S::Error: From<ResponseError>
    requires
        Concurrency::<S>::polled(pre, waker, post, r),
    ensures
        exists|seen: nat| #[trigger] polled_seeing(pre, waker, post, r, seen),
{
    let n = choose|n: nat| #[trigger]
        pre.counted(n) && if n < pre.max() {
            r == Polled::<Result<(), S::Error>>::Ready(Ok(()))
        } else {
            decided_once_registered(pre, waker, r)
        };
    if n < pre.max() {
        assert(polled_seeing(pre, waker, post, r, n));
    } else {
        let m = choose|m: nat| #[trigger]
            pre.recounted(waker, m) && r == (if m < pre.max() {
                Polled::<Result<(), S::Error>>::Ready(Ok(()))
            } else {
                Polled::Pending
            });
        assert(polled_seeing(pre, waker, post, r, m));
    }
}

/// The waker was registered, and then `r` was decided by how many places are taken.
pub open spec fn decided_once_registered<S: LspService>(
    middleware: Concurrency<S>,
    waker: Waker,
    r: Polled<Result<(), S::Error>>,
) -> bool {
    &&& middleware.registered(waker)
    &&& exists|m: nat| #[trigger]
        middleware.recounted(waker, m) && r == (if m < middleware.max() {
            Polled::<Result<(), S::Error>>::Ready(Ok(()))
        } else {
            Polled::Pending
        })
}

/// The request `req` can turn `pre` into `post` and be answered through `fut`, where `kept` are the
/// earlier requests that are still tracked.
pub open spec fn called_keeping<S: LspService>(
    pre: Concurrency<S>,
    req: AnyRequest,
    post: Concurrency<S>,
    fut: ResponseFuture<S::Future>,
    kept: Map<RequestIdView, AbortHandle>,
) -> bool where S::Error: From<ResponseError> {
    &&& post.max() == pre.max()
    &&& post.semaphore() == pre.semaphore()
    &&& fut.semaphore() == pre.semaphore()
    &&& post.ongoing() == kept.insert(req.id@, fut.handle())
    &&& fut.right().of() == fut.handle()
    &&& post.rights().contains_key(req.id@) && post.rights()[req.id@].of() == fut.handle()
    &&& forall|id: RequestIdView| #[trigger]
        post.rights().contains_key(id) && id != req.id@ ==> pre.rights().contains_key(id)
            && post.rights()[id] == pre.rights()[id]
    &&& if pre.ongoing().len() >= pre.max() * 2 {
        purged(pre.ongoing(), kept)
    } else {
        kept == pre.ongoing()
    }
    &&& exists|registration: AbortRegistration, inner: S::Future|
        {
            &&& call_ensures(AbortHandle::new_pair, (), (fut.handle(), registration))
            &&& #[trigger] S::called(pre.inner(), req, post.inner(), inner)
            &&& #[trigger] call_ensures(
                Abortable::<S::Future>::new,
                (inner, registration),
                fut.abortable(),
            )
        }
}

impl<S> Concurrency<S> {
    /// Forgets the requests that are not being answered any more.
    fn purge(&mut self)
        requires
            old(self).limits_ok(),
        ensures
            final(self).limits_ok(),
            purged(old(self).ongoing(), final(self).ongoing()),
            forall|id: RequestIdView| #[trigger]
                final(self).rights().contains_key(id) ==> old(self).rights().contains_key(id)
                    && final(self).rights()[id] == old(self).rights()[id],
            final(self).inner() == old(self).inner(),
            final(self).max() == old(self).max(),
            final(self).semaphore() == old(self).semaphore(),
    {
        let alive = |right: &AbortRight| -> (r: bool)
            ensures
                call_ensures(AbortHandle::is_aborted, (&right.of(),), !r),
        {
            !right.is_spent()
        };
        self.ongoing.retain(alive);
    }
}

impl<S: LspService> LspService for Concurrency<S> where S::Error: From<ResponseError> {
    type Error = S::Error;

    type Future = ResponseFuture<S::Future>;

    type Payload = S::Payload;

    open spec fn wf(&self) -> bool {
        self.inner().wf() && self.limits_ok()
    }

    open spec fn polled(
        pre: Self,
        waker: Waker,
        post: Self,
        r: Polled<Result<(), S::Error>>,
    ) -> bool {
        &&& post == pre
        &&& exists|n: nat| #[trigger]
            pre.counted(n) && if n < pre.max() {
                r == Polled::<Result<(), S::Error>>::Ready(Ok(()))
            } else {
                decided_once_registered(pre, waker, r)
            }
    }

    open spec fn called(
        pre: Self,
        req: AnyRequest,
        post: Self,
        fut: ResponseFuture<S::Future>,
    ) -> bool {
        exists|kept: Map<RequestIdView, AbortHandle>| #[trigger]
            called_keeping(pre, req, post, fut, kept)
    }

    open spec fn notified(pre: Self, notif: AnyNotification, post: Self, r: Flow) -> bool {
        if notif.method@ == "$/cancelRequest"@ {
            &&& r == goes_on()
            &&& post.inner() == pre.inner()
            &&& post.max() == pre.max()
            &&& post.semaphore() == pre.semaphore()
            &&& match cancelled_id(notif.params) {
                Some(id) => {
                    &&& post.ongoing() == pre.ongoing().remove(id)
                    &&& post.rights() == pre.rights().remove(id)
                    &&& pre.ongoing().contains_key(id) ==> aborted(pre.ongoing()[id])
                },
                None => post.ongoing() == pre.ongoing() && post.rights() == pre.rights(),
            }
        } else {
            &&& S::notified(pre.inner(), notif, post.inner(), r)
            &&& pre.same_but_service(post)
        }
    }

    open spec fn emitted(pre: Self, event: AnyEvent<S::Payload>, post: Self, r: Flow) -> bool {
        &&& S::emitted(pre.inner(), event, post.inner(), r)
        &&& pre.same_but_service(post)
    }

    fn poll_ready(&mut self, waker: &Waker) -> (r: Polled<Result<(), S::Error>>) {
        let first: usize = self.active();
        assert(self.counted(first as nat));
        match readiness(first, self.max_concurrency) {
            Polled::Ready(ready) => Polled::Ready(ready),
            Polled::Pending => {
                let second: usize = self.active_once_registered(waker);
                assert(self.recounted(*waker, second as nat));
                readiness(second, self.max_concurrency)
            },
        }
    }

    fn call(&mut self, req: AnyRequest) -> (fut: ResponseFuture<S::Future>) {
        let guard = SemaphoreGuard(self.semaphore.clone());
        let (handle, registration) = AbortHandle::new_pair();
        assert(self.ongoing().dom() =~= self.ongoing@.dom());
        if self.ongoing.len() >= self.max_concurrency * 2 {
            self.purge();
        }
        let ghost kept = self.ongoing();
        let ghost held = self.rights();
        let (to_release, to_cancel, armed) = arm(handle, registration);
        let ghost right = to_cancel;
        let _ = self.ongoing.insert(req.id.clone(), to_cancel);
        assert(handles_of(held.insert(req.id@, right)) =~= handles_of(held).insert(
            req.id@,
            right.of(),
        ));
        let fut = self.service.call(req);
        let ghost inner = fut;
        assert(S::called(old(self).inner(), req, self.inner(), inner));
        let fut = armed.tie(fut);
        let r = ResponseFuture { fut, abort_on_drop: to_release, guard };
        assert(call_ensures(
            Abortable::<S::Future>::new,
            (inner, registration),
            r.abortable(),
        ));
        assert(called_keeping(*old(self), req, *self, r, kept));
        r
    }

    fn notify(&mut self, notif: AnyNotification) -> (r: Flow) {
        if same_text(notif.method.as_str(), "$/cancelRequest") {
            match read_cancelled_id(notif.params) {
                Some(id) => {
                    self.cancel(&id);
                },
                None => {},
            }
            return ControlFlow::Continue(());
        }
        self.service.notify(notif)
    }

    fn emit(&mut self, event: AnyEvent<S::Payload>) -> (r: Flow) {
        self.service.emit(event)
    }
}

/// The builder of [`Concurrency`] middleware.
#[must_use]
#[derive(Clone, Copy, Debug)]
pub struct ConcurrencyBuilder {
    max_concurrency: usize,
}

impl ConcurrencyBuilder {
    /// The concurrency limit.
    pub closed spec fn max(&self) -> nat {
        self.max_concurrency as nat
    }

    /// Create the middleware with concurrency limit `max_concurrency`.
    pub fn new(max_concurrency: usize) -> (r: Self)
        requires
            max_concurrency > 0,
        ensures
            r.max() == max_concurrency,
    {
        Self { max_concurrency }
    }

    /// The middleware with the parallelism that was found on the machine as its concurrency limit,
    /// fallback to `1` if none was found.
    pub fn for_parallelism(found: Option<usize>) -> (r: Self)
        requires
            found matches Some(n) ==> n > 0,
        ensures
            r.max() == (match found {
                Some(n) => n as nat,
                None => 1,
            }),
    {
        match found {
            Some(n) => Self::new(n),
            None => Self::new(1),
        }
    }

    /// The concurrency limit.
    pub fn max_concurrency(&self) -> (n: usize)
        ensures
            n == self.max(),
    {
        self.max_concurrency
    }

    /// Wraps a service.
    pub fn layer<S>(&self, inner: S) -> (r: Concurrency<S>)
        requires
            0 < self.max(),
            self.max() * 2 <= usize::MAX,
        ensures
            r.limits_ok(),
            r.inner() == inner,
            r.max() == self.max(),
            r.ongoing() == Map::<RequestIdView, AbortHandle>::empty(),
            call_ensures(AtomicWaker::new, (), *r.semaphore()),
    {
        Concurrency {
            service: inner,
            max_concurrency: self.max_concurrency,
            semaphore: Arc::new(AtomicWaker::new()),
            ongoing: Table::new(),
        }
    }
}

/// A type alias of [`ConcurrencyBuilder`] conforming to the naming convention of layers.
pub type ConcurrencyLayer = ConcurrencyBuilder;

/// Cancelling a request that is tracked aborts the future through which it is answered. The inner
/// service stays as it was, and every other request stays tracked.
pub proof fn law_cancel_reaches_its_request<S: LspService>(
    pre: Concurrency<S>,
    req: AnyRequest,
    post: Concurrency<S>,
    fut: ResponseFuture<S::Future>,
    later: Concurrency<S>,
    notif: AnyNotification,
    after: Concurrency<S>,
    r: Flow,
) where S::Error: From<ResponseError>
    requires
        Concurrency::<S>::called(pre, req, post, fut),
        later.ongoing().contains_key(req.id@),
        later.ongoing()[req.id@] == post.ongoing()[req.id@],
        Concurrency::<S>::notified(later, notif, after, r),
        notif.method@ == "$/cancelRequest"@,
        cancelled_id(notif.params) == Some(req.id@),
    ensures
        aborted(fut.handle()),
        after.ongoing() == later.ongoing().remove(req.id@),
        after.inner() == later.inner(),
        r == goes_on(),
{
}

/// Whether an operation other than a request of the id, or its cancellation, can turn `pre` into
/// `post`.
pub open spec fn leaves_alone<S: LspService>(
    pre: Concurrency<S>,
    post: Concurrency<S>,
    id: RequestIdView,
) -> bool where S::Error: From<ResponseError> {
    ||| exists|waker: Waker, r: Polled<Result<(), S::Error>>|
        #[trigger] Concurrency::<S>::polled(pre, waker, post, r)
    ||| exists|req: AnyRequest, fut: ResponseFuture<S::Future>|
        #[trigger] Concurrency::<S>::called(pre, req, post, fut) && req.id@ != id
    ||| exists|notif: AnyNotification, r: Flow|
        #[trigger] Concurrency::<S>::notified(pre, notif, post, r) && cancelled_id(notif.params)
            != Some(id)
    ||| exists|event: AnyEvent<S::Payload>, r: Flow|
        #[trigger] Concurrency::<S>::emitted(pre, event, post, r)
}

/// Whether a request that is tracked in `pre` is tracked in `post` with the same handle, or else
/// was found not to be answered any more.
pub open spec fn tracked_or_gone<S>(
    pre: Concurrency<S>,
    post: Concurrency<S>,
    id: RequestIdView,
) -> bool {
    ||| post.ongoing().contains_key(id) && post.ongoing()[id] == pre.ongoing()[id]
    ||| call_ensures(AbortHandle::is_aborted, (&pre.ongoing()[id],), true)
}

/// A request that is tracked stays so, unless its id is used again, it is cancelled, or it was
/// found not to be answered any more.
pub proof fn law_request_stays_tracked<S: LspService>(
    pre: Concurrency<S>,
    post: Concurrency<S>,
    id: RequestIdView,
) where S::Error: From<ResponseError>
    requires
        pre.ongoing().contains_key(id),
        leaves_alone(pre, post, id),
    ensures
        tracked_or_gone(pre, post, id),
{
}

/// What happens to the middleware and to the futures that it returned.
pub enum Step<S: LspService> {
    /// It is asked whether it is ready.
    Poll {
        /// What is woken when it may be ready.
        waker: Waker,
        /// What it says.
        said: Polled<Result<(), S::Error>>,
        /// How many places were seen to be taken.
        seen: nat,
    },
    /// A request.
    Call {
        /// The request.
        req: AnyRequest,
        /// What it is answered through.
        fut: ResponseFuture<S::Future>,
        /// The earlier requests that are still tracked.
        kept: Map<RequestIdView, AbortHandle>,
    },
    /// A notification.
    Notify {
        /// The notification.
        notif: AnyNotification,
        /// What the middleware does.
        r: Flow,
    },
    /// An event.
    Emit {
        /// The event.
        event: AnyEvent<S::Payload>,
        /// What the middleware does.
        r: Flow,
    },
    /// The future that the request of the step `call` is answered through is released.
    Gone {
        /// The step.
        call: int,
    },
}

/// The steps whose requests are in flight after all the steps: their futures are not released yet.
pub open spec fn in_flight<S: LspService>(steps: Seq<Step<S>>) -> Set<int>
    decreases steps.len(),
{
    if steps.len() == 0 {
        Set::empty()
    } else {
        let before = in_flight(steps.drop_last());
        match steps.last() {
            Step::Call { .. } => before.insert(steps.len() - 1),
            Step::Gone { call } => before.remove(call),
            _ => before,
        }
    }
}

/// Whether the middleware said at the step `j` that it was ready, and no request came from then to
/// the step `i`.
pub open spec fn asked_at<S: LspService>(steps: Seq<Step<S>>, j: int, i: int) -> bool {
    &&& 0 <= j < i <= steps.len()
    &&& steps[j] matches Step::Poll { said, .. } && said is Ready
    &&& forall|k: int| j < k < i ==> !(#[trigger] steps[k] is Call)
}

/// Whether the step `i` can turn `pre` into `post`. As many places are seen to be taken as there
/// are requests in flight, and a request comes only after the middleware was asked and said that it
/// was ready.
pub open spec fn can_step<S: LspService>(
    pre: Concurrency<S>,
    steps: Seq<Step<S>>,
    i: int,
    post: Concurrency<S>,
) -> bool where S::Error: From<ResponseError> {
    match steps[i] {
        Step::Poll { waker, said, seen } => {
            &&& polled_seeing(pre, waker, post, said, seen)
            &&& seen == in_flight(steps.take(i)).len()
        },
        Step::Call { req, fut, kept } => {
            &&& called_keeping(pre, req, post, fut, kept)
            &&& exists|j: int| #[trigger] asked_at(steps, j, i)
        },
        Step::Notify { notif, r } => Concurrency::<S>::notified(pre, notif, post, r),
        Step::Emit { event, r } => Concurrency::<S>::emitted(pre, event, post, r),
        Step::Gone { call } => {
            &&& post == pre
            &&& in_flight(steps.take(i)).contains(call)
            &&& steps[call] matches Step::Call { fut, .. } && fut.released()
        },
    }
}

/// A history of a middleware with the limit `max`: what it is before each step, and after the last.
pub open spec fn history<S: LspService>(
    max: nat,
    states: Seq<Concurrency<S>>,
    steps: Seq<Step<S>>,
) -> bool where S::Error: From<ResponseError> {
    &&& states.len() == steps.len() + 1
    &&& states[0].max() == max
    &&& states[0].ongoing() == Map::<RequestIdView, AbortHandle>::empty()
    &&& forall|i: int|
        #![trigger steps[i]]
        0 <= i < steps.len() ==> can_step(states[i], steps, i, states[i + 1])
}

/// A history without its last step is a history.
proof fn lemma_shorter<S: LspService>(
    max: nat,
    states: Seq<Concurrency<S>>,
    steps: Seq<Step<S>>,
) where S::Error: From<ResponseError>
    requires
        history(max, states, steps),
        steps.len() > 0,
    ensures
        history(max, states.drop_last(), steps.drop_last()),
{
    let before = steps.drop_last();
    let earlier = states.drop_last();
    assert forall|i: int| #![trigger before[i]] 0 <= i < before.len() implies can_step(
        earlier[i],
        before,
        i,
        earlier[i + 1],
    ) by {
        assert(before[i] == steps[i]);
        assert(before.take(i) =~= steps.take(i));
        assert(can_step(states[i], steps, i, states[i + 1]));
        match steps[i] {
            Step::Call { .. } => {
                let j = choose|j: int| #[trigger] asked_at(steps, j, i);
                assert(asked_at(before, j, i)) by {
                    assert forall|k: int| j < k < i implies !(#[trigger] before[k] is Call) by {
                        assert(!(steps[k] is Call));
                    }
                }
            },
            Step::Gone { call } => {
                lemma_in_flight(steps.take(i));
                assert(before[call] == steps[call]);
            },
            _ => {},
        }
    }
}

/// The requests in flight are finitely many earlier requests.
proof fn lemma_in_flight<S: LspService>(steps: Seq<Step<S>>)
    ensures
        in_flight(steps).finite(),
        forall|c: int| #[trigger]
            in_flight(steps).contains(c) ==> 0 <= c < steps.len() && steps[c] is Call,
    decreases steps.len(),
{
    if steps.len() > 0 {
        let before = steps.drop_last();
        lemma_in_flight(before);
        assert forall|c: int| #[trigger] in_flight(steps).contains(c) implies 0 <= c < steps.len()
            && steps[c] is Call by {
            if in_flight(before).contains(c) {
                assert(before[c] == steps[c]);
            }
        }
    }
}

/// As long as no request comes, no more are in flight than before.
proof fn lemma_only_leaving<S: LspService>(steps: Seq<Step<S>>, j: int, i: int)
    requires
        0 <= j <= i <= steps.len(),
        forall|k: int| j <= k < i ==> !(#[trigger] steps[k] is Call),
    ensures
        in_flight(steps.take(i)).len() <= in_flight(steps.take(j)).len(),
    decreases i - j,
{
    if j < i {
        lemma_only_leaving(steps, j, i - 1);
        assert(steps.take(i).drop_last() =~= steps.take(i - 1));
        assert(steps.take(i).last() == steps[i - 1]);
        lemma_in_flight(steps.take(i - 1));
    }
}

/// The limit of a middleware never changes.
proof fn lemma_max_kept<S: LspService>(
    max: nat,
    states: Seq<Concurrency<S>>,
    steps: Seq<Step<S>>,
    i: int,
) where S::Error: From<ResponseError>
    requires
        history(max, states, steps),
        0 <= i < states.len(),
    ensures
        states[i].max() == max,
    decreases i,
{
    if i > 0 {
        lemma_max_kept(max, states, steps, i - 1);
        assert(can_step(states[i - 1], steps, i - 1, states[i - 1 + 1])) by {
            assert(steps[i - 1] == steps[i - 1]);
        }
    }
}

/// From when the middleware said that it was ready to the next request, there is room for it.
proof fn lemma_room_since<S: LspService>(
    max: nat,
    states: Seq<Concurrency<S>>,
    steps: Seq<Step<S>>,
    j: int,
    i: int,
) where S::Error: From<ResponseError>
    requires
        history(max, states, steps),
        asked_at(steps, j, i),
        i < steps.len(),
    ensures
        in_flight(steps.take(i)).len() < max,
{
    lemma_only_leaving(steps, j + 1, i);
    assert(steps.take(j + 1).drop_last() =~= steps.take(j));
    assert(steps.take(j + 1).last() == steps[j]);
    lemma_max_kept(max, states, steps, j);
    assert(can_step(states[j], steps, j, states[j + 1]));
}

/// At most `max_concurrency` requests are in flight at once.
pub proof fn law_limit<S: LspService>(
    max: nat,
    states: Seq<Concurrency<S>>,
    steps: Seq<Step<S>>,
) where S::Error: From<ResponseError>
    requires
        history(max, states, steps),
    ensures
        in_flight(steps).finite(),
        in_flight(steps).len() <= max,
    decreases steps.len(),
{
    lemma_in_flight(steps);
    if steps.len() > 0 {
        let n = steps.len() - 1;
        let before = steps.drop_last();
        lemma_shorter(max, states, steps);
        law_limit(max, states.drop_last(), before);
        assert(steps.take(n) =~= before);
        lemma_in_flight(before);
        assert(can_step(states[n], steps, n, states[n + 1])) by {
            assert(steps[n] == steps[n]);
        }
        if steps[n] is Call {
            let j = choose|j: int| #[trigger] asked_at(steps, j, n);
            lemma_room_since(max, states, steps, j, n);
        }
    }
}

/// A middleware that is asked says that it is ready if and only if fewer requests are in flight
/// than its limit. Else it registers the waker.
pub proof fn law_ready_below_the_limit<S: LspService>(
    max: nat,
    states: Seq<Concurrency<S>>,
    steps: Seq<Step<S>>,
    i: int,
    waker: Waker,
    said: Polled<Result<(), S::Error>>,
    seen: nat,
) where S::Error: From<ResponseError>
    requires
        history(max, states, steps),
        0 <= i < steps.len(),
        steps[i] == (Step::<S>::Poll { waker, said, seen }),
    ensures
        in_flight(steps.take(i)).len() < max ==> said == Polled::<Result<(), S::Error>>::Ready(
            Ok(()),
        ),
        in_flight(steps.take(i)).len() >= max ==> said is Pending && states[i].registered(waker),
{
    lemma_max_kept(max, states, steps, i);
    assert(can_step(states[i], steps, i, states[i + 1]));
}

/// After the future of a request was released, which wakes who waits, the middleware is ready until
/// the next request comes.
pub proof fn law_place_given_back_is_free<S: LspService>(
    max: nat,
    states: Seq<Concurrency<S>>,
    steps: Seq<Step<S>>,
    i: int,
    j: int,
    call: int,
) where S::Error: From<ResponseError>
    requires
        history(max, states, steps),
        0 <= i < j < steps.len(),
        steps[i] == (Step::<S>::Gone { call }),
        steps[j] is Poll,
        forall|k: int| i < k < j ==> !(#[trigger] steps[k] is Call),
    ensures
        steps[call] matches Step::Call { fut, .. } && fut.released(),
        steps[j] matches Step::Poll { said, .. } && said is Ready,
    decreases steps.len(),
{
    assert(can_step(states[i], steps, i, states[i + 1]));
    lemma_limit_at(max, states, steps, i);
    lemma_in_flight(steps.take(i));
    assert(steps.take(i + 1).drop_last() =~= steps.take(i));
    assert(steps.take(i + 1).last() == steps[i]);
    lemma_only_leaving(steps, i + 1, j);
    lemma_max_kept(max, states, steps, j);
    assert(can_step(states[j], steps, j, states[j + 1]));
}

/// The limit holds at every step of a history.
proof fn lemma_limit_at<S: LspService>(
    max: nat,
    states: Seq<Concurrency<S>>,
    steps: Seq<Step<S>>,
    i: int,
) where S::Error: From<ResponseError>
    requires
        history(max, states, steps),
        0 <= i <= steps.len(),
    ensures
        in_flight(steps.take(i)).len() <= max,
    decreases steps.len(),
{
    if i == steps.len() {
        assert(steps.take(i) =~= steps);
        law_limit(max, states, steps);
    } else {
        lemma_shorter(max, states, steps);
        lemma_limit_at(max, states.drop_last(), steps.drop_last(), i);
        assert(steps.drop_last().take(i) =~= steps.take(i));
    }
}

/// The id of the request of a step.
pub open spec fn id_at<S: LspService>(steps: Seq<Step<S>>, c: int) -> RequestIdView {
    steps[c]->req.id@
}

/// Whether a request in flight has the id.
pub open spec fn flies<S: LspService>(steps: Seq<Step<S>>, id: RequestIdView) -> bool {
    exists|c: int| #[trigger] in_flight(steps).contains(c) && id_at(steps, c) == id
}

/// Whether the request of the step `c` was cancelled.
pub open spec fn was_cancelled<S: LspService>(steps: Seq<Step<S>>, c: int) -> bool {
    exists|k: int|
        c < k < steps.len() && (#[trigger] steps[k] matches Step::Notify { notif, .. }
            && notif.method@ == "$/cancelRequest"@ && cancelled_id(notif.params) == Some(
            id_at(steps, c),
        ))
}

/// Whether the requests of a history can be told apart: no two in flight at once have the same id,
/// and a purge finds just those not to be answered any more that are not in flight.
pub open spec fn told_apart<S: LspService>(
    states: Seq<Concurrency<S>>,
    steps: Seq<Step<S>>,
) -> bool {
    forall|i: int|
        #![trigger steps[i]]
        0 <= i < steps.len() ==> (steps[i] matches Step::Call { req, kept, .. } ==> {
            &&& !flies(steps.take(i), req.id@)
            &&& states[i].ongoing().len() >= states[i].max() * 2 ==> forall|id: RequestIdView|
                #[trigger] states[i].ongoing().contains_key(id) ==> (kept.contains_key(id)
                    <==> flies(steps.take(i), id))
        })
}

/// Whether the request of the step `c` is tracked with the handle that aborts its own future.
pub open spec fn tracked_at<S: LspService>(
    middleware: Concurrency<S>,
    steps: Seq<Step<S>>,
    c: int,
) -> bool {
    &&& middleware.ongoing().contains_key(id_at(steps, c))
    &&& middleware.ongoing()[id_at(steps, c)] == steps[c]->fut.handle()
}

/// The requests of a history without its last step can be told apart.
proof fn lemma_told_apart_before<S: LspService>(states: Seq<Concurrency<S>>, steps: Seq<Step<S>>)
    requires
        states.len() == steps.len() + 1,
        steps.len() > 0,
        told_apart(states, steps),
    ensures
        told_apart(states.drop_last(), steps.drop_last()),
{
    let before = steps.drop_last();
    let earlier = states.drop_last();
    assert forall|i: int| #![trigger before[i]] 0 <= i < before.len() implies (
    before[i] matches Step::Call { req, kept, .. } ==> {
        &&& !flies(before.take(i), req.id@)
        &&& earlier[i].ongoing().len() >= earlier[i].max() * 2 ==> forall|id: RequestIdView|
            #[trigger] earlier[i].ongoing().contains_key(id) ==> (kept.contains_key(id) <==> flies(
                before.take(i),
                id,
            ))
    }) by {
        assert(before[i] == steps[i]);
        assert(before.take(i) =~= steps.take(i));
    }
}

/// A request that was cancelled in a part of a history was cancelled in the whole.
proof fn lemma_cancelled_before<S: LspService>(steps: Seq<Step<S>>, c: int)
    requires
        0 <= c < steps.len() - 1,
        was_cancelled(steps.drop_last(), c),
    ensures
        was_cancelled(steps, c),
{
    let before = steps.drop_last();
    let k = choose|k: int|
        c < k < before.len() && (#[trigger] before[k] matches Step::Notify { notif, .. }
            && notif.method@ == "$/cancelRequest"@ && cancelled_id(notif.params) == Some(
            id_at(before, c),
        ));
    assert(steps[k] == before[k]);
    assert(steps[c] == before[c]);
}

/// A step leaves an earlier request tracked that is in flight after it and not cancelled.
proof fn lemma_stays_tracked<S: LspService>(
    states: Seq<Concurrency<S>>,
    steps: Seq<Step<S>>,
    c: int,
) where S::Error: From<ResponseError>
    requires
        states.len() == steps.len() + 1,
        0 <= c < steps.len() - 1,
        can_step(states[steps.len() - 1], steps, steps.len() - 1, states[steps.len() as int]),
        told_apart(states, steps),
        in_flight(steps).contains(c),
        !was_cancelled(steps, c),
        tracked_at(states[steps.len() - 1], steps.drop_last(), c),
    ensures
        tracked_at(states[steps.len() as int], steps, c),
{
    let n = steps.len() - 1;
    let before = steps.drop_last();
    assert(steps.take(n) =~= before);
    assert(before[c] == steps[c]);
    assert(steps[n] == steps.last());
    match steps[n] {
        Step::Call { req, kept, .. } => {
            assert(in_flight(before).contains(c));
            assert(flies(before, id_at(steps, c)));
        },
        _ => {},
    }
}

/// After a step, no more requests are tracked than allowed.
proof fn lemma_tracked_len<S: LspService>(
    max: nat,
    states: Seq<Concurrency<S>>,
    steps: Seq<Step<S>>,
) where S::Error: From<ResponseError>
    requires
        history(max, states, steps),
        told_apart(states, steps),
        steps.len() > 0,
        states[steps.len() - 1].ongoing().dom().finite(),
        states[steps.len() - 1].ongoing().len() <= 2 * max,
    ensures
        states.last().ongoing().dom().finite(),
        states.last().ongoing().len() <= 2 * max,
{
    let n = steps.len() - 1;
    let before = steps.drop_last();
    let pre = states[n];
    let post = states[n + 1];
    assert(steps.take(n) =~= before);
    assert(can_step(pre, steps, n, post)) by {
        assert(steps[n] == steps[n]);
    }
    lemma_max_kept(max, states, steps, n);
    match steps[n] {
        Step::Call { req, fut, kept } => {
            let j = choose|j: int| #[trigger] asked_at(steps, j, n);
            lemma_room_since(max, states, steps, j, n);
            lemma_in_flight(before);
            if pre.ongoing().len() >= pre.max() * 2 {
                lemma_kept_len(before, kept, pre.ongoing());
            }
            assert(post.ongoing().dom() =~= kept.dom().insert(req.id@));
        },
        _ => {},
    }
}

/// However many requests come, at most twice as many are tracked as can be in flight at once, and
/// among them are all those that are in flight and were not cancelled, each with the handle that
/// aborts its own future.
pub proof fn law_tracked_requests<S: LspService>(
    max: nat,
    states: Seq<Concurrency<S>>,
    steps: Seq<Step<S>>,
) where S::Error: From<ResponseError>
    requires
        history(max, states, steps),
        told_apart(states, steps),
    ensures
        states.last().ongoing().dom().finite(),
        states.last().ongoing().len() <= 2 * max,
        forall|c: int| #[trigger]
            in_flight(steps).contains(c) && !was_cancelled(steps, c) ==> tracked_at(
                states.last(),
                steps,
                c,
            ),
    decreases steps.len(),
{
    if steps.len() > 0 {
        let n = steps.len() - 1;
        let before = steps.drop_last();
        let earlier = states.drop_last();
        lemma_shorter(max, states, steps);
        lemma_told_apart_before(states, steps);
        law_tracked_requests(max, earlier, before);
        assert(earlier.last() == states[n]);
        assert(can_step(states[n], steps, n, states[n + 1])) by {
            assert(steps[n] == steps[n]);
        }
        lemma_tracked_len(max, states, steps);
        lemma_in_flight(steps);
        assert forall|c: int| #[trigger]
            in_flight(steps).contains(c) && !was_cancelled(steps, c) implies tracked_at(
            states.last(),
            steps,
            c,
        ) by {
            if c < n {
                assert(in_flight(before).contains(c));
                if was_cancelled(before, c) {
                    lemma_cancelled_before(steps, c);
                }
                lemma_stays_tracked(states, steps, c);
            }
        }
    }
}

/// What a purge keeps belongs to requests in flight, so there is no more of it.
proof fn lemma_kept_len<S: LspService>(
    steps: Seq<Step<S>>,
    kept: Map<RequestIdView, AbortHandle>,
    ongoing: Map<RequestIdView, AbortHandle>,
)
    requires
        in_flight(steps).finite(),
        purged(ongoing, kept),
        forall|id: RequestIdView| #[trigger]
            ongoing.contains_key(id) ==> (kept.contains_key(id) <==> flies(steps, id)),
    ensures
        kept.dom().finite(),
        kept.len() <= in_flight(steps).len(),
{
    let ids = in_flight(steps).map(|c: int| id_at(steps, c));
    assert(kept.dom().subset_of(ids)) by {
        assert forall|id: RequestIdView| kept.contains_key(id) implies ids.contains(id) by {
            assert(flies(steps, id));
            let c = choose|c: int| #[trigger]
                in_flight(steps).contains(c) && id_at(steps, c) == id;
            assert(ids.contains((|c: int| id_at(steps, c))(c)));
        }
    }
    vstd::set_lib::lemma_map_size_bound(in_flight(steps), ids, |c: int| id_at(steps, c));
    vstd::set_lib::lemma_len_subset(kept.dom(), ids);
}

/// However many requests came, a notification that cancels one that is in flight and was not
/// cancelled before aborts its own future, and the loop goes on.
pub proof fn law_requests_in_flight_can_be_cancelled<S: LspService>(
    max: nat,
    states: Seq<Concurrency<S>>,
    steps: Seq<Step<S>>,
    notif: AnyNotification,
    after: Concurrency<S>,
    r: Flow,
    c: int,
) where S::Error: From<ResponseError>
    requires
        history(max, states, steps),
        told_apart(states, steps),
        in_flight(steps).contains(c),
        !was_cancelled(steps, c),
        notif.method@ == "$/cancelRequest"@,
        cancelled_id(notif.params) == Some(id_at(steps, c)),
        Concurrency::<S>::notified(states.last(), notif, after, r),
    ensures
        r == goes_on(),
        aborted(steps[c]->fut.handle()),
        after.ongoing() == states.last().ongoing().remove(id_at(steps, c)),
{
    law_tracked_requests(max, states, steps);
}

/// A request is aborted only by a cancellation of its own id, or by its own future being released.
///
/// Aborting uses up one of the two rights that there are for a request, which cannot be copied. A
/// request that was just made has both: the middleware holds the one to cancel it, its future the
/// one to release it. Of the requests before it, those that are still tracked have their rights as
/// they were, none is dropped as long as fewer than twice the limit are tracked, and else just
/// those that were found to be aborted. Asking for readiness, events and other notifications leave
/// all rights where they are, and a cancellation leaves those of the other requests.
pub proof fn law_only_cancelling_and_releasing_abort<S: LspService>(
    req: AnyRequest,
    notif: AnyNotification,
) where S::Error: From<ResponseError>
    ensures
        forall|s: &mut Concurrency<S>, fut: ResponseFuture<S::Future>| #[trigger]
            call_ensures(<Concurrency<S> as LspService>::call, (s, req), fut) ==> {
                &&& fut.right().of() == fut.handle()
                &&& final(s).rights().contains_key(req.id@)
                &&& final(s).rights()[req.id@].of() == fut.handle()
                &&& forall|id: RequestIdView| #[trigger]
                    final(s).rights().contains_key(id) && id != req.id@ ==> s.rights().contains_key(
                        id,
                    ) && final(s).rights()[id] == s.rights()[id]
                &&& forall|id: RequestIdView| #[trigger]
                    s.rights().contains_key(id) && s.rights().len() < 2 * s.max()
                        ==> final(s).rights().contains_key(id)
                &&& forall|id: RequestIdView| #[trigger]
                    s.rights().contains_key(id) && !final(s).rights().contains_key(id)
                        ==> call_ensures(AbortHandle::is_aborted, (&s.rights()[id].of(),), true)
                &&& forall|id: RequestIdView| #[trigger]
                    final(s).rights().contains_key(id) && id != req.id@ && s.rights().len() >= 2
                        * s.max() ==> call_ensures(
                        AbortHandle::is_aborted,
                        (&s.rights()[id].of(),),
                        false,
                    )
            },
        forall|s: &mut Concurrency<S>, waker: &Waker, r: Polled<Result<(), S::Error>>| #[trigger]
            call_ensures(<Concurrency<S> as LspService>::poll_ready, (s, waker), r)
                ==> final(s).rights() == s.rights(),
        forall|pre: Concurrency<S>, event: AnyEvent<S::Payload>, post: Concurrency<S>, r: Flow|
            #[trigger] Concurrency::<S>::emitted(pre, event, post, r) ==> post.rights()
                == pre.rights(),
        forall|s: &mut Concurrency<S>, r: Flow, id: RequestIdView|
            #![trigger call_ensures(
                <Concurrency<S> as LspService>::notify,
                (s, notif),
                r,
            ), s.rights().contains_key(id)]
            call_ensures(<Concurrency<S> as LspService>::notify, (s, notif), r)
                && s.rights().contains_key(id) && (notif.method@ != "$/cancelRequest"@
                || cancelled_id(notif.params) != Some(id)) ==> final(s).rights().contains_key(id)
                && final(s).rights()[id] == s.rights()[id],
{
    assert forall|s: &mut Concurrency<S>, fut: ResponseFuture<S::Future>| #[trigger]
        call_ensures(<Concurrency<S> as LspService>::call, (s, req), fut) implies {
        &&& fut.right().of() == fut.handle()
        &&& final(s).rights().contains_key(req.id@)
        &&& final(s).rights()[req.id@].of() == fut.handle()
        &&& forall|id: RequestIdView| #[trigger]
            final(s).rights().contains_key(id) && id != req.id@ ==> s.rights().contains_key(id)
                && final(s).rights()[id] == s.rights()[id]
        &&& forall|id: RequestIdView| #[trigger]
            s.rights().contains_key(id) && s.rights().len() < 2 * s.max()
                ==> final(s).rights().contains_key(id)
        &&& forall|id: RequestIdView| #[trigger]
            s.rights().contains_key(id) && !final(s).rights().contains_key(id) ==> call_ensures(
                AbortHandle::is_aborted,
                (&s.rights()[id].of(),),
                true,
            )
        &&& forall|id: RequestIdView| #[trigger]
            final(s).rights().contains_key(id) && id != req.id@ && s.rights().len() >= 2 * s.max()
                ==> call_ensures(AbortHandle::is_aborted, (&s.rights()[id].of(),), false)
    } by {
        let kept = choose|kept: Map<RequestIdView, AbortHandle>| #[trigger]
            called_keeping(*s, req, *final(s), fut, kept);
        assert(s.ongoing().dom() =~= s.rights().dom());
        assert forall|id: RequestIdView| #[trigger]
            s.rights().contains_key(id) && s.rights().len() < 2
                * s.max() implies final(s).rights().contains_key(id) by {
            assert(s.ongoing().contains_key(id));
            assert(final(s).ongoing().contains_key(id));
        }
        assert forall|id: RequestIdView| #[trigger]
            s.rights().contains_key(id) && !final(s).rights().contains_key(id) implies call_ensures(
            AbortHandle::is_aborted,
            (&s.rights()[id].of(),),
            true,
        ) by {
            assert(s.ongoing().contains_key(id));
            assert(!final(s).ongoing().contains_key(id));
            assert(!kept.contains_key(id));
        }
        assert forall|id: RequestIdView| #[trigger]
            final(s).rights().contains_key(id) && id != req.id@ && s.rights().len() >= 2
                * s.max() implies call_ensures(
            AbortHandle::is_aborted,
            (&s.rights()[id].of(),),
            false,
        ) by {
            assert(final(s).ongoing().contains_key(id));
            assert(kept.contains_key(id));
        }
    }
}

/// What the middleware tracks is what it holds the rights for.
pub proof fn law_tracked_requests_can_be_aborted<S>(middleware: Concurrency<S>, id: RequestIdView)
    ensures
        middleware.ongoing().contains_key(id) <==> middleware.rights().contains_key(id),
        middleware.ongoing().contains_key(id) ==> middleware.ongoing()[id]
            == middleware.rights()[id].of(),
{
}

/// Every request reaches the inner service, and what that answers through is what is returned, tied
/// to a new handle, with a place taken. The request is tracked from then on under its id, in place
/// of an earlier one of the same id.
pub proof fn law_requests_reach_the_inner_service<S: LspService>(req: AnyRequest) where
    S::Error: From<ResponseError>,

    ensures
        forall|s: &mut Concurrency<S>, fut: ResponseFuture<S::Future>| #[trigger]
            call_ensures(<Concurrency<S> as LspService>::call, (s, req), fut) ==> {
                &&& final(s).max() == s.max()
                &&& final(s).semaphore() == s.semaphore()
                &&& fut.semaphore() == s.semaphore()
                &&& final(s).ongoing().contains_key(req.id@)
                &&& final(s).ongoing()[req.id@] == fut.handle()
                &&& exists|registration: AbortRegistration, inner: S::Future|
                    {
                        &&& call_ensures(AbortHandle::new_pair, (), (fut.handle(), registration))
                        &&& #[trigger] S::called(s.inner(), req, final(s).inner(), inner)
                        &&& #[trigger] call_ensures(
                            Abortable::<S::Future>::new,
                            (inner, registration),
                            fut.abortable(),
                        )
                    }
            },
{
}

/// Every notification but `$/cancelRequest` reaches the inner service, and what it decides is
/// returned. A `$/cancelRequest` never does, and the loop goes on: if its parameters can be read,
/// the request of their id is aborted if it is tracked, and not tracked any more, and else nothing
/// happens. The limit stays as it is.
pub proof fn law_cancellations_are_kept_from_the_inner_service<S: LspService>(
    notif: AnyNotification,
) where S::Error: From<ResponseError>
    ensures
        forall|s: &mut Concurrency<S>, r: Flow|
            #[trigger] call_ensures(<Concurrency<S> as LspService>::notify, (s, notif), r)
                && notif.method@ != "$/cancelRequest"@ ==> {
                &&& S::notified(s.inner(), notif, final(s).inner(), r)
                &&& final(s).ongoing() == s.ongoing()
                &&& final(s).max() == s.max()
                &&& final(s).semaphore() == s.semaphore()
            },
        forall|s: &mut Concurrency<S>, r: Flow|
            #[trigger] call_ensures(<Concurrency<S> as LspService>::notify, (s, notif), r)
                && notif.method@ == "$/cancelRequest"@ ==> {
                &&& r is Continue
                &&& final(s).inner() == s.inner()
                &&& final(s).max() == s.max()
                &&& final(s).semaphore() == s.semaphore()
                &&& cancelled_id(notif.params) matches Some(id) ==> final(s).ongoing()
                    == s.ongoing().remove(id) && (s.ongoing().contains_key(id) ==> aborted(
                    s.ongoing()[id],
                ))
                &&& cancelled_id(notif.params) is None ==> final(s).ongoing() == s.ongoing()
            },
{
}

/// Whether the middleware is ready is decided by the places that are taken alone, however many they
/// are: it is ready if and only if fewer are taken than the limit. That it is not is decided only
/// by a count that was made after the waker was registered. Nothing is changed.
pub proof fn law_readiness_is_decided_by_the_places<S: LspService>(waker: &Waker) where
    S::Error: From<ResponseError>,

    ensures
        forall|s: &mut Concurrency<S>, r: Polled<Result<(), S::Error>>| #[trigger]
            call_ensures(<Concurrency<S> as LspService>::poll_ready, (s, waker), r) ==> {
                &&& *final(s) == *s
                &&& r is Ready ==> (r matches Polled::Ready(Ok(_))) && exists|n: nat|
                    n < s.max() && (#[trigger] s.counted(n) || s.recounted(*waker, n))
                &&& r is Pending ==> s.registered(*waker) && exists|n: nat|
                    n >= s.max() && #[trigger] s.recounted(*waker, n)
            },
        forall|seen: usize, max: usize, r: Polled<Result<(), S::Error>>| #[trigger]
            call_ensures(readiness::<S::Error>, (seen, max), r) ==> {
                &&& r is Ready <==> seen < max
                &&& r is Ready ==> (r matches Polled::Ready(Ok(_)))
            },
{
    assert forall|s: &mut Concurrency<S>, r: Polled<Result<(), S::Error>>| #[trigger]
        call_ensures(<Concurrency<S> as LspService>::poll_ready, (s, waker), r) implies {
        &&& *final(s) == *s
        &&& r is Ready ==> (r matches Polled::Ready(Ok(_))) && exists|n: nat|
            n < s.max() && (#[trigger] s.counted(n) || s.recounted(*waker, n))
        &&& r is Pending ==> s.registered(*waker) && exists|n: nat|
            n >= s.max() && #[trigger] s.recounted(*waker, n)
    } by {
        lemma_polled_sees(*s, *waker, *final(s), r);
        let seen = choose|seen: nat| #[trigger] polled_seeing(*s, *waker, *final(s), r, seen);
        assert(s.counted(seen) || s.recounted(*waker, seen));
    }
}

/// An answer that came out is passed on as it is, and an aborted request is answered with an error
/// that says that it was cancelled.
pub proof fn law_aborted_requests_are_answered<Fut, R, E: From<ResponseError>>(
    inner: Result<R, E>,
    gone: Aborted,
)
    ensures
        forall|r: Polled<Result<R, E>>| #[trigger]
            call_ensures(
                ResponseFuture::<Fut>::resolve::<R, E>,
                (Polled::<Result<Result<R, E>, Aborted>>::Ready(Ok(inner)),),
                r,
            ) ==> r == Polled::Ready(inner),
        forall|r: Polled<Result<R, E>>| #[trigger]
            call_ensures(
                ResponseFuture::<Fut>::resolve::<R, E>,
                (Polled::<Result<Result<R, E>, Aborted>>::Pending,),
                r,
            ) ==> r is Pending,
        forall|r: Polled<Result<R, E>>| #[trigger]
            call_ensures(
                ResponseFuture::<Fut>::resolve::<R, E>,
                (Polled::<Result<Result<R, E>, Aborted>>::Ready(Err(gone)),),
                r,
            ) ==> (r matches Polled::Ready(Err(e)) && exists|object: ResponseError|
                {
                    &&& #[trigger] call_ensures(<E as From<ResponseError>>::from, (object,), e)
                    &&& object.code.0 == -32800
                    &&& object.message@ == "Client cancelled the request"@
                    &&& object.data is None
                }),
{
}

/// A middleware is made with the limit of its builder, around the service, with nothing tracked.
pub proof fn law_builders_keep_the_limit<S>(max: usize, inner: S)
    ensures
        forall|b: ConcurrencyBuilder| #[trigger]
            call_ensures(ConcurrencyBuilder::new, (max,), b) ==> b.max() == max,
        forall|b: ConcurrencyBuilder| #[trigger]
            call_ensures(ConcurrencyBuilder::for_parallelism, (Some(max),), b) ==> b.max() == max,
        forall|b: ConcurrencyBuilder| #[trigger]
            call_ensures(ConcurrencyBuilder::for_parallelism, (None,), b) ==> b.max() == 1,
        forall|b: &ConcurrencyBuilder, c: Concurrency<S>| #[trigger]
            call_ensures(ConcurrencyBuilder::layer::<S>, (b, inner), c) ==> c.max() == b.max()
                && c.inner() == inner && c.ongoing() == Map::<RequestIdView, AbortHandle>::empty(),
{
}

/// Every place is taken by one who holds the semaphore besides the middleware: it is counted how
/// many hold it, less one.
proof fn law_places_are_held<S>(middleware: Concurrency<S>, waker: Waker, n: nat)
    ensures
        middleware.counted(n) ==> exists|all: usize| #[trigger]
            call_ensures(holders, (&middleware.semaphore(), None), all) && all == n + 1,
        middleware.recounted(waker, n) ==> exists|done: Registered, all: usize|
            {
                &&& #[trigger] call_ensures(register, (&*middleware.semaphore(), &waker), done)
                &&& #[trigger] call_ensures(holders, (&middleware.semaphore(), Some(&done)), all)
                &&& all == n + 1
            },
{
}

/// A request whose future is released is marked as aborted, and then whatever waker is registered
/// is taken out and woken. A tracked request that is cancelled is aborted through its own handle. A
/// middleware that is retired has no waker registered any more.
proof fn law_releasing_wakes_who_waits<Fut, S>(fut: ResponseFuture<Fut>, id: &RequestId)
    ensures
        forall|r: ()| #[trigger]
            call_ensures(ResponseFuture::<Fut>::release, (fut,), r) ==> exists|
                mark: Marked,
                woken: Option<Waker>,
            |
                {
                    &&& #[trigger] call_ensures(abort, (fut.right(),), mark)
                    &&& #[trigger] call_ensures(take_waker, (&*fut.semaphore(), Some(&mark)), woken)
                    &&& woken matches Some(waker) ==> call_ensures(Waker::wake, (waker,), ())
                },
        forall|s: &mut Concurrency<S>, r: ()| #[trigger]
            call_ensures(Concurrency::<S>::cancel, (s, id), r) ==> {
                &&& final(s).rights() == s.rights().remove(id@)
                &&& s.rights().contains_key(id@) ==> exists|right: AbortRight, mark: Marked|
                    right.of() == s.rights()[id@].of() && #[trigger] call_ensures(
                        abort,
                        (right,),
                        mark,
                    )
                &&& final(s).inner() == s.inner()
                &&& final(s).max() == s.max()
                &&& final(s).semaphore() == s.semaphore()
            },
        forall|s: &Concurrency<S>, r: ()| #[trigger]
            call_ensures(Concurrency::<S>::retire, (s,), r) ==> exists|woken: Option<Waker>|
                #[trigger] call_ensures(take_waker, (&*s.semaphore(), None), woken),
{
}

} // verus!
