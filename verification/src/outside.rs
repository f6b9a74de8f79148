//! Types and functions of other crates that this library uses, and what it takes them to do.
//!
//! Some of these functions act on what is shared, and return nothing that tells of it. A contract
//! of this library then says `call_ensures` of such a function, its arguments and its result: that
//! a call of this kind was made. It does not say how often it was made, nor in which order with
//! others, nor that nothing else was done. Where the order of two calls matters, the first returns
//! a token that the second takes.
//! Where a call must not be made but for a reason, it uses up a right that cannot be copied, and
//! contracts say where the rights are.
use futures::channel::{mpsc, oneshot};
use core::task::Waker;
use futures::future::{AbortHandle, AbortRegistration, Abortable, Aborted};
use futures::stream::FuturesUnordered;
use futures::task::AtomicWaker;
use serde_json::Error as JsonFailure;
use std::io::Error as IoFailure;
use vstd::prelude::*;

verus! {

/// A JSON document, as `serde_json` holds it.
#[verifier::external_type_specification]
#[verifier::external_body]
pub struct ExJsonValue(serde_json::Value);

/// `Clone` of `serde_json::Value` is the derived one, on a tree of owned values: it gives an equal
/// document.
pub assume_specification[ <serde_json::Value as Clone>::clone ](v: &serde_json::Value) -> (r:
    serde_json::Value)
    ensures
        r == *v,
;

/// What `serde_json::Value::is_null` says of a document.
pub uninterp spec fn null_document(v: serde_json::Value) -> bool;

/// `Value::is_null`: whether the document is `null`.
pub assume_specification[ serde_json::Value::is_null ](v: &serde_json::Value) -> (r: bool)
    ensures
        r == null_document(*v),
;

/// `Default` of `serde_json::Value`: the document `null`, which is one document.
pub assume_specification[ <serde_json::Value as Default>::default ]() -> (r: serde_json::Value)
    ensures
        null_document(r),
        forall|v: serde_json::Value| #[trigger] null_document(v) ==> v == r,
;

/// `From` of a type for itself: gives the value back unchanged.
pub assume_specification<Own>[ <Own as core::convert::From<Own>>::from ](v: Own) -> (r: Own)
    ensures
        r == v,
;

/// Why `serde_json` could not read or write a document.
#[verifier::external_type_specification]
#[verifier::external_body]
pub struct ExJsonError(JsonFailure);

/// An input or output error of the standard library.
#[verifier::external_type_specification]
#[verifier::external_body]
pub struct ExIoError(IoFailure);

/// The sending half of a channel for one value.
#[verifier::external_type_specification]
#[verifier::external_body]
#[verifier::reject_recursive_types(T)]
pub struct ExOneshotSender<T>(oneshot::Sender<T>);

/// The receiving half of a channel for one value.
#[verifier::external_type_specification]
#[verifier::external_body]
#[verifier::reject_recursive_types(T)]
pub struct ExOneshotReceiver<T>(oneshot::Receiver<T>);

/// The sending half of a channel for one value was dropped.
#[verifier::external_type_specification]
#[verifier::external_body]
pub struct ExCanceled(oneshot::Canceled);

/// `oneshot::channel`: the two halves of a new channel for one value.
pub assume_specification<T>[ oneshot::channel::<T> ]() -> (
    oneshot::Sender<T>,
    oneshot::Receiver<T>,
);

/// `oneshot::Sender::send`: hands the value to the receiving half, or gives it back if that half
/// was dropped.
pub assume_specification<T>[ oneshot::Sender::<T>::send ](
    tx: oneshot::Sender<T>,
    t: T,
) -> (r: Result<(), T>)
    ensures
        r matches Err(back) ==> back == t,
;

/// The sending half of an unbounded channel.
#[verifier::external_type_specification]
#[verifier::external_body]
#[verifier::reject_recursive_types(T)]
pub struct ExUnboundedSender<T>(mpsc::UnboundedSender<T>);

/// The receiving half of an unbounded channel.
#[verifier::external_type_specification]
#[verifier::external_body]
#[verifier::reject_recursive_types(T)]
pub struct ExUnboundedReceiver<T>(mpsc::UnboundedReceiver<T>);

/// `mpsc::unbounded`: the two halves of a new channel.
pub assume_specification<T>[ mpsc::unbounded::<T> ]() -> (
    mpsc::UnboundedSender<T>,
    mpsc::UnboundedReceiver<T>,
);

/// `Clone` of `mpsc::UnboundedSender`: another handle to the same channel.
pub assume_specification<T>[ <mpsc::UnboundedSender<T> as Clone>::clone ](
    tx: &mpsc::UnboundedSender<T>,
) -> (r: mpsc::UnboundedSender<T>)
    ensures
        r == *tx,
;

/// `mpsc::unbounded`, with the receiving half dropped at once.
#[verifier::external_body]
pub(crate) fn closed_channel<T>() -> mpsc::UnboundedSender<T> {
    mpsc::unbounded().0
}

/// `mpsc::UnboundedSender::unbounded_send`: puts the value into the channel, and says whether that
/// was possible. It is not once the receiving half was dropped.
#[verifier::external_body]
pub(crate) fn post<T>(tx: &mpsc::UnboundedSender<T>, v: T) -> (taken: bool)
    ensures
        call_ensures(closed_channel::<T>, (), *tx) ==> !taken,
{
    tx.unbounded_send(v).is_ok()
}

/// A set of futures that are polled together.
#[verifier::external_type_specification]
#[verifier::external_body]
#[verifier::reject_recursive_types(Fut)]
pub struct ExFuturesUnordered<Fut>(FuturesUnordered<Fut>);

/// `FuturesUnordered::new`: an empty set.
pub assume_specification<Fut>[ FuturesUnordered::<Fut>::new ]() -> FuturesUnordered<Fut>;

/// `FuturesUnordered::push`: puts a future into the set.
pub assume_specification<Fut>[ FuturesUnordered::<Fut>::push ](
    tasks: &FuturesUnordered<Fut>,
    future: Fut,
);

/// What a task is woken by.
#[verifier::external_type_specification]
#[verifier::external_body]
pub struct ExWaker(Waker);

/// `Waker::wake`: wakes the task.
pub assume_specification[ Waker::wake ](waker: Waker);

/// A place for one waker, which several threads can use.
#[verifier::external_type_specification]
#[verifier::external_body]
pub struct ExAtomicWaker(AtomicWaker);

/// `AtomicWaker::new`: a place without a waker.
pub assume_specification[ AtomicWaker::new ]() -> AtomicWaker;

/// A waker was put into a place. Only [`register`] returns this.
pub(crate) struct Registered {
    _done: (),
}

/// `AtomicWaker::register`: puts a waker into the place. Nothing is claimed of the token but where
/// it comes from.
#[verifier::external_body]
pub(crate) fn register(place: &AtomicWaker, waker: &Waker) -> Registered {
    place.register(waker);
    Registered { _done: () }
}

/// `AtomicWaker::take`: takes the waker out of the place, if there is one. With a token this comes
/// after a future was aborted. Nothing is claimed of what is taken.
#[verifier::external_body]
pub(crate) fn take_waker(place: &AtomicWaker, _after: Option<&Marked>) -> Option<Waker> {
    place.take()
}

/// A handle that aborts a future.
#[verifier::external_type_specification]
#[verifier::external_body]
pub struct ExAbortHandle(AbortHandle);

/// What ties a future to the handle that aborts it.
#[verifier::external_type_specification]
#[verifier::external_body]
pub struct ExAbortRegistration(AbortRegistration);

/// A future was aborted.
#[verifier::external_type_specification]
#[verifier::external_body]
pub struct ExAborted(Aborted);

/// A future that can be aborted.
#[verifier::external_type_specification]
#[verifier::external_body]
#[verifier::reject_recursive_types(T)]
pub struct ExAbortable<T>(Abortable<T>);

/// `AbortHandle::new_pair`: a new handle, and what ties a future to it.
pub assume_specification[ AbortHandle::new_pair ]() -> (AbortHandle, AbortRegistration);

/// `Clone` of `AbortHandle`: another handle to the same future.
pub assume_specification[ <AbortHandle as Clone>::clone ](handle: &AbortHandle) -> (r: AbortHandle)
    ensures
        r == *handle,
;

/// The right to abort a future through its handle, once.
///
/// There are two for each future, one for who lets go of it and one for who may cancel it. Both
/// come out of [`arm`], which takes the registration that ties the future to the handle. They can
/// neither be made in another way nor be copied, and [`abort`] uses one up. So as long as both are
/// held, the future was not aborted.
pub struct AbortRight {
    handle: AbortHandle,
}

impl AbortRight {
    /// The handle that aborts the future.
    pub closed spec fn of(&self) -> AbortHandle {
        self.handle
    }

    /// Whether the future was aborted.
    pub(crate) fn is_spent(&self) -> (r: bool)
        ensures
            call_ensures(AbortHandle::is_aborted, (&self.of(),), r),
    {
        self.handle.is_aborted()
    }
}

/// What ties a future to the handle that two rights are for.
pub(crate) struct Armed {
    registration: AbortRegistration,
}

/// Gives the two rights to abort the future that is going to be tied to the handle.
pub(crate) fn arm(handle: AbortHandle, registration: AbortRegistration) -> (r: (
    AbortRight,
    AbortRight,
    Armed,
))
    requires
        call_ensures(AbortHandle::new_pair, (), (handle, registration)),
    ensures
        r.0.of() == handle,
        r.1.of() == handle,
        r.2.with() == registration,
{
    (AbortRight { handle: handle.clone() }, AbortRight { handle }, Armed { registration })
}

impl Armed {
    /// What came with the handle.
    pub(crate) closed spec fn with(&self) -> AbortRegistration {
        self.registration
    }

    /// The future, tied to the handle.
    pub(crate) fn tie<Task>(self, task: Task) -> (r: Abortable<Task>)
        ensures
            call_ensures(Abortable::<Task>::new, (task, self.with()), r),
    {
        Abortable::new(task, self.registration)
    }
}

/// A future was aborted through a handle. Only [`abort`] returns this.
pub(crate) struct Marked {
    _done: (),
}

/// `AbortHandle::abort`: aborts the future that the right is for. Nothing is claimed of the token
/// but where it comes from.
#[verifier::external_body]
pub(crate) fn abort(right: AbortRight) -> Marked {
    right.handle.abort();
    Marked { _done: () }
}

/// `AbortHandle::is_aborted`: whether `abort` was called through any handle to the future.
pub assume_specification[ AbortHandle::is_aborted ](handle: &AbortHandle) -> bool;

/// `Abortable::new`: the future, to be aborted by the handle that the registration came with.
pub assume_specification<T>[ Abortable::<T>::new ](task: T, reg: AbortRegistration) -> Abortable<T>;

} // verus!
