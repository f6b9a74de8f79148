//! Events of any type, which a service's own side emits to its main loop.
use core::any::TypeId;
use vstd::prelude::*;
use vstd::string::StringExecFns;

use crate::framing::{quote, quoted};
use crate::table::TableKey;

verus! {

/// The identity of a type, as the standard library gives it.
#[verifier::external_type_specification]
#[verifier::external_body]
pub struct ExTypeId(TypeId);

/// `TypeId::of`: the identity of the type `T`. What the identity is, is left to the compiler.
pub assume_specification<T: ?Sized + 'static>[ TypeId::of::<T> ]() -> TypeId;

/// `TypeId::of`, and that it gives one identity for one type.
#[verifier::external_body]
pub(crate) fn identity<T: 'static>() -> (r: TypeId)
    ensures
        identifies::<T>(r),
        forall|id: TypeId| #[trigger] identifies::<T>(id) ==> id == r,
{
    TypeId::of::<T>()
}

/// `==` of `TypeId`: whether two identities are the same.
#[verifier::external_body]
fn same_type(a: &TypeId, b: &TypeId) -> (r: bool)
    ensures
        r == (*a == *b),
{
    a == b
}

impl TableKey for TypeId {
    type Id = TypeId;

    open spec fn id(&self) -> TypeId {
        *self
    }

    fn same(&self, other: &Self) -> (r: bool) {
        same_type(self, other)
    }
}

/// Whether `id` is the identity that `TypeId::of` gives for the type `T`.
pub open spec fn identifies<T: 'static>(id: TypeId) -> bool {
    call_ensures(TypeId::of::<T>, (), id)
}

/// A dynamic runtime event.
///
/// The event itself is a `P`, together with the identity and the name of its type. The name is for
/// debugging.
pub struct AnyEvent<P> {
    inner: P,
    type_id: TypeId,
    label: &'static str,
}

impl<P> AnyEvent<P> {
    /// The event itself.
    pub closed spec fn payload(&self) -> P {
        self.inner
    }

    /// The identity of its type.
    pub closed spec fn type_id_of(&self) -> TypeId {
        self.type_id
    }

    /// The name of its type.
    pub closed spec fn name(&self) -> Seq<char> {
        self.label@
    }

    /// Whether this is the event `inner` of the type `T`, with the name.
    pub open spec fn made_of<T: 'static>(&self, inner: P, name: Seq<char>) -> bool {
        &&& self.payload() == inner
        &&& identifies::<T>(self.type_id_of())
        &&& forall|id: TypeId| #[trigger] identifies::<T>(id) ==> id == self.type_id_of()
        &&& self.name() == name
    }

    /// What is got when the event is taken as one of the type `T`: the event itself, or all of it
    /// back if it is of another type.
    pub open spec fn taken_as<T: 'static>(self) -> Result<P, Self> {
        if identifies::<T>(self.type_id_of()) {
            Ok(self.payload())
        } else {
            Err(self)
        }
    }

    /// An event of the type `T`, carried as `inner`. The name of the type is only for debugging.
    #[must_use]
    pub fn new<T: 'static>(inner: P, label: &'static str) -> (r: Self)
        ensures
            r.made_of::<T>(inner, label@),
    {
        AnyEvent { inner, type_id: identity::<T>(), label }
    }

    /// The identity of the type of the event.
    #[must_use]
    pub fn inner_type_id(&self) -> (r: &TypeId)
        ensures
            *r == self.type_id_of(),
    {
        &self.type_id
    }

    /// The name of the type of the event, for debugging.
    ///
    /// The name is not stable and cannot be trusted.
    #[must_use]
    pub fn name_of_type(&self) -> (r: &'static str)
        ensures
            r@ == self.name(),
    {
        self.label
    }

    /// Whether the event is of the type `T`.
    #[must_use]
    pub fn is<T: 'static>(&self) -> (r: bool)
        ensures
            r == identifies::<T>(self.type_id_of()),
    {
        let id = identity::<T>();
        same_type(&self.type_id, &id)
    }

    /// A reference to the event if it is of the type `T`.
    #[must_use]
    pub fn downcast_ref<T: 'static>(&self) -> (r: Option<&P>)
        ensures
            r == (if identifies::<T>(self.type_id_of()) {
                Some(&self.payload())
            } else {
                None
            }),
    {
        let id = identity::<T>();
        if same_type(&self.type_id, &id) {
            Some(&self.inner)
        } else {
            None
        }
    }

    /// A mutable reference to the event if it is of the type `T`.
    #[must_use]
    pub fn downcast_mut<T: 'static>(&mut self) -> (r: Option<&mut P>)
        ensures
            final(self).type_id_of() == old(self).type_id_of(),
            final(self).name() == old(self).name(),
            match r {
                Some(p) => {
                    &&& identifies::<T>(old(self).type_id_of())
                    &&& *p == old(self).payload()
                    &&& *final(p) == final(self).payload()
                },
                None => {
                    &&& !identifies::<T>(old(self).type_id_of())
                    &&& final(self).payload() == old(self).payload()
                },
            },
    {
        let id = identity::<T>();
        if same_type(&self.type_id, &id) {
            Some(&mut self.inner)
        } else {
            None
        }
    }

    /// Takes the event if it is of the type `T`.
    ///
    /// # Errors
    ///
    /// Returns the event back if it is of another type.
    pub fn downcast<T: 'static>(self) -> (r: Result<P, Self>)
        ensures
            r == self.taken_as::<T>(),
    {
        let id = identity::<T>();
        if same_type(&self.type_id, &id) {
            Ok(self.inner)
        } else {
            Err(self)
        }
    }

    /// The text that the event is shown as for debugging.
    pub open spec fn shown(&self) -> Seq<char> {
        "AnyEvent { type_name: "@ + quoted(self.name()) + ", .. }"@
    }

    /// Shows the event for debugging: the name of its type.
    pub fn debug(&self) -> (r: String)
        ensures
            r@ == self.shown(),
    {
        let name = quote(self.label);
        let mut s = "AnyEvent { type_name: ".to_string();
        s.append(name.as_str());
        s.append(", .. }");
        s
    }
}

/// An event is taken out as it was put in, as an event of its type. As one of another type, it is
/// given back.
pub proof fn law_event_is_taken_out_as_its_type<T: 'static, U: 'static, P>(
    event: AnyEvent<P>,
    inner: P,
    name: Seq<char>,
)
    requires
        event.made_of::<T>(inner, name),
    ensures
        event.taken_as::<T>() == Ok::<P, AnyEvent<P>>(inner),
        !identifies::<U>(event.type_id_of()) ==> event.taken_as::<U>() == Err::<P, AnyEvent<P>>(
            event,
        ),
{
}

/// An event that was made of a type is one of that type, and gives what it carries; it is one of
/// another type if and only if that has the same identity.
pub proof fn law_events_are_of_their_type<T: 'static, U: 'static, P>(
    inner: P,
    label: &'static str,
)
    ensures
        forall|e: AnyEvent<P>| #[trigger]
            call_ensures(AnyEvent::<P>::new::<T>, (inner, label), e) ==> e.payload() == inner
                && e.name() == label@,
        forall|e: AnyEvent<P>, r: Result<P, AnyEvent<P>>|
            #![trigger call_ensures(AnyEvent::<P>::new::<T>, (inner, label), e), call_ensures(
                AnyEvent::<P>::downcast::<T>,
                (e,),
                r,
            )]
            call_ensures(AnyEvent::<P>::new::<T>, (inner, label), e) && call_ensures(
                AnyEvent::<P>::downcast::<T>,
                (e,),
                r,
            ) ==> r == Ok::<P, AnyEvent<P>>(inner),
        forall|e: AnyEvent<P>, r: bool|
            #![trigger call_ensures(AnyEvent::<P>::new::<T>, (inner, label), e), call_ensures(
                AnyEvent::<P>::is::<T>,
                (&e,),
                r,
            )]
            call_ensures(AnyEvent::<P>::new::<T>, (inner, label), e) && call_ensures(
                AnyEvent::<P>::is::<T>,
                (&e,),
                r,
            ) ==> r,
        forall|e: &AnyEvent<P>, r: bool, q: Option<&P>|
            #![trigger call_ensures(AnyEvent::<P>::is::<U>, (e,), r), call_ensures(
                AnyEvent::<P>::downcast_ref::<U>,
                (e,),
                q,
            )]
            call_ensures(AnyEvent::<P>::is::<U>, (e,), r) && call_ensures(
                AnyEvent::<P>::downcast_ref::<U>,
                (e,),
                q,
            ) ==> (r <==> q is Some) && (q matches Some(p) ==> *p == e.payload()),
        forall|e: &AnyEvent<P>, r: String| #[trigger]
            call_ensures(AnyEvent::<P>::debug, (e,), r) ==> r@ == "AnyEvent { type_name: "@
                + quoted(e.name()) + ", .. }"@,
{
}

} // verus!
