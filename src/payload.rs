//! Type identity tokens and the type-erased box that a container owns.

use std::any::Any;
use std::any::TypeId;
use crate::univ::Embedder;
use crate::univ::Extractor;
use vstd::prelude::*;

verus! {

#[verifier::external_type_specification]
#[verifier::external_body]
pub struct ExTypeId(TypeId);

/// Relies on `TypeId::of`: the runtime identity token of `T`.
pub assume_specification<T: ?Sized + 'static>[ TypeId::of::<T> ]() -> TypeId;

/// Relies on `TypeId`'s `==`: two tokens compare equal exactly when they are
/// the same token.
pub assume_specification[ <TypeId as PartialEq>::eq ](a: &TypeId, b: &TypeId) -> (r: bool)
    ensures
        r == (*a == *b),
;

/// Owns one value of some `'static` type, erased behind `Box<dyn Any>`.
/// Nothing reads the value except a downcast to a named type.
#[verifier::external_body]
pub(crate) struct Payload {
    inner: Box<dyn Any>,
}

/// The identity token of the type of the value a payload holds: what
/// `<dyn Any>::type_id` reports for it.
pub uninterp spec fn held_type(p: Payload) -> TypeId;

/// Relies on `Box::new` and the coercion to `Box<dyn Any>`: the box takes
/// ownership of `v`, so it holds a value of type `A`. The embedder's token is
/// `TypeId::of::<A>()`: its field is private and is set only from that call,
/// in `UnivT::embed`, which is what makes the clause true.
#[verifier::external_body]
pub(crate) fn erase<A: 'static>(e: &Embedder<A>, v: A) -> (r: Payload)
    ensures
        held_type(r) == e.tag(),
{
    Payload { inner: Box::new(v) }
}

/// Relies on `<dyn Any>::downcast_ref`: a reference to the held value when
/// its type is `A`, `None` otherwise. The extractor's token is
/// `TypeId::of::<A>()`: its field is private and is set only from that call,
/// in `UnivT::embed`, which is what makes the clause true.
#[verifier::external_body]
pub(crate) fn downcast_ref<'a, A: 'static>(p: &'a Payload, x: &Extractor<A>) -> (r: Option<&'a A>)
    ensures
        (r is Some) == (held_type(*p) == x.tag()),
{
    p.inner.downcast_ref::<A>()
}

} // verus!
