//! The container and the typed codec pairs built over it.

use crate::payload::downcast_ref;
use crate::payload::erase;
use crate::payload::held_type;
use crate::payload::Payload;
use std::any::TypeId;
use std::marker::PhantomData;
use vstd::prelude::*;

verus! {

/// An immutable, type-erased value together with the identity token of the
/// type it was made from.
pub struct UnivT {
    type_id: TypeId,
    value: Payload,
}

impl UnivT {
    /// The identity token recorded when the container was made.
    pub closed spec fn tag(self) -> TypeId {
        self.type_id
    }

    /// The container's invariant: its token is the identity of the type of
    /// the value its payload holds.
    #[verifier::type_invariant]
    closed spec fn wf(self) -> bool {
        held_type(self.value) == self.type_id
    }

    /// Stores a copy of `val` under the token of the embedder `e`.
    fn new<A: Clone + 'static>(e: &Embedder<A>, val: &A) -> (r: Self)
        ensures
            e.made(r),
    {
        UnivT { type_id: e.type_id, value: erase(e, val.clone()) }
    }

    /// A reference to the held value, read as an `A`: present exactly when
    /// the container carries the token of the extractor `x`. A container
    /// whose token differs is refused before any downcast is tried.
    fn unembed_ref<A: 'static>(&self, x: &Extractor<A>) -> (r: Option<&A>)
        ensures
            (r is Some) == x.accepts(*self),
    {
        proof {
            use_type_invariant(self);
        }
        if self.type_id == x.type_id {
            downcast_ref::<A>(&self.value, x)
        } else {
            None
        }
    }

    /// Makes a matched pair of codecs for the type `A`: an embedder that
    /// wraps values of `A` and an extractor that recovers them. Both carry
    /// `TypeId::of::<A>()`, so pairs made by separate calls for the same type
    /// interoperate, and pairs for different types refuse each other's
    /// containers.
    pub fn embed<A: Clone + 'static>() -> (r: (Embedder<A>, Extractor<A>))
        ensures
            r.0.tag() == r.1.tag(),
    {
        let type_id = TypeId::of::<A>();
        (
            Embedder { type_id, marker: PhantomData },
            Extractor { type_id, marker: PhantomData },
        )
    }
}

/// Wraps values of type `A` into containers. Its token is private and set
/// only in `UnivT::embed`, from `TypeId::of::<A>()`.
pub struct Embedder<A> {
    type_id: TypeId,
    marker: PhantomData<A>,
}

/// Recovers values of type `A` from containers made for `A`. Its token is
/// private and set only in `UnivT::embed`, from `TypeId::of::<A>()`.
pub struct Extractor<A> {
    type_id: TypeId,
    marker: PhantomData<A>,
}

impl<A> Embedder<A> {
    /// The identity token stamped on every container this embedder makes.
    pub closed spec fn tag(self) -> TypeId {
        self.type_id
    }

    /// Whether `u` carries this embedder's token.
    pub open spec fn made(self, u: UnivT) -> bool {
        u.tag() == self.tag()
    }
}

impl<A> Extractor<A> {
    /// The identity token a container must carry to be read by this extractor.
    pub closed spec fn tag(self) -> TypeId {
        self.type_id
    }

    /// Whether this extractor lets `u` through to the downcast.
    pub open spec fn accepts(self, u: UnivT) -> bool {
        u.tag() == self.tag()
    }
}

impl<A: Clone + 'static> Embedder<A> {
    /// Wraps a copy of `val`; the source value is only borrowed.
    pub fn embed(&self, val: &A) -> (r: UnivT)
        ensures
            self.made(r),
    {
        UnivT::new(self, val)
    }
}

impl<A: Clone + 'static> Extractor<A> {
    /// A copy of the value held by `u` when it was made for `A`; `None` for
    /// a container made for another type. A value comes back exactly when
    /// `u` carries this extractor's token.
    pub fn unembed(&self, u: &UnivT) -> (r: Option<A>)
        ensures
            (r is Some) == self.accepts(*u),
    {
        u.unembed_ref::<A>(self).cloned()
    }
}

/// A container made by an embedder is accepted by the extractor of the same
/// pair, so by the contract of `unembed` the round trip yields a value. That
/// the value equals the one embedded is not stated here.
pub proof fn lemma_round_trip_accepted<A>(e: Embedder<A>, x: Extractor<A>, u: UnivT)
    requires
        e.tag() == x.tag(),
        e.made(u),
    ensures
        x.accepts(u),
{
}

/// An extractor whose token differs from an embedder's refuses every
/// container that embedder made, so its `unembed` returns `None` there.
/// Tokens of different types differ; that premise is taken as given.
pub proof fn lemma_cross_type_rejection<A, B>(e: Embedder<A>, x: Extractor<B>, u: UnivT)
    requires
        e.tag() != x.tag(),
        e.made(u),
    ensures
        !x.accepts(u),
{
}

/// Two extractors that carry the same token, such as those of two pairs
/// made for one type, accept exactly the same containers, so their `unembed`
/// results are present on exactly the same containers. That the values are
/// equal is not stated here.
pub proof fn lemma_extractors_interchangeable<A>(x1: Extractor<A>, x2: Extractor<A>, u: UnivT)
    requires
        x1.tag() == x2.tag(),
    ensures
        x1.accepts(u) == x2.accepts(u),
{
}

/// Embedding twice yields two containers that are each accepted by the
/// matching extractor on their own, so each yields a value. That the values
/// equal the source is not stated here.
pub proof fn lemma_embed_twice_accepted<A>(
    e: Embedder<A>,
    x: Extractor<A>,
    u1: UnivT,
    u2: UnivT,
)
    requires
        e.tag() == x.tag(),
        e.made(u1),
        e.made(u2),
    ensures
        x.accepts(u1),
        x.accepts(u2),
{
}

} // verus!
