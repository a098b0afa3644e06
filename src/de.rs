//! The relays that stand between a caller's decode request and a decoding
//! backend. Each relay owns exactly one object and holds nothing else. At
//! each hand-off a relay gives up what it holds, unchanged, and wraps the
//! handle that goes on with it (a receiver, a nested decoder, a session or a
//! seed) in a fresh relay of the matching kind.
use vstd::prelude::*;

verus! {

/// The decoder relay: it owns one backend decoder. For a decode request it
/// pairs that decoder with the caller's receiver wrapped in a [`Visitor`].
pub struct Deserializer<D> {
    de: D,
}

impl<D> Deserializer<D> {
    /// The backend decoder that this relay holds.
    pub closed spec fn backend(&self) -> D {
        self.de
    }

    /// Wraps a backend decoder; the relay holds it unchanged.
    pub fn new(deserializer: D) -> (r: Self)
        ensures
            r.backend() == deserializer,
    {
        Deserializer { de: deserializer }
    }

    /// Unwraps the relay, yielding the backend decoder exactly as it was
    /// wrapped.
    pub fn into_inner(self) -> (r: D)
        ensures
            r == self.backend(),
    {
        self.de
    }

    /// Borrows the backend decoder, for queries that do not consume it.
    pub fn get_ref(&self) -> (r: &D)
        ensures
            *r == self.backend(),
    {
        &self.de
    }

    /// The step of every decode request: gives up the backend decoder and
    /// wraps the caller's receiver, so that what the backend announces
    /// reaches the receiver through a relay.
    pub fn relay<V>(self, visitor: V) -> (r: (D, Visitor<V>))
        ensures
            r.0 == self.backend(),
            r.1.receiver() == visitor,
    {
        (self.de, Visitor::new(visitor))
    }
}

/// The receiver relay: it owns the caller's receiver. For an announcement
/// that carries a nested handle it pairs the receiver with that handle
/// wrapped in the matching relay.
pub struct Visitor<V> {
    delegate: V,
}

impl<V> Visitor<V> {
    /// The receiver that this relay holds.
    pub closed spec fn receiver(&self) -> V {
        self.delegate
    }

    /// Wraps a receiver; the relay holds it unchanged.
    pub fn new(delegate: V) -> (r: Self)
        ensures
            r.receiver() == delegate,
    {
        Visitor { delegate }
    }

    /// Unwraps the relay, yielding the receiver exactly as it was wrapped.
    pub fn into_inner(self) -> (r: V)
        ensures
            r == self.receiver(),
    {
        self.delegate
    }

    /// Borrows the receiver, for the description of what it expects.
    pub fn get_ref(&self) -> (r: &V)
        ensures
            *r == self.receiver(),
    {
        &self.delegate
    }

    /// The step of the "value present" announcement: gives up the receiver
    /// and wraps the decoder of the inner value in a decoder relay, which
    /// re-enters the relays one level down.
    pub fn relay_some<D>(self, deserializer: D) -> (r: (V, Deserializer<D>))
        ensures
            r.0 == self.receiver(),
            r.1.backend() == deserializer,
    {
        (self.delegate, Deserializer::new(deserializer))
    }

    /// The step of the "single-field wrapper" announcement: gives up the
    /// receiver and wraps the decoder of the field in a decoder relay.
    pub fn relay_newtype_struct<D>(self, deserializer: D) -> (r: (V, Deserializer<D>))
        ensures
            r.0 == self.receiver(),
            r.1.backend() == deserializer,
    {
        (self.delegate, Deserializer::new(deserializer))
    }

    /// The step of the sequence-start announcement: gives up the receiver
    /// and wraps the backend's sequence session in a sequence relay.
    pub fn relay_seq<A>(self, access: A) -> (r: (V, SeqAccess<A>))
        ensures
            r.0 == self.receiver(),
            r.1.session() == access,
    {
        (self.delegate, SeqAccess::new(access))
    }

    /// The step of the mapping-start announcement: gives up the receiver and
    /// wraps the backend's mapping session in a mapping relay.
    pub fn relay_map<A>(self, access: A) -> (r: (V, MapAccess<A>))
        ensures
            r.0 == self.receiver(),
            r.1.session() == access,
    {
        (self.delegate, MapAccess::new(access))
    }

    /// The step of the enum-start announcement: gives up the receiver and
    /// wraps the backend's enum session in an enum selection relay.
    pub fn relay_enum<A>(self, access: A) -> (r: (V, EnumAccess<A>))
        ensures
            r.0 == self.receiver(),
            r.1.session() == access,
    {
        (self.delegate, EnumAccess::new(access))
    }
}

/// The seed relay: it owns one stateful construction request and pairs it
/// with the decoder it is to run against, wrapped in a [`Deserializer`].
pub struct DeserializeSeed<S> {
    delegate: S,
}

impl<S> DeserializeSeed<S> {
    /// The construction request that this relay carries.
    pub closed spec fn seed(&self) -> S {
        self.delegate
    }

    /// Wraps a construction request; the relay holds it unchanged.
    pub fn new(delegate: S) -> (r: Self)
        ensures
            r.seed() == delegate,
    {
        DeserializeSeed { delegate }
    }

    /// Gives up the relay, yielding the construction request exactly as it
    /// was wrapped.
    pub fn into_inner(self) -> (r: S)
        ensures
            r == self.seed(),
    {
        self.delegate
    }

    /// The step of running the request: gives up the request and wraps the
    /// decoder it runs against in a decoder relay, so that decoding driven
    /// by a seed is wrapped too.
    pub fn relay<D>(self, deserializer: D) -> (r: (S, Deserializer<D>))
        ensures
            r.0 == self.seed(),
            r.1.backend() == deserializer,
    {
        (self.delegate, Deserializer::new(deserializer))
    }
}

/// The sequence relay: it owns one backend sequence session and pairs it,
/// for every element request, with the caller's seed wrapped in a
/// [`DeserializeSeed`].
pub struct SeqAccess<A> {
    delegate: A,
}

impl<A> SeqAccess<A> {
    /// The backend sequence session.
    pub closed spec fn session(&self) -> A {
        self.delegate
    }

    /// Wraps a backend sequence session; the relay holds it unchanged.
    pub fn new(delegate: A) -> (r: Self)
        ensures
            r.session() == delegate,
    {
        SeqAccess { delegate }
    }

    /// Borrows the backend session, for its size hint.
    pub fn get_ref(&self) -> (r: &A)
        ensures
            *r == self.session(),
    {
        &self.delegate
    }


    /// The step of a request for the next element: lends out the backend
    /// session and wraps the caller's seed in a seed relay. The relay adds
    /// no state of its own: whatever the backend does to its session,
    /// exhaustion included, is the relay's new state.
    pub fn relay_seed<S>(&mut self, seed: S) -> (r: (&mut A, DeserializeSeed<S>))
        ensures
            *r.0 == old(self).session(),
            final(self).session() == *final(r.0),
            r.1.seed() == seed,
    {
        (&mut self.delegate, DeserializeSeed::new(seed))
    }
}

/// The mapping relay: it owns one backend mapping session and pairs it, for
/// every key and value request, with the caller's seed wrapped in a
/// [`DeserializeSeed`].
pub struct MapAccess<A> {
    delegate: A,
}

impl<A> MapAccess<A> {
    /// The backend mapping session.
    pub closed spec fn session(&self) -> A {
        self.delegate
    }

    /// Wraps a backend mapping session; the relay holds it unchanged.
    pub fn new(delegate: A) -> (r: Self)
        ensures
            r.session() == delegate,
    {
        MapAccess { delegate }
    }

    /// Borrows the backend session, for its size hint.
    pub fn get_ref(&self) -> (r: &A)
        ensures
            *r == self.session(),
    {
        &self.delegate
    }


    /// The step of a request for the next key or value: lends out the backend
    /// session and wraps the caller's seed in a seed relay. The relay adds
    /// no state of its own: whatever the backend does to its session,
    /// exhaustion included, is the relay's new state.
    pub fn relay_seed<S>(&mut self, seed: S) -> (r: (&mut A, DeserializeSeed<S>))
        ensures
            *r.0 == old(self).session(),
            final(self).session() == *final(r.0),
            r.1.seed() == seed,
    {
        (&mut self.delegate, DeserializeSeed::new(seed))
    }
}

/// The enum selection relay: it owns one backend enum session and pairs it,
/// for the variant identification, with the caller's seed wrapped in a
/// [`DeserializeSeed`].
pub struct EnumAccess<A> {
    delegate: A,
}

impl<A> EnumAccess<A> {
    /// The backend enum session.
    pub closed spec fn session(&self) -> A {
        self.delegate
    }

    /// Wraps a backend enum session; the relay holds it unchanged.
    pub fn new(delegate: A) -> (r: Self)
        ensures
            r.session() == delegate,
    {
        EnumAccess { delegate }
    }

    /// Unwraps the relay, yielding the backend session exactly as it was
    /// wrapped.
    pub fn into_inner(self) -> (r: A)
        ensures
            r == self.session(),
    {
        self.delegate
    }

    /// The step of the variant identification: gives up the backend session
    /// and wraps the caller's seed in a seed relay.
    pub fn relay_seed<S>(self, seed: S) -> (r: (A, DeserializeSeed<S>))
        ensures
            r.0 == self.session(),
            r.1.seed() == seed,
    {
        (self.delegate, DeserializeSeed::new(seed))
    }
}

/// The variant relay: it owns the backend's access to one chosen variant
/// and pairs it with the seed or receiver of the payload shape asked for.
pub struct VariantAccess<A> {
    delegate: A,
}

impl<A> VariantAccess<A> {
    /// The backend's access to the chosen variant.
    pub closed spec fn session(&self) -> A {
        self.delegate
    }

    /// Wraps the backend's variant access; the relay holds it unchanged.
    pub fn new(delegate: A) -> (r: Self)
        ensures
            r.session() == delegate,
    {
        VariantAccess { delegate }
    }

    /// Unwraps the relay, yielding the backend's variant access exactly as
    /// it was wrapped; the no-payload shape needs nothing else.
    pub fn into_inner(self) -> (r: A)
        ensures
            r == self.session(),
    {
        self.delegate
    }

    /// The step of the one-unnamed-payload shape: gives up the variant
    /// access and wraps the caller's seed in a seed relay.
    pub fn relay_seed<S>(self, seed: S) -> (r: (A, DeserializeSeed<S>))
        ensures
            r.0 == self.session(),
            r.1.seed() == seed,
    {
        (self.delegate, DeserializeSeed::new(seed))
    }

    /// The step of the ordered-payload and named-field-payload shapes: gives
    /// up the variant access and wraps the caller's receiver in a receiver
    /// relay.
    pub fn relay_visitor<V>(self, visitor: V) -> (r: (A, Visitor<V>))
        ensures
            r.0 == self.session(),
            r.1.receiver() == visitor,
    {
        (self.delegate, Visitor::new(visitor))
    }
}

/// The step after the variant identification: what the backend returned is
/// handed back unchanged, but for the variant access of a success, which is
/// wrapped in a variant relay. A failure is the backend's own, untouched.
pub fn relay_variant<T, W, E>(selected: Result<(T, W), E>) -> (r: Result<(T, VariantAccess<W>), E>)
    ensures
        selected is Ok <==> r is Ok,
        selected is Ok ==> r->Ok_0.0 == selected->Ok_0.0 && r->Ok_0.1.session()
            == selected->Ok_0.1,
        selected is Err ==> r->Err_0 == selected->Err_0,
{
    match selected {
        Ok((value, variant)) => Ok((value, VariantAccess::new(variant))),
        Err(e) => Err(e),
    }
}

} // verus!
