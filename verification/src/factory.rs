//! Where the instances of an actor come from.

use vstd::prelude::*;

verus! {

/// Makes actors of one type.
pub trait ActorFactory: Send + Sync + 'static {
    /// The actors that it makes.
    type Actor;

    /// Make a fresh actor.
    fn create(&self) -> Self::Actor;
}

/// Makes actors by their default.
pub struct DefaultActorFactory<A> {
    _phantom: std::marker::PhantomData<A>,
}

impl<A> Default for DefaultActorFactory<A> {
    fn default() -> (factory: Self) {
        DefaultActorFactory { _phantom: std::marker::PhantomData }
    }
}

impl<A: Default + Send + Sync + 'static> ActorFactory for DefaultActorFactory<A> {
    type Actor = A;

    fn create(&self) -> (actor: A)
        ensures
            call_ensures(A::default, (), actor),
    {
        A::default()
    }
}

/// A factory by default makes what the default of its type gives.
pub proof fn law_default_factories_make_defaults<A: Default + Send + Sync + 'static>(
    factory: &DefaultActorFactory<A>,
    actor: A,
)
    requires
        call_ensures(<DefaultActorFactory<A> as ActorFactory>::create, (factory,), actor),
    ensures
        call_ensures(A::default, (), actor),
{
}

} // verus!
