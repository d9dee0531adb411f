//! Collectors: what a metric-like value must offer to be registered and scraped, and
//! the registration calls built on it.

use crate::desc::Desc;
use crate::relay::{hand_back, handed_back};
use std::fmt::Debug;
use vstd::prelude::*;

verus! {

/// A single sample value together with its metadata.
pub trait Metric: Sync + Send + Clone {
    /// A sample in its wire form.
    type Sample;

    /// The sample as it stands now.
    fn metric(&self) -> Self::Sample;
}

/// A registry of collectors. The registry alone decides whether a collector is accepted
/// or found, and under which conditions descriptors collide.
pub trait Registry<C> {
    /// Why the registry turned a collector down.
    type Error;

    /// Takes `collector` in, or says why not.
    fn try_register(&self, collector: C) -> Result<(), Self::Error>;

    /// Removes `collector`, or says why not.
    fn try_unregister(&self, collector: C) -> Result<(), Self::Error>;
}

/// A registry of which the process keeps one instance, for every collector that names no
/// other.
pub trait DefaultRegistry<C>: Registry<C> + Sized + 'static {
    /// The one instance that the process keeps.
    fn default_registry() -> &'static Self;
}

/// A source of metrics that a registry can take in.
pub trait Collector: Sync + Send {
    /// A family of samples in its wire form.
    type Family;

    /// The descriptors of the metrics that this collector yields. They must stay the same
    /// for as long as the collector lives.
    fn desc(&self) -> Vec<&Desc>;

    /// The samples as they stand now.
    fn collect(&self) -> Vec<Self::Family>;

    /// Registers a copy of this collector with `registry`. Hands this collector back
    /// where the registry took the copy in, and the registry's error where it did not.
    fn try_register<R: Registry<Self>>(self, registry: &R) -> (registered: Result<Self, R::Error>)
        where Self: 'static + Sized + Clone
        ensures
            exists|copy: Self, outcome: Result<(), R::Error>|
                cloned(self, copy) && #[trigger] call_ensures(
                    R::try_register,
                    (registry, copy),
                    outcome,
                ) && registered == handed_back(self, outcome),
    {
        let outcome = registry.try_register(self.clone());
        hand_back(self, outcome)
    }

    /// Registers a copy of this collector with a registry that is known to take it in,
    /// and hands this collector back: the registry is asked, and what is handed back is
    /// what its answer gives. That the registry might turn the copy down is a mistake of
    /// the caller.
    fn register<R: Registry<Self>>(self, registry: &R) -> (registered: Self)
        where Self: 'static + Sized + Clone, R::Error: Debug
        requires
            forall|copy: Self, outcome: Result<(), R::Error>|
                cloned(self, copy) && #[trigger] call_ensures(
                    R::try_register,
                    (registry, copy),
                    outcome,
                ) ==> outcome is Ok,
        ensures
            registered == self,
            exists|copy: Self, outcome: Result<(), R::Error>|
                cloned(self, copy) && #[trigger] call_ensures(
                    R::try_register,
                    (registry, copy),
                    outcome,
                ) && handed_back(self, outcome) == Ok::<Self, R::Error>(registered),
    {
        let outcome = registry.try_register(self.clone());
        hand_back(self, outcome).unwrap()
    }

    /// Registers a copy of this collector with the default registry. Hands this collector
    /// back where the registry took the copy in, and the registry's error where it did not.
    fn try_register_default<R: DefaultRegistry<Self>>(self) -> (registered: Result<Self, R::Error>)
        where Self: 'static + Sized + Clone
        ensures
            exists|registry: &'static R, copy: Self, outcome: Result<(), R::Error>|
                call_ensures(R::default_registry, (), registry) && cloned(self, copy)
                    && #[trigger] call_ensures(R::try_register, (registry, copy), outcome)
                    && registered == handed_back(self, outcome),
    {
        self.try_register(R::default_registry())
    }

    /// Registers a copy of this collector with the default registry, which is known to
    /// take it in, and hands this collector back: the registry is asked, and what is
    /// handed back is what its answer gives. That the registry might turn the copy down
    /// is a mistake of the caller.
    fn register_default<R: DefaultRegistry<Self>>(self) -> (registered: Self)
        where Self: 'static + Sized + Clone, R::Error: Debug
        requires
            forall|registry: &'static R, copy: Self, outcome: Result<(), R::Error>|
                call_ensures(R::default_registry, (), registry) && cloned(self, copy)
                    && #[trigger] call_ensures(R::try_register, (registry, copy), outcome)
                    ==> outcome is Ok,
        ensures
            registered == self,
            exists|registry: &'static R, copy: Self, outcome: Result<(), R::Error>|
                call_ensures(R::default_registry, (), registry) && cloned(self, copy)
                    && #[trigger] call_ensures(R::try_register, (registry, copy), outcome)
                    && handed_back(self, outcome) == Ok::<Self, R::Error>(registered),
    {
        self.register(R::default_registry())
    }

    /// Removes this collector from `registry`, which is handed a copy to find it by.
    /// Hands this collector back where the registry removed it, and the registry's error
    /// where it did not.
    fn try_unregister<R: Registry<Self>>(self, registry: &R) -> (unregistered: Result<
        Self,
        R::Error,
    >)
        where Self: 'static + Sized + Clone
        ensures
            exists|copy: Self, outcome: Result<(), R::Error>|
                cloned(self, copy) && #[trigger] call_ensures(
                    R::try_unregister,
                    (registry, copy),
                    outcome,
                ) && unregistered == handed_back(self, outcome),
    {
        let outcome = registry.try_unregister(self.clone());
        hand_back(self, outcome)
    }

    /// Removes this collector from a registry that is known to hold it, and hands this
    /// collector back: the registry is asked, with a copy to find the collector by, and
    /// what is handed back is what its answer gives. That the registry might not find it
    /// is a mistake of the caller.
    fn unregister<R: Registry<Self>>(self, registry: &R) -> (unregistered: Self)
        where Self: 'static + Sized + Clone, R::Error: Debug
        requires
            forall|copy: Self, outcome: Result<(), R::Error>|
                cloned(self, copy) && #[trigger] call_ensures(
                    R::try_unregister,
                    (registry, copy),
                    outcome,
                ) ==> outcome is Ok,
        ensures
            unregistered == self,
            exists|copy: Self, outcome: Result<(), R::Error>|
                cloned(self, copy) && #[trigger] call_ensures(
                    R::try_unregister,
                    (registry, copy),
                    outcome,
                ) && handed_back(self, outcome) == Ok::<Self, R::Error>(unregistered),
    {
        let outcome = registry.try_unregister(self.clone());
        hand_back(self, outcome).unwrap()
    }

    /// Removes this collector from the default registry, which is handed a copy to find
    /// it by. Hands this collector back where the registry removed it, and the registry's
    /// error where it did not.
    fn try_unregister_default<R: DefaultRegistry<Self>>(self) -> (unregistered: Result<
        Self,
        R::Error,
    >)
        where Self: 'static + Sized + Clone
        ensures
            exists|registry: &'static R, copy: Self, outcome: Result<(), R::Error>|
                call_ensures(R::default_registry, (), registry) && cloned(self, copy)
                    && #[trigger] call_ensures(R::try_unregister, (registry, copy), outcome)
                    && unregistered == handed_back(self, outcome),
    {
        self.try_unregister(R::default_registry())
    }

    /// Removes this collector from the default registry, which is known to hold it, and
    /// hands this collector back: the registry is asked, with a copy to find the collector
    /// by, and what is handed back is what its answer gives. That the registry might not
    /// find it is a mistake of the caller.
    fn unregister_default<R: DefaultRegistry<Self>>(self) -> (unregistered: Self)
        where Self: 'static + Sized + Clone, R::Error: Debug
        requires
            forall|registry: &'static R, copy: Self, outcome: Result<(), R::Error>|
                call_ensures(R::default_registry, (), registry) && cloned(self, copy)
                    && #[trigger] call_ensures(R::try_unregister, (registry, copy), outcome)
                    ==> outcome is Ok,
        ensures
            unregistered == self,
            exists|registry: &'static R, copy: Self, outcome: Result<(), R::Error>|
                call_ensures(R::default_registry, (), registry) && cloned(self, copy)
                    && #[trigger] call_ensures(R::try_unregister, (registry, copy), outcome)
                    && handed_back(self, outcome) == Ok::<Self, R::Error>(unregistered),
    {
        self.unregister(R::default_registry())
    }
}

/// A collector that was registered and then unregistered, both with success, is handed
/// back as it went in.
pub proof fn lemma_unregister_hands_back_what_was_registered<C, E>(
    collector: C,
    registered: Result<(), E>,
    unregistered: Result<(), E>,
)
    requires
        registered is Ok,
        unregistered is Ok,
    ensures
        handed_back(collector, registered) == Ok::<C, E>(collector),
        handed_back(handed_back(collector, registered)->Ok_0, unregistered) == Ok::<C, E>(
            collector,
        ),
{
}

} // verus!
