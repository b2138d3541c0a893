//! The guarded value.

use vstd::prelude::*;
use vstd::pervasive::unreached;
use vstd::string::to_string_from_display_ensures;
use crate::bound::{Bound, pipeline, process, refusal};
use crate::error::{ConstructionError, MutationError};

verus! {

/// `From::from` of std where both types are the same (`impl<T> From<T> for T`):
/// the value is handed back unchanged.
pub assume_specification<Own>[ <Own as std::convert::From<Own>>::from ](given: Own) -> (same: Own)
    ensures
        same == given,
;

/// A value of type `T` held to the contract `B`.
///
/// Every checked path (`new`, `set`, `mutate`, `try_mutate`) runs the whole
/// pipeline, adjust and then validate, before the value is adopted. The
/// unprocessed paths and `get_mut` adopt a value as it is given: after them
/// `is_valid` is the caller's obligation, and `verify` tells whether it holds.
#[derive(Debug)]
#[verifier::reject_recursive_types(T)]
#[verifier::reject_recursive_types(B)]
pub struct Bounded<T, B: Bound<Target = T>>(T, core::marker::PhantomData<B>);

impl<B: Bound> Bounded<B::Target, B> {
    /// The value held.
    pub closed spec fn view(self) -> B::Target {
        self.0
    }

    /// The contract accepts the value held.
    pub open spec fn is_valid(self) -> bool {
        B::rejection(self@) is None
    }

    /// Converts `value` into the target type and runs the pipeline on it.
    /// Succeeds exactly when the adjusted value is accepted, and then holds
    /// it; otherwise hands back the reason with the adjusted value.
    pub fn new<V: Into<B::Target>>(value: V) -> (made: Result<Self, ConstructionError<B>>)
        ensures
            exists|raw: B::Target| #[trigger]
                call_ensures(<V as Into<B::Target>>::into, (value,), raw) && match made {
                    Ok(guarded) => pipeline::<B>(raw) == Ok::<B::Target, B::Error>(guarded@),
                    Err(failure) => pipeline::<B>(raw) == Err::<B::Target, B::Error>(
                        failure.inner,
                    ) && failure.value == B::adjusted(raw),
                },
            made matches Ok(guarded) ==> guarded.is_valid(),
    {
        let mut value = value.into();
        match process::<B>(&mut value) {
            Ok(()) => Ok(Bounded(value, core::marker::PhantomData)),
            Err(inner) => Err(ConstructionError { inner, value }),
        }
    }

    /// The value held. Always succeeds.
    pub fn get(&self) -> (value: &B::Target)
        ensures
            *value == self@,
    {
        &self.0
    }

    /// Like `new`, but replaces the value held. A refused value leaves the
    /// value held as it was.
    pub fn set<V: Into<B::Target>>(&mut self, value: V) -> (done: Result<(), ConstructionError<B>>)
        ensures
            exists|raw: B::Target| #[trigger]
                call_ensures(<V as Into<B::Target>>::into, (value,), raw) && match done {
                    Ok(()) => pipeline::<B>(raw) == Ok::<B::Target, B::Error>(final(self)@),
                    Err(failure) => pipeline::<B>(raw) == Err::<B::Target, B::Error>(
                        failure.inner,
                    ) && failure.value == B::adjusted(raw) && final(self)@ == old(self)@,
                },
            done is Ok ==> final(self).is_valid(),
    {
        let mut value = value.into();
        match process::<B>(&mut value) {
            Ok(()) => {
                self.0 = value;
                Ok(())
            },
            Err(inner) => Err(ConstructionError { inner, value }),
        }
    }

    /// Applies `mutate` to a clone of the value held and runs the pipeline on
    /// what it produced. Adopts the adjusted result exactly when it is
    /// accepted; otherwise the value held is untouched, and the failure holds
    /// the reason, a clone of the value held and the adjusted value that was
    /// refused.
    pub fn try_mutate<F>(&mut self, mutate: F) -> (done: Result<(), MutationError<B>>) where
        F: FnOnce(&mut B::Target),
        B::Target: Clone,

        requires
            forall|slot: &mut B::Target|
                cloned(old(self)@, *slot) ==> #[trigger] call_requires(mutate, (slot,)),
        ensures
            exists|slot: &mut B::Target|
                cloned(old(self)@, *slot) && #[trigger] call_ensures(mutate, (slot,), ())
                    && match done {
                    Ok(()) => pipeline::<B>(*final(slot)) == Ok::<B::Target, B::Error>(
                        final(self)@,
                    ),
                    Err(failure) => pipeline::<B>(*final(slot)) == Err::<B::Target, B::Error>(
                        failure.inner,
                    ) && failure.new_value == B::adjusted(*final(slot)) && cloned(
                        old(self)@,
                        failure.old_value,
                    ),
                },
            done is Err ==> final(self)@ == old(self)@,
            done is Ok ==> final(self).is_valid(),
    {
        let mut candidate = self.0.clone();
        mutate(&mut candidate);
        match process::<B>(&mut candidate) {
            Ok(()) => {
                self.0 = candidate;
                Ok(())
            },
            Err(inner) => Err(
                MutationError { inner, old_value: self.0.clone(), new_value: candidate },
            ),
        }
    }

    /// Applies `mutate` to the value held and runs the pipeline on what it
    /// produced. This is the mutation for closures that cannot leave the
    /// contract: the caller shows that whatever `mutate` produces is accepted
    /// once adjusted. A caller outside verification that breaks this promise
    /// is stopped, not left with a value that the contract refuses.
    pub fn mutate<F>(&mut self, mutate: F) where F: FnOnce(&mut B::Target)
        requires
            forall|slot: &mut B::Target|
                *slot == old(self)@ ==> #[trigger] call_requires(mutate, (slot,)),
            forall|slot: &mut B::Target|
                *slot == old(self)@ && #[trigger] call_ensures(mutate, (slot,), ())
                    ==> refusal::<B>(*final(slot)) is None,
        ensures
            exists|slot: &mut B::Target|
                *slot == old(self)@ && #[trigger] call_ensures(mutate, (slot,), ())
                    && final(self)@ == B::adjusted(*final(slot)),
            final(self).is_valid(),
    {
        mutate(&mut self.0);
        match process::<B>(&mut self.0) {
            Ok(()) => {},
            Err(_) => unreached(),
        }
    }

    /// Holds `value` as it is given: the pipeline does not run.
    pub fn new_unprocessed<V: Into<B::Target>>(value: V) -> (made: Self)
        ensures
            call_ensures(<V as Into<B::Target>>::into, (value,), made@),
    {
        Bounded(value.into(), core::marker::PhantomData)
    }

    /// Replaces the value held by `value` as it is given: the pipeline does
    /// not run.
    pub fn set_unprocessed<V: Into<B::Target>>(&mut self, value: V)
        ensures
            call_ensures(<V as Into<B::Target>>::into, (value,), final(self)@),
    {
        self.0 = value.into();
    }

    /// Applies `mutate` to the value held: the pipeline does not run.
    pub fn mutate_unprocessed<F>(&mut self, mutate: F) where F: FnOnce(&mut B::Target)
        requires
            forall|slot: &mut B::Target|
                *slot == old(self)@ ==> #[trigger] call_requires(mutate, (slot,)),
        ensures
            exists|slot: &mut B::Target|
                *slot == old(self)@ && #[trigger] call_ensures(mutate, (slot,), ())
                    && final(self)@ == *final(slot),
    {
        mutate(&mut self.0);
    }

    /// Direct access to the value held: what is written through the
    /// reference is adopted as it is.
    pub fn get_mut(&mut self) -> (value: &mut B::Target)
        ensures
            *value == old(self)@,
            final(self)@ == *final(value),
    {
        &mut self.0
    }

    /// Validates the value held, without adjusting it.
    pub fn verify(&self) -> (verdict: Result<(), B::Error>)
        ensures
            verdict == match B::rejection(self@) {
                Some(reason) => Err::<(), B::Error>(reason),
                None => Ok(()),
            },
            verdict is Ok <==> self.is_valid(),
    {
        match B::validate(&self.0) {
            Some(reason) => Err(reason),
            None => Ok(()),
        }
    }

    /// The value held, as its `Display` impl shows it.
    pub fn to_string(&self) -> (text: String) where B::Target: core::fmt::Display
        ensures
            to_string_from_display_ensures::<B::Target>(&self@, text),
    {
        self.0.to_string()
    }

    /// Gives up the guard and hands out the value held.
    pub fn into_inner(self) -> (value: B::Target)
        ensures
            value == self@,
    {
        self.0
    }
}

impl<T: Clone, B: Bound<Target = T>> Clone for Bounded<T, B> {
    /// A guarded clone of the value held.
    fn clone(&self) -> (copy: Self)
        ensures
            cloned(self@, copy@),
    {
        Bounded(self.0.clone(), core::marker::PhantomData)
    }
}

} // verus!
