//! Contracts whose predicate is a plain yes or no.

use vstd::prelude::*;
use crate::bound::Bound;

verus! {

/// What a boolean contract reports of a value that it does not accept.
pub const INVALID: &'static str = "value is invalid";

/// The verdict behind a yes or a no: no reason where the value is accepted,
/// the one fixed reason where it is not.
pub open spec fn verdict_of(accepted: bool) -> Option<&'static str> {
    if accepted {
        None
    } else {
        Some(INVALID)
    }
}

/// The verdict behind what a boolean predicate returned.
pub fn verdict(accepted: bool) -> (reason: Option<&'static str>)
    ensures
        reason == verdict_of(accepted),
{
    if accepted {
        None
    } else {
        Some(INVALID)
    }
}

/// A contract in its boolean form: a normalisation step and a predicate that
/// answers yes or no. It has no error type of its own.
pub trait Ensure {
    /// The type being protected.
    type Target: core::fmt::Debug;

    /// The name under which the guarded type is shown in diagnostics.
    const TYPE_NAME: &'static str;

    /// The value that `adjust` turns `value` into.
    spec fn adjusted(value: Self::Target) -> Self::Target;

    /// Whether `ensure` accepts `value`.
    spec fn holds(value: Self::Target) -> bool;

    /// Adjusting twice is adjusting once.
    proof fn adjusted_is_stable(value: Self::Target)
        ensures
            Self::adjusted(Self::adjusted(value)) == Self::adjusted(value),
    ;

    /// Normalises `value` in place. Never fails.
    fn adjust(value: &mut Self::Target)
        ensures
            *final(value) == Self::adjusted(*old(value)),
    ;

    /// Decides whether `value` is acceptable, without changing it.
    fn ensure(value: &Self::Target) -> (accepted: bool)
        ensures
            accepted == Self::holds(*value),
    ;
}

/// The contract that the boolean contract `P` amounts to: every value that
/// `P` does not accept is refused with the one fixed reason, `INVALID`.
#[derive(Debug)]
pub struct Ensured<P>(core::marker::PhantomData<P>);

impl<P: Ensure> Bound for Ensured<P> {
    type Target = P::Target;

    type Error = &'static str;

    const TYPE_NAME: &'static str = P::TYPE_NAME;

    open spec fn adjusted(value: P::Target) -> P::Target {
        P::adjusted(value)
    }

    open spec fn rejection(value: P::Target) -> Option<&'static str> {
        verdict_of(P::holds(value))
    }

    proof fn adjusted_is_stable(value: P::Target) {
        P::adjusted_is_stable(value);
    }

    fn adjust(value: &mut P::Target) {
        P::adjust(value);
    }

    fn validate(value: &P::Target) -> (reason: Option<&'static str>) {
        verdict(P::ensure(value))
    }
}

} // verus!
