//! The contract that a guarded value is held to.

use vstd::prelude::*;

verus! {

/// An invariant contract: a normalisation step and a predicate, bound to one
/// target type and one error type.
///
/// `adjusted` and `rejection` are the mathematical model of the two
/// procedures. An implementation promises that `adjust` and `validate` compute
/// them, and that adjusting an adjusted value changes nothing.
pub trait Bound {
    /// The type being protected.
    type Target: core::fmt::Debug;

    /// The type that reports an unacceptable value.
    type Error: core::fmt::Debug;

    /// The name under which the guarded type is shown in diagnostics.
    const TYPE_NAME: &'static str;

    /// The value that `adjust` turns `value` into.
    spec fn adjusted(value: Self::Target) -> Self::Target;

    /// What `validate` reports of `value`: `None` where it is acceptable.
    spec fn rejection(value: Self::Target) -> Option<Self::Error>;

    /// Adjusting twice is adjusting once.
    proof fn adjusted_is_stable(value: Self::Target)
        ensures
            Self::adjusted(Self::adjusted(value)) == Self::adjusted(value),
    ;

    /// Normalises `value` in place. Never fails.
    fn adjust(value: &mut Self::Target)
        ensures
            *final(value) == Self::adjusted(*old(value)),
    ;

    /// Decides whether `value` is acceptable, without changing it.
    fn validate(value: &Self::Target) -> (verdict: Option<Self::Error>)
        ensures
            verdict == Self::rejection(*value),
    ;
}

/// The error that the whole pipeline reports of a raw value: the verdict on
/// its adjusted form.
pub open spec fn refusal<B: Bound>(raw: B::Target) -> Option<B::Error> {
    B::rejection(B::adjusted(raw))
}

/// What the whole pipeline makes of a raw value: the adjusted value where it
/// is accepted, the reason where it is not.
pub open spec fn pipeline<B: Bound>(raw: B::Target) -> Result<B::Target, B::Error> {
    match refusal::<B>(raw) {
        None => Ok(B::adjusted(raw)),
        Some(reason) => Err(reason),
    }
}

/// Runs the pipeline on `value`: adjust, then validate.
pub fn process<B: Bound>(value: &mut B::Target) -> (outcome: Result<(), B::Error>)
    ensures
        *final(value) == B::adjusted(*old(value)),
        outcome == match refusal::<B>(*old(value)) {
            Some(reason) => Err::<(), B::Error>(reason),
            None => Ok(()),
        },
{
    B::adjust(value);
    match B::validate(value) {
        Some(reason) => Err(reason),
        None => Ok(()),
    }
}

} // verus!
