//! Contracts laid over contracts.

use vstd::prelude::*;
use crate::bound::Bound;

verus! {

/// A contract that is meant to run on top of another one, its base.
///
/// The link's own `adjust` and `validate` only ever see values that the base
/// has adjusted and accepted. The link promises not to undo the base's work:
/// what it makes of such a value is still adjusted and accepted as far as the
/// base is concerned.
pub trait Extension: Bound {
    /// The contract that runs first.
    type Base: Bound<Target = Self::Target>;

    /// The base's reason, as this contract reports it.
    spec fn inherited(reason: <Self::Base as Bound>::Error) -> Self::Error;

    /// The link's adjustment keeps what the base established.
    proof fn adjusted_keeps_base(value: Self::Target)
        requires
            <Self::Base as Bound>::adjusted(value) == value,
            <Self::Base as Bound>::rejection(value) is None,
        ensures
            <Self::Base as Bound>::adjusted(Self::adjusted(value)) == Self::adjusted(value),
            <Self::Base as Bound>::rejection(Self::adjusted(value)) is None,
    ;

    /// Turns the base's reason into this contract's error type.
    fn inherit(reason: <Self::Base as Bound>::Error) -> (own: Self::Error)
        ensures
            own == Self::inherited(reason),
    ;
}

/// The contract of the link `X` laid over its base: the base's whole pipeline
/// first, and the link's own adjustment and predicate only where the base
/// accepted.
#[derive(Debug)]
pub struct Extended<X>(core::marker::PhantomData<X>);

impl<X: Extension> Bound for Extended<X> {
    type Target = X::Target;

    type Error = X::Error;

    const TYPE_NAME: &'static str = X::TYPE_NAME;

    open spec fn adjusted(value: X::Target) -> X::Target {
        let based = <X::Base as Bound>::adjusted(value);
        if <X::Base as Bound>::rejection(based) is None {
            X::adjusted(based)
        } else {
            based
        }
    }

    open spec fn rejection(value: X::Target) -> Option<X::Error> {
        match <X::Base as Bound>::rejection(value) {
            Some(reason) => Some(X::inherited(reason)),
            None => X::rejection(value),
        }
    }

    proof fn adjusted_is_stable(value: X::Target) {
        let based = <X::Base as Bound>::adjusted(value);
        <X::Base as Bound>::adjusted_is_stable(value);
        if <X::Base as Bound>::rejection(based) is None {
            X::adjusted_keeps_base(based);
            X::adjusted_is_stable(based);
        }
    }

    fn adjust(value: &mut X::Target) {
        <X::Base as Bound>::adjust(value);
        if <X::Base as Bound>::validate(value).is_none() {
            X::adjust(value);
        }
    }

    fn validate(value: &X::Target) -> (verdict: Option<X::Error>) {
        match <X::Base as Bound>::validate(value) {
            Some(reason) => Some(X::inherit(reason)),
            None => X::validate(value),
        }
    }
}

} // verus!
