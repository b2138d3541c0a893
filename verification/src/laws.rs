//! What holds of every contract and every guarded value.

use vstd::prelude::*;
use crate::bound::{Bound, pipeline, refusal};
use crate::extend::{Extended, Extension};

verus! {

/// Adjustment is idempotent: adjusting an adjusted value changes nothing.
pub proof fn adjust_is_idempotent<B: Bound>(value: B::Target)
    ensures
        B::adjusted(B::adjusted(value)) == B::adjusted(value),
{
    B::adjusted_is_stable(value);
}

/// What the pipeline accepts is valid as it stands: the value that it hands
/// out passes the predicate, and running the pipeline on it again accepts it
/// and leaves it as it is.
pub proof fn accepted_value_is_settled<B: Bound>(raw: B::Target)
    requires
        pipeline::<B>(raw) is Ok,
    ensures
        B::rejection(pipeline::<B>(raw)->Ok_0) is None,
        pipeline::<B>(pipeline::<B>(raw)->Ok_0) == pipeline::<B>(raw),
{
    B::adjusted_is_stable(raw);
}

/// The two mutations agree. The unconditional one may be called with a
/// closure that produces `produced` exactly when the fallible one would
/// succeed on it, and the value that it then adopts is the one that the
/// fallible one commits.
pub proof fn mutate_agrees_with_try_mutate<B: Bound>(produced: B::Target)
    ensures
        refusal::<B>(produced) is None <==> pipeline::<B>(produced) is Ok,
        refusal::<B>(produced) is None ==> pipeline::<B>(produced) == Ok::<B::Target, B::Error>(
            B::adjusted(produced),
        ),
        refusal::<B>(produced) is Some ==> pipeline::<B>(produced) == Err::<B::Target, B::Error>(
            refusal::<B>(produced)->Some_0,
        ),
{
}

/// A chain runs its base first. Where the base refuses a raw value, the chain
/// refuses it with the base's reason, and the refused value is the one that
/// the base adjusted: the link on top has not touched it.
pub proof fn base_refusal_comes_first<X: Extension>(raw: X::Target)
    requires
        pipeline::<X::Base>(raw) is Err,
    ensures
        pipeline::<Extended<X>>(raw) == Err::<X::Target, X::Error>(
            X::inherited(pipeline::<X::Base>(raw)->Err_0),
        ),
        <Extended<X> as Bound>::adjusted(raw) == <X::Base as Bound>::adjusted(raw),
{
    <X::Base as Bound>::adjusted_is_stable(raw);
}

/// Where the base accepts a raw value, the chain goes on with the link on
/// top: the outcome is what the link's own pipeline makes of the value that
/// the base handed out.
pub proof fn accepted_base_hands_over<X: Extension>(raw: X::Target)
    requires
        pipeline::<X::Base>(raw) is Ok,
    ensures
        pipeline::<Extended<X>>(raw) == pipeline::<X>(pipeline::<X::Base>(raw)->Ok_0),
{
    let based = <X::Base as Bound>::adjusted(raw);
    <X::Base as Bound>::adjusted_is_stable(raw);
    X::adjusted_keeps_base(based);
}

} // verus!
