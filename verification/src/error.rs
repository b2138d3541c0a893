//! What a refused construction or mutation hands back.

use vstd::prelude::*;
use vstd::string::StringExecFns;
use vstd::string::to_string_from_display_ensures;
use crate::bound::Bound;

verus! {

/// A construction that the contract refused: the reason, and the adjusted
/// value that was refused.
#[derive(Debug)]
pub struct ConstructionError<B: Bound> {
    pub inner: B::Error,
    pub value: B::Target,
}

/// A mutation that the contract refused: the reason, the value held before,
/// and the adjusted value that was refused.
#[derive(Debug)]
pub struct MutationError<B: Bound> {
    pub inner: B::Error,
    pub old_value: B::Target,
    pub new_value: B::Target,
}

/// The message of a refused construction, from the guarded type's name, the
/// refused value as debugging shows it, and the reason as it displays.
pub open spec fn construction_text(name: Seq<char>, value: Seq<char>, reason: Seq<char>) -> Seq<
    char,
> {
    "failed to construct type "@ + name + " from value "@ + value + ": "@ + reason
}

/// The message of a refused mutation, from the guarded type's name, the two
/// values as debugging shows them, and the reason as it displays.
pub open spec fn mutation_text(
    name: Seq<char>,
    old_value: Seq<char>,
    new_value: Seq<char>,
    reason: Seq<char>,
) -> Seq<char> {
    "failed to mutate type "@ + name + " from value "@ + old_value + " to value "@ + new_value
        + ": "@ + reason
}

/// Composes the message of a refused construction from its rendered parts.
pub fn construction_message(name: &str, value: &str, reason: &str) -> (text: String)
    ensures
        text@ == construction_text(name@, value@, reason@),
{
    let mut text = String::from_str("failed to construct type ");
    text.append(name);
    text.append(" from value ");
    text.append(value);
    text.append(": ");
    text.append(reason);
    text
}

/// Composes the message of a refused mutation from its rendered parts.
pub fn mutation_message(name: &str, old_value: &str, new_value: &str, reason: &str) -> (text:
    String)
    ensures
        text@ == mutation_text(name@, old_value@, new_value@, reason@),
{
    let mut text = String::from_str("failed to mutate type ");
    text.append(name);
    text.append(" from value ");
    text.append(old_value);
    text.append(" to value ");
    text.append(new_value);
    text.append(": ");
    text.append(reason);
    text
}

/// `format!` with `{:?}`: the text that the value's `Debug` impl writes.
/// Nothing is claimed of it: what it holds is up to that impl.
#[verifier::external_body]
fn debug_form<T: core::fmt::Debug>(value: &T) -> (shown: String) {
    format!("{:?}", value)
}

impl<B: Bound> ConstructionError<B> {
    /// Gives up the refused value and hands out the reason.
    pub fn into_inner(self) -> (reason: B::Error)
        ensures
            reason == self.inner,
    {
        self.inner
    }

    /// The diagnostic message: the guarded type's name, the refused value as
    /// its `Debug` impl shows it, and the reason as its `Display` impl shows
    /// it.
    pub fn to_string(&self) -> (text: String) where B::Error: core::fmt::Display
        ensures
            exists|shown: Seq<char>, reason: String|
                to_string_from_display_ensures::<B::Error>(&self.inner, reason) && text@
                    == #[trigger] construction_text(B::TYPE_NAME@, shown, reason@),
    {
        let shown = debug_form(&self.value);
        let reason = self.inner.to_string();
        construction_message(B::TYPE_NAME, shown.as_str(), reason.as_str())
    }
}

impl<B: Bound> MutationError<B> {
    /// Gives up both values and hands out the reason.
    pub fn into_inner(self) -> (reason: B::Error)
        ensures
            reason == self.inner,
    {
        self.inner
    }

    /// The diagnostic message: the guarded type's name, the value held before
    /// and the refused value as their `Debug` impl shows them, and the reason
    /// as its `Display` impl shows it.
    pub fn to_string(&self) -> (text: String) where B::Error: core::fmt::Display
        ensures
            exists|old_shown: Seq<char>, new_shown: Seq<char>, reason: String|
                to_string_from_display_ensures::<B::Error>(&self.inner, reason) && text@
                    == #[trigger] mutation_text(B::TYPE_NAME@, old_shown, new_shown, reason@),
    {
        let old_shown = debug_form(&self.old_value);
        let new_shown = debug_form(&self.new_value);
        let reason = self.inner.to_string();
        mutation_message(B::TYPE_NAME, old_shown.as_str(), new_shown.as_str(), reason.as_str())
    }
}

/// Turns a result that carries a refusal into one that carries only the
/// contract's own error.
pub trait MapInnerError<O, E>: Sized {
    /// The result with the refusal replaced by its reason.
    spec fn inner_mapped(self) -> Result<O, E>;

    fn map_inner(self) -> (mapped: Result<O, E>)
        ensures
            mapped == self.inner_mapped(),
    ;
}

impl<O, B: Bound> MapInnerError<O, B::Error> for Result<O, ConstructionError<B>> {
    open spec fn inner_mapped(self) -> Result<O, B::Error> {
        match self {
            Ok(value) => Ok(value),
            Err(failure) => Err(failure.inner),
        }
    }

    fn map_inner(self) -> (mapped: Result<O, B::Error>) {
        match self {
            Ok(value) => Ok(value),
            Err(failure) => Err(failure.inner),
        }
    }
}

impl<O, B: Bound> MapInnerError<O, B::Error> for Result<O, MutationError<B>> {
    open spec fn inner_mapped(self) -> Result<O, B::Error> {
        match self {
            Ok(value) => Ok(value),
            Err(failure) => Err(failure.inner),
        }
    }

    fn map_inner(self) -> (mapped: Result<O, B::Error>) {
        match self {
            Ok(value) => Ok(value),
            Err(failure) => Err(failure.inner),
        }
    }
}

} // verus!
