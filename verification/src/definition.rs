//! What the definition of a guarded type may look like.
//!
//! A definition names a target type, at most one adjusting closure, exactly
//! one predicate closure in one of the two forms, and possibly a base to
//! extend. The checks here work on an outline of each closure: how many
//! arguments it takes, how it declares the first, and what it says it
//! returns, each as the text of its tokens.

use vstd::prelude::*;
use vstd::string::StringExecFns;

verus! {

/// How a closure declares its first argument.
#[derive(Debug)]
pub enum Argument {
    /// A bare name, with no type.
    Bare,
    /// A name with a type, given as the text of the type's tokens.
    Typed(String),
    /// Any other pattern.
    Other,
}

/// The outline of a closure in a definition.
#[derive(Debug)]
pub struct Closure {
    /// The number of arguments that it takes.
    pub arguments: usize,
    /// How it declares the first one.
    pub first: Argument,
    /// The return type that it declares, as the text of its tokens.
    pub output: Option<String>,
    /// Where the declared return type is `Option` of one type, that type.
    pub optional: Option<String>,
}

/// The form of a definition's predicate.
#[derive(Debug, Clone, Copy, PartialEq, Eq, Structural)]
pub enum Predicate {
    /// Answers yes or no.
    Ensure,
    /// Answers with an error of the definition's own.
    Validate,
}

/// Why a definition is refused.
#[derive(Debug, Clone, Copy, PartialEq, Eq, Structural)]
pub enum DefinitionError {
    /// A closure that does not take exactly one argument.
    ArgumentCount,
    /// An adjusting closure whose argument is not a mutable reference to the
    /// target.
    NotMutableTarget,
    /// A predicate closure whose argument is not a shared reference to the
    /// target.
    NotSharedTarget,
    /// An adjusting closure that declares a return type.
    ReturnsValue,
    /// A boolean predicate that declares another return type than `bool`.
    NotBool,
    /// A predicate with an error of its own that does not declare an
    /// `Option` of it as its return type.
    NotOption,
    /// A definition without a predicate.
    MissingPredicate,
    /// A definition with a predicate in both forms.
    BothPredicates,
}

/// The text of a mutable reference to `target`.
pub open spec fn mutable_reference(target: Seq<char>) -> Seq<char> {
    "& mut "@ + target
}

/// The text of a shared reference to `target`.
pub open spec fn shared_reference(target: Seq<char>) -> Seq<char> {
    "& "@ + target
}

/// Whether the first argument is declared acceptably: by a bare name, or
/// with exactly the type `expected`.
pub open spec fn argument_fits(first: Argument, expected: Seq<char>) -> bool {
    match first {
        Argument::Bare => true,
        Argument::Typed(declared) => declared@ == expected,
        Argument::Other => false,
    }
}

/// What is wrong with an adjusting closure for `target`, if anything: the
/// argument count is looked at first, then the argument, then the return
/// type.
pub open spec fn adjust_fault(target: Seq<char>, closure: Closure) -> Option<DefinitionError> {
    if closure.arguments != 1 {
        Some(DefinitionError::ArgumentCount)
    } else if !argument_fits(closure.first, mutable_reference(target)) {
        Some(DefinitionError::NotMutableTarget)
    } else if closure.output is Some {
        Some(DefinitionError::ReturnsValue)
    } else {
        None
    }
}

/// What is wrong with a boolean predicate for `target`, if anything.
pub open spec fn ensure_fault(target: Seq<char>, closure: Closure) -> Option<DefinitionError> {
    if closure.arguments != 1 {
        Some(DefinitionError::ArgumentCount)
    } else if !argument_fits(closure.first, shared_reference(target)) {
        Some(DefinitionError::NotSharedTarget)
    } else if closure.output matches Some(declared) && declared@ != "bool"@ {
        Some(DefinitionError::NotBool)
    } else {
        None
    }
}

/// What is wrong with a predicate for `target` that has an error of its own,
/// if anything.
pub open spec fn validate_fault(target: Seq<char>, closure: Closure) -> Option<DefinitionError> {
    if closure.arguments != 1 {
        Some(DefinitionError::ArgumentCount)
    } else if !argument_fits(closure.first, shared_reference(target)) {
        Some(DefinitionError::NotSharedTarget)
    } else if closure.optional is None {
        Some(DefinitionError::NotOption)
    } else {
        None
    }
}

/// What a refusal tells the author of a definition for `target`.
pub open spec fn fault_text(fault: DefinitionError, target: Seq<char>) -> Seq<char> {
    match fault {
        DefinitionError::ArgumentCount => "closure must take exactly 1 argument"@,
        DefinitionError::NotMutableTarget => "must be ither `v` or `v: &mut "@ + target + "`"@,
        DefinitionError::NotSharedTarget => "must be ither `v` or `v: &"@ + target + "`"@,
        DefinitionError::ReturnsValue => "closure must not return anything"@,
        DefinitionError::NotBool => "must be `bool`"@,
        DefinitionError::NotOption => "closure specify return type Option<...>"@,
        DefinitionError::MissingPredicate => "expected `ensure` or `validate` after `adjust`"@,
        DefinitionError::BothPredicates =>
            "you can't use both `ensure` and `validate` closures at the same time"@,
    }
}

/// The name of the contract type that stands behind the guarded type `name`.
pub open spec fn contract_name(name: Seq<char>) -> Seq<char> {
    name + "Bound"@
}

impl DefinitionError {
    /// What this refusal tells the author of a definition for `target`.
    pub fn message(&self, target: &str) -> (text: String)
        ensures
            text@ == fault_text(*self, target@),
    {
        match self {
            DefinitionError::ArgumentCount => String::from_str(
                "closure must take exactly 1 argument",
            ),
            DefinitionError::NotMutableTarget => {
                let mut text = String::from_str("must be ither `v` or `v: &mut ");
                text.append(target);
                text.append("`");
                text
            },
            DefinitionError::NotSharedTarget => {
                let mut text = String::from_str("must be ither `v` or `v: &");
                text.append(target);
                text.append("`");
                text
            },
            DefinitionError::ReturnsValue => String::from_str("closure must not return anything"),
            DefinitionError::NotBool => String::from_str("must be `bool`"),
            DefinitionError::NotOption => String::from_str(
                "closure specify return type Option<...>",
            ),
            DefinitionError::MissingPredicate => String::from_str(
                "expected `ensure` or `validate` after `adjust`",
            ),
            DefinitionError::BothPredicates => String::from_str(
                "you can't use both `ensure` and `validate` closures at the same time",
            ),
        }
    }
}

/// Names the contract type that stands behind the guarded type `name`.
pub fn name_contract(name: &str) -> (contract: String)
    ensures
        contract@ == contract_name(name@),
{
    let mut contract = String::from_str(name);
    contract.append("Bound");
    contract
}

/// Decides whether the first argument is declared by a bare name or with
/// exactly the type `expected`.
fn fits(first: &Argument, expected: &String) -> (fitting: bool)
    ensures
        fitting == argument_fits(*first, expected@),
{
    match first {
        Argument::Bare => true,
        Argument::Typed(declared) => *declared == *expected,
        Argument::Other => false,
    }
}

/// The form of the predicate of a definition that names a boolean predicate
/// if `has_ensure`, and one with an error of its own if `has_validate`. A
/// definition names exactly one of the two.
pub fn choose_predicate(has_ensure: bool, has_validate: bool) -> (chosen: Result<
    Predicate,
    DefinitionError,
>)
    ensures
        chosen == (if has_ensure && has_validate {
            Err::<Predicate, DefinitionError>(DefinitionError::BothPredicates)
        } else if has_ensure {
            Ok(Predicate::Ensure)
        } else if has_validate {
            Ok(Predicate::Validate)
        } else {
            Err(DefinitionError::MissingPredicate)
        }),
{
    if has_ensure && has_validate {
        Err(DefinitionError::BothPredicates)
    } else if has_ensure {
        Ok(Predicate::Ensure)
    } else if has_validate {
        Ok(Predicate::Validate)
    } else {
        Err(DefinitionError::MissingPredicate)
    }
}

/// Checks the closure that adjusts a value of type `target`: it takes one
/// argument, a bare name or a mutable reference to the target, and declares
/// no return type.
pub fn check_adjust(target: &str, closure: &Closure) -> (checked: Result<(), DefinitionError>)
    ensures
        checked == match adjust_fault(target@, *closure) {
            Some(fault) => Err::<(), DefinitionError>(fault),
            None => Ok(()),
        },
{
    if closure.arguments != 1 {
        return Err(DefinitionError::ArgumentCount);
    }
    let mut expected = String::from_str("& mut ");
    expected.append(target);
    if !fits(&closure.first, &expected) {
        return Err(DefinitionError::NotMutableTarget);
    }
    if closure.output.is_some() {
        return Err(DefinitionError::ReturnsValue);
    }
    Ok(())
}

/// Checks the boolean predicate of a value of type `target`: it takes one
/// argument, a bare name or a shared reference to the target, and declares
/// no return type or `bool`.
pub fn check_ensure(target: &str, closure: &Closure) -> (checked: Result<(), DefinitionError>)
    ensures
        checked == match ensure_fault(target@, *closure) {
            Some(fault) => Err::<(), DefinitionError>(fault),
            None => Ok(()),
        },
{
    if closure.arguments != 1 {
        return Err(DefinitionError::ArgumentCount);
    }
    let mut expected = String::from_str("& ");
    expected.append(target);
    if !fits(&closure.first, &expected) {
        return Err(DefinitionError::NotSharedTarget);
    }
    match &closure.output {
        Some(declared) => {
            let wanted = String::from_str("bool");
            if *declared == wanted {
                Ok(())
            } else {
                Err(DefinitionError::NotBool)
            }
        },
        None => Ok(()),
    }
}

/// Checks the predicate of a value of type `target` that has an error of its
/// own: it takes one argument, a bare name or a shared reference to the
/// target, and declares an `Option` of its error as its return type. Hands
/// out the error type.
pub fn check_validate(target: &str, closure: &Closure) -> (checked: Result<String, DefinitionError>)
    ensures
        match checked {
            Ok(error) => validate_fault(target@, *closure) is None && (
            closure.optional matches Some(declared) && error@ == declared@),
            Err(fault) => validate_fault(target@, *closure) == Some(fault),
        },
{
    if closure.arguments != 1 {
        return Err(DefinitionError::ArgumentCount);
    }
    let mut expected = String::from_str("& ");
    expected.append(target);
    if !fits(&closure.first, &expected) {
        return Err(DefinitionError::NotSharedTarget);
    }
    match &closure.optional {
        Some(declared) => Ok(declared.clone()),
        None => Err(DefinitionError::NotOption),
    }
}

} // verus!
