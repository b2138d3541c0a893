//! Validated newtypes: a value guarded by a contract that normalises it and
//! decides whether it may be held.
//!
//! - [`bound`]: the contract, a pair of procedures (adjust, validate) with
//!   their mathematical model, and the pipeline that runs them in that order.
//! - [`bounded`]: the guarded value, which runs the pipeline on every checked
//!   path and never adopts a value that the contract refused.
//! - [`error`]: what a refused construction or mutation hands back.
//! - [`ensure`]: contracts whose predicate answers yes or no.
//! - [`extend`]: contracts laid over contracts, base first.
//! - [`transparent`]: the guarded value read, compared, hashed and indexed
//!   as the value it holds.
//! - [`definition`]: what the terse definition of a guarded type may look
//!   like.
//! - [`laws`]: what holds of every contract and every guarded value.

pub mod bound;
pub mod bounded;
pub mod definition;
pub mod ensure;
pub mod error;
pub mod extend;
pub mod laws;
pub mod transparent;

pub use crate::bound::Bound;
pub use crate::bounded::Bounded;
pub use crate::ensure::{Ensure, Ensured, INVALID};
pub use crate::error::{ConstructionError, MapInnerError, MutationError};
pub use crate::extend::{Extended, Extension};
