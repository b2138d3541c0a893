//! The guarded value stands in for the value it holds: reading, comparing
//! and indexing go straight through to it.

use vstd::prelude::*;
use std::cmp::Ordering;
use vstd::std_specs::cmp::{PartialEqSpec, PartialEqSpecImpl, PartialOrdSpec, PartialOrdSpecImpl};
use crate::bound::Bound;
use crate::bounded::Bounded;

verus! {

impl<T, B: Bound<Target = T>> core::ops::Deref for Bounded<T, B> {
    type Target = T;

    fn deref(&self) -> (value: &T)
        ensures
            *value == self@,
    {
        self.get()
    }
}

impl<T, B: Bound<Target = T>> core::convert::AsRef<T> for Bounded<T, B> {
    fn as_ref(&self) -> (value: &T)
        ensures
            *value == self@,
    {
        self.get()
    }
}

impl<T, B: Bound<Target = T>> core::borrow::Borrow<T> for Bounded<T, B> {
    fn borrow(&self) -> &T
        returns
            &self@,
    {
        self.get()
    }
}

impl<T: PartialEq, B: Bound<Target = T>> PartialEq for Bounded<T, B> {
    fn eq(&self, other: &Self) -> (equal: bool) {
        self.get().eq(other.get())
    }
}

impl<T: PartialEq, B: Bound<Target = T>> PartialEqSpecImpl for Bounded<T, B> {
    open spec fn obeys_eq_spec() -> bool {
        T::obeys_eq_spec()
    }

    open spec fn eq_spec(&self, other: &Self) -> bool {
        self@.eq_spec(&other@)
    }
}

impl<T: Eq, B: Bound<Target = T>> Eq for Bounded<T, B> {

}

impl<T: PartialOrd, B: Bound<Target = T>> PartialOrd for Bounded<T, B> {
    fn partial_cmp(&self, other: &Self) -> (order: Option<Ordering>) {
        self.get().partial_cmp(other.get())
    }
}

impl<T: PartialOrd, B: Bound<Target = T>> PartialOrdSpecImpl for Bounded<T, B> {
    open spec fn obeys_partial_cmp_spec() -> bool {
        T::obeys_partial_cmp_spec()
    }

    open spec fn partial_cmp_spec(&self, other: &Self) -> Option<Ordering> {
        self@.partial_cmp_spec(&other@)
    }
}

impl<T: Copy, B: Bound<Target = T>> Copy for Bounded<T, B> {

}

/// `Hash::hash` of std: feeds `value` into `state`. Nothing is claimed of the
/// state afterwards.
#[verifier::external_body]
fn feed<T: core::hash::Hash, H: core::hash::Hasher>(value: &T, state: &mut H) {
    value.hash(state)
}

impl<T: core::hash::Hash, B: Bound<Target = T>> core::hash::Hash for Bounded<T, B> {
    /// Hashes the value held, and nothing else.
    fn hash<H: core::hash::Hasher>(&self, state: &mut H) {
        feed(self.get(), state)
    }
}

impl<I, T: core::ops::Index<I>, B: Bound<Target = T>> core::ops::Index<I> for Bounded<T, B> {
    type Output = T::Output;

    fn index(&self, index: I) -> (item: &T::Output)
        ensures
            call_ensures(T::index, (&self@, index), item),
    {
        self.get().index(index)
    }
}

impl<I, T: core::ops::Index<I>, B: Bound<Target = T>> vstd::std_specs::core::IndexSpecImpl<I> for Bounded<T, B> {
    open spec fn index_req(&self, index: &I) -> bool {
        vstd::std_specs::core::IndexSpec::index_req(&self@, index)
    }
}

} // verus!
