//! The rule of a box: which payloads it admits.
//!
//! Which cell an operation finds in a box depends on the other threads. What can be said of
//! every cell found is that it is one that the box admits, because no other was ever put in.
//! The rule is part of the box's type, so whoever has a box knows what it admits.
use std::marker::PhantomData;
use std::sync::Arc;
use vstd::prelude::*;
use vstd::rwlock::RwLockPredicate;

verus! {

/// A rule on the payloads of type `T`.
pub trait Rule<T> {
    /// Whether a cell with this payload may be put in a box with this rule.
    spec fn admits(payload: T) -> bool;
}

/// The rule that admits every payload.
pub struct Open;

impl<T> Rule<T> for Open {
    open spec fn admits(payload: T) -> bool {
        true
    }
}

/// The rule `R`, as the slot's lock asks for it: a predicate on the handles that are put in
/// the slot.
pub struct OnCells<R> {
    /// Stands for `R`, which has no values of its own to hold.
    pub rule: PhantomData<R>,
}

impl<T, R: Rule<T>> RwLockPredicate<Arc<T>> for OnCells<R> {
    open spec fn inv(self, cell: Arc<T>) -> bool {
        R::admits(*cell)
    }
}

} // verus!
