//! The slot of a box, and what the library takes from `std::sync`.
//!
//! The slot is a `vstd::rwlock::RwLock` around the box's handle on the cell it holds. An
//! operation takes that handle out of the slot and puts a handle back before it returns. In
//! between the slot is empty and held: every other operation spins until a handle is back.
//! The lock is made with the box's rule, and the verifier proves that every handle taken out
//! of the slot is on a cell that the rule admits, because every handle put in was.
use crate::rule::OnCells;
use crate::rule::Rule;
use std::sync::Arc;
use vstd::prelude::*;
use vstd::rwlock::RwLock;
use vstd::rwlock::WriteHandle;

verus! {

/// `Arc::clone` makes one more handle on the cell that `cell` points to and raises the cell's
/// share count by one. A handle stands for the payload of its cell, so the new handle is
/// equal to the one it was made from. This contract is not proved: it is what std's
/// documentation says.
#[verifier::external_body]
pub(crate) fn another_handle<T>(cell: &Arc<T>) -> (handle: Arc<T>)
    ensures
        handle == *cell,
{
    Arc::clone(cell)
}

/// Waits until the slot holds a handle and takes it out. The caller has the slot to itself
/// until it gives a handle back through the token that comes with the handle.
///
/// The handle is on a cell that the rule admits, and the token is the slot's own.
pub(crate) fn possess<'a, T, R: Rule<T>>(slot: &'a RwLock<Arc<T>, OnCells<R>>) -> (taken: (
    Arc<T>,
    WriteHandle<'a, Arc<T>, OnCells<R>>,
))
    ensures
        R::admits(*taken.0),
        taken.1.rwlock() == *slot,
{
    slot.acquire_write()
}

} // verus!
