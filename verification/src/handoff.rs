//! What an operation does with the cell it finds in the slot.
//!
//! An operation is served while it holds the slot. It finds one cell there, leaves one cell
//! there, and hands one handle to its caller. Which cell it finds depends on the operations
//! that were served before it; what it does with that cell is stated here, for every cell.
use crate::sync::another_handle;
use std::sync::Arc;
use vstd::prelude::*;

verus! {

/// An operation on a box, as its slot sees it. Cells are written as their payloads.
///
/// A store is a swap whose displaced handle is released as soon as the swap returns, so it
/// is written as a swap.
pub enum Operation<T> {
    /// Asks for a handle on the cell in the slot.
    Load,
    /// Puts a fresh cell with this payload in the slot.
    Swap(T),
}

impl<T> Operation<T> {
    /// The cell in the slot once the operation has been served, where `found` was in it
    /// before.
    pub open spec fn leaves(self, found: T) -> T {
        match self {
            Operation::Load => found,
            Operation::Swap(fresh) => fresh,
        }
    }

    /// The cell that the operation's caller gets a handle on, where `found` was in the slot
    /// before. A load shares that cell with the slot; a swap takes it over from the slot.
    pub open spec fn hands(self, found: T) -> T {
        found
    }
}

/// Serves a load that finds `found` in the slot: makes one more handle on that cell. The
/// cell found is only lent, so it is the one that goes back into the slot.
pub fn share<T>(found: &Arc<T>) -> (handle: Arc<T>)
    ensures
        *handle == Operation::<T>::Load.hands(**found),
{
    another_handle(found)
}

/// Serves a swap that finds `found` in the slot: puts `fresh` there and hands out the handle
/// that the slot had. No new handle is made: the slot's own handle on the displaced cell
/// goes to the caller.
pub fn displace<T>(found: &mut Arc<T>, fresh: Arc<T>) -> (displaced: Arc<T>)
    ensures
        *displaced == Operation::Swap(*fresh).hands(**old(found)),
        **final(found) == Operation::Swap(*fresh).leaves(**old(found)),
{
    let mut handle = fresh;
    std::mem::swap(found, &mut handle);
    handle
}

} // verus!
